use vstd::prelude::*;

use crate::document::{DocModel, Document, Val, Value};

verus! {

/// A named item.
#[derive(Debug, PartialEq, Eq)]
pub struct Item {
    pub name: String,
}

/// An invoice, identified by the caller-supplied `invoice_id`.
#[derive(Debug, PartialEq, Eq)]
pub struct Invoice {
    pub invoice_id: String,
    /// The binary64 amount, held as its bit pattern.
    pub amount: u64,
    pub status: String,
}

/// A client, identified by the caller-supplied `client_id`.
#[derive(Debug, PartialEq, Eq)]
pub struct Client {
    pub client_id: String,
    pub name: String,
    pub email: String,
}

pub struct ItemModel {
    pub name: Seq<char>,
}

pub struct InvoiceModel {
    pub invoice_id: Seq<char>,
    pub amount: u64,
    pub status: Seq<char>,
}

pub struct ClientModel {
    pub client_id: Seq<char>,
    pub name: Seq<char>,
    pub email: Seq<char>,
}

impl View for Item {
    type V = ItemModel;

    open spec fn view(&self) -> ItemModel {
        ItemModel { name: self.name@ }
    }
}

impl View for Invoice {
    type V = InvoiceModel;

    open spec fn view(&self) -> InvoiceModel {
        InvoiceModel { invoice_id: self.invoice_id@, amount: self.amount, status: self.status@ }
    }
}

impl View for Client {
    type V = ClientModel;

    open spec fn view(&self) -> ClientModel {
        ClientModel { client_id: self.client_id@, name: self.name@, email: self.email@ }
    }
}

pub open spec fn name_key() -> Seq<char> {
    "name"@
}

pub open spec fn invoice_id_key() -> Seq<char> {
    "invoice_id"@
}

pub open spec fn amount_key() -> Seq<char> {
    "amount"@
}

pub open spec fn status_key() -> Seq<char> {
    "status"@
}

pub open spec fn client_id_key() -> Seq<char> {
    "client_id"@
}

pub open spec fn email_key() -> Seq<char> {
    "email"@
}

/// The document stored for an item.
pub open spec fn item_doc(i: ItemModel) -> DocModel {
    seq![(name_key(), Val::Text(i.name))]
}

/// The document stored for an invoice.
pub open spec fn invoice_doc(v: InvoiceModel) -> DocModel {
    seq![
        (invoice_id_key(), Val::Text(v.invoice_id)),
        (amount_key(), Val::Double(v.amount)),
        (status_key(), Val::Text(v.status)),
    ]
}

/// The fields that an update sets on a stored invoice: all but its identifier.
pub open spec fn invoice_changes(v: InvoiceModel) -> DocModel {
    seq![(amount_key(), Val::Double(v.amount)), (status_key(), Val::Text(v.status))]
}

/// The document stored for a client.
pub open spec fn client_doc(c: ClientModel) -> DocModel {
    seq![
        (client_id_key(), Val::Text(c.client_id)),
        (name_key(), Val::Text(c.name)),
        (email_key(), Val::Text(c.email)),
    ]
}

/// The fields that an update sets on a stored client: all but its identifier.
pub open spec fn client_changes(c: ClientModel) -> DocModel {
    seq![(name_key(), Val::Text(c.name)), (email_key(), Val::Text(c.email))]
}

impl Item {
    pub fn to_document(&self) -> (r: Document)
        ensures
            r@ == item_doc(self@),
    {
        let mut d = Document::new();
        d.push("name".to_owned(), Value::Text(self.name.clone()));
        proof {
            assert(d@ =~= item_doc(self@));
        }
        d
    }
}

impl Invoice {
    pub fn to_document(&self) -> (r: Document)
        ensures
            r@ == invoice_doc(self@),
    {
        let mut d = Document::new();
        d.push("invoice_id".to_owned(), Value::Text(self.invoice_id.clone()));
        d.push("amount".to_owned(), Value::Double(self.amount));
        d.push("status".to_owned(), Value::Text(self.status.clone()));
        proof {
            assert(d@ =~= invoice_doc(self@));
        }
        d
    }

    pub fn changes(&self) -> (r: Document)
        ensures
            r@ == invoice_changes(self@),
    {
        let mut d = Document::new();
        d.push("amount".to_owned(), Value::Double(self.amount));
        d.push("status".to_owned(), Value::Text(self.status.clone()));
        proof {
            assert(d@ =~= invoice_changes(self@));
        }
        d
    }
}

impl Client {
    pub fn to_document(&self) -> (r: Document)
        ensures
            r@ == client_doc(self@),
    {
        let mut d = Document::new();
        d.push("client_id".to_owned(), Value::Text(self.client_id.clone()));
        d.push("name".to_owned(), Value::Text(self.name.clone()));
        d.push("email".to_owned(), Value::Text(self.email.clone()));
        proof {
            assert(d@ =~= client_doc(self@));
        }
        d
    }

    pub fn changes(&self) -> (r: Document)
        ensures
            r@ == client_changes(self@),
    {
        let mut d = Document::new();
        d.push("name".to_owned(), Value::Text(self.name.clone()));
        d.push("email".to_owned(), Value::Text(self.email.clone()));
        proof {
            assert(d@ =~= client_changes(self@));
        }
        d
    }
}

} // verus!
