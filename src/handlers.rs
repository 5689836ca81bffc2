use vstd::prelude::*;

use crate::document::{DocModel, Document};
use crate::records::{
    client_changes, client_doc, client_id_key, invoice_changes, invoice_doc, invoice_id_key,
    item_doc, Client, ClientModel, Invoice, InvoiceModel, Item, ItemModel,
};
use crate::store::{Filter, FilterModel, OpModel, ResultModel, StoreOp, StoreResult};

verus! {

/// The collection that holds each kind of record.
#[derive(Clone, Copy, Debug, PartialEq, Eq, Structural)]
pub enum CollectionName {
    Items,
    Invoices,
    Clients,
}

impl CollectionName {
    pub open spec fn spec_name(self) -> Seq<char> {
        match self {
            CollectionName::Items => "items"@,
            CollectionName::Invoices => "invoices"@,
            CollectionName::Clients => "clients"@,
        }
    }

    /// The collection's name in the store.
    pub fn name(&self) -> (r: String)
        ensures
            r@ == self.spec_name(),
    {
        match self {
            CollectionName::Items => "items".to_owned(),
            CollectionName::Invoices => "invoices".to_owned(),
            CollectionName::Clients => "clients".to_owned(),
        }
    }
}

/// One operation to be carried out on one collection.
#[derive(Debug, PartialEq, Eq)]
pub struct StoreCall {
    pub collection: CollectionName,
    pub op: StoreOp,
}

pub struct CallModel {
    pub collection: CollectionName,
    pub op: OpModel,
}

impl View for StoreCall {
    type V = CallModel;

    open spec fn view(&self) -> CallModel {
        CallModel { collection: self.collection, op: self.op@ }
    }
}

/// The kind of operation a handler performs.
#[derive(Clone, Copy, Debug, PartialEq, Eq, Structural)]
pub enum Verb {
    Add,
    Update,
    Delete,
    Get,
}

/// How a request ended.
#[derive(Clone, Copy, Debug, PartialEq, Eq, Structural)]
pub enum Outcome {
    Done,
    NotFound,
    Failed,
}

/// The body of a response: a fixed message, or a document read from the store.
#[derive(Debug, PartialEq, Eq)]
pub enum Body {
    Text(String),
    Document(Document),
}

pub enum BodyModel {
    Text(Seq<char>),
    Document(DocModel),
}

impl View for Body {
    type V = BodyModel;

    open spec fn view(&self) -> BodyModel {
        match self {
            Body::Text(s) => BodyModel::Text(s@),
            Body::Document(d) => BodyModel::Document(d@),
        }
    }
}

/// A reply to a request: an HTTP status code and a body.
#[derive(Debug, PartialEq, Eq)]
pub struct Response {
    pub status: u16,
    pub body: Body,
}

pub struct ResponseModel {
    pub status: u16,
    pub body: BodyModel,
}

impl View for Response {
    type V = ResponseModel;

    open spec fn view(&self) -> ResponseModel {
        ResponseModel { status: self.status, body: self.body@ }
    }
}

pub open spec fn verb_of(op: OpModel) -> Verb {
    match op {
        OpModel::InsertOne(_) => Verb::Add,
        OpModel::UpdateOne(_, _) => Verb::Update,
        OpModel::DeleteOne(_) => Verb::Delete,
        OpModel::FindOne(_) => Verb::Get,
    }
}

/// How an operation ended, given what the store reported. A report that does not answer
/// the operation counts as a failure.
pub open spec fn outcome_of(op: OpModel, r: ResultModel) -> Outcome {
    match (op, r) {
        (OpModel::InsertOne(_), ResultModel::Inserted) => Outcome::Done,
        (OpModel::UpdateOne(_, _), ResultModel::Updated { matched }) => if matched > 0 {
            Outcome::Done
        } else {
            Outcome::NotFound
        },
        (OpModel::DeleteOne(_), ResultModel::Deleted { deleted }) => if deleted > 0 {
            Outcome::Done
        } else {
            Outcome::NotFound
        },
        (OpModel::FindOne(_), ResultModel::Found(Some(_))) => Outcome::Done,
        (OpModel::FindOne(_), ResultModel::Found(None)) => Outcome::NotFound,
        _ => Outcome::Failed,
    }
}

pub open spec fn status_of(o: Outcome) -> u16 {
    match o {
        Outcome::Done => 200,
        Outcome::NotFound => 404,
        Outcome::Failed => 500,
    }
}

/// The text sent back for an outcome.
pub open spec fn message(c: CollectionName, v: Verb, o: Outcome) -> Seq<char> {
    match o {
        Outcome::Done => match (c, v) {
            (CollectionName::Items, Verb::Add) => "Item added successfully!"@,
            (CollectionName::Items, Verb::Update) => "Item updated successfully!"@,
            (CollectionName::Items, Verb::Delete) => "Item deleted successfully!"@,
            (CollectionName::Items, Verb::Get) => "Item retrieved successfully!"@,
            (CollectionName::Invoices, Verb::Add) => "Invoice added successfully!"@,
            (CollectionName::Invoices, Verb::Update) => "Invoice updated successfully!"@,
            (CollectionName::Invoices, Verb::Delete) => "Invoice deleted successfully!"@,
            (CollectionName::Invoices, Verb::Get) => "Invoice retrieved successfully!"@,
            (CollectionName::Clients, Verb::Add) => "Client added successfully!"@,
            (CollectionName::Clients, Verb::Update) => "Client updated successfully!"@,
            (CollectionName::Clients, Verb::Delete) => "Client deleted successfully!"@,
            (CollectionName::Clients, Verb::Get) => "Client retrieved successfully!"@,
        },
        Outcome::NotFound => match c {
            CollectionName::Items => "Item not found"@,
            CollectionName::Invoices => "Invoice not found"@,
            CollectionName::Clients => "Client not found"@,
        },
        Outcome::Failed => match (c, v) {
            (CollectionName::Items, Verb::Add) => "Failed to add item"@,
            (CollectionName::Items, Verb::Update) => "Failed to update item"@,
            (CollectionName::Items, Verb::Delete) => "Failed to delete item"@,
            (CollectionName::Items, Verb::Get) => "Failed to retrieve item"@,
            (CollectionName::Invoices, Verb::Add) => "Failed to add invoice"@,
            (CollectionName::Invoices, Verb::Update) => "Failed to update invoice"@,
            (CollectionName::Invoices, Verb::Delete) => "Failed to delete invoice"@,
            (CollectionName::Invoices, Verb::Get) => "Failed to retrieve invoice"@,
            (CollectionName::Clients, Verb::Add) => "Failed to add client"@,
            (CollectionName::Clients, Verb::Update) => "Failed to update client"@,
            (CollectionName::Clients, Verb::Delete) => "Failed to delete client"@,
            (CollectionName::Clients, Verb::Get) => "Failed to retrieve client"@,
        },
    }
}

/// The response for a call, given what the store reported.
pub open spec fn response_of(call: CallModel, r: ResultModel) -> ResponseModel {
    let o = outcome_of(call.op, r);
    ResponseModel {
        status: status_of(o),
        body: match (call.op, r) {
            (OpModel::FindOne(_), ResultModel::Found(Some(d))) => BodyModel::Document(d),
            _ => BodyModel::Text(message(call.collection, verb_of(call.op), o)),
        },
    }
}

/// The filter that selects records by their identifier field.
pub open spec fn id_filter(key: Seq<char>, id: Seq<char>) -> FilterModel {
    FilterModel { key, value: id }
}

fn message_text(c: CollectionName, v: Verb, o: Outcome) -> (r: String)
    ensures
        r@ == message(c, v, o),
{
    match o {
        Outcome::Done => match (c, v) {
            (CollectionName::Items, Verb::Add) => "Item added successfully!".to_owned(),
            (CollectionName::Items, Verb::Update) => "Item updated successfully!".to_owned(),
            (CollectionName::Items, Verb::Delete) => "Item deleted successfully!".to_owned(),
            (CollectionName::Items, Verb::Get) => "Item retrieved successfully!".to_owned(),
            (CollectionName::Invoices, Verb::Add) => "Invoice added successfully!".to_owned(),
            (CollectionName::Invoices, Verb::Update) => "Invoice updated successfully!".to_owned(),
            (CollectionName::Invoices, Verb::Delete) => "Invoice deleted successfully!".to_owned(),
            (CollectionName::Invoices, Verb::Get) => "Invoice retrieved successfully!".to_owned(),
            (CollectionName::Clients, Verb::Add) => "Client added successfully!".to_owned(),
            (CollectionName::Clients, Verb::Update) => "Client updated successfully!".to_owned(),
            (CollectionName::Clients, Verb::Delete) => "Client deleted successfully!".to_owned(),
            (CollectionName::Clients, Verb::Get) => "Client retrieved successfully!".to_owned(),
        },
        Outcome::NotFound => match c {
            CollectionName::Items => "Item not found".to_owned(),
            CollectionName::Invoices => "Invoice not found".to_owned(),
            CollectionName::Clients => "Client not found".to_owned(),
        },
        Outcome::Failed => match (c, v) {
            (CollectionName::Items, Verb::Add) => "Failed to add item".to_owned(),
            (CollectionName::Items, Verb::Update) => "Failed to update item".to_owned(),
            (CollectionName::Items, Verb::Delete) => "Failed to delete item".to_owned(),
            (CollectionName::Items, Verb::Get) => "Failed to retrieve item".to_owned(),
            (CollectionName::Invoices, Verb::Add) => "Failed to add invoice".to_owned(),
            (CollectionName::Invoices, Verb::Update) => "Failed to update invoice".to_owned(),
            (CollectionName::Invoices, Verb::Delete) => "Failed to delete invoice".to_owned(),
            (CollectionName::Invoices, Verb::Get) => "Failed to retrieve invoice".to_owned(),
            (CollectionName::Clients, Verb::Add) => "Failed to add client".to_owned(),
            (CollectionName::Clients, Verb::Update) => "Failed to update client".to_owned(),
            (CollectionName::Clients, Verb::Delete) => "Failed to delete client".to_owned(),
            (CollectionName::Clients, Verb::Get) => "Failed to retrieve client".to_owned(),
        },
    }
}

fn filter_on(key: &str, id: &String) -> (r: Filter)
    ensures
        r@ == id_filter(key@, id@),
{
    Filter { key: key.to_owned(), value: id.clone() }
}

/// Turns what the store reported for a call into the response sent back.
pub fn respond(call: &StoreCall, result: StoreResult) -> (r: Response)
    ensures
        r@ == response_of(call@, result@),
{
    let verb = match &call.op {
        StoreOp::InsertOne(_) => Verb::Add,
        StoreOp::UpdateOne(_, _) => Verb::Update,
        StoreOp::DeleteOne(_) => Verb::Delete,
        StoreOp::FindOne(_) => Verb::Get,
    };
    let outcome = match (&call.op, &result) {
        (StoreOp::InsertOne(_), StoreResult::Inserted) => Outcome::Done,
        (StoreOp::UpdateOne(_, _), StoreResult::Updated { matched }) => if *matched > 0 {
            Outcome::Done
        } else {
            Outcome::NotFound
        },
        (StoreOp::DeleteOne(_), StoreResult::Deleted { deleted }) => if *deleted > 0 {
            Outcome::Done
        } else {
            Outcome::NotFound
        },
        (StoreOp::FindOne(_), StoreResult::Found(Some(_))) => Outcome::Done,
        (StoreOp::FindOne(_), StoreResult::Found(None)) => Outcome::NotFound,
        _ => Outcome::Failed,
    };
    let status: u16 = match outcome {
        Outcome::Done => 200,
        Outcome::NotFound => 404,
        Outcome::Failed => 500,
    };
    let is_find = match &call.op {
        StoreOp::FindOne(_) => true,
        _ => false,
    };
    let body = match result {
        StoreResult::Found(Some(d)) if is_find => Body::Document(d),
        _ => Body::Text(message_text(call.collection, verb, outcome)),
    };
    Response { status, body }
}

pub open spec fn item_add_call(i: ItemModel) -> CallModel {
    CallModel { collection: CollectionName::Items, op: OpModel::InsertOne(item_doc(i)) }
}

/// Adds an item: inserts its document into the items collection.
pub fn add_item(item: &Item) -> (r: StoreCall)
    ensures
        r@ == item_add_call(item@),
{
    StoreCall { collection: CollectionName::Items, op: StoreOp::InsertOne(item.to_document()) }
}

pub open spec fn invoice_add_call(v: InvoiceModel) -> CallModel {
    CallModel { collection: CollectionName::Invoices, op: OpModel::InsertOne(invoice_doc(v)) }
}

/// Adds an invoice: inserts its document, whether or not its identifier is already in use.
pub fn add_invoice(invoice: &Invoice) -> (r: StoreCall)
    ensures
        r@ == invoice_add_call(invoice@),
{
    StoreCall { collection: CollectionName::Invoices, op: StoreOp::InsertOne(invoice.to_document()) }
}

pub open spec fn invoice_update_call(id: Seq<char>, v: InvoiceModel) -> CallModel {
    CallModel {
        collection: CollectionName::Invoices,
        op: OpModel::UpdateOne(id_filter(invoice_id_key(), id), invoice_changes(v)),
    }
}

/// Updates the invoice named by `invoice_id`: sets every field of `invoice` but its identifier.
pub fn update_invoice(invoice_id: &String, invoice: &Invoice) -> (r: StoreCall)
    ensures
        r@ == invoice_update_call(invoice_id@, invoice@),
{
    StoreCall {
        collection: CollectionName::Invoices,
        op: StoreOp::UpdateOne(filter_on("invoice_id", invoice_id), invoice.changes()),
    }
}

pub open spec fn invoice_delete_call(id: Seq<char>) -> CallModel {
    CallModel { collection: CollectionName::Invoices, op: OpModel::DeleteOne(id_filter(invoice_id_key(), id)) }
}

/// Deletes the invoice named by `invoice_id`.
pub fn delete_invoice(invoice_id: &String) -> (r: StoreCall)
    ensures
        r@ == invoice_delete_call(invoice_id@),
{
    StoreCall {
        collection: CollectionName::Invoices,
        op: StoreOp::DeleteOne(filter_on("invoice_id", invoice_id)),
    }
}

pub open spec fn invoice_get_call(id: Seq<char>) -> CallModel {
    CallModel { collection: CollectionName::Invoices, op: OpModel::FindOne(id_filter(invoice_id_key(), id)) }
}

/// Reads the invoice named by `invoice_id`.
pub fn get_invoice(invoice_id: &String) -> (r: StoreCall)
    ensures
        r@ == invoice_get_call(invoice_id@),
{
    StoreCall {
        collection: CollectionName::Invoices,
        op: StoreOp::FindOne(filter_on("invoice_id", invoice_id)),
    }
}

pub open spec fn client_add_call(c: ClientModel) -> CallModel {
    CallModel { collection: CollectionName::Clients, op: OpModel::InsertOne(client_doc(c)) }
}

/// Adds a client: inserts its document, whether or not its identifier is already in use.
pub fn add_client(client: &Client) -> (r: StoreCall)
    ensures
        r@ == client_add_call(client@),
{
    StoreCall { collection: CollectionName::Clients, op: StoreOp::InsertOne(client.to_document()) }
}

pub open spec fn client_update_call(id: Seq<char>, c: ClientModel) -> CallModel {
    CallModel {
        collection: CollectionName::Clients,
        op: OpModel::UpdateOne(id_filter(client_id_key(), id), client_changes(c)),
    }
}

/// Updates the client named by `client_id`: sets every field of `client` but its identifier.
pub fn update_client(client_id: &String, client: &Client) -> (r: StoreCall)
    ensures
        r@ == client_update_call(client_id@, client@),
{
    StoreCall {
        collection: CollectionName::Clients,
        op: StoreOp::UpdateOne(filter_on("client_id", client_id), client.changes()),
    }
}

pub open spec fn client_delete_call(id: Seq<char>) -> CallModel {
    CallModel { collection: CollectionName::Clients, op: OpModel::DeleteOne(id_filter(client_id_key(), id)) }
}

/// Deletes the client named by `client_id`.
pub fn delete_client(client_id: &String) -> (r: StoreCall)
    ensures
        r@ == client_delete_call(client_id@),
{
    StoreCall {
        collection: CollectionName::Clients,
        op: StoreOp::DeleteOne(filter_on("client_id", client_id)),
    }
}

pub open spec fn client_get_call(id: Seq<char>) -> CallModel {
    CallModel { collection: CollectionName::Clients, op: OpModel::FindOne(id_filter(client_id_key(), id)) }
}

/// Reads the client named by `client_id`.
pub fn get_client(client_id: &String) -> (r: StoreCall)
    ensures
        r@ == client_get_call(client_id@),
{
    StoreCall {
        collection: CollectionName::Clients,
        op: StoreOp::FindOne(filter_on("client_id", client_id)),
    }
}

/// The greeting served at the root path.
pub fn hello() -> (r: Response)
    ensures
        r@ == (ResponseModel { status: 200, body: BodyModel::Text("Hello world!"@) }),
{
    Response { status: 200, body: Body::Text("Hello world!".to_owned()) }
}

/// The greeting served at `/hey`.
pub fn manual_hello() -> (r: Response)
    ensures
        r@ == (ResponseModel { status: 200, body: BodyModel::Text("Hey there!"@) }),
{
    Response { status: 200, body: Body::Text("Hey there!".to_owned()) }
}

/// Sends the request body back unchanged.
pub fn echo(body: String) -> (r: Response)
    ensures
        r@ == (ResponseModel { status: 200, body: BodyModel::Text(body@) }),
{
    Response { status: 200, body: Body::Text(body) }
}

} // verus!
