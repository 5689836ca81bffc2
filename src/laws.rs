use vstd::prelude::*;

use crate::document::{field_of, lemma_field_of_with_field, with_fields, DocModel, Val};
use crate::handlers::{
    client_add_call, client_delete_call, client_get_call, client_update_call, id_filter,
    invoice_add_call, invoice_delete_call, invoice_get_call, invoice_update_call, response_of,
    BodyModel, ResponseModel,
};
use crate::records::{
    amount_key, client_changes, client_doc, client_id_key, email_key, invoice_changes, invoice_doc,
    invoice_id_key, name_key, status_key, ClientModel, InvoiceModel,
};
use crate::store::{
    first_match, lemma_first_match_unique, selects, step, FilterModel,
};

verus! {

/// No document of the collection is selected by `f`.
pub open spec fn none_selected(c: Seq<DocModel>, f: FilterModel) -> bool {
    forall|j: int| 0 <= j < c.len() ==> !selects(f, #[trigger] c[j])
}

/// Exactly one document of the collection, the one at `i`, is selected by `f`.
pub open spec fn only_selected(c: Seq<DocModel>, f: FilterModel, i: int) -> bool {
    &&& 0 <= i < c.len()
    &&& selects(f, c[i])
    &&& forall|j: int| 0 <= j < c.len() && j != i ==> !selects(f, #[trigger] c[j])
}

proof fn lemma_keys_distinct()
    ensures
        invoice_id_key() != amount_key(),
        invoice_id_key() != status_key(),
        amount_key() != status_key(),
        client_id_key() != name_key(),
        client_id_key() != email_key(),
        name_key() != email_key(),
{
    reveal_strlit("invoice_id");
    reveal_strlit("amount");
    reveal_strlit("status");
    reveal_strlit("client_id");
    reveal_strlit("name");
    reveal_strlit("email");
    assert(amount_key()[0] != status_key()[0]);
    assert(invoice_id_key().len() != amount_key().len());
    assert(invoice_id_key().len() != status_key().len());
    assert(client_id_key().len() != name_key().len());
    assert(client_id_key().len() != email_key().len());
    assert(name_key().len() != email_key().len());
}

proof fn lemma_invoice_doc_fields(v: InvoiceModel)
    ensures
        field_of(invoice_doc(v), invoice_id_key()) == Some(Val::Text(v.invoice_id)),
        field_of(invoice_doc(v), amount_key()) == Some(Val::Double(v.amount)),
        field_of(invoice_doc(v), status_key()) == Some(Val::Text(v.status)),
{
    lemma_keys_distinct();
    reveal_with_fuel(crate::document::key_index_from, 4);
}

proof fn lemma_client_doc_fields(c: ClientModel)
    ensures
        field_of(client_doc(c), client_id_key()) == Some(Val::Text(c.client_id)),
        field_of(client_doc(c), name_key()) == Some(Val::Text(c.name)),
        field_of(client_doc(c), email_key()) == Some(Val::Text(c.email)),
{
    lemma_keys_distinct();
    reveal_with_fuel(crate::document::key_index_from, 4);
}

proof fn lemma_none_selected(c: Seq<DocModel>, f: FilterModel)
    requires
        none_selected(c, f),
    ensures
        first_match(c, f) == -1,
{
    lemma_first_match_unique(c, f, -1);
}

/// An inserted document that the filter selects is the first one selected, where none was before.
proof fn lemma_insert_then_find(c: Seq<DocModel>, f: FilterModel, d: DocModel)
    requires
        none_selected(c, f),
        selects(f, d),
    ensures
        first_match(c.push(d), f) == c.len(),
{
    let c1 = c.push(d);
    assert forall|j: int| 0 <= j < c1.len() && j < c.len() implies !selects(f, #[trigger] c1[j]) by {
        assert(c1[j] == c[j]);
    }
    lemma_first_match_unique(c1, f, c.len() as int);
}

/// Removing the one selected document leaves none selected.
proof fn lemma_remove_only(c: Seq<DocModel>, f: FilterModel, i: int)
    requires
        only_selected(c, f, i),
    ensures
        first_match(c, f) == i,
        none_selected(c.remove(i), f),
{
    lemma_first_match_unique(c, f, i);
    let c1 = c.remove(i);
    assert forall|j: int| 0 <= j < c1.len() implies !selects(f, #[trigger] c1[j]) by {
        if j < i {
            assert(c1[j] == c[j]);
        } else {
            assert(c1[j] == c[j + 1]);
        }
    }
}

/// Setting two fields: each reads its new value, every other key reads as before.
proof fn lemma_two_changes(d: DocModel, k1: Seq<char>, v1: Val, k2: Seq<char>, v2: Val, k: Seq<char>)
    requires
        k1 != k2,
    ensures
        field_of(with_fields(d, seq![(k1, v1), (k2, v2)]), k) == (if k == k1 {
            Some(v1)
        } else if k == k2 {
            Some(v2)
        } else {
            field_of(d, k)
        }),
{
    let s = seq![(k1, v1), (k2, v2)];
    assert(s.drop_last() =~= seq![(k1, v1)]);
    assert(seq![(k1, v1)].drop_last() =~= Seq::<(Seq<char>, Val)>::empty());
    reveal_with_fuel(with_fields, 3);
    let d1 = crate::document::with_field(d, k1, v1);
    lemma_field_of_with_field(d, k1, v1, k);
    lemma_field_of_with_field(d1, k2, v2, k);
}

/// Where no invoice carries the identifier yet, adding an invoice and then getting it by its
/// identifier answers 200 both times, and the document read back holds the added fields.
pub proof fn law_invoice_add_then_get(c: Seq<DocModel>, v: InvoiceModel)
    requires
        none_selected(c, id_filter(invoice_id_key(), v.invoice_id)),
    ensures
        ({
            let (c1, r1) = step(c, invoice_add_call(v).op);
            let (c2, r2) = step(c1, invoice_get_call(v.invoice_id).op);
            &&& response_of(invoice_add_call(v), r1).status == 200
            &&& response_of(invoice_get_call(v.invoice_id), r2) == (ResponseModel {
                status: 200,
                body: BodyModel::Document(invoice_doc(v)),
            })
            &&& field_of(invoice_doc(v), invoice_id_key()) == Some(Val::Text(v.invoice_id))
            &&& field_of(invoice_doc(v), amount_key()) == Some(Val::Double(v.amount))
            &&& field_of(invoice_doc(v), status_key()) == Some(Val::Text(v.status))
        }),
{
    lemma_invoice_doc_fields(v);
    lemma_insert_then_find(c, id_filter(invoice_id_key(), v.invoice_id), invoice_doc(v));
}

/// Where no client carries the identifier yet, adding a client and then getting it by its
/// identifier answers 200 both times, and the document read back holds the added fields.
pub proof fn law_client_add_then_get(c: Seq<DocModel>, v: ClientModel)
    requires
        none_selected(c, id_filter(client_id_key(), v.client_id)),
    ensures
        ({
            let (c1, r1) = step(c, client_add_call(v).op);
            let (c2, r2) = step(c1, client_get_call(v.client_id).op);
            &&& response_of(client_add_call(v), r1).status == 200
            &&& response_of(client_get_call(v.client_id), r2) == (ResponseModel {
                status: 200,
                body: BodyModel::Document(client_doc(v)),
            })
            &&& field_of(client_doc(v), client_id_key()) == Some(Val::Text(v.client_id))
            &&& field_of(client_doc(v), name_key()) == Some(Val::Text(v.name))
            &&& field_of(client_doc(v), email_key()) == Some(Val::Text(v.email))
        }),
{
    lemma_client_doc_fields(v);
    lemma_insert_then_find(c, id_filter(client_id_key(), v.client_id), client_doc(v));
}

/// Updating an invoice whose identifier no invoice carries answers 404 and leaves the collection
/// as it was, so that a following get answers 404 too.
pub proof fn law_invoice_update_missing(c: Seq<DocModel>, id: Seq<char>, v: InvoiceModel)
    requires
        none_selected(c, id_filter(invoice_id_key(), id)),
    ensures
        ({
            let (c1, r1) = step(c, invoice_update_call(id, v).op);
            let (c2, r2) = step(c1, invoice_get_call(id).op);
            &&& response_of(invoice_update_call(id, v), r1).status == 404
            &&& c1 == c
            &&& response_of(invoice_get_call(id), r2).status == 404
        }),
{
    lemma_none_selected(c, id_filter(invoice_id_key(), id));
}

/// Updating a stored invoice answers 200 and changes only the first invoice carrying the
/// identifier: its non-identifier fields take the new values, its identifier and every other
/// key read as before.
pub proof fn law_invoice_update_existing(c: Seq<DocModel>, id: Seq<char>, v: InvoiceModel, k: Seq<char>)
    requires
        exists|j: int| 0 <= j < c.len() && selects(id_filter(invoice_id_key(), id), #[trigger] c[j]),
    ensures
        ({
            let i = first_match(c, id_filter(invoice_id_key(), id));
            let (c1, r1) = step(c, invoice_update_call(id, v).op);
            &&& response_of(invoice_update_call(id, v), r1).status == 200
            &&& 0 <= i < c.len()
            &&& c1.len() == c.len()
            &&& forall|j: int| 0 <= j < c.len() && j != i ==> #[trigger] c1[j] == c[j]
            &&& field_of(c1[i], invoice_id_key()) == field_of(c[i], invoice_id_key())
            &&& field_of(c1[i], amount_key()) == Some(Val::Double(v.amount))
            &&& field_of(c1[i], status_key()) == Some(Val::Text(v.status))
            &&& (k != amount_key() && k != status_key() ==> field_of(c1[i], k) == field_of(c[i], k))
        }),
{
    let f = id_filter(invoice_id_key(), id);
    crate::store::lemma_first_match_from_range(c, f, 0);
    let i = first_match(c, f);
    if i < 0 {
        let j = choose|j: int| 0 <= j < c.len() && selects(f, #[trigger] c[j]);
        assert(!selects(f, c[j]));
    }
    lemma_keys_distinct();
    assert(invoice_changes(v) == seq![(amount_key(), Val::Double(v.amount)), (status_key(), Val::Text(v.status))]);
    lemma_two_changes(c[i], amount_key(), Val::Double(v.amount), status_key(), Val::Text(v.status), invoice_id_key());
    lemma_two_changes(c[i], amount_key(), Val::Double(v.amount), status_key(), Val::Text(v.status), amount_key());
    lemma_two_changes(c[i], amount_key(), Val::Double(v.amount), status_key(), Val::Text(v.status), status_key());
    lemma_two_changes(c[i], amount_key(), Val::Double(v.amount), status_key(), Val::Text(v.status), k);
}

/// Deleting a invoice whose identifier no invoice carries answers 404 and changes nothing.
pub proof fn law_invoice_delete_missing(c: Seq<DocModel>, id: Seq<char>)
    requires
        none_selected(c, id_filter(invoice_id_key(), id)),
    ensures
        ({
            let (c1, r1) = step(c, invoice_delete_call(id).op);
            &&& response_of(invoice_delete_call(id), r1).status == 404
            &&& c1 == c
        }),
{
    lemma_none_selected(c, id_filter(invoice_id_key(), id));
}

/// Deleting the one invoice that carries an identifier answers 200, and a following get of it
/// answers 404.
pub proof fn law_invoice_delete_then_get(c: Seq<DocModel>, id: Seq<char>, i: int)
    requires
        only_selected(c, id_filter(invoice_id_key(), id), i),
    ensures
        ({
            let (c1, r1) = step(c, invoice_delete_call(id).op);
            let (c2, r2) = step(c1, invoice_get_call(id).op);
            &&& response_of(invoice_delete_call(id), r1).status == 200
            &&& c1 == c.remove(i)
            &&& response_of(invoice_get_call(id), r2).status == 404
        }),
{
    lemma_remove_only(c, id_filter(invoice_id_key(), id), i);
    lemma_none_selected(c.remove(i), id_filter(invoice_id_key(), id));
}

/// Deleting the one invoice that carries an identifier twice answers 200, then 404.
pub proof fn law_invoice_delete_twice(c: Seq<DocModel>, id: Seq<char>, i: int)
    requires
        only_selected(c, id_filter(invoice_id_key(), id), i),
    ensures
        ({
            let (c1, r1) = step(c, invoice_delete_call(id).op);
            let (c2, r2) = step(c1, invoice_delete_call(id).op);
            &&& response_of(invoice_delete_call(id), r1).status == 200
            &&& response_of(invoice_delete_call(id), r2).status == 404
            &&& c2 == c1
        }),
{
    lemma_remove_only(c, id_filter(invoice_id_key(), id), i);
    lemma_none_selected(c.remove(i), id_filter(invoice_id_key(), id));
}

/// Updating a client whose identifier no client carries answers 404 and leaves the collection
/// as it was, so that a following get answers 404 too.
pub proof fn law_client_update_missing(c: Seq<DocModel>, id: Seq<char>, v: ClientModel)
    requires
        none_selected(c, id_filter(client_id_key(), id)),
    ensures
        ({
            let (c1, r1) = step(c, client_update_call(id, v).op);
            let (c2, r2) = step(c1, client_get_call(id).op);
            &&& response_of(client_update_call(id, v), r1).status == 404
            &&& c1 == c
            &&& response_of(client_get_call(id), r2).status == 404
        }),
{
    lemma_none_selected(c, id_filter(client_id_key(), id));
}

/// Updating a stored client answers 200 and changes only the first client carrying the
/// identifier: its non-identifier fields take the new values, its identifier and every other
/// key read as before.
pub proof fn law_client_update_existing(c: Seq<DocModel>, id: Seq<char>, v: ClientModel, k: Seq<char>)
    requires
        exists|j: int| 0 <= j < c.len() && selects(id_filter(client_id_key(), id), #[trigger] c[j]),
    ensures
        ({
            let i = first_match(c, id_filter(client_id_key(), id));
            let (c1, r1) = step(c, client_update_call(id, v).op);
            &&& response_of(client_update_call(id, v), r1).status == 200
            &&& 0 <= i < c.len()
            &&& c1.len() == c.len()
            &&& forall|j: int| 0 <= j < c.len() && j != i ==> #[trigger] c1[j] == c[j]
            &&& field_of(c1[i], client_id_key()) == field_of(c[i], client_id_key())
            &&& field_of(c1[i], name_key()) == Some(Val::Text(v.name))
            &&& field_of(c1[i], email_key()) == Some(Val::Text(v.email))
            &&& (k != name_key() && k != email_key() ==> field_of(c1[i], k) == field_of(c[i], k))
        }),
{
    let f = id_filter(client_id_key(), id);
    crate::store::lemma_first_match_from_range(c, f, 0);
    let i = first_match(c, f);
    if i < 0 {
        let j = choose|j: int| 0 <= j < c.len() && selects(f, #[trigger] c[j]);
        assert(!selects(f, c[j]));
    }
    lemma_keys_distinct();
    assert(client_changes(v) == seq![(name_key(), Val::Text(v.name)), (email_key(), Val::Text(v.email))]);
    lemma_two_changes(c[i], name_key(), Val::Text(v.name), email_key(), Val::Text(v.email), client_id_key());
    lemma_two_changes(c[i], name_key(), Val::Text(v.name), email_key(), Val::Text(v.email), name_key());
    lemma_two_changes(c[i], name_key(), Val::Text(v.name), email_key(), Val::Text(v.email), email_key());
    lemma_two_changes(c[i], name_key(), Val::Text(v.name), email_key(), Val::Text(v.email), k);
}

/// Deleting a client whose identifier no client carries answers 404 and changes nothing.
pub proof fn law_client_delete_missing(c: Seq<DocModel>, id: Seq<char>)
    requires
        none_selected(c, id_filter(client_id_key(), id)),
    ensures
        ({
            let (c1, r1) = step(c, client_delete_call(id).op);
            &&& response_of(client_delete_call(id), r1).status == 404
            &&& c1 == c
        }),
{
    lemma_none_selected(c, id_filter(client_id_key(), id));
}

/// Deleting the one client that carries an identifier answers 200, and a following get of it
/// answers 404.
pub proof fn law_client_delete_then_get(c: Seq<DocModel>, id: Seq<char>, i: int)
    requires
        only_selected(c, id_filter(client_id_key(), id), i),
    ensures
        ({
            let (c1, r1) = step(c, client_delete_call(id).op);
            let (c2, r2) = step(c1, client_get_call(id).op);
            &&& response_of(client_delete_call(id), r1).status == 200
            &&& c1 == c.remove(i)
            &&& response_of(client_get_call(id), r2).status == 404
        }),
{
    lemma_remove_only(c, id_filter(client_id_key(), id), i);
    lemma_none_selected(c.remove(i), id_filter(client_id_key(), id));
}

/// Deleting the one client that carries an identifier twice answers 200, then 404.
pub proof fn law_client_delete_twice(c: Seq<DocModel>, id: Seq<char>, i: int)
    requires
        only_selected(c, id_filter(client_id_key(), id), i),
    ensures
        ({
            let (c1, r1) = step(c, client_delete_call(id).op);
            let (c2, r2) = step(c1, client_delete_call(id).op);
            &&& response_of(client_delete_call(id), r1).status == 200
            &&& response_of(client_delete_call(id), r2).status == 404
            &&& c2 == c1
        }),
{
    lemma_remove_only(c, id_filter(client_id_key(), id), i);
    lemma_none_selected(c.remove(i), id_filter(client_id_key(), id));
}

} // verus!
