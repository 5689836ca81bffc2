use invoice_demo::document::{Document, Field, Value};
use invoice_demo::handlers::{
    add_client, add_invoice, add_item, delete_client, delete_invoice, echo, get_client,
    get_invoice, hello, manual_hello, respond, update_client, update_invoice, Body, CollectionName,
    Response, StoreCall,
};
use invoice_demo::records::{Client, Invoice, Item};
use invoice_demo::store::{Filter, MemoryCollection, StoreOp, StoreResult};

fn invoice(id: &str, amount: f64, status: &str) -> Invoice {
    Invoice { invoice_id: id.to_string(), amount: amount.to_bits(), status: status.to_string() }
}

fn client(id: &str, name: &str, email: &str) -> Client {
    Client { client_id: id.to_string(), name: name.to_string(), email: email.to_string() }
}

fn run(store: &mut MemoryCollection, call: StoreCall) -> Response {
    let result = store.execute(&call.op);
    respond(&call, result)
}

fn text(r: &Response) -> String {
    match &r.body {
        Body::Text(s) => s.clone(),
        Body::Document(_) => panic!("expected a text body"),
    }
}

fn field<'a>(d: &'a Document, key: &str) -> Option<&'a Value> {
    d.fields.iter().find(|f| f.key == key).map(|f| &f.value)
}

fn document(r: &Response) -> &Document {
    match &r.body {
        Body::Document(d) => d,
        Body::Text(s) => panic!("expected a document, got {}", s),
    }
}

#[test]
fn invoice_add_get_update_delete_scenario() {
    let mut store = MemoryCollection::new();
    let id = "2".to_string();

    let r = run(&mut store, add_invoice(&invoice("2", 5000.0, "draft")));
    assert_eq!(r.status, 200);
    assert_eq!(text(&r), "Invoice added successfully!");

    let r = run(&mut store, get_invoice(&id));
    assert_eq!(r.status, 200);
    let d = document(&r);
    assert_eq!(field(d, "invoice_id"), Some(&Value::Text("2".to_string())));
    assert_eq!(field(d, "amount"), Some(&Value::Double(5000.0f64.to_bits())));
    assert_eq!(field(d, "status"), Some(&Value::Text("draft".to_string())));

    let r = run(&mut store, update_invoice(&id, &invoice("2", 6000.0, "sent")));
    assert_eq!(r.status, 200);
    assert_eq!(text(&r), "Invoice updated successfully!");

    let r = run(&mut store, get_invoice(&id));
    assert_eq!(r.status, 200);
    let d = document(&r);
    assert_eq!(field(d, "amount"), Some(&Value::Double(6000.0f64.to_bits())));
    assert_eq!(field(d, "status"), Some(&Value::Text("sent".to_string())));

    let r = run(&mut store, delete_invoice(&id));
    assert_eq!(r.status, 200);
    assert_eq!(text(&r), "Invoice deleted successfully!");

    let r = run(&mut store, get_invoice(&id));
    assert_eq!(r.status, 404);
    assert_eq!(text(&r), "Invoice not found");
}

#[test]
fn echo_sends_body_back() {
    let r = echo("abc".to_string());
    assert_eq!(r, Response { status: 200, body: Body::Text("abc".to_string()) });
}

#[test]
fn greetings() {
    assert_eq!(hello(), Response { status: 200, body: Body::Text("Hello world!".to_string()) });
    assert_eq!(manual_hello(), Response { status: 200, body: Body::Text("Hey there!".to_string()) });
}

#[test]
fn client_add_then_get_returns_fields() {
    let mut store = MemoryCollection::new();
    let r = run(&mut store, add_client(&client("c1", "Ann", "ann@example.com")));
    assert_eq!(r.status, 200);
    assert_eq!(text(&r), "Client added successfully!");
    let r = run(&mut store, get_client(&"c1".to_string()));
    assert_eq!(r.status, 200);
    let expected = Document {
        fields: vec![
            Field { key: "client_id".to_string(), value: Value::Text("c1".to_string()) },
            Field { key: "name".to_string(), value: Value::Text("Ann".to_string()) },
            Field { key: "email".to_string(), value: Value::Text("ann@example.com".to_string()) },
        ],
    };
    assert_eq!(document(&r), &expected);
}

#[test]
fn add_item_inserts_name_document() {
    let call = add_item(&Item { name: "pen".to_string() });
    assert_eq!(call.collection, CollectionName::Items);
    assert_eq!(call.collection.name(), "items");
    let expected = Document {
        fields: vec![Field { key: "name".to_string(), value: Value::Text("pen".to_string()) }],
    };
    assert_eq!(call.op, StoreOp::InsertOne(expected));
    let mut store = MemoryCollection::new();
    let r = run(&mut store, call);
    assert_eq!(r.status, 200);
    assert_eq!(text(&r), "Item added successfully!");
    assert_eq!(store.len(), 1);
}

#[test]
fn update_missing_invoice_is_not_found_and_creates_nothing() {
    let mut store = MemoryCollection::new();
    run(&mut store, add_invoice(&invoice("1", 10.0, "draft")));
    let r = run(&mut store, update_invoice(&"9".to_string(), &invoice("9", 20.0, "sent")));
    assert_eq!(r.status, 404);
    assert_eq!(text(&r), "Invoice not found");
    assert_eq!(store.len(), 1);
    assert_eq!(run(&mut store, get_invoice(&"9".to_string())).status, 404);
}

#[test]
fn update_keeps_identifier_from_path() {
    let mut store = MemoryCollection::new();
    run(&mut store, add_client(&client("7", "Bob", "bob@example.com")));
    let r = run(&mut store, update_client(&"7".to_string(), &client("8", "Rob", "rob@example.com")));
    assert_eq!(r.status, 200);
    assert_eq!(text(&r), "Client updated successfully!");
    let r = run(&mut store, get_client(&"7".to_string()));
    let d = document(&r);
    assert_eq!(field(d, "client_id"), Some(&Value::Text("7".to_string())));
    assert_eq!(field(d, "name"), Some(&Value::Text("Rob".to_string())));
    assert_eq!(field(d, "email"), Some(&Value::Text("rob@example.com".to_string())));
    assert_eq!(d.fields.len(), 3);
    assert_eq!(run(&mut store, get_client(&"8".to_string())).status, 404);
}

#[test]
fn update_appends_missing_field() {
    let mut d = Document { fields: vec![] };
    d.set("status".to_string(), Value::Text("draft".to_string()));
    d.set("status".to_string(), Value::Text("sent".to_string()));
    assert_eq!(d.fields.len(), 1);
    assert_eq!(field(&d, "status"), Some(&Value::Text("sent".to_string())));
}

#[test]
fn delete_missing_is_not_found() {
    let mut store = MemoryCollection::new();
    let r = run(&mut store, delete_client(&"x".to_string()));
    assert_eq!(r.status, 404);
    assert_eq!(text(&r), "Client not found");
    let r = run(&mut store, delete_invoice(&"x".to_string()));
    assert_eq!(r.status, 404);
    assert_eq!(text(&r), "Invoice not found");
}

#[test]
fn delete_twice_succeeds_then_not_found() {
    let mut store = MemoryCollection::new();
    run(&mut store, add_client(&client("5", "Cy", "cy@example.com")));
    let r = run(&mut store, delete_client(&"5".to_string()));
    assert_eq!(r.status, 200);
    assert_eq!(text(&r), "Client deleted successfully!");
    assert_eq!(run(&mut store, get_client(&"5".to_string())).status, 404);
    let r = run(&mut store, delete_client(&"5".to_string()));
    assert_eq!(r.status, 404);
}

#[test]
fn duplicate_identifiers_are_accepted() {
    let mut store = MemoryCollection::new();
    run(&mut store, add_invoice(&invoice("3", 1.0, "a")));
    run(&mut store, add_invoice(&invoice("3", 2.0, "b")));
    assert_eq!(store.len(), 2);
    assert_eq!(run(&mut store, delete_invoice(&"3".to_string())).status, 200);
    assert_eq!(run(&mut store, get_invoice(&"3".to_string())).status, 200);
    assert_eq!(run(&mut store, delete_invoice(&"3".to_string())).status, 200);
    assert_eq!(run(&mut store, get_invoice(&"3".to_string())).status, 404);
}

#[test]
fn store_failures_give_server_error() {
    let id = "1".to_string();
    let cases = vec![
        (add_item(&Item { name: "n".to_string() }), "Failed to add item"),
        (add_invoice(&invoice("1", 1.0, "s")), "Failed to add invoice"),
        (update_invoice(&id, &invoice("1", 1.0, "s")), "Failed to update invoice"),
        (delete_invoice(&id), "Failed to delete invoice"),
        (get_invoice(&id), "Failed to retrieve invoice"),
        (add_client(&client("1", "n", "e")), "Failed to add client"),
        (update_client(&id, &client("1", "n", "e")), "Failed to update client"),
        (delete_client(&id), "Failed to delete client"),
        (get_client(&id), "Failed to retrieve client"),
    ];
    for (call, message) in cases {
        let r = respond(&call, StoreResult::Failed);
        assert_eq!(r, Response { status: 500, body: Body::Text(message.to_string()) });
    }
}

#[test]
fn report_that_does_not_answer_the_call_is_a_failure() {
    let call = get_invoice(&"1".to_string());
    let r = respond(&call, StoreResult::Inserted);
    assert_eq!(r.status, 500);
    assert_eq!(text(&r), "Failed to retrieve invoice");
}

#[test]
fn counts_decide_between_found_and_not_found() {
    let id = "1".to_string();
    let update = update_invoice(&id, &invoice("1", 1.0, "s"));
    assert_eq!(respond(&update, StoreResult::Updated { matched: 2 }).status, 200);
    assert_eq!(respond(&update, StoreResult::Updated { matched: 0 }).status, 404);
    let delete = delete_client(&id);
    assert_eq!(respond(&delete, StoreResult::Deleted { deleted: 1 }).status, 200);
    assert_eq!(respond(&delete, StoreResult::Deleted { deleted: 0 }).status, 404);
}

#[test]
fn handlers_build_identifier_filters() {
    let id = "42".to_string();
    let filter = Filter { key: "invoice_id".to_string(), value: "42".to_string() };
    let call = delete_invoice(&id);
    assert_eq!(call.collection.name(), "invoices");
    assert_eq!(call.op, StoreOp::DeleteOne(filter));
    let call = get_client(&id);
    assert_eq!(call.collection.name(), "clients");
    assert_eq!(
        call.op,
        StoreOp::FindOne(Filter { key: "client_id".to_string(), value: "42".to_string() })
    );
    let call = update_invoice(&id, &invoice("other", 3.5, "paid"));
    let changes = Document {
        fields: vec![
            Field { key: "amount".to_string(), value: Value::Double(3.5f64.to_bits()) },
            Field { key: "status".to_string(), value: Value::Text("paid".to_string()) },
        ],
    };
    assert_eq!(
        call.op,
        StoreOp::UpdateOne(
            Filter { key: "invoice_id".to_string(), value: "42".to_string() },
            changes
        )
    );
}
