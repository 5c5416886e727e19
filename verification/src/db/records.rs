//! Order records as documents: what is written to the order store when an
//! order is inserted or changed, and that it is read back as it was written.

use crate::db::document::{
    canonical_id, doc_fields, document_at, insert_document, insert_i32, insert_object_id,
    insert_str, is_id_text, new_document, no_fields, Field,
};
use crate::models::{
    decode_address, decode_order, decode_payment, decode_postage, decode_user, Address,
    AddressView, CollectionMethod, OrderView, PaymentStripeView, PaymentView, PostageView,
    UserView,
};
use mongodb::Document;
use vstd::prelude::*;

verus! {

/// The number that a collection method is stored as.
pub open spec fn method_number(method: CollectionMethod) -> i32 {
    match method {
        CollectionMethod::Pickup => 1,
        CollectionMethod::Post => 0,
    }
}

/// The text, or the empty text where there is none.
pub open spec fn or_empty(text: Option<Seq<char>>) -> Seq<char> {
    match text {
        Some(t) => t,
        None => Seq::empty(),
    }
}

/// The fields that contact details are stored as.
pub open spec fn user_fields(name: Seq<char>, email: Seq<char>) -> Map<Seq<char>, Field> {
    no_fields().insert("name"@, Field::Text(name)).insert(
        "email"@,
        Field::Text(email),
    )
}

/// The fields that a new order is stored as: its quantity, the contact
/// details and the number of the collection method.
pub open spec fn order_fields(
    quantity: i32,
    name: Seq<char>,
    email: Seq<char>,
    method: CollectionMethod,
) -> Map<Seq<char>, Field> {
    no_fields().insert("quantity"@, Field::Int32(quantity)).insert(
        "user"@,
        Field::Nested(user_fields(name, email)),
    ).insert("method"@, Field::Int32(method_number(method)))
}

/// The fields that an address is stored as. An address without an apartment
/// is stored with an empty one.
pub open spec fn address_fields(address: AddressView) -> Map<Seq<char>, Field> {
    no_fields().insert(
        "apartment"@,
        Field::Text(or_empty(address.apartment)),
    ).insert("street"@, Field::Text(address.street)).insert(
        "town"@,
        Field::Text(address.town),
    ).insert("state"@, Field::Text(address.state)).insert(
        "post_code"@,
        Field::Int32(address.post_code),
    )
}

/// The fields that a postage selection is stored as.
pub open spec fn postage_fields(code: Seq<char>) -> Map<Seq<char>, Field> {
    no_fields().insert("code"@, Field::Text(code))
}

/// The fields that the reference to a payment transaction is stored as.
pub open spec fn payment_fields(pi: Seq<char>) -> Map<Seq<char>, Field> {
    no_fields().insert(
        "stripe"@,
        Field::Nested(no_fields().insert("pi"@, Field::Text(pi))),
    )
}

/// The fields of an update that sets the part `key` of a record to `value`.
pub open spec fn set_fields(key: Seq<char>, value: Map<Seq<char>, Field>) -> Map<
    Seq<char>,
    Field,
> {
    no_fields().insert(
        "$set"@,
        Field::Nested(no_fields().insert(key, Field::Nested(value))),
    )
}

/// The fields of the filter that selects the record with the identifier
/// that `id` is read as.
pub open spec fn id_filter_fields(id: Seq<char>) -> Map<Seq<char>, Field> {
    no_fields().insert("_id"@, Field::ObjectId(canonical_id(id)))
}

/// The document that a new order is inserted as.
pub fn order_document(quantity: i32, name: &str, email: &str, method: CollectionMethod) -> (r:
    Document)
    ensures
        doc_fields(r) == order_fields(quantity, name@, email@, method),
{
    let mut user = new_document();
    insert_str(&mut user, "name", name);
    insert_str(&mut user, "email", email);
    let mut order = new_document();
    insert_i32(&mut order, "quantity", quantity);
    insert_document(&mut order, "user", user);
    insert_i32(
        &mut order,
        "method",
        match method {
            CollectionMethod::Pickup => 1,
            CollectionMethod::Post => 0,
        },
    );
    order
}

/// The document that sets the part `key` of a record to `value`.
fn set_document(key: &str, value: Document) -> (r: Document)
    ensures
        doc_fields(r) == set_fields(key@, doc_fields(value)),
{
    let mut changes = new_document();
    insert_document(&mut changes, key, value);
    let mut update = new_document();
    insert_document(&mut update, "$set", changes);
    update
}

/// The update that sets the address of a record.
pub fn address_update(address: &Address) -> (r: Document)
    ensures
        doc_fields(r) == set_fields("address"@, address_fields(address@)),
{
    let mut fields = new_document();
    match &address.apartment {
        Some(apartment) => insert_str(&mut fields, "apartment", apartment.as_str()),
        None => insert_str(&mut fields, "apartment", ""),
    }
    insert_str(&mut fields, "street", address.street.as_str());
    insert_str(&mut fields, "town", address.town.as_str());
    insert_str(&mut fields, "state", address.state.as_str());
    insert_i32(&mut fields, "post_code", address.post_code);
    proof {
        reveal_strlit("");
        assert(""@ =~= Seq::<char>::empty());
    }
    set_document("address", fields)
}

/// The update that sets the postage selection of a record.
pub fn postage_update(code: &str) -> (r: Document)
    ensures
        doc_fields(r) == set_fields("postage"@, postage_fields(code@)),
{
    let mut fields = new_document();
    insert_str(&mut fields, "code", code);
    set_document("postage", fields)
}

/// The update that sets the payment transaction of a record.
pub fn payment_update(pi: &str) -> (r: Document)
    ensures
        doc_fields(r) == set_fields("payment"@, payment_fields(pi@)),
{
    let mut stripe = new_document();
    insert_str(&mut stripe, "pi", pi);
    let mut fields = new_document();
    insert_document(&mut fields, "stripe", stripe);
    set_document("payment", fields)
}

/// The filter that selects the record with the identifier `id`, or `None`
/// where `id` is not 24 hexadecimal digits.
pub fn id_filter(id: &str) -> (r: Option<Document>)
    ensures
        r is Some <==> is_id_text(id@),
        r is Some ==> doc_fields(r->0) == id_filter_fields(id@),
{
    let mut filter = new_document();
    if insert_object_id(&mut filter, "_id", id) {
        Some(filter)
    } else {
        None
    }
}

/// The record that a store holds once it has inserted `fields` under the
/// identifier `id`.
pub open spec fn inserted_record(fields: Map<Seq<char>, Field>, id: Seq<char>) -> Map<
    Seq<char>,
    Field,
> {
    fields.insert("_id"@, Field::ObjectId(id))
}

/// The record that a store holds once it has applied `update` to `record`:
/// each part that the update sets has its new value, and every other part is
/// as it was. An update that sets nothing changes nothing.
pub open spec fn updated_record(
    record: Map<Seq<char>, Field>,
    update: Map<Seq<char>, Field>,
) -> Map<Seq<char>, Field> {
    match document_at(update, "$set"@) {
        Some(changes) => record.union_prefer_right(changes),
        None => record,
    }
}

/// The keys of the parts of an order record differ from each other.
proof fn lemma_order_keys_differ()
    ensures
        "_id"@ != "quantity"@,
        "_id"@ != "user"@,
        "_id"@ != "method"@,
        "_id"@ != "address"@,
        "_id"@ != "postage"@,
        "_id"@ != "payment"@,
        "quantity"@ != "user"@,
        "quantity"@ != "method"@,
        "quantity"@ != "address"@,
        "quantity"@ != "postage"@,
        "quantity"@ != "payment"@,
        "user"@ != "method"@,
        "user"@ != "address"@,
        "user"@ != "postage"@,
        "user"@ != "payment"@,
        "method"@ != "address"@,
        "method"@ != "postage"@,
        "method"@ != "payment"@,
        "address"@ != "postage"@,
        "address"@ != "payment"@,
        "postage"@ != "payment"@,
{
    reveal_strlit("_id");
    reveal_strlit("quantity");
    reveal_strlit("user");
    reveal_strlit("method");
    reveal_strlit("address");
    reveal_strlit("postage");
    reveal_strlit("payment");
    assert("_id"@.len() == 3);
    assert("quantity"@.len() == 8);
    assert("user"@.len() == 4);
    assert("method"@.len() == 6);
    assert("address"@.len() == 7);
    assert("postage"@.len() == 7);
    assert("payment"@.len() == 7);
    assert("address"@[0] != "postage"@[0]);
    assert("address"@[0] != "payment"@[0]);
    assert("postage"@[1] != "payment"@[1]);
}

/// Contact details are read back as they were stored.
pub proof fn lemma_user_is_read_as_stored(name: Seq<char>, email: Seq<char>)
    ensures
        decode_user(user_fields(name, email)) == (UserView { name, email }),
{
    reveal_strlit("name");
    reveal_strlit("email");
    assert("name"@.len() == 4);
    assert("email"@.len() == 5);
}

/// An address is read back as it was stored, but that an address without an
/// apartment comes back with an empty one.
pub proof fn lemma_address_is_read_as_stored(address: AddressView)
    ensures
        decode_address(address_fields(address)) == (AddressView {
            apartment: Some(or_empty(address.apartment)),
            ..address
        }),
{
    reveal_strlit("apartment");
    reveal_strlit("street");
    reveal_strlit("town");
    reveal_strlit("state");
    reveal_strlit("post_code");
    assert("apartment"@.len() == 9);
    assert("street"@.len() == 6);
    assert("town"@.len() == 4);
    assert("state"@.len() == 5);
    assert("post_code"@.len() == 9);
    assert("apartment"@[0] != "post_code"@[0]);
}

/// A postage selection is read back as it was stored.
pub proof fn lemma_postage_is_read_as_stored(code: Seq<char>)
    ensures
        decode_postage(postage_fields(code)) == (PostageView { code }),
{
}

/// The reference to a payment transaction is read back as it was stored,
/// without a client secret.
pub proof fn lemma_payment_is_read_as_stored(pi: Seq<char>)
    ensures
        decode_payment(payment_fields(pi)) == (PaymentView {
            stripe: Some(PaymentStripeView { pi, client_secret: None }),
        }),
{
}

/// A new order is read back as it was inserted: with the identifier that
/// the store gave it, the quantity, contact details and collection method
/// that were written, and no address, postage or payment.
pub proof fn lemma_new_order_is_read_as_stored(
    quantity: i32,
    name: Seq<char>,
    email: Seq<char>,
    method: CollectionMethod,
    id: Seq<char>,
)
    ensures
        decode_order(inserted_record(order_fields(quantity, name, email, method), id)) == (
            OrderView {
                id,
                quantity,
                address: None,
                user: UserView { name, email },
                method,
                postage: None,
                payment: None,
            }
        ),
{
    lemma_order_keys_differ();
    lemma_user_is_read_as_stored(name, email);
}

/// After the address of a record was set, the record is read with that
/// address and is otherwise read as before.
pub proof fn lemma_address_update_sets_the_address(
    record: Map<Seq<char>, Field>,
    address: AddressView,
)
    ensures
        decode_order(updated_record(record, set_fields("address"@, address_fields(address))))
            == (OrderView {
            address: Some(
                AddressView { apartment: Some(or_empty(address.apartment)), ..address },
            ),
            ..decode_order(record)
        }),
{
    lemma_order_keys_differ();
    lemma_address_is_read_as_stored(address);
}

/// After the postage selection of a record was set, the record is read with
/// that selection and is otherwise read as before.
pub proof fn lemma_postage_update_sets_the_postage(record: Map<Seq<char>, Field>, code: Seq<char>)
    ensures
        decode_order(updated_record(record, set_fields("postage"@, postage_fields(code)))) == (
            OrderView { postage: Some(PostageView { code }), ..decode_order(record) }
        ),
{
    lemma_order_keys_differ();
    lemma_postage_is_read_as_stored(code);
}

/// After the payment transaction of a record was set, the record is read
/// with that transaction and is otherwise read as before.
pub proof fn lemma_payment_update_sets_the_payment(record: Map<Seq<char>, Field>, pi: Seq<char>)
    ensures
        decode_order(updated_record(record, set_fields("payment"@, payment_fields(pi)))) == (
            OrderView {
                payment: Some(
                    PaymentView { stripe: Some(PaymentStripeView { pi, client_secret: None }) },
                ),
                ..decode_order(record)
            }
        ),
{
    lemma_order_keys_differ();
    lemma_payment_is_read_as_stored(pi);
}

} // verus!
