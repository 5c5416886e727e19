//! The data model: orders and their parts, and how each is read from a
//! stored document.

use crate::db::document::{
    doc_fields, document_at, get_document, get_i32, get_object_id, get_str, int32_at,
    object_id_at, text_at, Field,
};
use crate::db::FromDoc;
use crate::pricing::{is_price_text, parse_price_cents, price_text_cents};
use crate::text::{decimal, decimal_text, digit_char, digit_text};
use mongodb::Document;
use vstd::prelude::*;

verus! {

/// How the buyer receives the order.
#[derive(Clone, Copy, Debug, PartialEq, Eq, Structural)]
pub enum CollectionMethod {
    Pickup,
    Post,
}

/// Contact details of the person making the purchase.
#[derive(Debug, PartialEq, Eq)]
pub struct User {
    pub name: String,
    pub email: String,
}

/// The mathematical value of a [`User`].
pub struct UserView {
    pub name: Seq<char>,
    pub email: Seq<char>,
}

impl View for User {
    type V = UserView;

    open spec fn view(&self) -> UserView {
        UserView { name: self.name@, email: self.email@ }
    }
}

impl DeepView for User {
    type V = UserView;

    open spec fn deep_view(&self) -> UserView {
        self@
    }
}

impl Clone for User {
    fn clone(&self) -> (r: Self)
        ensures
            r == *self,
    {
        User { name: self.name.clone(), email: self.email.clone() }
    }
}

/// A delivery address.
#[derive(Debug, PartialEq, Eq)]
pub struct Address {
    pub apartment: Option<String>,
    pub street: String,
    pub town: String,
    pub state: String,
    pub post_code: i32,
}

/// The mathematical value of an [`Address`].
pub struct AddressView {
    pub apartment: Option<Seq<char>>,
    pub street: Seq<char>,
    pub town: Seq<char>,
    pub state: Seq<char>,
    pub post_code: i32,
}

impl View for Address {
    type V = AddressView;

    open spec fn view(&self) -> AddressView {
        AddressView {
            apartment: self.apartment.deep_view(),
            street: self.street@,
            town: self.town@,
            state: self.state@,
            post_code: self.post_code,
        }
    }
}

impl DeepView for Address {
    type V = AddressView;

    open spec fn deep_view(&self) -> AddressView {
        self@
    }
}

/// A copy of an optional string.
pub fn clone_text(text: &Option<String>) -> (r: Option<String>)
    ensures
        r == *text,
{
    match text {
        Some(t) => Some(t.clone()),
        None => None,
    }
}

impl Clone for Address {
    fn clone(&self) -> (r: Self)
        ensures
            r == *self,
    {
        Address {
            apartment: clone_text(&self.apartment),
            street: self.street.clone(),
            town: self.town.clone(),
            state: self.state.clone(),
            post_code: self.post_code,
        }
    }
}

/// The delivery option that the buyer selected.
#[derive(Debug, PartialEq, Eq)]
pub struct Postage {
    pub code: String,
}

/// The mathematical value of a [`Postage`].
pub struct PostageView {
    pub code: Seq<char>,
}

impl View for Postage {
    type V = PostageView;

    open spec fn view(&self) -> PostageView {
        PostageView { code: self.code@ }
    }
}

impl DeepView for Postage {
    type V = PostageView;

    open spec fn deep_view(&self) -> PostageView {
        self@
    }
}

impl Clone for Postage {
    fn clone(&self) -> (r: Self)
        ensures
            r == *self,
    {
        Postage { code: self.code.clone() }
    }
}

/// The payment transaction of an order at the payment service.
#[derive(Debug, PartialEq, Eq)]
pub struct PaymentStripe {
    /// The identifier of the transaction.
    pub pi: String,
    /// The secret that lets a client complete the payment. It is known right
    /// after the transaction was created and is never stored.
    pub client_secret: Option<String>,
}

/// The mathematical value of a [`PaymentStripe`].
pub struct PaymentStripeView {
    pub pi: Seq<char>,
    pub client_secret: Option<Seq<char>>,
}

impl View for PaymentStripe {
    type V = PaymentStripeView;

    open spec fn view(&self) -> PaymentStripeView {
        PaymentStripeView { pi: self.pi@, client_secret: self.client_secret.deep_view() }
    }
}

impl DeepView for PaymentStripe {
    type V = PaymentStripeView;

    open spec fn deep_view(&self) -> PaymentStripeView {
        self@
    }
}

impl Clone for PaymentStripe {
    fn clone(&self) -> (r: Self)
        ensures
            r == *self,
    {
        PaymentStripe { pi: self.pi.clone(), client_secret: clone_text(&self.client_secret) }
    }
}

/// The payment reference of an order.
#[derive(Debug, PartialEq, Eq)]
pub struct Payment {
    pub stripe: Option<PaymentStripe>,
}

/// The mathematical value of a [`Payment`].
pub struct PaymentView {
    pub stripe: Option<PaymentStripeView>,
}

impl View for Payment {
    type V = PaymentView;

    open spec fn view(&self) -> PaymentView {
        PaymentView { stripe: self.stripe.deep_view() }
    }
}

impl DeepView for Payment {
    type V = PaymentView;

    open spec fn deep_view(&self) -> PaymentView {
        self@
    }
}

impl Clone for Payment {
    fn clone(&self) -> (r: Self)
        ensures
            r == *self,
    {
        Payment {
            stripe: match &self.stripe {
                Some(s) => Some(s.clone()),
                None => None,
            },
        }
    }
}

/// A purchase order.
#[derive(Debug, PartialEq, Eq)]
pub struct Order {
    /// The identifier that the store gave the order: 24 lower-case
    /// hexadecimal digits, or empty where the stored record has none.
    pub id: String,
    pub quantity: i32,
    pub address: Option<Address>,
    pub user: User,
    pub method: CollectionMethod,
    pub postage: Option<Postage>,
    pub payment: Option<Payment>,
}

/// The mathematical value of an [`Order`].
pub struct OrderView {
    pub id: Seq<char>,
    pub quantity: i32,
    pub address: Option<AddressView>,
    pub user: UserView,
    pub method: CollectionMethod,
    pub postage: Option<PostageView>,
    pub payment: Option<PaymentView>,
}

impl View for Order {
    type V = OrderView;

    open spec fn view(&self) -> OrderView {
        OrderView {
            id: self.id@,
            quantity: self.quantity,
            address: self.address.deep_view(),
            user: self.user@,
            method: self.method,
            postage: self.postage.deep_view(),
            payment: self.payment.deep_view(),
        }
    }
}

impl DeepView for Order {
    type V = OrderView;

    open spec fn deep_view(&self) -> OrderView {
        self@
    }
}

impl Clone for Order {
    fn clone(&self) -> (r: Self)
        ensures
            r == *self,
    {
        Order {
            id: self.id.clone(),
            quantity: self.quantity,
            address: match &self.address {
                Some(a) => Some(a.clone()),
                None => None,
            },
            user: self.user.clone(),
            method: self.method,
            postage: match &self.postage {
                Some(p) => Some(p.clone()),
                None => None,
            },
            payment: match &self.payment {
                Some(p) => Some(p.clone()),
                None => None,
            },
        }
    }
}

/// How far an order has come, as its record shows. An order that is picked
/// up is complete once its payment transaction is recorded; one that is sent
/// by post, once its postage is selected. Whether the amount of the payment
/// has followed the selection shows at the payment service alone.
#[derive(Clone, Copy, Debug, PartialEq, Eq, Structural)]
pub enum OrderState {
    /// The order is stored, without an address and without a payment.
    Created,
    /// The address is stored, but no payment transaction.
    AddressAttached,
    /// The payment transaction is recorded, and no postage is selected.
    PaymentIntentCreated,
    /// The payment transaction is recorded and the postage is selected.
    PostageSelected,
}

/// The state that an order is in.
pub open spec fn order_state(order: OrderView) -> OrderState {
    match order.payment {
        Some(PaymentView { stripe: Some(_) }) => if order.postage is Some {
            OrderState::PostageSelected
        } else {
            OrderState::PaymentIntentCreated
        },
        _ => if order.address is Some {
            OrderState::AddressAttached
        } else {
            OrderState::Created
        },
    }
}

/// Whether an order is as every order that this library creates is: it is
/// for one scarf or more, and it has an address exactly if it is sent by
/// post. An order read from the store need not be so, since a record may
/// lack any of its parts.
pub open spec fn is_valid_order(order: OrderView) -> bool {
    &&& order.quantity >= 1
    &&& order.address is Some <==> order.method == CollectionMethod::Post
}

/// The string under `key`, or the empty string where there is none.
pub open spec fn text_or_empty(fields: Map<Seq<char>, Field>, key: Seq<char>) -> Seq<char> {
    match text_at(fields, key) {
        Some(t) => t,
        None => Seq::empty(),
    }
}

/// The 32-bit integer under `key`, or zero where there is none.
pub open spec fn int32_or_zero(fields: Map<Seq<char>, Field>, key: Seq<char>) -> i32 {
    match int32_at(fields, key) {
        Some(n) => n,
        None => 0,
    }
}

/// The contact details with both fields empty.
pub open spec fn empty_user() -> UserView {
    UserView { name: Seq::empty(), email: Seq::empty() }
}

/// The contact details that a document with the given fields is read as.
pub open spec fn decode_user(fields: Map<Seq<char>, Field>) -> UserView {
    UserView { name: text_or_empty(fields, "name"@), email: text_or_empty(fields, "email"@) }
}

/// The address with no apartment, empty texts and post code zero.
pub open spec fn empty_address() -> AddressView {
    AddressView {
        apartment: None,
        street: Seq::empty(),
        town: Seq::empty(),
        state: Seq::empty(),
        post_code: 0,
    }
}

/// The address that a document with the given fields is read as.
pub open spec fn decode_address(fields: Map<Seq<char>, Field>) -> AddressView {
    AddressView {
        apartment: text_at(fields, "apartment"@),
        street: text_or_empty(fields, "street"@),
        town: text_or_empty(fields, "town"@),
        state: text_or_empty(fields, "state"@),
        post_code: int32_or_zero(fields, "post_code"@),
    }
}

/// The postage selection that a document with the given fields is read as.
pub open spec fn decode_postage(fields: Map<Seq<char>, Field>) -> PostageView {
    PostageView { code: text_or_empty(fields, "code"@) }
}

/// The payment transaction that a document with the given fields is read as.
/// A stored record never yields a client secret.
pub open spec fn decode_payment_stripe(fields: Map<Seq<char>, Field>) -> PaymentStripeView {
    PaymentStripeView { pi: text_or_empty(fields, "pi"@), client_secret: None }
}

/// The payment reference that a document with the given fields is read as.
pub open spec fn decode_payment(fields: Map<Seq<char>, Field>) -> PaymentView {
    PaymentView {
        stripe: match document_at(fields, "stripe"@) {
            Some(d) => Some(decode_payment_stripe(d)),
            None => None,
        },
    }
}

/// The collection method that a stored number stands for: 1 is pickup, and
/// every other number, or none, is post.
pub open spec fn decode_method(stored: Option<i32>) -> CollectionMethod {
    if stored == Some(1i32) {
        CollectionMethod::Pickup
    } else {
        CollectionMethod::Post
    }
}

/// The order that a document with the given fields is read as.
pub open spec fn decode_order(fields: Map<Seq<char>, Field>) -> OrderView {
    OrderView {
        id: match object_id_at(fields, "_id"@) {
            Some(id) => id,
            None => Seq::empty(),
        },
        quantity: int32_or_zero(fields, "quantity"@),
        address: match document_at(fields, "address"@) {
            Some(d) => Some(decode_address(d)),
            None => None,
        },
        user: match document_at(fields, "user"@) {
            Some(d) => decode_user(d),
            None => empty_user(),
        },
        method: decode_method(int32_at(fields, "method"@)),
        postage: match document_at(fields, "postage"@) {
            Some(d) => Some(decode_postage(d)),
            None => None,
        },
        payment: match document_at(fields, "payment"@) {
            Some(d) => Some(decode_payment(d)),
            None => None,
        },
    }
}

/// The string under `key`, or the empty string where the field is missing or
/// holds no string.
fn text_field(item: &Document, key: &str) -> (r: String)
    ensures
        r@ == text_or_empty(doc_fields(*item), key@),
{
    match get_str(item, key) {
        Some(t) => t,
        None => String::new(),
    }
}

impl User {
    /// Contact details with an empty name and an empty email.
    pub fn default() -> (r: Self)
        ensures
            r@ == empty_user(),
    {
        User { name: String::new(), email: String::new() }
    }

    /// Reads contact details from a stored document.
    pub fn from_doc(item: Document) -> (r: Self)
        ensures
            r@ == decode_user(doc_fields(item)),
    {
        User { name: Self::doc_get_name(&item), email: Self::doc_get_email(&item) }
    }

    /// The stored name, or the empty string.
    pub fn doc_get_name(item: &Document) -> (r: String)
        ensures
            r@ == text_or_empty(doc_fields(*item), "name"@),
    {
        text_field(item, "name")
    }

    /// The stored email, or the empty string.
    pub fn doc_get_email(item: &Document) -> (r: String)
        ensures
            r@ == text_or_empty(doc_fields(*item), "email"@),
    {
        text_field(item, "email")
    }
}

impl Address {
    /// The address with no apartment, empty texts and post code zero.
    pub fn default() -> (r: Self)
        ensures
            r@ == empty_address(),
    {
        Address {
            apartment: None,
            street: String::new(),
            town: String::new(),
            state: String::new(),
            post_code: 0,
        }
    }

    /// Reads an address from a stored document.
    pub fn from_doc(item: Document) -> (r: Self)
        ensures
            r@ == decode_address(doc_fields(item)),
    {
        Address {
            apartment: Self::doc_get_apartment(&item),
            street: Self::doc_get_street(&item),
            town: Self::doc_get_town(&item),
            state: Self::doc_get_state(&item),
            post_code: Self::doc_get_post_code(&item),
        }
    }

    /// The stored apartment, if there is one.
    pub fn doc_get_apartment(item: &Document) -> (r: Option<String>)
        ensures
            r.deep_view() == text_at(doc_fields(*item), "apartment"@),
    {
        get_str(item, "apartment")
    }

    /// The stored street, or the empty string.
    pub fn doc_get_street(item: &Document) -> (r: String)
        ensures
            r@ == text_or_empty(doc_fields(*item), "street"@),
    {
        text_field(item, "street")
    }

    /// The stored town, or the empty string.
    pub fn doc_get_town(item: &Document) -> (r: String)
        ensures
            r@ == text_or_empty(doc_fields(*item), "town"@),
    {
        text_field(item, "town")
    }

    /// The stored state, or the empty string.
    pub fn doc_get_state(item: &Document) -> (r: String)
        ensures
            r@ == text_or_empty(doc_fields(*item), "state"@),
    {
        text_field(item, "state")
    }

    /// The stored post code, or zero.
    pub fn doc_get_post_code(item: &Document) -> (r: i32)
        ensures
            r == int32_or_zero(doc_fields(*item), "post_code"@),
    {
        match get_i32(item, "post_code") {
            Some(c) => c,
            None => 0,
        }
    }
}

impl Postage {
    /// The postage selection with an empty code.
    pub fn default() -> (r: Self)
        ensures
            r@ == (PostageView { code: Seq::empty() }),
    {
        Postage { code: String::new() }
    }

    /// Reads a postage selection from a stored document.
    pub fn from_doc(item: Document) -> (r: Self)
        ensures
            r@ == decode_postage(doc_fields(item)),
    {
        Postage { code: Self::doc_get_code(&item) }
    }

    /// The stored code, or the empty string.
    pub fn doc_get_code(item: &Document) -> (r: String)
        ensures
            r@ == text_or_empty(doc_fields(*item), "code"@),
    {
        text_field(item, "code")
    }
}

impl PaymentStripe {
    /// Reads a payment transaction from a stored document. The client secret
    /// is never stored, so the result has none.
    pub fn from_doc(item: Document) -> (r: Self)
        ensures
            r@ == decode_payment_stripe(doc_fields(item)),
    {
        PaymentStripe { pi: Self::doc_get_pi(&item), client_secret: None }
    }

    /// The stored transaction identifier, or the empty string.
    pub fn doc_get_pi(item: &Document) -> (r: String)
        ensures
            r@ == text_or_empty(doc_fields(*item), "pi"@),
    {
        text_field(item, "pi")
    }
}

impl Payment {
    /// Reads a payment reference from a stored document.
    pub fn from_doc(item: Document) -> (r: Self)
        ensures
            r@ == decode_payment(doc_fields(item)),
    {
        Payment { stripe: Self::doc_get_stripe(&item) }
    }

    /// The stored payment transaction, if there is one.
    pub fn doc_get_stripe(item: &Document) -> (r: Option<PaymentStripe>)
        ensures
            r.deep_view() == decode_payment(doc_fields(*item)).stripe,
    {
        match get_document(item, "stripe") {
            Some(d) => Some(PaymentStripe::from_doc(d)),
            None => None,
        }
    }
}

impl Order {
    /// The state that this order is in.
    pub fn state(&self) -> (r: OrderState)
        ensures
            r == order_state(self@),
    {
        let paid = match &self.payment {
            Some(payment) => payment.stripe.is_some(),
            None => false,
        };
        if paid {
            if self.postage.is_some() {
                OrderState::PostageSelected
            } else {
                OrderState::PaymentIntentCreated
            }
        } else if self.address.is_some() {
            OrderState::AddressAttached
        } else {
            OrderState::Created
        }
    }
}

impl FromDoc for Order {
    open spec fn decoded(fields: Map<Seq<char>, Field>) -> OrderView {
        decode_order(fields)
    }

    fn from_doc(item: Document) -> (r: Self) {
        Order {
            id: Self::doc_get_id(&item),
            quantity: Self::doc_get_quantity(&item),
            user: Self::doc_get_user(&item),
            address: Self::doc_get_address(&item),
            method: Self::doc_get_method(&item),
            postage: Self::doc_get_postage(&item),
            payment: Self::doc_get_payment(&item),
        }
    }
}

impl Order {
    /// The stored identifier as 24 lower-case hexadecimal digits, or the
    /// empty string where the record has none.
    pub fn doc_get_id(item: &Document) -> (r: String)
        ensures
            r@ == decode_order(doc_fields(*item)).id,
    {
        match get_object_id(item, "_id") {
            Some(id) => id,
            None => String::new(),
        }
    }

    /// The stored quantity, or zero.
    pub fn doc_get_quantity(item: &Document) -> (r: i32)
        ensures
            r == int32_or_zero(doc_fields(*item), "quantity"@),
    {
        match get_i32(item, "quantity") {
            Some(q) => q,
            None => 0,
        }
    }

    /// The stored contact details, or empty ones.
    pub fn doc_get_user(item: &Document) -> (r: User)
        ensures
            r@ == decode_order(doc_fields(*item)).user,
    {
        match get_document(item, "user") {
            Some(d) => User::from_doc(d),
            None => User::default(),
        }
    }

    /// The stored address, if there is one.
    pub fn doc_get_address(item: &Document) -> (r: Option<Address>)
        ensures
            r.deep_view() == decode_order(doc_fields(*item)).address,
    {
        match get_document(item, "address") {
            Some(d) => Some(Address::from_doc(d)),
            None => None,
        }
    }

    /// The stored postage selection, if there is one.
    pub fn doc_get_postage(item: &Document) -> (r: Option<Postage>)
        ensures
            r.deep_view() == decode_order(doc_fields(*item)).postage,
    {
        match get_document(item, "postage") {
            Some(d) => Some(Postage::from_doc(d)),
            None => None,
        }
    }

    /// The stored collection method: pickup where the record holds 1, post
    /// otherwise.
    pub fn doc_get_method(item: &Document) -> (r: CollectionMethod)
        ensures
            r == decode_method(int32_at(doc_fields(*item), "method"@)),
    {
        match get_i32(item, "method") {
            Some(1) => CollectionMethod::Pickup,
            _ => CollectionMethod::Post,
        }
    }

    /// The stored payment reference, if there is one.
    pub fn doc_get_payment(item: &Document) -> (r: Option<Payment>)
        ensures
            r.deep_view() == decode_order(doc_fields(*item)).payment,
    {
        match get_document(item, "payment") {
            Some(d) => Some(Payment::from_doc(d)),
            None => None,
        }
    }
}

/// One service in a reply of the shipping rate service.
#[derive(Debug, PartialEq, Eq)]
pub struct PostPricesService {
    pub code: String,
    pub name: String,
    /// The price as decimal text, where the service states one.
    pub price: Option<String>,
}

/// The mathematical value of a [`PostPricesService`].
pub struct PostPricesServiceView {
    pub code: Seq<char>,
    pub name: Seq<char>,
    pub price: Option<Seq<char>>,
}

impl View for PostPricesService {
    type V = PostPricesServiceView;

    open spec fn view(&self) -> PostPricesServiceView {
        PostPricesServiceView {
            code: self.code@,
            name: self.name@,
            price: self.price.deep_view(),
        }
    }
}

impl DeepView for PostPricesService {
    type V = PostPricesServiceView;

    open spec fn deep_view(&self) -> PostPricesServiceView {
        self@
    }
}

impl Clone for PostPricesService {
    fn clone(&self) -> (r: Self)
        ensures
            r == *self,
    {
        PostPricesService {
            code: self.code.clone(),
            name: self.name.clone(),
            price: clone_text(&self.price),
        }
    }
}

/// A delivery option with its price, as quoted for one order.
#[derive(Debug, PartialEq, Eq)]
pub struct PostDeliveryOption {
    pub name: String,
    pub code: String,
    /// The price in cents.
    pub price_cents: u32,
}

/// The mathematical value of a [`PostDeliveryOption`].
pub struct PostDeliveryOptionView {
    pub name: Seq<char>,
    pub code: Seq<char>,
    pub price_cents: u32,
}

impl View for PostDeliveryOption {
    type V = PostDeliveryOptionView;

    open spec fn view(&self) -> PostDeliveryOptionView {
        PostDeliveryOptionView { name: self.name@, code: self.code@, price_cents: self.price_cents }
    }
}

impl DeepView for PostDeliveryOption {
    type V = PostDeliveryOptionView;

    open spec fn deep_view(&self) -> PostDeliveryOptionView {
        self@
    }
}

impl Clone for PostDeliveryOption {
    fn clone(&self) -> (r: Self)
        ensures
            r == *self,
    {
        PostDeliveryOption {
            name: self.name.clone(),
            code: self.code.clone(),
            price_cents: self.price_cents,
        }
    }
}

/// The delivery options quoted for one order.
#[derive(Debug, PartialEq, Eq)]
pub struct PostDeliveryOptions {
    pub options: Vec<PostDeliveryOption>,
}

/// Why no delivery options could be quoted.
#[derive(Clone, Copy, Debug, PartialEq, Eq, Structural)]
pub enum PostDeliveryOptionError {
    /// The shipping rate service did not answer, or its answer held a price
    /// that cannot be read.
    ApiError,
}

/// The post code that parcels are sent from.
pub open spec fn origin_postcode() -> Seq<char> {
    "2077"@
}

/// The weight of `quantity` scarves in kilograms, as decimal text with one
/// decimal place: each scarf weighs a tenth of a kilogram.
pub open spec fn weight_text(quantity: nat) -> Seq<char> {
    decimal(quantity / 10) + "."@ + seq![digit_char((quantity % 10) as int)]
}

/// The parameters of a request for delivery options: the fixed origin and
/// parcel size, the destination and the weight.
pub open spec fn quote_query(quantity: nat, postcode: nat) -> Seq<(Seq<char>, Seq<char>)> {
    seq![
        ("from_postcode"@, origin_postcode()),
        ("to_postcode"@, decimal(postcode)),
        ("length"@, "22"@),
        ("width"@, "16"@),
        ("height"@, "7.7"@),
        ("weight"@, weight_text(quantity)),
    ]
}

/// The delivery option that a service of a reply stands for: a service
/// without a price costs nothing, and one whose price cannot be read stands
/// for no option.
pub open spec fn option_of_service(service: PostPricesServiceView) -> Option<
    PostDeliveryOptionView,
> {
    match service.price {
        None => Some(
            PostDeliveryOptionView { name: service.name, code: service.code, price_cents: 0 },
        ),
        Some(p) => if is_price_text(p) && price_text_cents(p) <= u32::MAX {
            Some(
                PostDeliveryOptionView {
                    name: service.name,
                    code: service.code,
                    price_cents: price_text_cents(p) as u32,
                },
            )
        } else {
            None
        },
    }
}

/// Whether every service of a reply stands for a delivery option.
pub open spec fn all_services_readable(services: Seq<PostPricesServiceView>) -> bool {
    forall|i: int| 0 <= i < services.len() ==> option_of_service(#[trigger] services[i]) is Some
}

/// The delivery options that a reply of the shipping rate service gives: one
/// for each service, in the order of the reply. There are none where the
/// service could not be reached (`None`) or the price of a service cannot be
/// read.
pub open spec fn quoted_options(reply: Option<Seq<PostPricesServiceView>>) -> Result<
    Seq<PostDeliveryOptionView>,
    PostDeliveryOptionError,
> {
    match reply {
        Some(services) => if all_services_readable(services) {
            Ok(services.map_values(|s: PostPricesServiceView| option_of_service(s)->0))
        } else {
            Err(PostDeliveryOptionError::ApiError)
        },
        None => Err(PostDeliveryOptionError::ApiError),
    }
}

/// The mathematical value of the outcome of a quote.
pub open spec fn quote_view(
    quote: Result<Vec<PostDeliveryOption>, PostDeliveryOptionError>,
) -> Result<Seq<PostDeliveryOptionView>, PostDeliveryOptionError> {
    match quote {
        Ok(options) => Ok(options.deep_view()),
        Err(e) => Err(e),
    }
}

/// Whether the option at `i` has the code, and none before it has.
pub open spec fn is_first_with_code(
    options: Seq<PostDeliveryOptionView>,
    code: Seq<char>,
    i: int,
) -> bool {
    &&& 0 <= i < options.len()
    &&& options[i].code == code
    &&& forall|j: int| 0 <= j < i ==> (#[trigger] options[j]).code != code
}

/// Whether some option has the code.
pub open spec fn has_code(options: Seq<PostDeliveryOptionView>, code: Seq<char>) -> bool {
    exists|i: int| is_first_with_code(options, code, i)
}

/// The position of the first option that has the code, where `has_code` holds.
pub open spec fn first_with_code(options: Seq<PostDeliveryOptionView>, code: Seq<char>) -> int {
    choose|i: int| is_first_with_code(options, code, i)
}

/// The price in cents of the first option that has the code, if any has.
pub open spec fn selected_price(options: Seq<PostDeliveryOptionView>, code: Seq<char>) -> Option<
    u32,
> {
    if has_code(options, code) {
        Some(options[first_with_code(options, code)].price_cents)
    } else {
        None
    }
}

/// An option with the code at any position means that some option is the
/// first with the code.
pub proof fn lemma_code_present(options: Seq<PostDeliveryOptionView>, code: Seq<char>, k: int)
    requires
        0 <= k < options.len(),
        options[k].code == code,
    ensures
        has_code(options, code),
        first_with_code(options, code) <= k,
    decreases k,
{
    if forall|j: int| 0 <= j < k ==> (#[trigger] options[j]).code != code {
        assert(is_first_with_code(options, code, k));
    } else {
        let j = choose|j: int| 0 <= j < k && (#[trigger] options[j]).code == code;
        lemma_code_present(options, code, j);
    }
}

impl PostDeliveryOption {
    /// The parameters of the request for delivery options for `quantity`
    /// scarves sent to `postcode`.
    pub fn query(quantity: u32, postcode: u32) -> (r: Vec<(String, String)>)
        ensures
            r.deep_view() == quote_query(quantity as nat, postcode as nat),
    {
        let weight = decimal_text((quantity / 10) as u64).concat(".").concat(
            digit_text((quantity % 10) as u64),
        );
        let mut r: Vec<(String, String)> = Vec::new();
        r.push(("from_postcode".to_owned(), "2077".to_owned()));
        r.push(("to_postcode".to_owned(), decimal_text(postcode as u64)));
        r.push(("length".to_owned(), "22".to_owned()));
        r.push(("width".to_owned(), "16".to_owned()));
        r.push(("height".to_owned(), "7.7".to_owned()));
        r.push(("weight".to_owned(), weight));
        assert(r.deep_view() =~= quote_query(quantity as nat, postcode as nat));
        r
    }

    /// The delivery options that a reply of the shipping rate service gives.
    /// `reply` is `None` where the service could not be reached. The options
    /// come in the order of the reply.
    pub fn get(reply: Option<Vec<PostPricesService>>) -> (r: Result<
        Vec<PostDeliveryOption>,
        PostDeliveryOptionError,
    >)
        ensures
            quote_view(r) == quoted_options(reply.deep_view()),
    {
        match reply {
            None => Err(PostDeliveryOptionError::ApiError),
            Some(services) => {
                let mut options: Vec<PostDeliveryOption> = Vec::new();
                let mut i: usize = 0;
                while i < services.len()
                    invariant
                        reply == Some(services),
                        i <= services.len(),
                        options.len() == i,
                        forall|j: int|
                            0 <= j < i ==> option_of_service(#[trigger] services[j]@) == Some(
                                options[j]@,
                            ),
                    decreases services.len() - i,
                {
                    match Self::from_api_service(&services[i]) {
                        Some(option) => {
                            options.push(option);
                        },
                        None => {
                            assert(services.deep_view()[i as int] == services[i as int]@);
                            assert(option_of_service(services.deep_view()[i as int]) is None);
                            return Err(PostDeliveryOptionError::ApiError);
                        },
                    }
                    i = i + 1;
                }
                proof {
                    assert forall|j: int| 0 <= j < services.len() implies option_of_service(
                        #[trigger] services.deep_view()[j],
                    ) is Some by {
                        assert(services.deep_view()[j] == services[j]@);
                    }
                    assert(options.deep_view() =~= services.deep_view().map_values(
                        |s: PostPricesServiceView| option_of_service(s)->0,
                    )) by {
                        assert forall|j: int| 0 <= j < options.len() implies options.deep_view()[j]
                            == option_of_service(services.deep_view()[j])->0 by {
                            assert(services.deep_view()[j] == services[j]@);
                            assert(options.deep_view()[j] == options[j]@);
                        }
                    }
                }
                Ok(options)
            },
        }
    }

    /// The delivery option that one service of a reply stands for, or `None`
    /// where its price cannot be read. A service without a price costs
    /// nothing.
    pub fn from_api_service(service: &PostPricesService) -> (r: Option<Self>)
        ensures
            r.deep_view() == option_of_service(service@),
    {
        let price_cents = match &service.price {
            Some(p) => match parse_price_cents(p.as_str()) {
                Some(cents) => cents,
                None => {
                    return None;
                },
            },
            None => 0,
        };
        Some(
            PostDeliveryOption {
                name: service.name.clone(),
                code: service.code.clone(),
                price_cents,
            },
        )
    }

    /// The price in cents of the first of `options` that has the code `code`,
    /// if any has.
    pub fn find_price(options: &Vec<PostDeliveryOption>, code: &str) -> (r: Option<u32>)
        ensures
            r == selected_price(options.deep_view(), code@),
    {
        let wanted = code.to_owned();
        let mut i: usize = 0;
        while i < options.len()
            invariant
                wanted@ == code@,
                i <= options.len(),
                forall|j: int| 0 <= j < i ==> (#[trigger] options.deep_view()[j]).code != code@,
            decreases options.len() - i,
        {
            assert(options.deep_view()[i as int] == options[i as int]@);
            if options[i].code == wanted {
                assert(is_first_with_code(options.deep_view(), code@, i as int));
                return Some(options[i].price_cents);
            }
            i = i + 1;
        }
        None
    }
}

} // verus!
