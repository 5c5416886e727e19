//! The two operations that change an order: creating it, and selecting its
//! postage.
//!
//! Each is a state machine. It is called first in its `Start` state with
//! [`Event::Start`], and then, as long as it answers [`Step::Call`], again in
//! the state it returned with the event that tells how the action went.

use crate::db::document::is_id_text;
use crate::db::helpers::get;
use crate::db::records::{
    address_fields, address_update, id_filter, id_filter_fields, or_empty, order_document,
    order_fields, payment_fields, payment_update, postage_fields, postage_update, set_fields,
};
use crate::errors::OrderError;
use crate::graphql::context::{
    Action, ActionView, Currency, Event, EventView, PaymentRequest, PaymentRequestView, Step,
    StepView,
};
use crate::models::{
    quote_query, selected_price, Address, AddressView, CollectionMethod, Order, OrderView,
    Payment, PaymentStripe, PaymentStripeView, PaymentView, PostDeliveryOption,
};
use crate::pricing::{price, total_cents};
use crate::text::{decimal, decimal_text};
use vstd::prelude::*;

verus! {

/// The operations that change an order.
pub struct MutationRoot;

/// The code of the delivery option that a new order is priced with.
pub open spec fn post_option() -> Seq<char> {
    "AUS_PARCEL_REGULAR_PACKAGE_SMALL"@
}

/// What a buyer asks for when ordering.
#[derive(Debug, PartialEq, Eq)]
pub struct NewOrder {
    pub name: String,
    pub quantity: i32,
    pub email: String,
    pub address_apt: Option<String>,
    pub address_street: Option<String>,
    pub address_town: Option<String>,
    pub address_state: Option<String>,
    pub address_post_code: Option<i32>,
    pub delivery_method: CollectionMethod,
}

/// The mathematical value of a [`NewOrder`].
pub struct NewOrderView {
    pub name: Seq<char>,
    pub quantity: i32,
    pub email: Seq<char>,
    pub address_apt: Option<Seq<char>>,
    pub address_street: Option<Seq<char>>,
    pub address_town: Option<Seq<char>>,
    pub address_state: Option<Seq<char>>,
    pub address_post_code: Option<i32>,
    pub delivery_method: CollectionMethod,
}

impl View for NewOrder {
    type V = NewOrderView;

    open spec fn view(&self) -> NewOrderView {
        NewOrderView {
            name: self.name@,
            quantity: self.quantity,
            email: self.email@,
            address_apt: self.address_apt.deep_view(),
            address_street: self.address_street.deep_view(),
            address_town: self.address_town.deep_view(),
            address_state: self.address_state.deep_view(),
            address_post_code: self.address_post_code,
            delivery_method: self.delivery_method,
        }
    }
}

impl DeepView for NewOrder {
    type V = NewOrderView;

    open spec fn deep_view(&self) -> NewOrderView {
        self@
    }
}

/// How far the creation of an order has come.
#[derive(Debug, PartialEq, Eq)]
pub enum NewOrderState {
    /// Nothing has been done.
    Start,
    /// The store was asked to insert the order.
    Inserting,
    /// The store was asked to attach the address to order `id`.
    Addressing { id: String },
    /// The shipping rate service was asked for the delivery options.
    Quoting { id: String },
    /// The payment service was asked to create the transaction.
    Paying { id: String },
    /// The store was asked to record the transaction on order `id`.
    Recording { id: String, client_secret: String },
    /// The store was asked for the order as it now stands.
    Reading { client_secret: String },
}

/// The mathematical value of a [`NewOrderState`].
pub enum NewOrderStateView {
    Start,
    Inserting,
    Addressing { id: Seq<char> },
    Quoting { id: Seq<char> },
    Paying { id: Seq<char> },
    Recording { id: Seq<char>, client_secret: Seq<char> },
    Reading { client_secret: Seq<char> },
}

impl View for NewOrderState {
    type V = NewOrderStateView;

    open spec fn view(&self) -> NewOrderStateView {
        match *self {
            NewOrderState::Start => NewOrderStateView::Start,
            NewOrderState::Inserting => NewOrderStateView::Inserting,
            NewOrderState::Addressing { id } => NewOrderStateView::Addressing { id: id@ },
            NewOrderState::Quoting { id } => NewOrderStateView::Quoting { id: id@ },
            NewOrderState::Paying { id } => NewOrderStateView::Paying { id: id@ },
            NewOrderState::Recording { id, client_secret } => NewOrderStateView::Recording {
                id: id@,
                client_secret: client_secret@,
            },
            NewOrderState::Reading { client_secret } => NewOrderStateView::Reading {
                client_secret: client_secret@,
            },
        }
    }
}

impl DeepView for NewOrderState {
    type V = NewOrderStateView;

    open spec fn deep_view(&self) -> NewOrderStateView {
        self@
    }
}

/// The post code that a new order is sent to: zero where the buyer gave none.
pub open spec fn request_post_code(request: NewOrderView) -> i32 {
    match request.address_post_code {
        Some(c) => c,
        None => 0,
    }
}

/// The address that is stored with a new order that is sent by post. A part
/// that the buyer left out is stored as the empty text, the post code as
/// zero.
pub open spec fn request_address(request: NewOrderView) -> AddressView {
    AddressView {
        apartment: Some(or_empty(request.address_apt)),
        street: or_empty(request.address_street),
        town: or_empty(request.address_town),
        state: or_empty(request.address_state),
        post_code: request_post_code(request),
    }
}

/// A signed post code as the unsigned number that the shipping rate service
/// is asked with: itself where it is not negative, and 2^32 more where it is.
pub open spec fn as_unsigned(n: i32) -> u32 {
    if n >= 0 {
        n as u32
    } else {
        (n + 0x1_0000_0000) as u32
    }
}

/// The word for a collection method in the description of a payment.
pub open spec fn method_word(method: CollectionMethod) -> Seq<char> {
    match method {
        CollectionMethod::Pickup => "Pickup"@,
        CollectionMethod::Post => "Postage"@,
    }
}

/// The description of the payment for an order: who ordered how many
/// scarves, and how they are collected.
pub open spec fn payment_description(
    name: Seq<char>,
    quantity: nat,
    method: CollectionMethod,
) -> Seq<char> {
    name + ": Scarves x"@ + decimal(quantity) + " for "@ + method_word(method)
}

/// The payment that is asked for a new order with the given postage: the
/// total in Australian dollars, with the buyer's email and the quantity kept
/// along.
pub open spec fn payment_request(request: NewOrderView, postage_cents: u32) -> PaymentRequestView {
    PaymentRequestView {
        amount: total_cents(request.quantity as nat, postage_cents as nat) as u64,
        currency: Currency::AUD,
        description: payment_description(
            request.name,
            request.quantity as nat,
            request.delivery_method,
        ),
        metadata: seq![
            ("email"@, request.email),
            ("quantity"@, decimal(request.quantity as nat)),
        ],
    }
}

/// The identifier of the payment transaction of an order, if it has one.
pub open spec fn payment_id(order: OrderView) -> Option<Seq<char>> {
    match order.payment {
        Some(PaymentView { stripe: Some(stripe) }) => Some(stripe.pi),
        _ => None,
    }
}

/// The order with the client secret of its payment transaction set, or
/// `None` where the order has no payment transaction.
pub open spec fn with_client_secret(order: OrderView, client_secret: Seq<char>) -> Option<
    OrderView,
> {
    match order.payment {
        Some(PaymentView { stripe: Some(stripe) }) => Some(
            OrderView {
                payment: Some(
                    PaymentView {
                        stripe: Some(
                            PaymentStripeView { pi: stripe.pi, client_secret: Some(client_secret) },
                        ),
                    },
                ),
                ..order
            },
        ),
        _ => None,
    }
}

/// The order without the client secret of its payment transaction.
pub open spec fn without_client_secret(order: OrderView) -> OrderView {
    match order.payment {
        Some(PaymentView { stripe: Some(stripe) }) => OrderView {
            payment: Some(
                PaymentView {
                    stripe: Some(PaymentStripeView { pi: stripe.pi, client_secret: None }),
                },
            ),
            ..order
        },
        _ => order,
    }
}

/// One step of creating an order.
///
/// 1. A quantity below one ends the operation with `InvalidQuantity` before
///    anything is stored.
/// 2. The order is inserted; one sent by post then gets its address.
/// 3. For an order sent by post the delivery options are quoted, and the
///    postage is the price of the first option with the code
///    [`post_option`]. A failed quote ends the operation with
///    `InvalidQuantity`, a missing option with `InvalidPostageOption`. An
///    order that is picked up has no postage.
/// 4. A payment is asked for the total. Where that fails the operation ends
///    with `PaymentIntentCreationFailed`; the order stays stored.
/// 5. The payment transaction is recorded on the order, the order is read
///    back from the store, and is returned with the client secret set.
///
/// Where the store names the new order by something that is no identifier,
/// the operation ends with `InvalidId`. An event that does not answer the
/// action of the state ends the operation with `InvalidState`.
pub open spec fn new_order_step(
    request: NewOrderView,
    state: NewOrderStateView,
    event: EventView,
) -> StepView<NewOrderStateView, OrderView> {
    match (state, event) {
        (NewOrderStateView::Start, EventView::Start) => if request.quantity < 1 {
            StepView::Done { result: Err(OrderError::InvalidQuantity) }
        } else {
            StepView::Call {
                state: NewOrderStateView::Inserting,
                action: ActionView::InsertOrder {
                    fields: order_fields(
                        request.quantity,
                        request.name,
                        request.email,
                        request.delivery_method,
                    ),
                },
            }
        },
        (NewOrderStateView::Inserting, EventView::Inserted { id }) => if request.quantity < 1 {
            StepView::Done { result: Err(OrderError::InvalidState) }
        } else if !is_id_text(id) {
            StepView::Done { result: Err(OrderError::InvalidId) }
        } else {
            match request.delivery_method {
                CollectionMethod::Post => StepView::Call {
                    state: NewOrderStateView::Addressing { id },
                    action: ActionView::UpdateOrder {
                        filter: id_filter_fields(id),
                        update: set_fields("address"@, address_fields(request_address(request))),
                    },
                },
                CollectionMethod::Pickup => StepView::Call {
                    state: NewOrderStateView::Paying { id },
                    action: ActionView::CreatePayment { request: payment_request(request, 0) },
                },
            }
        },
        (NewOrderStateView::Addressing { id }, EventView::Stored) => if request.quantity < 1 {
            StepView::Done { result: Err(OrderError::InvalidState) }
        } else {
            StepView::Call {
                state: NewOrderStateView::Quoting { id },
                action: ActionView::QuotePostage {
                    query: quote_query(
                        request.quantity as nat,
                        as_unsigned(request_post_code(request)) as nat,
                    ),
                },
            }
        },
        (NewOrderStateView::Quoting { id }, EventView::Quoted { options }) => if request.quantity
            < 1 {
            StepView::Done { result: Err(OrderError::InvalidState) }
        } else {
            match options {
                Err(_) => StepView::Done { result: Err(OrderError::InvalidQuantity) },
                Ok(found) => match selected_price(found, post_option()) {
                    None => StepView::Done { result: Err(OrderError::InvalidPostageOption) },
                    Some(postage_cents) => StepView::Call {
                        state: NewOrderStateView::Paying { id },
                        action: ActionView::CreatePayment {
                            request: payment_request(request, postage_cents),
                        },
                    },
                },
            }
        },
        (NewOrderStateView::Paying { id }, EventView::PaymentCreated { pi, client_secret }) => {
            if is_id_text(id) {
                StepView::Call {
                    state: NewOrderStateView::Recording { id, client_secret },
                    action: ActionView::UpdateOrder {
                        filter: id_filter_fields(id),
                        update: set_fields("payment"@, payment_fields(pi)),
                    },
                }
            } else {
                StepView::Done { result: Err(OrderError::InvalidId) }
            }
        },
        (NewOrderStateView::Paying { id }, EventView::PaymentFailed) => StepView::Done {
            result: Err(OrderError::PaymentIntentCreationFailed),
        },
        (NewOrderStateView::Recording { id, client_secret }, EventView::Stored) => if is_id_text(
            id,
        ) {
            StepView::Call {
                state: NewOrderStateView::Reading { client_secret },
                action: ActionView::FindOrder { filter: id_filter_fields(id) },
            }
        } else {
            StepView::Done { result: Err(OrderError::InvalidId) }
        },
        (NewOrderStateView::Reading { client_secret }, EventView::Found { order }) => match order {
            None => StepView::Done { result: Err(OrderError::NotFound) },
            Some(stored) => match with_client_secret(stored, client_secret) {
                Some(created) => StepView::Done { result: Ok(created) },
                None => StepView::Done { result: Err(OrderError::InvalidState) },
            },
        },
        _ => StepView::Done { result: Err(OrderError::InvalidState) },
    }
}

/// How far the selection of postage has come.
#[derive(Debug, PartialEq, Eq)]
pub enum SetPostageState {
    /// Nothing has been done.
    Start,
    /// The store was asked to write the code onto the order.
    Writing,
    /// The store was asked for the order as it now stands.
    Reading,
    /// The shipping rate service was asked for the delivery options.
    Quoting { order: Order },
    /// The payment service was asked to set the new amount.
    Updating { order: Order },
}

/// The mathematical value of a [`SetPostageState`].
pub enum SetPostageStateView {
    Start,
    Writing,
    Reading,
    Quoting { order: OrderView },
    Updating { order: OrderView },
}

impl View for SetPostageState {
    type V = SetPostageStateView;

    open spec fn view(&self) -> SetPostageStateView {
        match *self {
            SetPostageState::Start => SetPostageStateView::Start,
            SetPostageState::Writing => SetPostageStateView::Writing,
            SetPostageState::Reading => SetPostageStateView::Reading,
            SetPostageState::Quoting { order } => SetPostageStateView::Quoting { order: order@ },
            SetPostageState::Updating { order } => SetPostageStateView::Updating { order: order@ },
        }
    }
}

impl DeepView for SetPostageState {
    type V = SetPostageStateView;

    open spec fn deep_view(&self) -> SetPostageStateView {
        self@
    }
}

/// One step of selecting the postage of the order `id`.
///
/// 1. An identifier that is not 24 hexadecimal digits ends the operation
///    with `InvalidId` before the store is asked anything.
/// 2. The code is written onto the order, whether or not it will turn out to
///    be the code of a quoted option.
/// 3. The order is read back. Where there is none the operation ends with
///    `NotFound`; where it has no payment transaction or no address, with
///    `InvalidState`; where its quantity is below one, with
///    `InvalidQuantity`.
/// 4. The delivery options are quoted for the stored quantity and post
///    code. A failed quote ends the operation with `InvalidQuantity`, and a
///    code that no option has with `InvalidPostageOption`.
/// 5. The payment service is asked to set the amount to the new total. The
///    order as read in step 3 is returned whether or not that succeeds.
///
/// An event that does not answer the action of the state ends the operation
/// with `InvalidState`.
pub open spec fn set_postage_step(
    id: Seq<char>,
    code: Seq<char>,
    state: SetPostageStateView,
    event: EventView,
) -> StepView<SetPostageStateView, OrderView> {
    match (state, event) {
        (SetPostageStateView::Start, EventView::Start) => if is_id_text(id) {
            StepView::Call {
                state: SetPostageStateView::Writing,
                action: ActionView::UpdateOrder {
                    filter: id_filter_fields(id),
                    update: set_fields("postage"@, postage_fields(code)),
                },
            }
        } else {
            StepView::Done { result: Err(OrderError::InvalidId) }
        },
        (SetPostageStateView::Writing, EventView::Stored) => if is_id_text(id) {
            StepView::Call {
                state: SetPostageStateView::Reading,
                action: ActionView::FindOrder { filter: id_filter_fields(id) },
            }
        } else {
            StepView::Done { result: Err(OrderError::InvalidId) }
        },
        (SetPostageStateView::Reading, EventView::Found { order }) => match order {
            None => StepView::Done { result: Err(OrderError::NotFound) },
            Some(stored) => if payment_id(stored) is None || stored.address is None {
                StepView::Done { result: Err(OrderError::InvalidState) }
            } else if stored.quantity < 1 {
                StepView::Done { result: Err(OrderError::InvalidQuantity) }
            } else {
                StepView::Call {
                    state: SetPostageStateView::Quoting { order: stored },
                    action: ActionView::QuotePostage {
                        query: quote_query(
                            stored.quantity as nat,
                            as_unsigned(stored.address->0.post_code) as nat,
                        ),
                    },
                }
            },
        },
        (SetPostageStateView::Quoting { order }, EventView::Quoted { options }) => if payment_id(
            order,
        ) is None || order.quantity < 1 {
            StepView::Done { result: Err(OrderError::InvalidState) }
        } else {
            match options {
                Err(_) => StepView::Done { result: Err(OrderError::InvalidQuantity) },
                Ok(found) => match selected_price(found, code) {
                    None => StepView::Done { result: Err(OrderError::InvalidPostageOption) },
                    Some(postage_cents) => StepView::Call {
                        state: SetPostageStateView::Updating { order },
                        action: ActionView::UpdatePayment {
                            pi: payment_id(order)->0,
                            amount: total_cents(order.quantity as nat, postage_cents as nat) as u64,
                        },
                    },
                },
            }
        },
        (SetPostageStateView::Updating { order }, EventView::PaymentUpdated) => StepView::Done {
            result: Ok(order),
        },
        (SetPostageStateView::Updating { order }, EventView::PaymentFailed) => StepView::Done {
            result: Ok(order),
        },
        _ => StepView::Done { result: Err(OrderError::InvalidState) },
    }
}

/// The text, or the empty text where there is none.
fn text_or_empty(text: &Option<String>) -> (r: String)
    ensures
        r@ == or_empty(text.deep_view()),
{
    match text {
        Some(t) => t.clone(),
        None => String::new(),
    }
}

/// A signed post code as the unsigned number that the shipping rate service
/// is asked with.
pub fn to_unsigned(n: i32) -> (r: u32)
    ensures
        r == as_unsigned(n),
{
    if n >= 0 {
        n as u32
    } else {
        (n as i64 + 0x1_0000_0000) as u32
    }
}

impl NewOrder {
    /// The address that is stored with this order when it is sent by post.
    pub fn address(&self) -> (r: Address)
        ensures
            r@ == request_address(self@),
    {
        Address {
            apartment: Some(text_or_empty(&self.address_apt)),
            street: text_or_empty(&self.address_street),
            town: text_or_empty(&self.address_town),
            state: text_or_empty(&self.address_state),
            post_code: match self.address_post_code {
                Some(c) => c,
                None => 0,
            },
        }
    }

    /// The payment that is asked for this order with the given postage.
    pub fn payment_request(&self, postage_cents: u32) -> (r: PaymentRequest)
        requires
            self.quantity >= 1,
        ensures
            r@ == payment_request(self@, postage_cents),
    {
        let quantity = self.quantity as u32;
        let word = match self.delivery_method {
            CollectionMethod::Pickup => "Pickup",
            CollectionMethod::Post => "Postage",
        };
        let description = self.name.clone().concat(": Scarves x").concat(
            decimal_text(quantity as u64).as_str(),
        ).concat(" for ").concat(word);
        let mut metadata: Vec<(String, String)> = Vec::new();
        metadata.push(("email".to_owned(), self.email.clone()));
        metadata.push(("quantity".to_owned(), decimal_text(quantity as u64)));
        assert(metadata.deep_view() =~= payment_request(self@, postage_cents).metadata);
        PaymentRequest {
            amount: price(quantity, postage_cents),
            currency: Currency::AUD,
            description,
            metadata,
        }
    }
}

impl Order {
    /// The identifier of the payment transaction of this order, if it has
    /// one.
    pub fn payment_id(&self) -> (r: Option<String>)
        ensures
            r.deep_view() == payment_id(self@),
    {
        match &self.payment {
            Some(payment) => match &payment.stripe {
                Some(stripe) => Some(stripe.pi.clone()),
                None => None,
            },
            None => None,
        }
    }

    /// This order with the client secret of its payment transaction set, or
    /// `None` where it has no payment transaction.
    pub fn with_client_secret(self, client_secret: String) -> (r: Option<Order>)
        ensures
            r.deep_view() == with_client_secret(self@, client_secret@),
    {
        match self.payment {
            Some(Payment { stripe: Some(stripe) }) => Some(
                Order {
                    id: self.id,
                    quantity: self.quantity,
                    address: self.address,
                    user: self.user,
                    method: self.method,
                    postage: self.postage,
                    payment: Some(
                        Payment {
                            stripe: Some(
                                PaymentStripe { pi: stripe.pi, client_secret: Some(client_secret) },
                            ),
                        },
                    ),
                },
            ),
            _ => None,
        }
    }
}

impl MutationRoot {
    /// Takes the details of a buyer, how they would like to receive their
    /// order and possibly their address, and creates the order: one step of
    /// it at each call.
    pub fn new_order(request: &NewOrder, state: NewOrderState, event: Event) -> (r: Step<
        NewOrderState,
        Order,
    >)
        ensures
            r.deep_view() == new_order_step(request@, state@, event@),
    {
        match (state, event) {
            (NewOrderState::Start, Event::Start) => {
                if request.quantity < 1 {
                    Step::Done { result: Err(OrderError::InvalidQuantity) }
                } else {
                    Step::Call {
                        state: NewOrderState::Inserting,
                        action: Action::InsertOrder {
                            document: order_document(
                                request.quantity,
                                request.name.as_str(),
                                request.email.as_str(),
                                request.delivery_method,
                            ),
                        },
                    }
                }
            },
            (NewOrderState::Inserting, Event::Inserted { id }) => {
                if request.quantity < 1 {
                    Step::Done { result: Err(OrderError::InvalidState) }
                } else {
                    match id_filter(id.as_str()) {
                        None => Step::Done { result: Err(OrderError::InvalidId) },
                        Some(filter) => match request.delivery_method {
                            CollectionMethod::Post => Step::Call {
                                state: NewOrderState::Addressing { id },
                                action: Action::UpdateOrder {
                                    filter,
                                    update: address_update(&request.address()),
                                },
                            },
                            CollectionMethod::Pickup => Step::Call {
                                state: NewOrderState::Paying { id },
                                action: Action::CreatePayment {
                                    request: request.payment_request(0),
                                },
                            },
                        },
                    }
                }
            },
            (NewOrderState::Addressing { id }, Event::Stored) => {
                if request.quantity < 1 {
                    Step::Done { result: Err(OrderError::InvalidState) }
                } else {
                    let post_code = match request.address_post_code {
                        Some(c) => c,
                        None => 0,
                    };
                    Step::Call {
                        state: NewOrderState::Quoting { id },
                        action: Action::QuotePostage {
                            query: PostDeliveryOption::query(
                                request.quantity as u32,
                                to_unsigned(post_code),
                            ),
                        },
                    }
                }
            },
            (NewOrderState::Quoting { id }, Event::Quoted { reply }) => {
                if request.quantity < 1 {
                    Step::Done { result: Err(OrderError::InvalidState) }
                } else {
                    match PostDeliveryOption::get(reply) {
                        Err(_) => Step::Done { result: Err(OrderError::InvalidQuantity) },
                        Ok(found) => {
                            match PostDeliveryOption::find_price(
                                &found,
                                "AUS_PARCEL_REGULAR_PACKAGE_SMALL",
                            ) {
                                None => Step::Done {
                                    result: Err(OrderError::InvalidPostageOption),
                                },
                                Some(postage_cents) => Step::Call {
                                    state: NewOrderState::Paying { id },
                                    action: Action::CreatePayment {
                                        request: request.payment_request(postage_cents),
                                    },
                                },
                            }
                        },
                    }
                }
            },
            (NewOrderState::Paying { id }, Event::PaymentCreated { pi, client_secret }) => {
                match id_filter(id.as_str()) {
                    Some(filter) => Step::Call {
                        state: NewOrderState::Recording { id, client_secret },
                        action: Action::UpdateOrder { filter, update: payment_update(pi.as_str()) },
                    },
                    None => Step::Done { result: Err(OrderError::InvalidId) },
                }
            },
            (NewOrderState::Paying { id }, Event::PaymentFailed) => Step::Done {
                result: Err(OrderError::PaymentIntentCreationFailed),
            },
            (NewOrderState::Recording { id, client_secret }, Event::Stored) => {
                match id_filter(id.as_str()) {
                    Some(filter) => Step::Call {
                        state: NewOrderState::Reading { client_secret },
                        action: Action::FindOrder { filter },
                    },
                    None => Step::Done { result: Err(OrderError::InvalidId) },
                }
            },
            (NewOrderState::Reading { client_secret }, Event::Found { found }) => {
                let order: Option<Order> = get(found);
                match order {
                    None => Step::Done { result: Err(OrderError::NotFound) },
                    Some(stored) => match stored.with_client_secret(client_secret) {
                        Some(created) => Step::Done { result: Ok(created) },
                        None => Step::Done { result: Err(OrderError::InvalidState) },
                    },
                }
            },
            _ => Step::Done { result: Err(OrderError::InvalidState) },
        }
    }

    /// Sets the postage that the buyer asked for, and brings the amount of
    /// the payment in line with it: one step at each call. Once this is done
    /// the order is final and needs only to be paid for.
    pub fn set_postage(id: &str, code: &str, state: SetPostageState, event: Event) -> (r: Step<
        SetPostageState,
        Order,
    >)
        ensures
            r.deep_view() == set_postage_step(id@, code@, state@, event@),
    {
        match (state, event) {
            (SetPostageState::Start, Event::Start) => match id_filter(id) {
                Some(filter) => Step::Call {
                    state: SetPostageState::Writing,
                    action: Action::UpdateOrder { filter, update: postage_update(code) },
                },
                None => Step::Done { result: Err(OrderError::InvalidId) },
            },
            (SetPostageState::Writing, Event::Stored) => match id_filter(id) {
                Some(filter) => Step::Call {
                    state: SetPostageState::Reading,
                    action: Action::FindOrder { filter },
                },
                None => Step::Done { result: Err(OrderError::InvalidId) },
            },
            (SetPostageState::Reading, Event::Found { found }) => {
                let order: Option<Order> = get(found);
                match order {
                    None => Step::Done { result: Err(OrderError::NotFound) },
                    Some(stored) => {
                        let post_code = match &stored.address {
                            Some(address) => Some(address.post_code),
                            None => None,
                        };
                        match (stored.payment_id(), post_code) {
                            (Some(_), Some(post_code)) => {
                                if stored.quantity < 1 {
                                    Step::Done { result: Err(OrderError::InvalidQuantity) }
                                } else {
                                    Step::Call {
                                        action: Action::QuotePostage {
                                            query: PostDeliveryOption::query(
                                                stored.quantity as u32,
                                                to_unsigned(post_code),
                                            ),
                                        },
                                        state: SetPostageState::Quoting { order: stored },
                                    }
                                }
                            },
                            _ => Step::Done { result: Err(OrderError::InvalidState) },
                        }
                    },
                }
            },
            (SetPostageState::Quoting { order }, Event::Quoted { reply }) => {
                match order.payment_id() {
                    None => Step::Done { result: Err(OrderError::InvalidState) },
                    Some(pi) => {
                        if order.quantity < 1 {
                            Step::Done { result: Err(OrderError::InvalidState) }
                        } else {
                            match PostDeliveryOption::get(reply) {
                                Err(_) => Step::Done { result: Err(OrderError::InvalidQuantity) },
                                Ok(found) => match PostDeliveryOption::find_price(&found, code) {
                                    None => Step::Done {
                                        result: Err(OrderError::InvalidPostageOption),
                                    },
                                    Some(postage_cents) => Step::Call {
                                        action: Action::UpdatePayment {
                                            pi,
                                            amount: price(order.quantity as u32, postage_cents),
                                        },
                                        state: SetPostageState::Updating { order },
                                    },
                                },
                            }
                        }
                    },
                }
            },
            (SetPostageState::Updating { order }, Event::PaymentUpdated) => Step::Done {
                result: Ok(order),
            },
            (SetPostageState::Updating { order }, Event::PaymentFailed) => Step::Done {
                result: Ok(order),
            },
            _ => Step::Done { result: Err(OrderError::InvalidState) },
        }
    }
}

} // verus!
