//! The operations that read orders.
//!
//! Each is a state machine, driven like the operations that change an order:
//! first called in [`QueryState::Start`] with [`Event::Start`], then again
//! with the event for each action it asked for.

use crate::db::document::is_id_text;
use crate::db::helpers::{all, get};
use crate::db::records::{id_filter, id_filter_fields};
use crate::errors::OrderError;
use crate::graphql::context::{Action, ActionView, Event, EventView, Step, StepView};
use crate::graphql::mutation_root::{as_unsigned, payment_id, to_unsigned};
use crate::models::{
    quote_query, CollectionMethod, Order, OrderView, PostDeliveryOption, PostDeliveryOptionView,
};
use crate::pricing::{price, total_cents};
use vstd::prelude::*;

verus! {

/// The operations that read orders.
pub struct QueryRoot;

/// How far a query has come.
#[derive(Clone, Copy, Debug, PartialEq, Eq, Structural)]
pub enum QueryState {
    /// Nothing has been done.
    Start,
    /// The store was asked for the order, or for all orders.
    Finding,
    /// The shipping rate service was asked for the delivery options.
    Quoting,
    /// The payment service was asked for the transaction.
    Retrieving,
}

impl View for QueryState {
    type V = QueryState;

    open spec fn view(&self) -> QueryState {
        *self
    }
}

impl DeepView for QueryState {
    type V = QueryState;

    open spec fn deep_view(&self) -> QueryState {
        *self
    }
}

/// The first step of a query for one order: the lookup of the order, or
/// `InvalidId` where the identifier is not 24 hexadecimal digits.
pub open spec fn lookup_step<T>(id: Seq<char>) -> StepView<QueryState, T> {
    if is_id_text(id) {
        StepView::Call {
            state: QueryState::Finding,
            action: ActionView::FindOrder { filter: id_filter_fields(id) },
        }
    } else {
        StepView::Done { result: Err(OrderError::InvalidId) }
    }
}

/// One step of listing all orders: the store is asked for them, and what it
/// lists is the result.
pub open spec fn orders_step(state: QueryState, event: EventView) -> StepView<
    QueryState,
    Seq<OrderView>,
> {
    match (state, event) {
        (QueryState::Start, EventView::Start) => StepView::Call {
            state: QueryState::Finding,
            action: ActionView::FindOrders,
        },
        (QueryState::Finding, EventView::FoundAll { orders }) => StepView::Done {
            result: Ok(orders),
        },
        _ => StepView::Done { result: Err(OrderError::InvalidState) },
    }
}

/// One step of fetching one order: the result is the order that the store
/// found, or nothing where it found none.
pub open spec fn order_step(id: Seq<char>, state: QueryState, event: EventView) -> StepView<
    QueryState,
    Option<OrderView>,
> {
    match (state, event) {
        (QueryState::Start, EventView::Start) => lookup_step(id),
        (QueryState::Finding, EventView::Found { order }) => StepView::Done { result: Ok(order) },
        _ => StepView::Done { result: Err(OrderError::InvalidState) },
    }
}

/// One step of quoting the postage of a stored order. An order that is not
/// there gives `NotFound`, one without an address `NoAddressOnOrder`, one
/// with a quantity below one `InvalidQuantity`. Otherwise the delivery
/// options are asked for the stored quantity and post code, and all that are
/// quoted are the result; a failed quote gives `InvalidQuantity`.
pub open spec fn calculate_postage_step(
    id: Seq<char>,
    state: QueryState,
    event: EventView,
) -> StepView<QueryState, Seq<PostDeliveryOptionView>> {
    match (state, event) {
        (QueryState::Start, EventView::Start) => lookup_step(id),
        (QueryState::Finding, EventView::Found { order }) => match order {
            None => StepView::Done { result: Err(OrderError::NotFound) },
            Some(stored) => match stored.address {
                None => StepView::Done { result: Err(OrderError::NoAddressOnOrder) },
                Some(address) => if stored.quantity < 1 {
                    StepView::Done { result: Err(OrderError::InvalidQuantity) }
                } else {
                    StepView::Call {
                        state: QueryState::Quoting,
                        action: ActionView::QuotePostage {
                            query: quote_query(
                                stored.quantity as nat,
                                as_unsigned(address.post_code) as nat,
                            ),
                        },
                    }
                },
            },
        },
        (QueryState::Quoting, EventView::Quoted { options }) => match options {
            Ok(found) => StepView::Done { result: Ok(found) },
            Err(_) => StepView::Done { result: Err(OrderError::InvalidQuantity) },
        },
        _ => StepView::Done { result: Err(OrderError::InvalidState) },
    }
}

/// The step of a query that asks the payment service for the transaction of
/// a stored order: `NotFound` where the order is not there, `InvalidState`
/// where it has no payment transaction.
pub open spec fn retrieve_step<T>(order: Option<OrderView>) -> StepView<QueryState, T> {
    match order {
        None => StepView::Done { result: Err(OrderError::NotFound) },
        Some(stored) => match payment_id(stored) {
            None => StepView::Done { result: Err(OrderError::InvalidState) },
            Some(pi) => StepView::Call {
                state: QueryState::Retrieving,
                action: ActionView::RetrievePayment { pi },
            },
        },
    }
}

/// One step of fetching the price of an order: the amount in cents that the
/// payment service holds for its transaction at this moment. Where the
/// payment service does not return the transaction the result is
/// `InternalDecodeError`.
pub open spec fn order_price_step(id: Seq<char>, state: QueryState, event: EventView) -> StepView<
    QueryState,
    u64,
> {
    match (state, event) {
        (QueryState::Start, EventView::Start) => lookup_step(id),
        (QueryState::Finding, EventView::Found { order }) => retrieve_step(order),
        (QueryState::Retrieving, EventView::PaymentRetrieved { amount, secret }) => {
            StepView::Done { result: Ok(amount) }
        },
        (QueryState::Retrieving, EventView::PaymentFailed) => StepView::Done {
            result: Err(OrderError::InternalDecodeError),
        },
        _ => StepView::Done { result: Err(OrderError::InvalidState) },
    }
}

/// One step of fetching the client secret of the payment of an order, as the
/// payment service holds it at this moment. Where the payment service does
/// not return the transaction the result is `InternalDecodeError`; where the
/// transaction has no client secret, `InvalidState`.
pub open spec fn get_stripe_cs_step(
    id: Seq<char>,
    state: QueryState,
    event: EventView,
) -> StepView<QueryState, Seq<char>> {
    match (state, event) {
        (QueryState::Start, EventView::Start) => lookup_step(id),
        (QueryState::Finding, EventView::Found { order }) => retrieve_step(order),
        (QueryState::Retrieving, EventView::PaymentRetrieved { amount, secret }) => {
            match secret {
                Some(text) => StepView::Done { result: Ok(text) },
                None => StepView::Done { result: Err(OrderError::InvalidState) },
            }
        },
        (QueryState::Retrieving, EventView::PaymentFailed) => StepView::Done {
            result: Err(OrderError::InternalDecodeError),
        },
        _ => StepView::Done { result: Err(OrderError::InvalidState) },
    }
}

/// The name of a collection method.
pub open spec fn method_name(method: CollectionMethod) -> Seq<char> {
    match method {
        CollectionMethod::Pickup => "PICKUP"@,
        CollectionMethod::Post => "POST"@,
    }
}

/// One step of fetching how an order is collected: the name of the method
/// of the stored order, or `NotFound` where the order is not there.
pub open spec fn get_order_method_step(
    id: Seq<char>,
    state: QueryState,
    event: EventView,
) -> StepView<QueryState, Seq<char>> {
    match (state, event) {
        (QueryState::Start, EventView::Start) => lookup_step(id),
        (QueryState::Finding, EventView::Found { order }) => match order {
            None => StepView::Done { result: Err(OrderError::NotFound) },
            Some(stored) => StepView::Done { result: Ok(method_name(stored.method)) },
        },
        _ => StepView::Done { result: Err(OrderError::InvalidState) },
    }
}

/// The first step of a query for one order.
fn lookup<T: DeepView>(id: &str) -> (r: Step<QueryState, T>)
    ensures
        r.deep_view() == lookup_step::<T::V>(id@),
{
    match id_filter(id) {
        Some(filter) => Step::Call {
            state: QueryState::Finding,
            action: Action::FindOrder { filter },
        },
        None => Step::Done { result: Err(OrderError::InvalidId) },
    }
}

/// The step that asks the payment service for the transaction of an order.
fn retrieve<T: DeepView>(order: Option<Order>) -> (r: Step<QueryState, T>)
    ensures
        r.deep_view() == retrieve_step::<T::V>(order.deep_view()),
{
    match order {
        None => Step::Done { result: Err(OrderError::NotFound) },
        Some(stored) => match stored.payment_id() {
            None => Step::Done { result: Err(OrderError::InvalidState) },
            Some(pi) => Step::Call {
                state: QueryState::Retrieving,
                action: Action::RetrievePayment { pi },
            },
        },
    }
}

impl QueryRoot {
    /// All orders.
    pub fn orders(state: QueryState, event: Event) -> (r: Step<QueryState, Vec<Order>>)
        ensures
            r.deep_view() == orders_step(state, event@),
    {
        match (state, event) {
            (QueryState::Start, Event::Start) => Step::Call {
                state: QueryState::Finding,
                action: Action::FindOrders,
            },
            (QueryState::Finding, Event::FoundAll { items }) => {
                let orders: Vec<Order> = all(items);
                assert(orders.deep_view() =~= orders@.map_values(|o: Order| o@));
                Step::Done { result: Ok(orders) }
            },
            _ => Step::Done { result: Err(OrderError::InvalidState) },
        }
    }

    /// The order with the identifier `id`, if there is one.
    pub fn order(id: &str, state: QueryState, event: Event) -> (r: Step<
        QueryState,
        Option<Order>,
    >)
        ensures
            r.deep_view() == order_step(id@, state, event@),
    {
        match (state, event) {
            (QueryState::Start, Event::Start) => lookup(id),
            (QueryState::Finding, Event::Found { found }) => Step::Done { result: Ok(get(found)) },
            _ => Step::Done { result: Err(OrderError::InvalidState) },
        }
    }

    /// For an order, the delivery options and what each costs.
    pub fn calculate_postage(id: &str, state: QueryState, event: Event) -> (r: Step<
        QueryState,
        Vec<PostDeliveryOption>,
    >)
        ensures
            r.deep_view() == calculate_postage_step(id@, state, event@),
    {
        match (state, event) {
            (QueryState::Start, Event::Start) => lookup(id),
            (QueryState::Finding, Event::Found { found }) => match get::<Order>(found) {
                None => Step::Done { result: Err(OrderError::NotFound) },
                Some(stored) => match &stored.address {
                    None => Step::Done { result: Err(OrderError::NoAddressOnOrder) },
                    Some(address) => {
                        if stored.quantity < 1 {
                            Step::Done { result: Err(OrderError::InvalidQuantity) }
                        } else {
                            Step::Call {
                                state: QueryState::Quoting,
                                action: Action::QuotePostage {
                                    query: PostDeliveryOption::query(
                                        stored.quantity as u32,
                                        to_unsigned(address.post_code),
                                    ),
                                },
                            }
                        }
                    },
                },
            },
            (QueryState::Quoting, Event::Quoted { reply }) => match PostDeliveryOption::get(reply) {
                Ok(found) => Step::Done { result: Ok(found) },
                Err(_) => Step::Done { result: Err(OrderError::InvalidQuantity) },
            },
            _ => Step::Done { result: Err(OrderError::InvalidState) },
        }
    }

    /// The price of an order in cents, postage included once it has been
    /// selected, as the payment service holds it.
    pub fn order_price(id: &str, state: QueryState, event: Event) -> (r: Step<QueryState, u64>)
        ensures
            r.deep_view() == order_price_step(id@, state, event@),
    {
        match (state, event) {
            (QueryState::Start, Event::Start) => lookup(id),
            (QueryState::Finding, Event::Found { found }) => retrieve(get(found)),
            (QueryState::Retrieving, Event::PaymentRetrieved { amount, secret }) => {
                Step::Done { result: Ok(amount) }
            },
            (QueryState::Retrieving, Event::PaymentFailed) => Step::Done {
                result: Err(OrderError::InternalDecodeError),
            },
            _ => Step::Done { result: Err(OrderError::InvalidState) },
        }
    }

    /// The client secret of the payment of an order.
    pub fn get_stripe_cs(id: &str, state: QueryState, event: Event) -> (r: Step<QueryState, String>)
        ensures
            r.deep_view() == get_stripe_cs_step(id@, state, event@),
    {
        match (state, event) {
            (QueryState::Start, Event::Start) => lookup(id),
            (QueryState::Finding, Event::Found { found }) => retrieve(get(found)),
            (QueryState::Retrieving, Event::PaymentRetrieved { amount, secret }) => {
                match secret {
                    Some(text) => Step::Done { result: Ok(text) },
                    None => Step::Done { result: Err(OrderError::InvalidState) },
                }
            },
            (QueryState::Retrieving, Event::PaymentFailed) => Step::Done {
                result: Err(OrderError::InternalDecodeError),
            },
            _ => Step::Done { result: Err(OrderError::InvalidState) },
        }
    }

    /// How an order is collected: `PICKUP` or `POST`.
    pub fn get_order_method(id: &str, state: QueryState, event: Event) -> (r: Step<
        QueryState,
        String,
    >)
        ensures
            r.deep_view() == get_order_method_step(id@, state, event@),
    {
        match (state, event) {
            (QueryState::Start, Event::Start) => lookup(id),
            (QueryState::Finding, Event::Found { found }) => match get::<Order>(found) {
                None => Step::Done { result: Err(OrderError::NotFound) },
                Some(stored) => Step::Done {
                    result: Ok(
                        match stored.method {
                            CollectionMethod::Pickup => "PICKUP".to_owned(),
                            CollectionMethod::Post => "POST".to_owned(),
                        },
                    ),
                },
            },
            _ => Step::Done { result: Err(OrderError::InvalidState) },
        }
    }

    /// The price of an order in cents without postage: the unit price for
    /// each scarf. The figure is computed from the stored quantity alone and
    /// says nothing of what the payment service holds. An order with a
    /// quantity below one has no price.
    pub fn price_excluding_postage(order: &Order) -> (r: Result<u64, OrderError>)
        ensures
            order.quantity < 1 ==> r == Err::<u64, OrderError>(OrderError::InvalidQuantity),
            order.quantity >= 1 ==> r == Ok::<u64, OrderError>(
                total_cents(order.quantity as nat, 0) as u64,
            ),
    {
        if order.quantity < 1 {
            Err(OrderError::InvalidQuantity)
        } else {
            Ok(price(order.quantity as u32, 0))
        }
    }
}

} // verus!
