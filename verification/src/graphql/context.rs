//! The protocol between an operation and its collaborators: the order
//! store, the shipping rate service and the payment service.
//!
//! An operation never reaches a collaborator itself. It hands out an
//! [`Action`], and is called again with the [`Event`] that tells how the
//! action went.

use crate::db::document::{doc_fields, Field};
use crate::db::helpers::{decoded_all, decoded_one};
use crate::errors::OrderError;
use crate::models::{
    quoted_options, Order, OrderView, PostDeliveryOptionError, PostDeliveryOptionView,
    PostPricesService,
};
use mongodb::error::Error;
use mongodb::Document;
use vstd::prelude::*;

verus! {

/// The currency of a payment.
#[derive(Clone, Copy, Debug, PartialEq, Eq, Structural)]
pub enum Currency {
    /// Australian dollars.
    AUD,
}

/// What the payment service is asked to create a transaction for.
#[derive(Debug, PartialEq, Eq)]
pub struct PaymentRequest {
    /// The amount in cents.
    pub amount: u64,
    pub currency: Currency,
    /// A line for people to read.
    pub description: String,
    /// Pairs of a key and a value that the payment service keeps with the
    /// transaction.
    pub metadata: Vec<(String, String)>,
}

/// The mathematical value of a [`PaymentRequest`].
pub struct PaymentRequestView {
    pub amount: u64,
    pub currency: Currency,
    pub description: Seq<char>,
    pub metadata: Seq<(Seq<char>, Seq<char>)>,
}

impl View for PaymentRequest {
    type V = PaymentRequestView;

    open spec fn view(&self) -> PaymentRequestView {
        PaymentRequestView {
            amount: self.amount,
            currency: self.currency,
            description: self.description@,
            metadata: self.metadata.deep_view(),
        }
    }
}

impl DeepView for PaymentRequest {
    type V = PaymentRequestView;

    open spec fn deep_view(&self) -> PaymentRequestView {
        self@
    }
}

/// A request to a collaborator.
#[derive(Debug, PartialEq)]
pub enum Action {
    /// Insert this document into the order store; the store chooses its
    /// identifier.
    InsertOrder { document: Document },
    /// Apply `update` to the stored order that `filter` selects.
    UpdateOrder { filter: Document, update: Document },
    /// Read the stored order that `filter` selects.
    FindOrder { filter: Document },
    /// Read all stored orders.
    FindOrders,
    /// Ask the shipping rate service for delivery options, with these
    /// parameters.
    QuotePostage { query: Vec<(String, String)> },
    /// Ask the payment service to create a transaction.
    CreatePayment { request: PaymentRequest },
    /// Ask the payment service to set the amount of the transaction `pi`.
    UpdatePayment { pi: String, amount: u64 },
    /// Ask the payment service for the transaction `pi`.
    RetrievePayment { pi: String },
}

/// The mathematical value of an [`Action`]: a document is taken by its
/// fields.
pub enum ActionView {
    InsertOrder { fields: Map<Seq<char>, Field> },
    UpdateOrder { filter: Map<Seq<char>, Field>, update: Map<Seq<char>, Field> },
    FindOrder { filter: Map<Seq<char>, Field> },
    FindOrders,
    QuotePostage { query: Seq<(Seq<char>, Seq<char>)> },
    CreatePayment { request: PaymentRequestView },
    UpdatePayment { pi: Seq<char>, amount: u64 },
    RetrievePayment { pi: Seq<char> },
}

impl View for Action {
    type V = ActionView;

    open spec fn view(&self) -> ActionView {
        match *self {
            Action::InsertOrder { document } => ActionView::InsertOrder {
                fields: doc_fields(document),
            },
            Action::UpdateOrder { filter, update } => ActionView::UpdateOrder {
                filter: doc_fields(filter),
                update: doc_fields(update),
            },
            Action::FindOrder { filter } => ActionView::FindOrder { filter: doc_fields(filter) },
            Action::FindOrders => ActionView::FindOrders,
            Action::QuotePostage { query } => ActionView::QuotePostage {
                query: query.deep_view(),
            },
            Action::CreatePayment { request } => ActionView::CreatePayment { request: request@ },
            Action::UpdatePayment { pi, amount } => ActionView::UpdatePayment { pi: pi@, amount },
            Action::RetrievePayment { pi } => ActionView::RetrievePayment { pi: pi@ },
        }
    }
}

impl DeepView for Action {
    type V = ActionView;

    open spec fn deep_view(&self) -> ActionView {
        self@
    }
}

/// How an action went, or that an operation begins.
#[derive(Debug)]
pub enum Event {
    /// The operation was asked for; nothing has been done yet.
    Start,
    /// The store inserted the order and gave it this identifier.
    Inserted { id: String },
    /// The store applied the update.
    Stored,
    /// The store looked the order up: it found the document, found none, or
    /// failed.
    Found { found: Result<Option<Document>, Error> },
    /// The store listed its orders; an item that it failed to deliver is an
    /// error.
    FoundAll { items: Vec<Result<Document, Error>> },
    /// The shipping rate service answered with these services, or could not
    /// be reached.
    Quoted { reply: Option<Vec<PostPricesService>> },
    /// The payment service created the transaction `pi`.
    PaymentCreated { pi: String, client_secret: String },
    /// The payment service set the amount.
    PaymentUpdated,
    /// The payment service returned the transaction.
    PaymentRetrieved { amount: u64, secret: Option<String> },
    /// The payment service refused the request or could not be reached.
    PaymentFailed,
}

/// The mathematical value of an [`Event`]: a reply of the store is taken by
/// the orders that it is read as, and a reply of the shipping rate service
/// by the delivery options that it gives.
pub enum EventView {
    Start,
    Inserted { id: Seq<char> },
    Stored,
    Found { order: Option<OrderView> },
    FoundAll { orders: Seq<OrderView> },
    Quoted { options: Result<Seq<PostDeliveryOptionView>, PostDeliveryOptionError> },
    PaymentCreated { pi: Seq<char>, client_secret: Seq<char> },
    PaymentUpdated,
    PaymentRetrieved { amount: u64, secret: Option<Seq<char>> },
    PaymentFailed,
}

impl View for Event {
    type V = EventView;

    open spec fn view(&self) -> EventView {
        match *self {
            Event::Start => EventView::Start,
            Event::Inserted { id } => EventView::Inserted { id: id@ },
            Event::Stored => EventView::Stored,
            Event::Found { found } => EventView::Found { order: decoded_one::<Order>(found) },
            Event::FoundAll { items } => EventView::FoundAll {
                orders: decoded_all::<Order>(items@),
            },
            Event::Quoted { reply } => EventView::Quoted {
                options: quoted_options(reply.deep_view()),
            },
            Event::PaymentCreated { pi, client_secret } => EventView::PaymentCreated {
                pi: pi@,
                client_secret: client_secret@,
            },
            Event::PaymentUpdated => EventView::PaymentUpdated,
            Event::PaymentRetrieved { amount, secret } => EventView::PaymentRetrieved {
                amount,
                secret: secret.deep_view(),
            },
            Event::PaymentFailed => EventView::PaymentFailed,
        }
    }
}

impl DeepView for Event {
    type V = EventView;

    open spec fn deep_view(&self) -> EventView {
        self@
    }
}

/// What an operation does next: it asks a collaborator for something and
/// waits in a new state, or it ends.
#[derive(Debug, PartialEq)]
pub enum Step<S, T> {
    /// Perform `action`, and call the operation again in `state` with the
    /// event that tells how it went.
    Call { state: S, action: Action },
    /// The operation has ended with this result.
    Done { result: Result<T, OrderError> },
}

/// The mathematical value of a [`Step`].
pub enum StepView<S, T> {
    Call { state: S, action: ActionView },
    Done { result: Result<T, OrderError> },
}

impl<S: DeepView, T: DeepView> DeepView for Step<S, T> {
    type V = StepView<S::V, T::V>;

    open spec fn deep_view(&self) -> StepView<S::V, T::V> {
        match *self {
            Step::Call { state, action } => StepView::Call {
                state: state.deep_view(),
                action: action@,
            },
            Step::Done { result } => StepView::Done {
                result: match result {
                    Ok(value) => Ok(value.deep_view()),
                    Err(e) => Err(e),
                },
            },
        }
    }
}

/// What an operation has asked of its collaborators, and how it ended.
pub struct Trace<T> {
    /// The actions that the operation asked for, in order.
    pub actions: Seq<ActionView>,
    /// The result, once the operation has ended.
    pub result: Option<Result<T, OrderError>>,
}

/// The trace of an operation that is in `state` and is driven with `events`,
/// one after the other, until it ends or the events run out.
pub open spec fn run<S, T>(
    step: spec_fn(S, EventView) -> StepView<S, T>,
    state: S,
    events: Seq<EventView>,
) -> Trace<T>
    decreases events.len(),
{
    if events.len() == 0 {
        Trace { actions: Seq::empty(), result: None }
    } else {
        match step(state, events[0]) {
            StepView::Done { result } => Trace { actions: Seq::empty(), result: Some(result) },
            StepView::Call { state: next, action } => {
                let rest = run(step, next, events.drop_first());
                Trace { actions: seq![action] + rest.actions, result: rest.result }
            },
        }
    }
}

/// A run begins with one step: where that step ends the operation, so does
/// the run; where it asks for an action, the run goes on from the new state
/// with the remaining events.
pub proof fn lemma_run_first<S, T>(
    step: spec_fn(S, EventView) -> StepView<S, T>,
    state: S,
    first: EventView,
    rest: Seq<EventView>,
)
    ensures
        run(step, state, seq![first] + rest) == match step(state, first) {
            StepView::Done { result } => Trace { actions: Seq::empty(), result: Some(result) },
            StepView::Call { state: next, action } => Trace {
                actions: seq![action] + run(step, next, rest).actions,
                result: run(step, next, rest).result,
            },
        },
{
    let events = seq![first] + rest;
    assert(events.drop_first() =~= rest);
    assert(events[0] == first);
}

} // verus!
