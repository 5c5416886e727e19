//! What holds of whole runs of the operations.
//!
//! A run is an operation driven from its start with the replies of its
//! collaborators. The order store is taken at its word: an insertion makes
//! the record that was written, under the identifier that the store chose,
//! and an update sets the parts that it names on the record that its filter
//! selects.

use crate::db::document::{is_canonical_id, is_id_text, lemma_canonical_is_id_text, Field};
use crate::db::records::{
    address_fields, id_filter_fields, inserted_record, lemma_address_update_sets_the_address,
    lemma_new_order_is_read_as_stored, lemma_payment_update_sets_the_payment,
    lemma_postage_update_sets_the_postage, order_fields, payment_fields, postage_fields,
    set_fields, updated_record,
};
use crate::errors::OrderError;
use crate::graphql::context::{lemma_run_first, run, ActionView, EventView, Trace};
use crate::graphql::mutation_root::{
    as_unsigned, new_order_step, payment_id, payment_request, post_option, request_address,
    request_post_code, set_postage_step, with_client_secret, without_client_secret,
    NewOrderStateView, NewOrderView, SetPostageStateView,
};
use crate::graphql::query_root::{
    calculate_postage_step, get_order_method_step, method_name, order_step, QueryState,
};
use crate::models::{
    decode_order, first_with_code, has_code, is_valid_order, lemma_code_present, order_state,
    quote_query, selected_price, CollectionMethod, OrderState, OrderView, PaymentStripeView, PaymentView, PostDeliveryOptionView,
    PostageView, UserView,
};
use crate::pricing::{total_cents, SCARVE_PRICE};
use vstd::prelude::*;

verus! {

/// The trace of creating an order, driven with the given replies.
pub open spec fn new_order_trace(request: NewOrderView, replies: Seq<EventView>) -> Trace<
    OrderView,
> {
    run(
        |state: NewOrderStateView, event: EventView| new_order_step(request, state, event),
        NewOrderStateView::Start,
        seq![EventView::Start] + replies,
    )
}

/// The trace of selecting the postage `code` for the order `id`, driven with
/// the given replies.
pub open spec fn set_postage_trace(
    id: Seq<char>,
    code: Seq<char>,
    replies: Seq<EventView>,
) -> Trace<OrderView> {
    run(
        |state: SetPostageStateView, event: EventView| set_postage_step(id, code, state, event),
        SetPostageStateView::Start,
        seq![EventView::Start] + replies,
    )
}

/// The trace of quoting the postage of the order `id`, driven with the given
/// replies.
pub open spec fn calculate_postage_trace(id: Seq<char>, replies: Seq<EventView>) -> Trace<
    Seq<PostDeliveryOptionView>,
> {
    run(
        |state: QueryState, event: EventView| calculate_postage_step(id, state, event),
        QueryState::Start,
        seq![EventView::Start] + replies,
    )
}

/// The trace of fetching the order `id`, driven with the given replies.
pub open spec fn order_trace(id: Seq<char>, replies: Seq<EventView>) -> Trace<Option<OrderView>> {
    run(
        |state: QueryState, event: EventView| order_step(id, state, event),
        QueryState::Start,
        seq![EventView::Start] + replies,
    )
}

/// The trace of fetching how the order `id` is collected, driven with the
/// given replies.
pub open spec fn get_order_method_trace(id: Seq<char>, replies: Seq<EventView>) -> Trace<
    Seq<char>,
> {
    run(
        |state: QueryState, event: EventView| get_order_method_step(id, state, event),
        QueryState::Start,
        seq![EventView::Start] + replies,
    )
}

/// The record of the order `id` after the store has performed one action.
/// An insertion makes the record, under the identifier `id` that the store
/// chose; an update whose filter selects the order `id` is applied to the
/// record; every other action leaves the record as it is.
pub open spec fn record_after(
    record: Option<Map<Seq<char>, Field>>,
    id: Seq<char>,
    action: ActionView,
) -> Option<Map<Seq<char>, Field>> {
    match action {
        ActionView::InsertOrder { fields } => Some(inserted_record(fields, id)),
        ActionView::UpdateOrder { filter, update } => match record {
            Some(held) => if filter == id_filter_fields(id) {
                Some(updated_record(held, update))
            } else {
                record
            },
            None => None,
        },
        _ => record,
    }
}

/// The record of the order `id` after the store has performed the actions in
/// order, where it held no such order before.
pub open spec fn record_after_all(id: Seq<char>, actions: Seq<ActionView>) -> Option<
    Map<Seq<char>, Field>,
>
    decreases actions.len(),
{
    if actions.len() == 0 {
        None
    } else {
        record_after(record_after_all(id, actions.drop_last()), id, actions.last())
    }
}

/// The record after one more action is the record after the actions before
/// it, with that action performed.
pub proof fn lemma_record_after_push(id: Seq<char>, actions: Seq<ActionView>, last: ActionView)
    ensures
        record_after_all(id, actions.push(last)) == record_after(
            record_after_all(id, actions),
            id,
            last,
        ),
{
    assert(actions.push(last).drop_last() =~= actions);
}

/// An order for fewer than one scarf is refused with `InvalidQuantity`
/// before anything is asked of a collaborator, whatever replies are at hand:
/// no record of the order exists afterwards.
pub proof fn lemma_invalid_quantity_stores_nothing(
    request: NewOrderView,
    replies: Seq<EventView>,
    id: Seq<char>,
)
    requires
        request.quantity < 1,
    ensures
        new_order_trace(request, replies).actions == Seq::<ActionView>::empty(),
        new_order_trace(request, replies).result == Some(
            Err::<OrderView, OrderError>(OrderError::InvalidQuantity),
        ),
        record_after_all(id, new_order_trace(request, replies).actions) is None,
{
    let step = |state: NewOrderStateView, event: EventView| new_order_step(request, state, event);
    lemma_run_first(step, NewOrderStateView::Start, EventView::Start, replies);
}

/// The replies that carry the creation of an order that is picked up to its
/// end: the store inserts the order, the payment service creates the
/// transaction, the store records it and then returns `held`.
pub open spec fn pickup_creation_replies(
    id: Seq<char>,
    pi: Seq<char>,
    client_secret: Seq<char>,
    held: Option<OrderView>,
) -> Seq<EventView> {
    seq![
        EventView::Inserted { id },
        EventView::PaymentCreated { pi, client_secret },
        EventView::Stored,
        EventView::Found { order: held },
    ]
}

/// The order that the creation of an order that is picked up leaves in the
/// store: the request's quantity and contact and the payment transaction,
/// without address or postage.
pub open spec fn created_pickup_order(request: NewOrderView, id: Seq<char>, pi: Seq<char>) -> OrderView {
    OrderView {
        id,
        quantity: request.quantity,
        address: None,
        user: UserView { name: request.name, email: request.email },
        method: CollectionMethod::Pickup,
        postage: None,
        payment: Some(
            PaymentView { stripe: Some(PaymentStripeView { pi, client_secret: None }) },
        ),
    }
}

/// An order of one or more scarves that is picked up is priced at the unit
/// price for each scarf and nothing else. Creating it inserts the order,
/// asks for a payment of that amount, records the payment transaction and
/// reads the order back; no postage is quoted and no address is stored. The
/// record that these writes leave is read as `created_pickup_order`, which
/// is a valid order, and where the store returns it the operation returns it
/// with the client secret of the new payment.
pub proof fn lemma_pickup_creation(
    request: NewOrderView,
    id: Seq<char>,
    pi: Seq<char>,
    client_secret: Seq<char>,
)
    requires
        request.quantity >= 1,
        request.delivery_method == CollectionMethod::Pickup,
        is_canonical_id(id),
    ensures
        ({
            let created = created_pickup_order(request, id, pi);
            let trace = new_order_trace(
                request,
                pickup_creation_replies(id, pi, client_secret, Some(created)),
            );
            &&& trace.actions == seq![
                ActionView::InsertOrder {
                    fields: order_fields(
                        request.quantity,
                        request.name,
                        request.email,
                        CollectionMethod::Pickup,
                    ),
                },
                ActionView::CreatePayment { request: payment_request(request, 0) },
                ActionView::UpdateOrder {
                    filter: id_filter_fields(id),
                    update: set_fields("payment"@, payment_fields(pi)),
                },
                ActionView::FindOrder { filter: id_filter_fields(id) },
            ]
            &&& record_after_all(id, trace.actions) matches Some(record) && decode_order(record)
                == created
            &&& is_valid_order(created)
            &&& order_state(created) == OrderState::PaymentIntentCreated
            &&& trace.result == Some(
                Ok::<OrderView, OrderError>(with_client_secret(created, client_secret)->0),
            )
        }),
        payment_request(request, 0).amount == SCARVE_PRICE * request.quantity,
        total_cents(request.quantity as nat, 0) == SCARVE_PRICE * request.quantity,
{
    let step = |state: NewOrderStateView, event: EventView| new_order_step(request, state, event);
    let created = created_pickup_order(request, id, pi);
    let e1 = EventView::Inserted { id };
    let e2 = EventView::PaymentCreated { pi, client_secret };
    let e3 = EventView::Stored;
    let e4 = EventView::Found { order: Some(created) };
    let none = Seq::<EventView>::empty();
    let a1 = ActionView::InsertOrder {
        fields: order_fields(
            request.quantity,
            request.name,
            request.email,
            CollectionMethod::Pickup,
        ),
    };
    let a2 = ActionView::CreatePayment { request: payment_request(request, 0) };
    let a3 = ActionView::UpdateOrder {
        filter: id_filter_fields(id),
        update: set_fields("payment"@, payment_fields(pi)),
    };
    let a4 = ActionView::FindOrder { filter: id_filter_fields(id) };
    lemma_canonical_is_id_text(id);
    let replies = pickup_creation_replies(id, pi, client_secret, Some(created));
    assert(replies =~= seq![e1] + seq![e2, e3, e4]);
    assert(seq![e2, e3, e4] =~= seq![e2] + seq![e3, e4]);
    assert(seq![e3, e4] =~= seq![e3] + seq![e4]);
    assert(seq![e4] =~= seq![e4] + none);
    lemma_run_first(step, NewOrderStateView::Start, EventView::Start, replies);
    lemma_run_first(step, NewOrderStateView::Inserting, e1, seq![e2, e3, e4]);
    lemma_run_first(step, NewOrderStateView::Paying { id }, e2, seq![e3, e4]);
    lemma_run_first(step, NewOrderStateView::Recording { id, client_secret }, e3, seq![e4]);
    lemma_run_first(step, NewOrderStateView::Reading { client_secret }, e4, none);
    let actions = new_order_trace(request, replies).actions;
    assert(actions =~= seq![a1, a2, a3, a4]);
    let s0 = Seq::<ActionView>::empty();
    assert(seq![a1, a2, a3, a4] =~= s0.push(a1).push(a2).push(a3).push(a4));
    lemma_record_after_push(id, s0, a1);
    lemma_record_after_push(id, s0.push(a1), a2);
    lemma_record_after_push(id, s0.push(a1).push(a2), a3);
    lemma_record_after_push(id, s0.push(a1).push(a2).push(a3), a4);
    let r1 = inserted_record(
        order_fields(request.quantity, request.name, request.email, CollectionMethod::Pickup),
        id,
    );
    let r2 = updated_record(r1, set_fields("payment"@, payment_fields(pi)));
    assert(record_after_all(id, actions) == Some(r2));
    lemma_new_order_is_read_as_stored(
        request.quantity,
        request.name,
        request.email,
        CollectionMethod::Pickup,
        id,
    );
    lemma_payment_update_sets_the_payment(r1, pi);
}

/// The replies that carry the creation of an order sent by post up to the
/// point where the store is asked for the order as it stands.
pub open spec fn post_creation_replies(
    id: Seq<char>,
    pi: Seq<char>,
    client_secret: Seq<char>,
    quoted: Seq<PostDeliveryOptionView>,
) -> Seq<EventView> {
    seq![
        EventView::Inserted { id },
        EventView::Stored,
        EventView::Quoted { options: Ok(quoted) },
        EventView::PaymentCreated { pi, client_secret },
        EventView::Stored,
    ]
}

/// The order that the creation of an order sent by post leaves in the
/// store: the request's quantity and contact, its address, and the payment
/// transaction; no postage has been selected.
pub open spec fn created_post_order(request: NewOrderView, id: Seq<char>, pi: Seq<char>) -> OrderView {
    OrderView {
        id,
        quantity: request.quantity,
        address: Some(request_address(request)),
        user: UserView { name: request.name, email: request.email },
        method: CollectionMethod::Post,
        postage: None,
        payment: Some(
            PaymentView { stripe: Some(PaymentStripeView { pi, client_secret: None }) },
        ),
    }
}

/// Creating an order that is sent by post inserts the order, stores its
/// address, asks for a quote for its quantity and post code, asks for a
/// payment of the total with the price of the default delivery option,
/// records the payment transaction and reads the order back. The record that
/// these writes leave is read as `created_post_order`.
pub proof fn lemma_post_creation(
    request: NewOrderView,
    id: Seq<char>,
    pi: Seq<char>,
    client_secret: Seq<char>,
    quoted: Seq<PostDeliveryOptionView>,
)
    requires
        request.quantity >= 1,
        request.delivery_method == CollectionMethod::Post,
        is_canonical_id(id),
        has_code(quoted, post_option()),
    ensures
        new_order_trace(request, post_creation_replies(id, pi, client_secret, quoted)).actions
            == seq![
            ActionView::InsertOrder {
                fields: order_fields(
                    request.quantity,
                    request.name,
                    request.email,
                    CollectionMethod::Post,
                ),
            },
            ActionView::UpdateOrder {
                filter: id_filter_fields(id),
                update: set_fields("address"@, address_fields(request_address(request))),
            },
            ActionView::QuotePostage {
                query: quote_query(
                    request.quantity as nat,
                    as_unsigned(request_post_code(request)) as nat,
                ),
            },
            ActionView::CreatePayment {
                request: payment_request(request, selected_price(quoted, post_option())->0),
            },
            ActionView::UpdateOrder {
                filter: id_filter_fields(id),
                update: set_fields("payment"@, payment_fields(pi)),
            },
            ActionView::FindOrder { filter: id_filter_fields(id) },
        ],
        payment_request(request, selected_price(quoted, post_option())->0).amount == SCARVE_PRICE
            * request.quantity + quoted[first_with_code(quoted, post_option())].price_cents,
        record_after_all(
            id,
            new_order_trace(request, post_creation_replies(id, pi, client_secret, quoted)).actions,
        ) matches Some(record) && decode_order(record) == created_post_order(request, id, pi),
        is_valid_order(created_post_order(request, id, pi)),
        order_state(created_post_order(request, id, pi)) == OrderState::PaymentIntentCreated,
{
    let step = |state: NewOrderStateView, event: EventView| new_order_step(request, state, event);
    let e1 = EventView::Inserted { id };
    let e2 = EventView::Stored;
    let e3 = EventView::Quoted { options: Ok(quoted) };
    let e4 = EventView::PaymentCreated { pi, client_secret };
    let e5 = EventView::Stored;
    let none = Seq::<EventView>::empty();
    let postage = selected_price(quoted, post_option())->0;
    let address = request_address(request);
    let a1 = ActionView::InsertOrder {
        fields: order_fields(
            request.quantity,
            request.name,
            request.email,
            CollectionMethod::Post,
        ),
    };
    let a2 = ActionView::UpdateOrder {
        filter: id_filter_fields(id),
        update: set_fields("address"@, address_fields(address)),
    };
    let a3 = ActionView::QuotePostage {
        query: quote_query(
            request.quantity as nat,
            as_unsigned(request_post_code(request)) as nat,
        ),
    };
    let a4 = ActionView::CreatePayment { request: payment_request(request, postage) };
    let a5 = ActionView::UpdateOrder {
        filter: id_filter_fields(id),
        update: set_fields("payment"@, payment_fields(pi)),
    };
    let a6 = ActionView::FindOrder { filter: id_filter_fields(id) };
    lemma_canonical_is_id_text(id);
    let replies = post_creation_replies(id, pi, client_secret, quoted);
    assert(replies =~= seq![e1] + seq![e2, e3, e4, e5]);
    assert(seq![e2, e3, e4, e5] =~= seq![e2] + seq![e3, e4, e5]);
    assert(seq![e3, e4, e5] =~= seq![e3] + seq![e4, e5]);
    assert(seq![e4, e5] =~= seq![e4] + seq![e5]);
    assert(seq![e5] =~= seq![e5] + none);
    lemma_run_first(step, NewOrderStateView::Start, EventView::Start, replies);
    lemma_run_first(step, NewOrderStateView::Inserting, e1, seq![e2, e3, e4, e5]);
    lemma_run_first(step, NewOrderStateView::Addressing { id }, e2, seq![e3, e4, e5]);
    lemma_run_first(step, NewOrderStateView::Quoting { id }, e3, seq![e4, e5]);
    lemma_run_first(step, NewOrderStateView::Paying { id }, e4, seq![e5]);
    lemma_run_first(step, NewOrderStateView::Recording { id, client_secret }, e5, none);
    let actions = new_order_trace(request, replies).actions;
    assert(actions =~= seq![a1, a2, a3, a4, a5, a6]);
    let s0 = Seq::<ActionView>::empty();
    assert(seq![a1, a2, a3, a4, a5, a6] =~= s0.push(a1).push(a2).push(a3).push(a4).push(a5).push(
        a6,
    ));
    lemma_record_after_push(id, s0, a1);
    lemma_record_after_push(id, s0.push(a1), a2);
    lemma_record_after_push(id, s0.push(a1).push(a2), a3);
    lemma_record_after_push(id, s0.push(a1).push(a2).push(a3), a4);
    lemma_record_after_push(id, s0.push(a1).push(a2).push(a3).push(a4), a5);
    lemma_record_after_push(id, s0.push(a1).push(a2).push(a3).push(a4).push(a5), a6);
    let r1 = inserted_record(
        order_fields(request.quantity, request.name, request.email, CollectionMethod::Post),
        id,
    );
    let r2 = updated_record(r1, set_fields("address"@, address_fields(address)));
    let r3 = updated_record(r2, set_fields("payment"@, payment_fields(pi)));
    assert(record_after_all(id, actions) == Some(r3));
    lemma_new_order_is_read_as_stored(
        request.quantity,
        request.name,
        request.email,
        CollectionMethod::Post,
        id,
    );
    lemma_address_update_sets_the_address(r1, address);
    lemma_payment_update_sets_the_payment(r2, pi);
}

/// Selecting postage for an order that was created for delivery by post
/// brings the payment in line with the selection. Let an order of one or more
/// scarves be created and stored under `id` with the payment transaction
/// `pi`, and let `code` be the code of one of the options that are quoted
/// when the postage is selected. Then the selection writes the code onto the
/// order, asks for a quote for the stored quantity and post code, and asks
/// the payment service to set the amount of `pi` to the unit price for each
/// scarf plus the price of the first quoted option with that code; it
/// returns the stored order, which now carries the code.
pub proof fn lemma_selected_postage_is_reconciled(
    request: NewOrderView,
    id: Seq<char>,
    pi: Seq<char>,
    client_secret: Seq<char>,
    quoted_at_creation: Seq<PostDeliveryOptionView>,
    code: Seq<char>,
    quoted: Seq<PostDeliveryOptionView>,
    k: int,
)
    requires
        request.quantity >= 1,
        request.delivery_method == CollectionMethod::Post,
        is_canonical_id(id),
        has_code(quoted_at_creation, post_option()),
        0 <= k < quoted.len(),
        quoted[k].code == code,
    ensures
        ({
            let creation = new_order_trace(
                request,
                post_creation_replies(id, pi, client_secret, quoted_at_creation),
            );
            let write = ActionView::UpdateOrder {
                filter: id_filter_fields(id),
                update: set_fields("postage"@, postage_fields(code)),
            };
            let record = record_after(record_after_all(id, creation.actions), id, write);
            let stored = OrderView {
                postage: Some(PostageView { code }),
                ..created_post_order(request, id, pi)
            };
            let selection = set_postage_trace(
                id,
                code,
                seq![
                    EventView::Stored,
                    EventView::Found { order: Some(stored) },
                    EventView::Quoted { options: Ok(quoted) },
                    EventView::PaymentUpdated,
                ],
            );
            &&& record matches Some(fields) && decode_order(fields) == stored
            &&& order_state(stored) == OrderState::PostageSelected
            &&& selection.actions == seq![
                write,
                ActionView::FindOrder { filter: id_filter_fields(id) },
                ActionView::QuotePostage {
                    query: quote_query(
                        request.quantity as nat,
                        as_unsigned(request_post_code(request)) as nat,
                    ),
                },
                ActionView::UpdatePayment {
                    pi,
                    amount: (SCARVE_PRICE * request.quantity + quoted[first_with_code(
                        quoted,
                        code,
                    )].price_cents) as u64,
                },
            ]
            &&& selection.result == Some(Ok::<OrderView, OrderError>(stored))
        }),
{
    lemma_post_creation(request, id, pi, client_secret, quoted_at_creation);
    lemma_canonical_is_id_text(id);
    lemma_code_present(quoted, code, k);
    let creation = new_order_trace(
        request,
        post_creation_replies(id, pi, client_secret, quoted_at_creation),
    );
    let write = ActionView::UpdateOrder {
        filter: id_filter_fields(id),
        update: set_fields("postage"@, postage_fields(code)),
    };
    let created = record_after_all(id, creation.actions)->0;
    lemma_postage_update_sets_the_postage(created, code);
    let stored = OrderView {
        postage: Some(PostageView { code }),
        ..created_post_order(request, id, pi)
    };
    let step = |state: SetPostageStateView, event: EventView|
        set_postage_step(id, code, state, event);
    let e1 = EventView::Stored;
    let e2 = EventView::Found { order: Some(stored) };
    let e3 = EventView::Quoted { options: Ok(quoted) };
    let e4 = EventView::PaymentUpdated;
    let none = Seq::<EventView>::empty();
    assert(seq![e1, e2, e3, e4] =~= seq![e1] + seq![e2, e3, e4]);
    assert(seq![e2, e3, e4] =~= seq![e2] + seq![e3, e4]);
    assert(seq![e3, e4] =~= seq![e3] + seq![e4]);
    assert(seq![e4] =~= seq![e4] + none);
    lemma_run_first(step, SetPostageStateView::Start, EventView::Start, seq![e1, e2, e3, e4]);
    lemma_run_first(step, SetPostageStateView::Writing, e1, seq![e2, e3, e4]);
    lemma_run_first(step, SetPostageStateView::Reading, e2, seq![e3, e4]);
    lemma_run_first(step, SetPostageStateView::Quoting { order: stored }, e3, seq![e4]);
    lemma_run_first(step, SetPostageStateView::Updating { order: stored }, e4, none);
    let selection = set_postage_trace(id, code, seq![e1, e2, e3, e4]);
    assert(selection.actions =~= seq![
        write,
        ActionView::FindOrder { filter: id_filter_fields(id) },
        ActionView::QuotePostage {
            query: quote_query(
                request.quantity as nat,
                as_unsigned(request_post_code(request)) as nat,
            ),
        },
        ActionView::UpdatePayment {
            pi,
            amount: (SCARVE_PRICE * request.quantity + quoted[first_with_code(
                quoted,
                code,
            )].price_cents) as u64,
        },
    ]);
}

/// For a valid stored order that is sent by post, quoting the postage asks
/// the shipping rate service for the stored quantity and post code, and
/// returns every option that it quotes, unchanged and in order. No price is
/// negative.
pub proof fn lemma_postage_is_quoted_for_the_stored_order(
    id: Seq<char>,
    order: OrderView,
    quoted: Seq<PostDeliveryOptionView>,
)
    requires
        is_id_text(id),
        is_valid_order(order),
        order.method == CollectionMethod::Post,
    ensures
        ({
            let trace = calculate_postage_trace(
                id,
                seq![
                    EventView::Found { order: Some(order) },
                    EventView::Quoted { options: Ok(quoted) },
                ],
            );
            &&& trace.actions == seq![
                ActionView::FindOrder { filter: id_filter_fields(id) },
                ActionView::QuotePostage {
                    query: quote_query(
                        order.quantity as nat,
                        as_unsigned(order.address->0.post_code) as nat,
                    ),
                },
            ]
            &&& trace.result == Some(Ok::<Seq<PostDeliveryOptionView>, OrderError>(quoted))
        }),
        forall|i: int| 0 <= i < quoted.len() ==> (#[trigger] quoted[i]).price_cents >= 0,
{
    let step = |state: QueryState, event: EventView| calculate_postage_step(id, state, event);
    let e1 = EventView::Found { order: Some(order) };
    let e2 = EventView::Quoted { options: Ok(quoted) };
    let none = Seq::<EventView>::empty();
    assert(seq![e1, e2] =~= seq![e1] + seq![e2]);
    assert(seq![e2] =~= seq![e2] + none);
    lemma_run_first(step, QueryState::Start, EventView::Start, seq![e1, e2]);
    lemma_run_first(step, QueryState::Finding, e1, seq![e2]);
    lemma_run_first(step, QueryState::Quoting, e2, none);
    assert(calculate_postage_trace(id, seq![e1, e2]).actions =~= seq![
        ActionView::FindOrder { filter: id_filter_fields(id) },
        ActionView::QuotePostage {
            query: quote_query(
                order.quantity as nat,
                as_unsigned(order.address->0.post_code) as nat,
            ),
        },
    ]);
}

/// For a valid stored order that is picked up, quoting the postage ends with
/// `NoAddressOnOrder` and asks nothing of the shipping rate service.
pub proof fn lemma_no_postage_for_pickup(id: Seq<char>, order: OrderView)
    requires
        is_id_text(id),
        is_valid_order(order),
        order.method == CollectionMethod::Pickup,
    ensures
        ({
            let trace = calculate_postage_trace(id, seq![EventView::Found { order: Some(order) }]);
            &&& trace.actions == seq![ActionView::FindOrder { filter: id_filter_fields(id) }]
            &&& trace.result == Some(
                Err::<Seq<PostDeliveryOptionView>, OrderError>(OrderError::NoAddressOnOrder),
            )
        }),
{
    let step = |state: QueryState, event: EventView| calculate_postage_step(id, state, event);
    let e1 = EventView::Found { order: Some(order) };
    let none = Seq::<EventView>::empty();
    assert(seq![e1] =~= seq![e1] + none);
    lemma_run_first(step, QueryState::Start, EventView::Start, seq![e1]);
    lemma_run_first(step, QueryState::Finding, e1, none);
    assert(calculate_postage_trace(id, seq![e1]).actions =~= seq![
        ActionView::FindOrder { filter: id_filter_fields(id) },
    ]);
}

/// The collection method of a stored order is reported as `PICKUP` for an
/// order that is picked up and as `POST` for one that is sent by post.
pub proof fn lemma_method_is_reported_by_name(id: Seq<char>, order: OrderView)
    requires
        is_id_text(id),
    ensures
        get_order_method_trace(id, seq![EventView::Found { order: Some(order) }]).result == Some(
            Ok::<Seq<char>, OrderError>(method_name(order.method)),
        ),
        order.method == CollectionMethod::Pickup ==> method_name(order.method) == "PICKUP"@,
        order.method == CollectionMethod::Post ==> method_name(order.method) == "POST"@,
{
    let step = |state: QueryState, event: EventView| get_order_method_step(id, state, event);
    let e1 = EventView::Found { order: Some(order) };
    let none = Seq::<EventView>::empty();
    assert(seq![e1] =~= seq![e1] + none);
    lemma_run_first(step, QueryState::Start, EventView::Start, seq![e1]);
    lemma_run_first(step, QueryState::Finding, e1, none);
}

/// Fetching an order returns what the store holds and nothing else: two
/// fetches of the same identifier between which the record has not changed
/// return the same order, field for field.
pub proof fn lemma_fetch_is_repeatable(id: Seq<char>, record: Option<Map<Seq<char>, Field>>)
    requires
        is_id_text(id),
    ensures
        ({
            let held = match record {
                Some(fields) => Some(decode_order(fields)),
                None => None,
            };
            let trace = order_trace(id, seq![EventView::Found { order: held }]);
            &&& trace.result == Some(Ok::<Option<OrderView>, OrderError>(held))
            &&& trace.actions == seq![ActionView::FindOrder { filter: id_filter_fields(id) }]
        }),
{
    let held = match record {
        Some(fields) => Some(decode_order(fields)),
        None => None,
    };
    let step = |state: QueryState, event: EventView| order_step(id, state, event);
    let e1 = EventView::Found { order: held };
    let none = Seq::<EventView>::empty();
    assert(seq![e1] =~= seq![e1] + none);
    lemma_run_first(step, QueryState::Start, EventView::Start, seq![e1]);
    lemma_run_first(step, QueryState::Finding, e1, none);
    assert(order_trace(id, seq![e1]).actions =~= seq![
        ActionView::FindOrder { filter: id_filter_fields(id) },
    ]);
}

/// A stored record is read the same way every time, and never yields a
/// client secret. So the order that creation returns, which carries the
/// client secret of the new payment, agrees with every later read of the
/// same record in all fields but that secret.
pub proof fn lemma_reads_differ_by_client_secret_only(
    fields: Map<Seq<char>, Field>,
    client_secret: Seq<char>,
)
    ensures
        without_client_secret(decode_order(fields)) == decode_order(fields),
        with_client_secret(decode_order(fields), client_secret) matches Some(created)
            ==> without_client_secret(created) == decode_order(fields),
        with_client_secret(decode_order(fields), client_secret) is Some <==> payment_id(
            decode_order(fields),
        ) is Some,
{
}

} // verus!
