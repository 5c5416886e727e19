use mongodb::oid::ObjectId;
use mongodb::{Document, Error};
use scarf_orders::db::FromDoc;
use scarf_orders::errors::OrderError;
use scarf_orders::graphql::context::{Action, Currency, Event, PaymentRequest, Step};
use scarf_orders::graphql::mutation_root::{
    to_unsigned, MutationRoot, NewOrder, NewOrderState, SetPostageState,
};
use scarf_orders::graphql::query_root::{QueryRoot, QueryState};
use scarf_orders::models::{
    Address, CollectionMethod, Order, OrderState, Payment, PaymentStripe, PostDeliveryOption,
    PostPricesService, Postage, User,
};
use scarf_orders::pricing::SCARVE_PRICE;

const DEFAULT_CODE: &str = "AUS_PARCEL_REGULAR_PACKAGE_SMALL";

/// An order store, a shipping rate service and a payment service held in
/// memory, with a log of what was asked of them.
struct World {
    records: Vec<Document>,
    services: Option<Vec<PostPricesService>>,
    payments: Vec<(String, u64, String)>,
    payment_creation_fails: bool,
    payment_update_fails: bool,
    log: Vec<Action>,
}

fn option(code: &str, name: &str, price_cents: u32) -> PostDeliveryOption {
    PostDeliveryOption { name: name.to_string(), code: code.to_string(), price_cents }
}

fn service(code: &str, name: &str, price: &str) -> PostPricesService {
    PostPricesService {
        code: code.to_string(),
        name: name.to_string(),
        price: Some(price.to_string()),
    }
}

fn usual_services() -> Vec<PostPricesService> {
    vec![
        service("AUS_PARCEL_REGULAR", "Parcel Post", "8.95"),
        service(DEFAULT_CODE, "Parcel Post Small", "10.60"),
        service("AUS_PARCEL_EXPRESS", "Express Post", "11.95"),
    ]
}

fn usual_quotes() -> Vec<PostDeliveryOption> {
    vec![
        option("AUS_PARCEL_REGULAR", "Parcel Post", 895),
        option(DEFAULT_CODE, "Parcel Post Small", 1060),
        option("AUS_PARCEL_EXPRESS", "Express Post", 1195),
    ]
}

fn filter(id: &str) -> Document {
    let mut d = Document::new();
    d.insert("_id", ObjectId::with_string(id).unwrap());
    d
}

fn set(key: &str, value: Document) -> Document {
    let mut changes = Document::new();
    changes.insert(key, value);
    let mut d = Document::new();
    d.insert("$set", changes);
    d
}

fn order_record(quantity: i32, name: &str, email: &str, method: i32) -> Document {
    let mut user = Document::new();
    user.insert("name", name);
    user.insert("email", email);
    let mut d = Document::new();
    d.insert("quantity", quantity);
    d.insert("user", user);
    d.insert("method", method);
    d
}

fn address_record(apartment: &str, street: &str, town: &str, state: &str, code: i32) -> Document {
    let mut d = Document::new();
    d.insert("apartment", apartment);
    d.insert("street", street);
    d.insert("town", town);
    d.insert("state", state);
    d.insert("post_code", code);
    d
}

fn postage_record(code: &str) -> Document {
    let mut d = Document::new();
    d.insert("code", code);
    d
}

fn payment_record(pi: &str) -> Document {
    let mut stripe = Document::new();
    stripe.insert("pi", pi);
    let mut d = Document::new();
    d.insert("stripe", stripe);
    d
}

fn quote_for(quantity: u32, postcode: u32) -> Action {
    Action::QuotePostage { query: PostDeliveryOption::query(quantity, postcode) }
}

impl World {
    fn new() -> World {
        World {
            records: Vec::new(),
            services: Some(usual_services()),
            payments: Vec::new(),
            payment_creation_fails: false,
            payment_update_fails: false,
            log: Vec::new(),
        }
    }

    fn orders(&self) -> Vec<Order> {
        self.records.iter().map(|d| Order::from_doc(d.clone())).collect()
    }

    fn stored(&self, id: &str) -> Option<Order> {
        self.orders().into_iter().find(|o| o.id == id)
    }

    fn amount(&self, pi: &str) -> Option<u64> {
        self.payments.iter().find(|p| p.0 == pi).map(|p| p.1)
    }

    fn perform(&mut self, action: Action) -> Event {
        let event = match &action {
            Action::InsertOrder { document } => {
                let id = format!("{:024x}", 0x5d00_0000_0000u64 + self.records.len() as u64);
                let mut record = document.clone();
                record.insert("_id", ObjectId::with_string(&id).unwrap());
                self.records.push(record);
                Event::Inserted { id }
            }
            Action::UpdateOrder { filter, update } => {
                let changes = update.get_document("$set").unwrap();
                for record in self.records.iter_mut() {
                    if record.get("_id") == filter.get("_id") {
                        for (key, value) in changes.iter() {
                            record.insert(key.clone(), value.clone());
                        }
                    }
                }
                Event::Stored
            }
            Action::FindOrder { filter } => Event::Found {
                found: Ok(self
                    .records
                    .iter()
                    .find(|record| record.get("_id") == filter.get("_id"))
                    .cloned()),
            },
            Action::FindOrders => {
                Event::FoundAll { items: self.records.iter().cloned().map(Ok).collect() }
            }
            Action::QuotePostage { .. } => Event::Quoted { reply: self.services.clone() },
            Action::CreatePayment { request } => {
                if self.payment_creation_fails {
                    Event::PaymentFailed
                } else {
                    let n = self.payments.len();
                    let pi = format!("pi_{}", n);
                    let client_secret = format!("pi_{}_secret", n);
                    self.payments.push((pi.clone(), request.amount, client_secret.clone()));
                    Event::PaymentCreated { pi, client_secret }
                }
            }
            Action::UpdatePayment { pi, amount } => {
                if self.payment_update_fails {
                    Event::PaymentFailed
                } else {
                    match self.payments.iter_mut().find(|p| &p.0 == pi) {
                        Some(p) => {
                            p.1 = *amount;
                            Event::PaymentUpdated
                        }
                        None => Event::PaymentFailed,
                    }
                }
            }
            Action::RetrievePayment { pi } => match self.payments.iter().find(|p| &p.0 == pi) {
                Some(p) => Event::PaymentRetrieved { amount: p.1, secret: Some(p.2.clone()) },
                None => Event::PaymentFailed,
            },
        };
        self.log.push(action);
        event
    }

    fn create(&mut self, request: &NewOrder) -> Result<Order, OrderError> {
        let mut state = NewOrderState::Start;
        let mut event = Event::Start;
        loop {
            match MutationRoot::new_order(request, state, event) {
                Step::Done { result } => return result,
                Step::Call { state: next, action } => {
                    state = next;
                    event = self.perform(action);
                }
            }
        }
    }

    fn select(&mut self, id: &str, code: &str) -> Result<Order, OrderError> {
        let mut state = SetPostageState::Start;
        let mut event = Event::Start;
        loop {
            match MutationRoot::set_postage(id, code, state, event) {
                Step::Done { result } => return result,
                Step::Call { state: next, action } => {
                    state = next;
                    event = self.perform(action);
                }
            }
        }
    }

    fn list(&mut self) -> Result<Vec<Order>, OrderError> {
        let mut state = QueryState::Start;
        let mut event = Event::Start;
        loop {
            match QueryRoot::orders(state, event) {
                Step::Done { result } => return result,
                Step::Call { state: next, action } => {
                    state = next;
                    event = self.perform(action);
                }
            }
        }
    }

    fn order(&mut self, id: &str) -> Result<Option<Order>, OrderError> {
        let mut state = QueryState::Start;
        let mut event = Event::Start;
        loop {
            match QueryRoot::order(id, state, event) {
                Step::Done { result } => return result,
                Step::Call { state: next, action } => {
                    state = next;
                    event = self.perform(action);
                }
            }
        }
    }

    fn calculate_postage(&mut self, id: &str) -> Result<Vec<PostDeliveryOption>, OrderError> {
        let mut state = QueryState::Start;
        let mut event = Event::Start;
        loop {
            match QueryRoot::calculate_postage(id, state, event) {
                Step::Done { result } => return result,
                Step::Call { state: next, action } => {
                    state = next;
                    event = self.perform(action);
                }
            }
        }
    }

    fn order_price(&mut self, id: &str) -> Result<u64, OrderError> {
        let mut state = QueryState::Start;
        let mut event = Event::Start;
        loop {
            match QueryRoot::order_price(id, state, event) {
                Step::Done { result } => return result,
                Step::Call { state: next, action } => {
                    state = next;
                    event = self.perform(action);
                }
            }
        }
    }

    fn client_secret(&mut self, id: &str) -> Result<String, OrderError> {
        let mut state = QueryState::Start;
        let mut event = Event::Start;
        loop {
            match QueryRoot::get_stripe_cs(id, state, event) {
                Step::Done { result } => return result,
                Step::Call { state: next, action } => {
                    state = next;
                    event = self.perform(action);
                }
            }
        }
    }

    fn method(&mut self, id: &str) -> Result<String, OrderError> {
        let mut state = QueryState::Start;
        let mut event = Event::Start;
        loop {
            match QueryRoot::get_order_method(id, state, event) {
                Step::Done { result } => return result,
                Step::Call { state: next, action } => {
                    state = next;
                    event = self.perform(action);
                }
            }
        }
    }
}

fn found(order: Option<Document>) -> Event {
    Event::Found { found: Ok(order) }
}

fn pickup(name: &str, quantity: i32, email: &str) -> NewOrder {
    NewOrder {
        name: name.to_string(),
        quantity,
        email: email.to_string(),
        address_apt: None,
        address_street: None,
        address_town: None,
        address_state: None,
        address_post_code: None,
        delivery_method: CollectionMethod::Pickup,
    }
}

fn post(name: &str, quantity: i32, email: &str, post_code: i32) -> NewOrder {
    NewOrder {
        name: name.to_string(),
        quantity,
        email: email.to_string(),
        address_apt: Some("4B".to_string()),
        address_street: Some("1 George St".to_string()),
        address_town: Some("Sydney".to_string()),
        address_state: Some("NSW".to_string()),
        address_post_code: Some(post_code),
        delivery_method: CollectionMethod::Post,
    }
}

fn pair(key: &str, value: &str) -> (String, String) {
    (key.to_string(), value.to_string())
}

fn quoted(action: &Action) -> bool {
    matches!(action, Action::QuotePostage { .. })
}

const UNKNOWN_ID: &str = "53e37d08776f724e42000000";

#[test]
fn ann_orders_two_scarves_for_pickup() {
    let mut world = World::new();
    let created = world.create(&pickup("Ann", 2, "a@x.com")).unwrap();
    assert_eq!(created.user, User { name: "Ann".to_string(), email: "a@x.com".to_string() });
    assert_eq!(created.quantity, 2);
    assert_eq!(created.method, CollectionMethod::Pickup);
    assert_eq!(created.address, None);
    assert_eq!(created.postage, None);
    assert_eq!(
        created.payment,
        Some(Payment {
            stripe: Some(PaymentStripe {
                pi: "pi_0".to_string(),
                client_secret: Some("pi_0_secret".to_string()),
            }),
        })
    );
    assert_eq!(world.payments.len(), 1);
    assert_eq!(world.amount("pi_0"), Some(SCARVE_PRICE * 2));
    assert_eq!(world.amount("pi_0"), Some(3000));
}

#[test]
fn pickup_asks_for_insert_payment_record_and_read() {
    let mut world = World::new();
    let created = world.create(&pickup("Ann", 2, "a@x.com")).unwrap();
    let id = created.id.clone();
    assert_eq!(
        world.log,
        vec![
            Action::InsertOrder { document: order_record(2, "Ann", "a@x.com", 1) },
            Action::CreatePayment {
                request: PaymentRequest {
                    amount: 3000,
                    currency: Currency::AUD,
                    description: "Ann: Scarves x2 for Pickup".to_string(),
                    metadata: vec![pair("email", "a@x.com"), pair("quantity", "2")],
                },
            },
            Action::UpdateOrder { filter: filter(&id), update: set("payment", payment_record("pi_0")) },
            Action::FindOrder { filter: filter(&id) },
        ]
    );
}

#[test]
fn pickup_record_is_what_was_asked_for() {
    let mut world = World::new();
    let created = world.create(&pickup("Ann", 2, "a@x.com")).unwrap();
    let mut expected = order_record(2, "Ann", "a@x.com", 1);
    expected.insert("_id", ObjectId::with_string(&created.id).unwrap());
    expected.insert("payment", payment_record("pi_0"));
    assert_eq!(world.records, vec![expected]);
}

#[test]
fn pickup_total_is_the_unit_price_for_each_scarf() {
    let mut quantity = 1;
    while quantity <= 60 {
        let mut world = World::new();
        world.create(&pickup("Ann", quantity, "a@x.com")).unwrap();
        assert_eq!(world.amount("pi_0"), Some(1500 * quantity as u64));
        assert!(!world.log.iter().any(quoted));
        quantity += 1;
    }
}

#[test]
fn pickup_total_for_the_largest_quantity() {
    let mut world = World::new();
    world.create(&pickup("Ann", i32::MAX, "a@x.com")).unwrap();
    assert_eq!(world.amount("pi_0"), Some(1500 * 2147483647u64));
    match &world.log[1] {
        Action::CreatePayment { request } => {
            assert_eq!(request.description, "Ann: Scarves x2147483647 for Pickup");
            assert_eq!(request.metadata[1], pair("quantity", "2147483647"));
        }
        other => panic!("unexpected action {:?}", other),
    }
}

#[test]
fn pickup_ignores_an_address_that_was_given() {
    let mut world = World::new();
    let mut request = post("Ann", 1, "a@x.com", 2000);
    request.delivery_method = CollectionMethod::Pickup;
    let created = world.create(&request).unwrap();
    assert_eq!(created.address, None);
    assert_eq!(world.amount("pi_0"), Some(1500));
    assert_eq!(world.records[0].get("address"), None);
}

#[test]
fn quantity_below_one_is_refused_and_nothing_is_stored() {
    for quantity in [0, -1, -2, -1000, i32::MIN] {
        let mut world = World::new();
        assert_eq!(
            world.create(&pickup("Ann", quantity, "a@x.com")),
            Err(OrderError::InvalidQuantity)
        );
        assert!(world.records.is_empty());
        assert!(world.payments.is_empty());
        assert!(world.log.is_empty());
        assert_eq!(
            world.create(&post("Ann", quantity, "a@x.com", 2000)),
            Err(OrderError::InvalidQuantity)
        );
        assert!(world.records.is_empty());
        assert!(world.log.is_empty());
    }
}

#[test]
fn quantity_below_one_ends_at_the_first_step() {
    let step =
        MutationRoot::new_order(&pickup("Ann", 0, "a@x.com"), NewOrderState::Start, Event::Start);
    assert_eq!(step, Step::Done { result: Err(OrderError::InvalidQuantity) });
}

#[test]
fn post_order_is_priced_with_the_default_option() {
    let mut world = World::new();
    let created = world.create(&post("Bob", 3, "b@x.com", 2000)).unwrap();
    assert_eq!(created.quantity, 3);
    assert_eq!(created.method, CollectionMethod::Post);
    assert_eq!(
        created.address,
        Some(Address {
            apartment: Some("4B".to_string()),
            street: "1 George St".to_string(),
            town: "Sydney".to_string(),
            state: "NSW".to_string(),
            post_code: 2000,
        })
    );
    assert_eq!(created.postage, None);
    assert_eq!(world.amount("pi_0"), Some(1500 * 3 + 1060));
    assert_eq!(world.amount("pi_0"), Some(5560));
    assert_eq!(
        created.payment.unwrap().stripe.unwrap().client_secret,
        Some("pi_0_secret".to_string())
    );
}

#[test]
fn post_order_asks_for_each_step_in_turn() {
    let mut world = World::new();
    let created = world.create(&post("Bob", 3, "b@x.com", 2000)).unwrap();
    let id = created.id.clone();
    assert_eq!(
        world.log,
        vec![
            Action::InsertOrder { document: order_record(3, "Bob", "b@x.com", 0) },
            Action::UpdateOrder {
                filter: filter(&id),
                update: set("address", address_record("4B", "1 George St", "Sydney", "NSW", 2000)),
            },
            Action::QuotePostage {
                query: vec![
                    pair("from_postcode", "2077"),
                    pair("to_postcode", "2000"),
                    pair("length", "22"),
                    pair("width", "16"),
                    pair("height", "7.7"),
                    pair("weight", "0.3"),
                ],
            },
            Action::CreatePayment {
                request: PaymentRequest {
                    amount: 5560,
                    currency: Currency::AUD,
                    description: "Bob: Scarves x3 for Postage".to_string(),
                    metadata: vec![pair("email", "b@x.com"), pair("quantity", "3")],
                },
            },
            Action::UpdateOrder { filter: filter(&id), update: set("payment", payment_record("pi_0")) },
            Action::FindOrder { filter: filter(&id) },
        ]
    );
}

#[test]
fn post_record_is_what_was_asked_for() {
    let mut world = World::new();
    let created = world.create(&post("Bob", 3, "b@x.com", 2000)).unwrap();
    let mut expected = order_record(3, "Bob", "b@x.com", 0);
    expected.insert("_id", ObjectId::with_string(&created.id).unwrap());
    expected.insert("address", address_record("4B", "1 George St", "Sydney", "NSW", 2000));
    expected.insert("payment", payment_record("pi_0"));
    assert_eq!(world.records, vec![expected]);
}

#[test]
fn post_order_takes_the_first_default_option_of_several() {
    let mut world = World::new();
    world.services = Some(vec![
        service("AUS_PARCEL_REGULAR", "Parcel Post", "8.95"),
        service(DEFAULT_CODE, "first", "7.00"),
        service(DEFAULT_CODE, "second", "1.00"),
    ]);
    world.create(&post("Bob", 1, "b@x.com", 2000)).unwrap();
    assert_eq!(world.amount("pi_0"), Some(1500 + 700));
}

#[test]
fn post_order_with_a_free_default_option() {
    let mut world = World::new();
    world.services = Some(vec![PostPricesService {
        code: DEFAULT_CODE.to_string(),
        name: "free".to_string(),
        price: None,
    }]);
    world.create(&post("Bob", 4, "b@x.com", 2000)).unwrap();
    assert_eq!(world.amount("pi_0"), Some(6000));
}

#[test]
fn post_order_with_the_largest_quantity_and_postage() {
    let mut world = World::new();
    world.services = Some(vec![service(DEFAULT_CODE, "dear", "42949672.95")]);
    world.create(&post("Bob", i32::MAX, "b@x.com", 2000)).unwrap();
    assert_eq!(world.amount("pi_0"), Some(1500 * 2147483647u64 + 4294967295u64));
}

#[test]
fn post_order_without_address_details_stores_empty_ones() {
    let mut world = World::new();
    let mut request = pickup("Bob", 1, "b@x.com");
    request.delivery_method = CollectionMethod::Post;
    let created = world.create(&request).unwrap();
    assert_eq!(
        created.address,
        Some(Address {
            apartment: Some(String::new()),
            street: String::new(),
            town: String::new(),
            state: String::new(),
            post_code: 0,
        })
    );
    assert_eq!(world.records[0].get_document("address"), Ok(&address_record("", "", "", "", 0)));
    assert_eq!(world.log[2], quote_for(1, 0));
}

#[test]
fn post_order_stores_the_parts_of_the_address_that_were_given() {
    let request = NewOrder {
        address_apt: None,
        address_town: None,
        ..post("Bob", 1, "b@x.com", 3000)
    };
    assert_eq!(
        request.address(),
        Address {
            apartment: Some(String::new()),
            street: "1 George St".to_string(),
            town: String::new(),
            state: "NSW".to_string(),
            post_code: 3000,
        }
    );
}

#[test]
fn post_order_without_the_default_option_is_refused() {
    let mut world = World::new();
    world.services = Some(vec![
        service("AUS_PARCEL_REGULAR", "Parcel Post", "8.95"),
        service("AUS_PARCEL_EXPRESS", "Express Post", "11.95"),
    ]);
    assert_eq!(
        world.create(&post("Bob", 1, "b@x.com", 2000)),
        Err(OrderError::InvalidPostageOption)
    );
    let stored = world.orders();
    assert_eq!(stored.len(), 1);
    assert_eq!(stored[0].address.as_ref().unwrap().post_code, 2000);
    assert_eq!(stored[0].payment, None);
    assert!(world.payments.is_empty());
    assert_eq!(world.log.len(), 3);
    assert_eq!(world.log[2], quote_for(1, 2000));
}

#[test]
fn post_order_with_no_options_at_all_is_refused() {
    let mut world = World::new();
    world.services = Some(Vec::new());
    assert_eq!(
        world.create(&post("Bob", 1, "b@x.com", 2000)),
        Err(OrderError::InvalidPostageOption)
    );
    assert!(world.payments.is_empty());
}

#[test]
fn post_order_fails_with_invalid_quantity_where_the_quote_fails() {
    let mut world = World::new();
    world.services = None;
    assert_eq!(world.create(&post("Bob", 1, "b@x.com", 2000)), Err(OrderError::InvalidQuantity));
    let stored = world.orders();
    assert_eq!(stored.len(), 1);
    assert!(stored[0].address.is_some());
    assert_eq!(stored[0].payment, None);
    assert!(world.payments.is_empty());
}

#[test]
fn post_order_fails_with_invalid_quantity_where_a_quoted_price_cannot_be_read() {
    let mut world = World::new();
    world.services = Some(vec![
        service(DEFAULT_CODE, "Parcel Post Small", "10.60"),
        service("AUS_PARCEL_EXPRESS", "Express Post", "call us"),
    ]);
    assert_eq!(world.create(&post("Bob", 1, "b@x.com", 2000)), Err(OrderError::InvalidQuantity));
    assert!(world.payments.is_empty());
}

#[test]
fn order_stays_stored_where_the_payment_fails() {
    let mut world = World::new();
    world.payment_creation_fails = true;
    assert_eq!(
        world.create(&pickup("Ann", 2, "a@x.com")),
        Err(OrderError::PaymentIntentCreationFailed)
    );
    assert_eq!(world.orders().len(), 1);
    assert_eq!(world.orders()[0].quantity, 2);
    assert_eq!(world.orders()[0].payment, None);
    assert_eq!(world.log.len(), 2);
    assert_eq!(
        world.create(&post("Bob", 1, "b@x.com", 2000)),
        Err(OrderError::PaymentIntentCreationFailed)
    );
    assert_eq!(world.orders().len(), 2);
    assert_eq!(world.orders()[1].payment, None);
}

#[test]
fn negative_post_code_is_asked_as_an_unsigned_number() {
    assert_eq!(to_unsigned(0), 0);
    assert_eq!(to_unsigned(2000), 2000);
    assert_eq!(to_unsigned(i32::MAX), 2147483647);
    assert_eq!(to_unsigned(-1), 4294967295);
    assert_eq!(to_unsigned(-2000), 4294965296);
    assert_eq!(to_unsigned(i32::MIN), 2147483648);
    let mut n = -70000;
    while n < 70000 {
        assert_eq!(to_unsigned(n), n as u32);
        n += 997;
    }
    let mut world = World::new();
    world.create(&post("Bob", 1, "b@x.com", -1)).unwrap();
    assert_eq!(world.log[2], quote_for(1, 4294967295));
    match &world.log[2] {
        Action::QuotePostage { query } => assert_eq!(query[1], pair("to_postcode", "4294967295")),
        other => panic!("unexpected action {:?}", other),
    }
}

#[test]
fn payment_request_for_an_order() {
    let request = post("Bob", 12, "b@x.com", 2000);
    assert_eq!(
        request.payment_request(895),
        PaymentRequest {
            amount: 18895,
            currency: Currency::AUD,
            description: "Bob: Scarves x12 for Postage".to_string(),
            metadata: vec![pair("email", "b@x.com"), pair("quantity", "12")],
        }
    );
    assert_eq!(
        pickup("", 1, "").payment_request(0),
        PaymentRequest {
            amount: 1500,
            currency: Currency::AUD,
            description: ": Scarves x1 for Pickup".to_string(),
            metadata: vec![pair("email", ""), pair("quantity", "1")],
        }
    );
}

#[test]
fn created_order_is_the_stored_one_with_the_client_secret() {
    let mut world = World::new();
    let created = world.create(&post("Bob", 3, "b@x.com", 2000)).unwrap();
    let read = world.order(&created.id).unwrap().unwrap();
    assert_eq!(read.payment.as_ref().unwrap().stripe.as_ref().unwrap().client_secret, None);
    let mut without_secret = created.clone();
    without_secret.payment.as_mut().unwrap().stripe.as_mut().unwrap().client_secret = None;
    assert_eq!(without_secret, read);
    assert_ne!(created, read);
}

#[test]
fn store_that_gives_an_identifier_that_is_no_identifier() {
    let request = pickup("Ann", 1, "a@x.com");
    assert_eq!(
        MutationRoot::new_order(
            &request,
            NewOrderState::Inserting,
            Event::Inserted { id: "not an identifier".to_string() }
        ),
        Step::Done { result: Err(OrderError::InvalidId) }
    );
    let request = post("Bob", 1, "b@x.com", 2000);
    assert_eq!(
        MutationRoot::new_order(
            &request,
            NewOrderState::Inserting,
            Event::Inserted { id: "53e37d08776f724e4200000".to_string() }
        ),
        Step::Done { result: Err(OrderError::InvalidId) }
    );
    let state = NewOrderState::Recording {
        id: "not an identifier".to_string(),
        client_secret: "cs".to_string(),
    };
    assert_eq!(
        MutationRoot::new_order(&request, state, Event::Stored),
        Step::Done { result: Err(OrderError::InvalidId) }
    );
    let state = NewOrderState::Paying { id: "xyz".to_string() };
    assert_eq!(
        MutationRoot::new_order(
            &request,
            state,
            Event::PaymentCreated { pi: "pi_0".to_string(), client_secret: "cs".to_string() }
        ),
        Step::Done { result: Err(OrderError::InvalidId) }
    );
}

#[test]
fn store_identifier_in_upper_case_selects_the_same_order() {
    let request = pickup("Ann", 1, "a@x.com");
    let state = NewOrderState::Recording {
        id: "53E37D08776F724E42ABCDEF".to_string(),
        client_secret: "cs".to_string(),
    };
    assert_eq!(
        MutationRoot::new_order(&request, state, Event::Stored),
        Step::Call {
            state: NewOrderState::Reading { client_secret: "cs".to_string() },
            action: Action::FindOrder { filter: filter("53e37d08776f724e42abcdef") },
        }
    );
}

#[test]
fn order_that_vanished_after_creation_is_not_found() {
    let request = pickup("Ann", 1, "a@x.com");
    let state = NewOrderState::Reading { client_secret: "cs".to_string() };
    assert_eq!(
        MutationRoot::new_order(&request, state, found(None)),
        Step::Done { result: Err(OrderError::NotFound) }
    );
    let state = NewOrderState::Reading { client_secret: "cs".to_string() };
    assert_eq!(
        MutationRoot::new_order(
            &request,
            state,
            Event::Found { found: Err(Error::DefaultError("down".to_string())) }
        ),
        Step::Done { result: Err(OrderError::NotFound) }
    );
}

#[test]
fn order_read_back_without_its_payment_is_an_invalid_state() {
    let request = pickup("Ann", 1, "a@x.com");
    let mut bare = order_record(1, "Ann", "a@x.com", 1);
    bare.insert("_id", ObjectId::with_string(UNKNOWN_ID).unwrap());
    let state = NewOrderState::Reading { client_secret: "cs".to_string() };
    assert_eq!(
        MutationRoot::new_order(&request, state, found(Some(bare.clone()))),
        Step::Done { result: Err(OrderError::InvalidState) }
    );
    let mut half = bare;
    half.insert("payment", Document::new());
    let state = NewOrderState::Reading { client_secret: "cs".to_string() };
    assert_eq!(
        MutationRoot::new_order(&request, state, found(Some(half))),
        Step::Done { result: Err(OrderError::InvalidState) }
    );
}

#[test]
fn order_read_back_is_returned_as_the_store_holds_it() {
    // Between the insertion and the read another writer changed the record:
    // what is returned is the record and not the request.
    let request = pickup("Ann", 1, "a@x.com");
    let mut changed = order_record(9, "Zed", "z@x.com", 1);
    changed.insert("_id", ObjectId::with_string(UNKNOWN_ID).unwrap());
    changed.insert("postage", postage_record("X"));
    changed.insert("payment", payment_record("pi_7"));
    let state = NewOrderState::Reading { client_secret: "cs_new".to_string() };
    let expected = Order {
        id: UNKNOWN_ID.to_string(),
        quantity: 9,
        address: None,
        user: User { name: "Zed".to_string(), email: "z@x.com".to_string() },
        method: CollectionMethod::Pickup,
        postage: Some(Postage { code: "X".to_string() }),
        payment: Some(Payment {
            stripe: Some(PaymentStripe {
                pi: "pi_7".to_string(),
                client_secret: Some("cs_new".to_string()),
            }),
        }),
    };
    assert_eq!(
        MutationRoot::new_order(&request, state, found(Some(changed))),
        Step::Done { result: Ok(expected) }
    );
}

#[test]
fn with_client_secret_sets_the_secret_only() {
    let mut world = World::new();
    let created = world.create(&pickup("Ann", 1, "a@x.com")).unwrap();
    let stored = world.stored(&created.id).unwrap();
    assert_eq!(stored.payment_id(), Some("pi_0".to_string()));
    let replaced = created.clone().with_client_secret("other".to_string()).unwrap();
    assert_eq!(
        replaced.payment.as_ref().unwrap().stripe.as_ref().unwrap().client_secret,
        Some("other".to_string())
    );
    assert_eq!(replaced.payment_id(), Some("pi_0".to_string()));
    assert_eq!(replaced.id, created.id);
    assert_eq!(replaced.user, created.user);
    let bare = Order { payment: None, ..stored };
    assert_eq!(bare.payment_id(), None);
    assert_eq!(bare.with_client_secret("cs".to_string()), None);
}

#[test]
fn event_that_answers_nothing_is_an_invalid_state() {
    let request = pickup("Ann", 1, "a@x.com");
    assert_eq!(
        MutationRoot::new_order(&request, NewOrderState::Start, Event::Stored),
        Step::Done { result: Err(OrderError::InvalidState) }
    );
    assert_eq!(
        MutationRoot::new_order(&request, NewOrderState::Inserting, Event::Start),
        Step::Done { result: Err(OrderError::InvalidState) }
    );
    assert_eq!(
        MutationRoot::new_order(
            &request,
            NewOrderState::Paying { id: UNKNOWN_ID.to_string() },
            Event::PaymentUpdated
        ),
        Step::Done { result: Err(OrderError::InvalidState) }
    );
    assert_eq!(
        MutationRoot::set_postage(UNKNOWN_ID, "A", SetPostageState::Reading, Event::Stored),
        Step::Done { result: Err(OrderError::InvalidState) }
    );
    assert_eq!(
        QueryRoot::order(UNKNOWN_ID, QueryState::Quoting, found(None)),
        Step::Done { result: Err(OrderError::InvalidState) }
    );
    assert_eq!(
        QueryRoot::orders(QueryState::Finding, found(None)),
        Step::Done { result: Err(OrderError::InvalidState) }
    );
}

#[test]
fn select_postage_of_an_unknown_order_is_not_found() {
    let mut world = World::new();
    assert_eq!(world.select(UNKNOWN_ID, "ANY"), Err(OrderError::NotFound));
    assert!(world.records.is_empty());
    assert!(world.payments.is_empty());
    assert_eq!(
        world.log,
        vec![
            Action::UpdateOrder {
                filter: filter(UNKNOWN_ID),
                update: set("postage", postage_record("ANY")),
            },
            Action::FindOrder { filter: filter(UNKNOWN_ID) },
        ]
    );
}

#[test]
fn select_postage_of_an_unknown_order_beside_known_ones_is_not_found() {
    let mut world = World::new();
    world.create(&post("Bob", 3, "b@x.com", 2000)).unwrap();
    let before = world.records.clone();
    assert_eq!(world.select(UNKNOWN_ID, "AUS_PARCEL_EXPRESS"), Err(OrderError::NotFound));
    assert_eq!(world.records, before);
    assert_eq!(world.amount("pi_0"), Some(5560));
}

#[test]
fn select_postage_with_a_malformed_identifier_touches_nothing() {
    for id in [
        "",
        "ANY",
        "53e37d08776f724e4200000",
        "53e37d08776f724e420000000",
        "53e37d08776f724e4200000g",
        "53e37d08776f724e4200000 ",
        "53e37d08-76f724e42000000",
        "５3e37d08776f724e42000000",
    ] {
        let mut world = World::new();
        world.create(&post("Bob", 3, "b@x.com", 2000)).unwrap();
        let asked = world.log.len();
        assert_eq!(world.select(id, "AUS_PARCEL_EXPRESS"), Err(OrderError::InvalidId));
        assert_eq!(world.log.len(), asked);
        assert_eq!(world.orders()[0].postage, None);
    }
}

#[test]
fn selecting_postage_brings_the_payment_in_line() {
    let mut world = World::new();
    let created = world.create(&post("Bob", 3, "b@x.com", 2000)).unwrap();
    assert_eq!(world.amount("pi_0"), Some(5560));
    let offered = world.calculate_postage(&created.id).unwrap();
    assert_eq!(offered, usual_quotes());
    for choice in &offered {
        let selected = world.select(&created.id, &choice.code).unwrap();
        assert_eq!(world.amount("pi_0"), Some(SCARVE_PRICE * 3 + choice.price_cents as u64));
        assert_eq!(selected.postage, Some(Postage { code: choice.code.clone() }));
        assert_eq!(selected.id, created.id);
        assert_eq!(selected.quantity, 3);
        assert_eq!(world.order_price(&created.id), Ok(4500 + choice.price_cents as u64));
    }
    assert_eq!(world.amount("pi_0"), Some(4500 + 1195));
    assert_eq!(world.payments.len(), 1);
}

#[test]
fn selecting_postage_asks_for_write_read_quote_and_update() {
    let mut world = World::new();
    let created = world.create(&post("Bob", 3, "b@x.com", 2000)).unwrap();
    let id = created.id.clone();
    world.log.clear();
    world.select(&id, "AUS_PARCEL_EXPRESS").unwrap();
    assert_eq!(
        world.log,
        vec![
            Action::UpdateOrder {
                filter: filter(&id),
                update: set("postage", postage_record("AUS_PARCEL_EXPRESS")),
            },
            Action::FindOrder { filter: filter(&id) },
            quote_for(3, 2000),
            Action::UpdatePayment { pi: "pi_0".to_string(), amount: 5695 },
        ]
    );
}

#[test]
fn selecting_postage_returns_the_order_without_a_client_secret() {
    let mut world = World::new();
    let created = world.create(&post("Bob", 3, "b@x.com", 2000)).unwrap();
    let selected = world.select(&created.id, DEFAULT_CODE).unwrap();
    assert_eq!(
        selected.payment,
        Some(Payment {
            stripe: Some(PaymentStripe { pi: "pi_0".to_string(), client_secret: None }),
        })
    );
    assert_eq!(Some(selected), world.stored(&created.id));
}

#[test]
fn selecting_postage_takes_the_first_option_with_the_code() {
    let mut world = World::new();
    let created = world.create(&post("Bob", 2, "b@x.com", 2000)).unwrap();
    world.services = Some(vec![
        service("A", "a", "0.05"),
        service("B", "first", "3"),
        service("B", "second", "2"),
    ]);
    world.select(&created.id, "B").unwrap();
    assert_eq!(world.amount("pi_0"), Some(3300));
}

#[test]
fn selecting_postage_takes_the_identifier_in_either_case() {
    let mut world = World::new();
    let created = world.create(&post("Bob", 3, "b@x.com", 2000)).unwrap();
    let shouted = created.id.to_uppercase();
    assert_ne!(shouted, created.id);
    let selected = world.select(&shouted, "AUS_PARCEL_EXPRESS").unwrap();
    assert_eq!(selected.id, created.id);
    assert_eq!(world.amount("pi_0"), Some(5695));
}

#[test]
fn selecting_an_unknown_code_is_refused_after_it_was_written() {
    let mut world = World::new();
    let created = world.create(&post("Bob", 3, "b@x.com", 2000)).unwrap();
    assert_eq!(world.select(&created.id, "NO_SUCH_CODE"), Err(OrderError::InvalidPostageOption));
    assert_eq!(world.amount("pi_0"), Some(5560));
    assert_eq!(
        world.stored(&created.id).unwrap().postage,
        Some(Postage { code: "NO_SUCH_CODE".to_string() })
    );
    assert!(!world.log.iter().any(|a| matches!(a, Action::UpdatePayment { .. })));
}

#[test]
fn selecting_postage_fails_with_invalid_quantity_where_the_quote_fails() {
    let mut world = World::new();
    let created = world.create(&post("Bob", 3, "b@x.com", 2000)).unwrap();
    world.services = None;
    assert_eq!(world.select(&created.id, DEFAULT_CODE), Err(OrderError::InvalidQuantity));
    assert_eq!(world.amount("pi_0"), Some(5560));
}

#[test]
fn selecting_postage_succeeds_where_the_payment_update_fails() {
    let mut world = World::new();
    let created = world.create(&post("Bob", 3, "b@x.com", 2000)).unwrap();
    world.payment_update_fails = true;
    let selected = world.select(&created.id, "AUS_PARCEL_EXPRESS").unwrap();
    assert_eq!(selected.postage, Some(Postage { code: "AUS_PARCEL_EXPRESS".to_string() }));
    assert_eq!(world.amount("pi_0"), Some(5560));
    assert_eq!(
        world.log.last(),
        Some(&Action::UpdatePayment { pi: "pi_0".to_string(), amount: 5695 })
    );
}

#[test]
fn selecting_postage_for_a_pickup_order_is_an_invalid_state() {
    let mut world = World::new();
    let created = world.create(&pickup("Ann", 2, "a@x.com")).unwrap();
    assert_eq!(world.select(&created.id, DEFAULT_CODE), Err(OrderError::InvalidState));
    assert_eq!(world.amount("pi_0"), Some(3000));
    assert!(!world.log.iter().any(quoted));
}

#[test]
fn selecting_postage_for_an_order_without_payment_is_an_invalid_state() {
    let mut world = World::new();
    world.payment_creation_fails = true;
    assert!(world.create(&post("Bob", 3, "b@x.com", 2000)).is_err());
    let id = world.orders()[0].id.clone();
    world.log.clear();
    assert_eq!(world.select(&id, DEFAULT_CODE), Err(OrderError::InvalidState));
    assert_eq!(world.log.len(), 2);
    world.records[0].insert("payment", Document::new());
    assert_eq!(world.select(&id, DEFAULT_CODE), Err(OrderError::InvalidState));
}

#[test]
fn selecting_postage_for_a_stored_quantity_below_one_is_refused() {
    for quantity in [0, -1, i32::MIN] {
        let mut world = World::new();
        let created = world.create(&post("Bob", 3, "b@x.com", 2000)).unwrap();
        world.records[0].insert("quantity", quantity);
        assert_eq!(world.select(&created.id, DEFAULT_CODE), Err(OrderError::InvalidQuantity));
        assert_eq!(world.amount("pi_0"), Some(5560));
        assert!(!world.log[6..].iter().any(quoted));
    }
}

#[test]
fn selecting_postage_uses_what_the_store_holds_now() {
    let mut world = World::new();
    let created = world.create(&post("Bob", 3, "b@x.com", 2000)).unwrap();
    world.records[0].insert("quantity", 5i32);
    world.records[0].insert("address", address_record("", "2 Hay St", "Perth", "WA", 6000));
    world.log.clear();
    world.select(&created.id, "AUS_PARCEL_REGULAR").unwrap();
    assert_eq!(world.log[2], quote_for(5, 6000));
    assert_eq!(world.amount("pi_0"), Some(7500 + 895));
}

#[test]
fn orders_lists_what_the_store_holds() {
    let mut world = World::new();
    assert_eq!(world.list(), Ok(Vec::new()));
    world.create(&pickup("Ann", 2, "a@x.com")).unwrap();
    world.create(&post("Bob", 3, "b@x.com", 2000)).unwrap();
    let listed = world.list().unwrap();
    assert_eq!(listed, world.orders());
    assert_eq!(listed.len(), 2);
    assert_eq!(listed[0].user.name, "Ann");
    assert_eq!(listed[1].user.name, "Bob");
    assert_eq!(world.log.last(), Some(&Action::FindOrders));
}

#[test]
fn orders_skips_what_the_store_failed_to_deliver() {
    let step = QueryRoot::orders(
        QueryState::Finding,
        Event::FoundAll {
            items: vec![
                Ok(order_record(1, "Ann", "a@x.com", 1)),
                Err(Error::DefaultError("lost".to_string())),
                Ok(order_record(2, "Bob", "b@x.com", 0)),
            ],
        },
    );
    match step {
        Step::Done { result: Ok(listed) } => {
            assert_eq!(listed.len(), 2);
            assert_eq!(listed[0].user.name, "Ann");
            assert_eq!(listed[1].user.name, "Bob");
        }
        other => panic!("unexpected step {:?}", other),
    }
}

#[test]
fn order_is_fetched_by_identifier() {
    let mut world = World::new();
    let ann = world.create(&pickup("Ann", 2, "a@x.com")).unwrap();
    let bob = world.create(&post("Bob", 3, "b@x.com", 2000)).unwrap();
    assert_eq!(world.order(&ann.id).unwrap().unwrap().user.name, "Ann");
    assert_eq!(world.order(&bob.id).unwrap().unwrap().user.name, "Bob");
    assert_eq!(world.order(UNKNOWN_ID), Ok(None));
}

#[test]
fn order_is_nothing_where_the_store_fails() {
    assert_eq!(
        QueryRoot::order(
            UNKNOWN_ID,
            QueryState::Finding,
            Event::Found { found: Err(Error::DefaultError("down".to_string())) }
        ),
        Step::Done { result: Ok(None) }
    );
}

#[test]
fn order_with_a_malformed_identifier_is_refused_before_the_store_is_asked() {
    let mut world = World::new();
    world.create(&pickup("Ann", 2, "a@x.com")).unwrap();
    let asked = world.log.len();
    assert_eq!(world.order("1"), Err(OrderError::InvalidId));
    assert_eq!(world.calculate_postage("zz"), Err(OrderError::InvalidId));
    assert_eq!(world.order_price(""), Err(OrderError::InvalidId));
    assert_eq!(world.client_secret("53e37d08776f724e4200000x"), Err(OrderError::InvalidId));
    assert_eq!(world.method("ANY"), Err(OrderError::InvalidId));
    assert_eq!(world.log.len(), asked);
}

#[test]
fn order_fetched_twice_is_the_same() {
    let mut world = World::new();
    let created = world.create(&post("Bob", 3, "b@x.com", 2000)).unwrap();
    let first = world.order(&created.id).unwrap();
    let second = world.order(&created.id).unwrap();
    assert_eq!(first, second);
    let shouted = world.order(&created.id.to_uppercase()).unwrap();
    assert_eq!(first, shouted);
}

#[test]
fn postage_is_quoted_for_the_stored_quantity_and_post_code() {
    let mut world = World::new();
    let created = world.create(&post("Bob", 7, "b@x.com", 2600)).unwrap();
    world.services = Some(vec![
        PostPricesService { code: "A".to_string(), name: "a".to_string(), price: None },
        service("B", "b", "1234.56"),
    ]);
    world.log.clear();
    let offered = world.calculate_postage(&created.id).unwrap();
    assert_eq!(offered, vec![option("A", "a", 0), option("B", "b", 123456)]);
    assert_eq!(
        world.log,
        vec![Action::FindOrder { filter: filter(&created.id) }, quote_for(7, 2600)]
    );
}

#[test]
fn postage_of_a_pickup_order_has_no_address() {
    let mut world = World::new();
    let created = world.create(&pickup("Ann", 2, "a@x.com")).unwrap();
    world.log.clear();
    assert_eq!(world.calculate_postage(&created.id), Err(OrderError::NoAddressOnOrder));
    assert_eq!(world.log, vec![Action::FindOrder { filter: filter(&created.id) }]);
}

#[test]
fn postage_of_an_unknown_order_is_not_found() {
    let mut world = World::new();
    assert_eq!(world.calculate_postage(UNKNOWN_ID), Err(OrderError::NotFound));
}

#[test]
fn postage_fails_with_invalid_quantity_where_the_quote_fails() {
    let mut world = World::new();
    let created = world.create(&post("Bob", 7, "b@x.com", 2600)).unwrap();
    world.services = None;
    assert_eq!(world.calculate_postage(&created.id), Err(OrderError::InvalidQuantity));
}

#[test]
fn postage_of_a_stored_quantity_below_one_is_refused() {
    let mut world = World::new();
    let created = world.create(&post("Bob", 7, "b@x.com", 2600)).unwrap();
    world.records[0].remove("quantity");
    world.log.clear();
    assert_eq!(world.calculate_postage(&created.id), Err(OrderError::InvalidQuantity));
    assert_eq!(world.log.len(), 1);
}

#[test]
fn order_price_is_what_the_payment_service_holds() {
    let mut world = World::new();
    let ann = world.create(&pickup("Ann", 2, "a@x.com")).unwrap();
    let bob = world.create(&post("Bob", 3, "b@x.com", 2000)).unwrap();
    assert_eq!(world.order_price(&ann.id), Ok(3000));
    assert_eq!(world.order_price(&bob.id), Ok(5560));
    world.payments[0].1 = 1;
    assert_eq!(world.order_price(&ann.id), Ok(1));
    assert_eq!(
        world.log.last(),
        Some(&Action::RetrievePayment { pi: "pi_0".to_string() })
    );
}

#[test]
fn order_price_failures() {
    let mut world = World::new();
    assert_eq!(world.order_price(UNKNOWN_ID), Err(OrderError::NotFound));
    let ann = world.create(&pickup("Ann", 2, "a@x.com")).unwrap();
    world.payments.clear();
    assert_eq!(world.order_price(&ann.id), Err(OrderError::InternalDecodeError));
    world.records[0].remove("payment");
    assert_eq!(world.order_price(&ann.id), Err(OrderError::InvalidState));
}

#[test]
fn client_secret_is_what_the_payment_service_holds() {
    let mut world = World::new();
    let ann = world.create(&pickup("Ann", 2, "a@x.com")).unwrap();
    let bob = world.create(&pickup("Bob", 1, "b@x.com")).unwrap();
    assert_eq!(world.client_secret(&ann.id), Ok("pi_0_secret".to_string()));
    assert_eq!(world.client_secret(&bob.id), Ok("pi_1_secret".to_string()));
}

#[test]
fn client_secret_failures() {
    let mut world = World::new();
    assert_eq!(world.client_secret(UNKNOWN_ID), Err(OrderError::NotFound));
    let ann = world.create(&pickup("Ann", 2, "a@x.com")).unwrap();
    assert_eq!(
        QueryRoot::get_stripe_cs(
            &ann.id,
            QueryState::Retrieving,
            Event::PaymentRetrieved { amount: 3000, secret: None }
        ),
        Step::Done { result: Err(OrderError::InvalidState) }
    );
    world.payments.clear();
    assert_eq!(world.client_secret(&ann.id), Err(OrderError::InternalDecodeError));
    world.records[0].remove("payment");
    assert_eq!(world.client_secret(&ann.id), Err(OrderError::InvalidState));
}

#[test]
fn method_is_reported_by_name() {
    let mut world = World::new();
    let ann = world.create(&pickup("Ann", 2, "a@x.com")).unwrap();
    let bob = world.create(&post("Bob", 3, "b@x.com", 2000)).unwrap();
    assert_eq!(world.method(&ann.id), Ok("PICKUP".to_string()));
    assert_eq!(world.method(&bob.id), Ok("POST".to_string()));
    assert_eq!(world.method(UNKNOWN_ID), Err(OrderError::NotFound));
}

#[test]
fn price_excluding_postage_is_the_unit_price_for_each_scarf() {
    let mut world = World::new();
    let bob = world.create(&post("Bob", 3, "b@x.com", 2000)).unwrap();
    world.select(&bob.id, "AUS_PARCEL_EXPRESS").unwrap();
    let stored = world.stored(&bob.id).unwrap();
    assert_eq!(QueryRoot::price_excluding_postage(&stored), Ok(4500));
    assert_eq!(world.order_price(&bob.id), Ok(5695));
    let one = Order { quantity: 1, ..stored.clone() };
    assert_eq!(QueryRoot::price_excluding_postage(&one), Ok(1500));
    let most = Order { quantity: i32::MAX, ..stored.clone() };
    assert_eq!(QueryRoot::price_excluding_postage(&most), Ok(1500 * 2147483647u64));
}

#[test]
fn price_excluding_postage_of_a_quantity_below_one_is_refused() {
    let stored = Order {
        id: UNKNOWN_ID.to_string(),
        quantity: 0,
        address: None,
        user: User::default(),
        method: CollectionMethod::Pickup,
        postage: None,
        payment: None,
    };
    assert_eq!(QueryRoot::price_excluding_postage(&stored), Err(OrderError::InvalidQuantity));
    let negative = Order { quantity: -3, ..stored };
    assert_eq!(QueryRoot::price_excluding_postage(&negative), Err(OrderError::InvalidQuantity));
}

#[test]
fn order_state_follows_the_lifecycle_of_a_pickup_order() {
    let mut world = World::new();
    world.payment_creation_fails = true;
    assert!(world.create(&pickup("Ann", 2, "a@x.com")).is_err());
    assert_eq!(world.orders()[0].state(), OrderState::Created);
    world.payment_creation_fails = false;
    let created = world.create(&pickup("Ann", 2, "a@x.com")).unwrap();
    assert_eq!(created.state(), OrderState::PaymentIntentCreated);
    assert_eq!(world.stored(&created.id).unwrap().state(), OrderState::PaymentIntentCreated);
}

#[test]
fn order_state_follows_the_lifecycle_of_a_post_order() {
    let mut world = World::new();
    world.services = None;
    assert!(world.create(&post("Bob", 3, "b@x.com", 2000)).is_err());
    assert_eq!(world.orders()[0].state(), OrderState::AddressAttached);
    world.services = Some(usual_services());
    let created = world.create(&post("Bob", 3, "b@x.com", 2000)).unwrap();
    assert_eq!(created.state(), OrderState::PaymentIntentCreated);
    let selected = world.select(&created.id, "AUS_PARCEL_EXPRESS").unwrap();
    assert_eq!(selected.state(), OrderState::PostageSelected);
}

#[test]
fn order_state_of_a_record_with_postage_and_no_payment() {
    let mut world = World::new();
    world.payment_creation_fails = true;
    assert!(world.create(&post("Bob", 3, "b@x.com", 2000)).is_err());
    let id = world.orders()[0].id.clone();
    assert_eq!(world.select(&id, "AUS_PARCEL_EXPRESS"), Err(OrderError::InvalidState));
    let stored = world.stored(&id).unwrap();
    assert_eq!(stored.postage, Some(Postage { code: "AUS_PARCEL_EXPRESS".to_string() }));
    assert_eq!(stored.state(), OrderState::AddressAttached);
    world.records[0].remove("address");
    assert_eq!(world.stored(&id).unwrap().state(), OrderState::Created);
    world.records[0].insert("payment", Document::new());
    assert_eq!(world.stored(&id).unwrap().state(), OrderState::Created);
}
