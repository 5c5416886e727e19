//! The fields of the data model as a client may read them.

use crate::models::{
    clone_text, Address, CollectionMethod, Order, Payment, PaymentStripe, PostDeliveryOption,
    Postage, User,
};
use vstd::prelude::*;

verus! {

impl User {
    /// Contact name.
    pub fn name(&self) -> (r: &str)
        ensures
            r@ == self.name@,
    {
        self.name.as_str()
    }

    /// Contact email.
    pub fn email(&self) -> (r: &str)
        ensures
            r@ == self.email@,
    {
        self.email.as_str()
    }
}

impl Order {
    /// The identifier of the order.
    pub fn id(&self) -> (r: &str)
        ensures
            r@ == self.id@,
    {
        self.id.as_str()
    }

    /// Contact details.
    pub fn user(&self) -> (r: User)
        ensures
            r == self.user,
    {
        self.user.clone()
    }

    /// Delivery address.
    pub fn address(&self) -> (r: Option<Address>)
        ensures
            r == self.address,
    {
        match &self.address {
            Some(a) => Some(a.clone()),
            None => None,
        }
    }

    /// Postage details.
    pub fn postage(&self) -> (r: Option<Postage>)
        ensures
            r == self.postage,
    {
        match &self.postage {
            Some(p) => Some(p.clone()),
            None => None,
        }
    }

    /// Quantity of scarves to be delivered.
    pub fn quantity(&self) -> (r: i32)
        ensures
            r == self.quantity,
    {
        self.quantity
    }

    /// Whether the order is picked up or delivered.
    pub fn method(&self) -> (r: CollectionMethod)
        ensures
            r == self.method,
    {
        self.method
    }

    /// The payment reference.
    pub fn payment(&self) -> (r: Option<Payment>)
        ensures
            r == self.payment,
    {
        match &self.payment {
            Some(p) => Some(p.clone()),
            None => None,
        }
    }
}

impl Address {
    /// The apartment, where one was given.
    pub fn apartment(&self) -> (r: Option<String>)
        ensures
            r == self.apartment,
    {
        clone_text(&self.apartment)
    }

    /// The street and number.
    pub fn street(&self) -> (r: &str)
        ensures
            r@ == self.street@,
    {
        self.street.as_str()
    }

    /// The town.
    pub fn town(&self) -> (r: &str)
        ensures
            r@ == self.town@,
    {
        self.town.as_str()
    }

    /// The state.
    pub fn state(&self) -> (r: &str)
        ensures
            r@ == self.state@,
    {
        self.state.as_str()
    }

    /// The post code.
    pub fn post_code(&self) -> (r: i32)
        ensures
            r == self.post_code,
    {
        self.post_code
    }
}

impl Postage {
    /// The code of the selected delivery option.
    pub fn code(&self) -> (r: &str)
        ensures
            r@ == self.code@,
    {
        self.code.as_str()
    }
}

impl PostDeliveryOption {
    /// The name of the delivery option.
    pub fn name(&self) -> (r: &str)
        ensures
            r@ == self.name@,
    {
        self.name.as_str()
    }

    /// The price of the delivery option in cents.
    pub fn price(&self) -> (r: u32)
        ensures
            r == self.price_cents,
    {
        self.price_cents
    }

    /// The code of the delivery option.
    pub fn code(&self) -> (r: &str)
        ensures
            r@ == self.code@,
    {
        self.code.as_str()
    }
}

impl Payment {
    /// The transaction at the payment service.
    pub fn stripe(&self) -> (r: Option<PaymentStripe>)
        ensures
            r == self.stripe,
    {
        match &self.stripe {
            Some(s) => Some(s.clone()),
            None => None,
        }
    }
}

impl PaymentStripe {
    /// The secret that lets a client complete the payment, where it is known.
    pub fn client_secret(&self) -> (r: Option<String>)
        ensures
            r == self.client_secret,
    {
        clone_text(&self.client_secret)
    }
}

} // verus!
