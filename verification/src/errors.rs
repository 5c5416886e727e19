//! The ways in which an operation on an order can fail.

use vstd::prelude::*;

verus! {

/// Why an operation on an order failed.
#[derive(Clone, Copy, Debug, PartialEq, Eq, Structural)]
pub enum OrderError {
    /// The quantity is less than one, or the shipping rate service could not
    /// quote for the order.
    InvalidQuantity,
    /// No quoted delivery option has the code that was asked for.
    InvalidPostageOption,
    /// Postage was asked for an order that has no address, such as one that
    /// is picked up.
    NoAddressOnOrder,
    /// No order has the given identifier.
    NotFound,
    /// The identifier is not 24 hexadecimal digits.
    InvalidId,
    /// The payment service did not create the transaction.
    PaymentIntentCreationFailed,
    /// The payment service did not return the transaction.
    InternalDecodeError,
    /// The stored order, or the reply of a collaborator, is not what the
    /// operation can go on with at this point.
    InvalidState,
}

impl OrderError {
    /// The message of this error, as a sequence of characters.
    pub open spec fn message_text(self) -> Seq<char> {
        match self {
            OrderError::InvalidQuantity => "Quantity must be greater than 0"@,
            OrderError::InvalidPostageOption => "User has not selected a valid postage option"@,
            OrderError::NoAddressOnOrder => "This order does not have an address defined. This is likely because the Pickup option was selected"@,
            OrderError::NotFound => "The requested order was not found"@,
            OrderError::InvalidId => "UID is not valid"@,
            OrderError::PaymentIntentCreationFailed => "Failed to create payment intent"@,
            OrderError::InternalDecodeError => "Internal Error decoding Document from database"@,
            OrderError::InvalidState => "The order is not in a state that allows this operation"@,
        }
    }

    /// The tag of this error, as a sequence of characters.
    pub open spec fn tag_text(self) -> Seq<char> {
        match self {
            OrderError::InvalidQuantity => "INVALID_QUANTITY"@,
            OrderError::InvalidPostageOption => "INVALID_QUANTITY"@,
            OrderError::NoAddressOnOrder => "NO_ADDRESS"@,
            OrderError::NotFound => "NOT_FOUND"@,
            OrderError::InvalidId => "INVALID_UID"@,
            OrderError::PaymentIntentCreationFailed => "NO_WHATEVER"@,
            OrderError::InternalDecodeError => "NO_WHATEVER"@,
            OrderError::InvalidState => "NO_WHATEVER"@,
        }
    }

    /// The message shown to the caller.
    pub fn message(&self) -> (r: &'static str)
        ensures
            r@ == self.message_text(),
    {
        match self {
            OrderError::InvalidQuantity => "Quantity must be greater than 0",
            OrderError::InvalidPostageOption => "User has not selected a valid postage option",
            OrderError::NoAddressOnOrder => "This order does not have an address defined. This is likely because the Pickup option was selected",
            OrderError::NotFound => "The requested order was not found",
            OrderError::InvalidId => "UID is not valid",
            OrderError::PaymentIntentCreationFailed => "Failed to create payment intent",
            OrderError::InternalDecodeError => "Internal Error decoding Document from database",
            OrderError::InvalidState => "The order is not in a state that allows this operation",
        }
    }

    /// The machine-readable tag sent along with the message. An unknown
    /// postage option is reported under the tag of an invalid quantity.
    pub fn tag(&self) -> (r: &'static str)
        ensures
            r@ == self.tag_text(),
    {
        match self {
            OrderError::InvalidQuantity => "INVALID_QUANTITY",
            OrderError::InvalidPostageOption => "INVALID_QUANTITY",
            OrderError::NoAddressOnOrder => "NO_ADDRESS",
            OrderError::NotFound => "NOT_FOUND",
            OrderError::InvalidId => "INVALID_UID",
            OrderError::PaymentIntentCreationFailed => "NO_WHATEVER",
            OrderError::InternalDecodeError => "NO_WHATEVER",
            OrderError::InvalidState => "NO_WHATEVER",
        }
    }
}

} // verus!
