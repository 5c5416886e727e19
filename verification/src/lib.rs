//! Purchase orders for scarves: the data model, the pricing rules and the
//! decisions of the order lifecycle, with every executable function verified.
//!
//! The library performs no input or output. Operations that need the order
//! store, the shipping rate service or the payment service are written as
//! state machines: each step takes the reply to the previous request and
//! returns either the next request or the final result.

pub mod db;
pub mod models;
pub mod text;
pub mod pricing;
pub mod errors;
pub mod graphql;
