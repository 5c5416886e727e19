//! The operations on orders: creating one, selecting its postage, and the
//! queries.

pub mod context;
pub mod mutation_root;
pub mod query_root;
pub mod lifecycle;
pub mod schema;
