//! Request handling for a Workers sandbox: the decisions behind each route,
//! the alarm durable object, the queue consumer, and the checks that cloned
//! requests and responses keep what they were cloned from.

pub mod decimal;
pub mod headers;
pub mod reply;
pub mod routes;
pub mod durable;
pub mod queue;
pub mod clone_check;
pub mod classic_routes;
