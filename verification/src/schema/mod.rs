//! Rows of the persistent store, as the queries return them.

pub mod channels;
pub mod ctes;
pub mod messages;
pub mod reactions;
pub mod users;
