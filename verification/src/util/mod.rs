//! Small self-contained helpers.

pub mod snowflake;
pub mod vectors;
