//! Turning what a database hands back into values.

pub mod sqlite;
