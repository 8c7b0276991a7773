//! Queries and updates on each table of the store.

pub mod person;
pub mod permissions;
pub mod password_reset;
pub mod entries;
