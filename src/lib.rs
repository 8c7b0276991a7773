//! Attendance and access-control backend: credential handling, the
//! account store and the authentication flows that run on top of it.

pub mod crypto;
pub mod support;
pub mod models;
pub mod db;
pub mod interactions;
pub mod account;
pub mod replies;
pub mod auth;
pub mod google_auth;
pub mod laws;
pub mod date;
pub mod entries;
pub mod guard;
pub mod req_logger;
pub mod conf;
pub mod seed;
