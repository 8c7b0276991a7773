//! Settings of the device-facing side: the message broker and the database.

use vstd::prelude::*;

verus! {

/// Broker and database settings.
pub struct Conf {
    pub broker_url: String,
    pub broker_port: u16,
    pub broker_id: String,
    pub keep_alive: u64,
    pub session_timeout: u64,
    pub db_str: String,
}

/// The topics a device listens on.
pub struct DeviceInfo {
    pub topics: Vec<String>,
}

} // verus!
