//! Keeps a firewall address list in step with the server list published by
//! the Steam directory service.
//!
//! The library covers the logic of that job: normalizing `address:port`
//! endpoint strings into a deduplicated list of bare addresses, rendering
//! that list as a RouterOS import script, decoding the JSON bodies of the
//! directory service and of the device's management API, and driving the
//! enumerate / delete / insert reconciliation protocol against the device.
//! Network transport (HTTPS, TCP serving) lives outside the library, which
//! hands it plain values and exact plans.

pub mod device;
pub mod directory;
pub mod dispatch;
pub mod http;
pub mod json;
pub mod normalize;
pub mod reconcile;
pub mod script;
