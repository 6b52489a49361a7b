//! Decision logic of a Wi-Fi to MQTT bridge: the bounded message channels
//! between the application and the bridge, the link manager that keeps the
//! wireless interface connected, and the bridge cycle that resolves,
//! establishes and multiplexes a broker session; and the reading of the
//! delay setting that arrives from the broker.
pub mod channel;
pub mod link;
pub mod bridge;
pub mod config;
