//! Verified core of an HTTP gateway that remotely controls a fleet of
//! networked appliances (bulbs, plugs, power strips) behind a single shared
//! password.
//!
//! The library holds the gateway's logic: the capability tables that decide
//! which action a device model supports and how a request is dispatched, the
//! bearer-session store with its on-disk snapshot format, the per-device
//! connection state machine, and the registry of configured devices. The
//! surrounding process (HTTP transport, device driver calls, file and network
//! I/O) lives outside the library and exchanges plain values with it.

pub mod cmd;
pub mod config;
pub mod devices;
pub mod logger;
pub mod server;
