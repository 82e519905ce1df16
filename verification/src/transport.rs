//! Protocol-neutral bounded framed-session infrastructure.
//!
//! This module owns connection lifecycle, timing, correlation, buffer accounting,
//! pooling, and the decisions of the session event loop. Concrete wire formats
//! belong in adapter modules; [`peer`] is the `BitTorrent` reference workload.
pub mod buffer;
pub mod session;
pub mod timing;
pub mod reconnect;
pub mod correlation;
pub mod wire;
pub mod peer;
pub mod pool;
pub mod report;
pub mod driver;
pub mod heartbeat;
