//! Bounded framed-session infrastructure and control-plane policy for the
//! Portunus data orchestrator.
//!
//! [`transport`] holds protocol-neutral session policy (buffer accounting,
//! lifecycle, timing, reconnection, correlation, pooling) and the `BitTorrent`
//! peer-wire adapter. [`daemon`] holds the control-plane configuration and
//! admission policy. [`time`] is the monotonic time model both share.
pub mod time;
pub mod transport;
pub mod daemon;
