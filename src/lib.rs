//! A forward HTTP proxy's decision logic, proved with Verus.
//!
//! * [`registry`] holds the round-robin registry of upstream tunnel endpoints.
//! * [`proxy`] decides, for each request, whether it is answered by the
//!   middleware hook, granted a CONNECT tunnel, rejected, or forwarded.
//!
//! Sockets, the async runtime and HTTP framing live with the caller: this
//! crate takes and returns plain values.
pub mod registry;
pub mod proxy;
