//! A real-time group chat relay: every connected client submits text and
//! receives every message submitted by any connected client.
//!
//! The library holds the relay's logic: the display identity derived from a
//! client's address, the codec between transport frames and chat events, the
//! shared broadcast pool, and the per-connection session state machine.
pub mod identity;
pub mod codec;
pub mod pool;
pub mod session;
