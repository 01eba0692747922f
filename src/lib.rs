//! Address resolution and queue bookkeeping for a user-space network stack.

pub mod arp;
pub mod fail;
pub mod ports;
pub mod queue;
pub mod runtime;
