//! A null payment method: a mock plugin whose operations answer with canned,
//! echoed or delegated responses, and whose answers a test can script ahead
//! of time through one injection queue per operation kind.

pub mod code;
pub mod queue;
pub mod random;
pub mod operation;
pub mod harness;
pub mod dispatch;
pub mod laws;
