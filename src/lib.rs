//! Usage metering: a running total of cost events, folded in by a single
//! drain loop, with a reset, a close request and a one-shot shutdown token.

pub mod laws;
pub mod meter;
pub mod shutdown;
