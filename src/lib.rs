//! Delegated, recurring renewal of registered names through an external
//! scheduler: task identity, outbound registry calls, scheduler requests and
//! the check of who may start a renewal.

pub mod builder;
pub mod contract;
pub mod gate;
pub mod msg;
pub mod names;
pub mod registry;
pub mod scheduler;
pub mod state;
