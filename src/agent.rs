//! The conversation core: the turn state machine and the executor's decisions.

pub mod fsm;
pub mod router;
pub mod discovery;
pub mod executor;
