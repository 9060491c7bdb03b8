//! Accounting core of a single-pool staking program: the pool and position
//! records, their byte layouts, the reward formula, the transition handlers
//! and the dispatcher that decodes an instruction and routes it.
pub mod error;
pub mod laws;
pub mod processor;
pub mod reward;
pub mod state;
