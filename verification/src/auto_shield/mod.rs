//! The daemon that shields coinbase rewards: it watches the chain for payouts to the wallet's
//! own addresses and shields each of them after a random delay.
pub mod clock;
pub mod config;
pub mod config_laws;
pub mod mnemonic;
pub mod node;
pub mod node_call_laws;
pub mod node_laws;
pub mod paths;
pub mod paths_laws;
pub mod queue;
pub mod queue_call_laws;
pub mod queue_laws;
pub mod queue_step_laws;
pub mod runner;
pub mod runner_call_laws;
pub mod runner_laws;
pub mod runner_step_laws;
pub mod state;
pub mod state_laws;
pub mod sync;
pub mod sync_laws;
