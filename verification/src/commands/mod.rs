//! The arguments of the wallet's commands.
pub mod call_laws;
pub mod error;
pub mod laws;
pub mod refusal_laws;
pub mod utils;
