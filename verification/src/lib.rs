pub mod activation;
pub mod activation_laws;
pub mod auto_shield;
pub mod commands;
pub mod json_call_laws;
pub mod json_laws;
pub mod json_value;
pub mod payments;
pub mod payments_laws;
pub mod restrictions;
pub mod restrictions_laws;
pub mod text;
pub mod text_laws;
