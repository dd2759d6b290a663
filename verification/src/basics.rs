pub mod types;
pub mod vars;
