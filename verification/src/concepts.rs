pub mod concurrency;
pub mod errors;
pub mod macros;
pub mod ownership;
pub mod pattern_matching;
pub mod session;
