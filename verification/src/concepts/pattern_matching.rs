pub mod destructure;
pub mod structs;
