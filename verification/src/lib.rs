//! Small, self-contained building blocks: text rendering, borrowing, and a
//! bounded counter that two flows of control can step independently.

pub mod basics;
pub mod concepts;
pub mod print;
pub mod render;
