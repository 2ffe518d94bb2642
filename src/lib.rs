//! A bytecode virtual machine over 16-bit cells: a cell is a 15-bit number,
//! one of eight register selectors, or invalid, and the engine executes an
//! image of such cells against registers, a stack and an input queue.

pub mod value;
pub mod machine;
