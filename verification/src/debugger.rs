//! What the interactive debugger decides and shows: the commands it takes
//! and the lines it renders.

pub mod commands;
pub mod render;
