//! The GPU-facing half: byte images, buffers, the fixed pipeline state and
//! the commands of a frame.

pub mod buffer;
pub mod command;
pub mod encoding;
pub mod error;
pub mod ids;
pub mod invariants;
pub mod layout;
pub mod main_pipeline;
pub mod protocol;
pub mod shape;
pub mod swap_chain;
