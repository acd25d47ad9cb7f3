//! Core of a watch-and-rerun tool: debounces filesystem change notifications,
//! arbitrates between trigger sources, supervises one child process at a time,
//! and buffers the child's captured output for a display layer.
//!
//! The surrounding binary performs the actual OS work (watching, spawning,
//! reading pipes, drawing); every decision it takes is computed here.

pub mod arbiter;
pub mod buffer;
pub mod coordinator;
pub mod debounce;
pub mod header;
pub mod process_manager;
pub mod stats;
pub mod status;
pub mod text;
