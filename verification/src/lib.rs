//! Decision logic of a launcher that assembles, links and runs one assembly
//! source file with an external toolchain.

pub mod bootstrap;
pub mod launcher;
pub mod layout;
pub mod pipeline;
pub mod probe;
pub mod protocol;
pub mod toolchain;
