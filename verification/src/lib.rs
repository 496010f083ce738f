//! Native backend logic for a hardware-design workbench GUI.
//!
//! The heart of the crate is the dependency prober: it reports whether the
//! external tools the workbench drives (the simulator `iverilog`, its runtime
//! `vvp`, and the waveform viewer `gtkwave`) can be resolved on the host's
//! executable search path. Beside it stand the pure parts of the remaining
//! command handlers: building the greeting string and planning which files a
//! project cleanup will remove.

pub mod cleanup;
pub mod greeting;
pub mod probe;
