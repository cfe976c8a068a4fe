//! Typed access to another process's memory and a bridge to the host of an
//! auto splitter, stated over plain values and proved.
pub mod diagnostics;
pub mod pod;
pub mod process;
pub mod runtime;
pub mod timer;

pub use diagnostics::{Level, Logger};
pub use pod::Pod;
pub use process::{Address, Error, Process};
pub use runtime::{Runtime, Splitter};
pub use timer::TimerState;

use vstd::prelude::*;

verus! {

/// The result of an attempt to read the attached process's memory.
pub type Result<T> = core::result::Result<T, Error>;

} // verus!
