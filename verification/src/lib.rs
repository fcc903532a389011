//! The library of a patcher for the Steam client on AMD handhelds: it decides which
//! device it runs on, what each setting change does on it, how Steam's UI files are
//! patched and unpatched, and how the Steam log and the device keys are reacted to.
use vstd::prelude::*;

pub mod devices;
pub mod key_mapper;
pub mod patch;
pub mod server;
pub mod steam;
pub mod text;
pub mod utils;

verus! {

} // verus!
