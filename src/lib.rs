//! Decoding, filtering and rendering of MIDI messages for a MIDI input monitor.

use vstd::prelude::*;

pub mod config;
pub mod messages;
pub mod monitor;
pub mod text;

verus! {

} // verus!
