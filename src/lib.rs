//! Host-side control core of an 18-input, 20-output USB audio interface with an on-device
//! mixer: the mixer model, the solo/mute rule and pan law, the vendor protocol frames and
//! gain codec, and the MIDI control-surface mapping with its learn mode.
//!
//! Levels are carried in thousandths of a dB throughout.

use vstd::prelude::*;

pub mod codec;
pub mod control;
pub mod descriptor;
pub mod frame;
pub mod midi;
pub mod midi_control;
pub mod mixer;
pub mod pan;
pub mod session;
pub mod studio;
pub mod writer;

verus! {

} // verus!
