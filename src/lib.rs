//! Timed control of digital and PWM outputs: polarity-aware on/off state,
//! waveform generation for blinking and fading, and the decisions of a
//! cancellable background task that replays a waveform.
use vstd::prelude::*;

pub mod controller;
pub mod device;
pub mod task;
pub mod waveform;

verus! {

} // verus!
