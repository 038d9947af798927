//! Addresses of the Mikey registers that the timer block answers to.

use vstd::prelude::*;

pub mod timers;

verus! {

/// First address of the Mikey register space; timer 0's backup register.
pub const MIK_ADDR: u16 = 0xFD00;

/// Control register A of timer 4.
pub const TIM4CTLA: u16 = 0xFD11;

/// First register of audio channel 0; the audio window begins here.
pub const AUD0VOL: u16 = 0xFD20;

/// First address past the registers of audio channel 3.
pub const AUD_END: u16 = 0xFD40;

} // verus!
