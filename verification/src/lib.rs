//! The timer block of the Mikey I/O chip: eight general countdown timers and
//! four audio channel timers that share one clock and can be chained, with
//! the register interface through which the CPU drives them. Also the
//! register that recognises known cartridge dumps by their digest.

pub mod cartridge;
pub mod mikey;
