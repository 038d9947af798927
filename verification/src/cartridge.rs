//! What is known of a cartridge from outside its own bytes.

pub mod lnx_header;
pub mod no_intro;
