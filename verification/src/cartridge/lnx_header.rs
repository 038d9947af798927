//! Fields of a cartridge image header.

use vstd::prelude::*;

verus! {

/// How far the screen is turned for a game, in degrees.
#[derive(Clone, Copy, Debug, PartialEq, Eq)]
pub enum LNXRotation {
    _0,
    _270,
    _90,
}

} // verus!
