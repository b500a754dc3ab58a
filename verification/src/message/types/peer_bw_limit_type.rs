//! Limit types of `SetPeerBandwidth`.

use vstd::prelude::*;

verus! {

pub const HARD: u8 = 0;

pub const SOFT: u8 = 1;

pub const DYNAMIC: u8 = 2;

} // verus!
