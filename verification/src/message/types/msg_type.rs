//! Message type ids.

use vstd::prelude::*;

verus! {

pub const SET_CHUNK_SIZE: u8 = 1;

pub const ABORT: u8 = 2;

pub const ACK: u8 = 3;

pub const USER_CONTROL: u8 = 4;

pub const WIN_ACK_SIZE: u8 = 5;

pub const SET_PEER_BW: u8 = 6;

pub const AUDIO: u8 = 8;

pub const VIDEO: u8 = 9;

pub const AMF3_DATA: u8 = 15;

pub const AMF3_SHARED_OBJ: u8 = 16;

pub const AMF3_CMD: u8 = 17;

pub const AMF0_DATA: u8 = 18;

pub const AMF0_SHARED_OBJ: u8 = 19;

pub const AMF0_CMD: u8 = 20;

pub const AGGREGATE: u8 = 22;

} // verus!
