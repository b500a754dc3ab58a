//! Event types of `UserControl`.

use vstd::prelude::*;

verus! {

pub const STREAM_BEGIN: u16 = 0;

pub const STREAM_EOF: u16 = 1;

pub const STREAM_DRY: u16 = 2;

pub const SET_BUFFER_LENGTH: u16 = 3;

pub const STREAM_IS_RECORDED: u16 = 4;

pub const PING_REQUEST: u16 = 6;

pub const PING_RESPONSE: u16 = 7;

pub const FMS_EVENT_0: u16 = 0x1a;

} // verus!
