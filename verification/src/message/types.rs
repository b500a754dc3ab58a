//! Numbers and names fixed by the RTMP wire protocol.

use vstd::prelude::*;

pub mod amf0_command_type;
pub mod msg_type;
pub mod peer_bw_limit_type;
pub mod rtmp_sig;
pub mod rtmp_status;
pub mod user_ctrl_ev_type;

verus! {

/// The message stream id that the server hands out.
pub const DEFAULT_SID: u32 = 1;

/// `DEFAULT_SID` as the bits of a double.
pub const DEFAULT_SID_NUMBER: u64 = 0x3FF0_0000_0000_0000;

} // verus!
