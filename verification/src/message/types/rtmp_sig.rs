//! How the server signs itself.

use vstd::prelude::*;

verus! {

pub const RTMP_SIG_FMS_VER: &'static str = "FMS/3,5,3,888";

/// The AMF0 object encoding, `0.0`, as the bits of a double.
pub const RTMP_SIG_AMF0_VER: u64 = 0;

pub const RTMP_SIG_CLIENT_ID: &'static str = "ASAICiss";

} // verus!
