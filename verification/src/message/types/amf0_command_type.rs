//! Names of AMF0 commands and data messages.

use vstd::prelude::*;

verus! {

pub const COMMAND_CONNECT: &'static str = "connect";

pub const COMMAND_CREATE_STREAM: &'static str = "createStream";

pub const COMMAND_CLOSE_STREAM: &'static str = "closeStream";

pub const COMMAND_PLAY: &'static str = "play";

pub const COMMAND_PAUSE: &'static str = "pause";

pub const COMMAND_ON_BW_DONE: &'static str = "onBWDone";

pub const COMMAND_ON_STATUS: &'static str = "onStatus";

pub const COMMAND_RESULT: &'static str = "_result";

pub const COMMAND_ERROR: &'static str = "_error";

pub const COMMAND_RELEASE_STREAM: &'static str = "releaseStream";

pub const COMMAND_FC_PUBLISH: &'static str = "FCPublish";

pub const COMMAND_UNPUBLISH: &'static str = "FCUnpublish";

pub const COMMAND_PUBLISH: &'static str = "publish";

pub const COMMAND_ON_FC_PUBLISH: &'static str = "onFCPublish";

pub const COMMAND_ON_FC_UNPUBLISH: &'static str = "onFCUnpublish";

pub const DATA_SAMPLE_ACCESS: &'static str = "|RtmpSampleAccess";

pub const DATA_SET_DATAFRAME: &'static str = "@setDataFrame";

pub const DATA_ON_METADATA: &'static str = "onMetaData";

} // verus!
