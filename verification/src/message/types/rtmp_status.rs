//! Keys and values of status objects.

use vstd::prelude::*;

verus! {

pub const STATUS_LEVEL: &'static str = "level";

pub const STATUS_CODE: &'static str = "code";

pub const STATUS_DESCRIPTION: &'static str = "description";

pub const STATUS_DETAILS: &'static str = "details";

pub const STATUS_CLIENT_ID: &'static str = "clientid";

pub const STATUS_LEVEL_STATUS: &'static str = "status";

pub const STATUS_LEVEL_ERROR: &'static str = "error";

pub const STATUS_CODE_CONNECT_SUCCESS: &'static str = "NetConnection.Connect.Success";

pub const STATUS_CODE_CONNECT_REJECTED: &'static str = "NetConnection.Connect.Rejected";

pub const STATUS_CODE_STREAM_RESET: &'static str = "NetStream.Play.Reset";

pub const STATUS_CODE_STREAM_START: &'static str = "NetStream.Play.Start";

pub const STATUS_CODE_STREAM_PAUSE: &'static str = "NetStream.Pause.Notify";

pub const STATUS_CODE_STREAM_UNPAUSE: &'static str = "NetStream.Unpause.Notify";

pub const STATUS_CODE_PUBLISH_START: &'static str = "NetStream.Publish.Start";

pub const STATUS_CODE_DATA_START: &'static str = "NetStream.Data.Start";

pub const STATUS_CODE_UNPUBLISH_SUCCESS: &'static str = "NetStream.Unpublish.Success";

} // verus!
