//! The messages that the relay sends of its own accord.

use crate::amf::{
    keys_distinct, values_view, Amf0Value, Amf0View, NUMBER_ONE, NUMBER_TWO, NUMBER_ZERO,
};
use crate::message::request::{Request, RequestView};
use crate::message::types::amf0_command_type::{
    COMMAND_CONNECT, COMMAND_CREATE_STREAM, COMMAND_ON_BW_DONE, COMMAND_ON_FC_PUBLISH,
    COMMAND_ON_FC_UNPUBLISH, COMMAND_ON_STATUS, COMMAND_PLAY, COMMAND_RESULT, DATA_SAMPLE_ACCESS,
};
use crate::message::types::rtmp_sig::{RTMP_SIG_CLIENT_ID, RTMP_SIG_FMS_VER};
use crate::message::types::rtmp_status::{
    STATUS_CLIENT_ID, STATUS_CODE, STATUS_CODE_CONNECT_SUCCESS, STATUS_CODE_DATA_START,
    STATUS_CODE_PUBLISH_START, STATUS_CODE_STREAM_PAUSE, STATUS_CODE_STREAM_RESET,
    STATUS_CODE_STREAM_START, STATUS_CODE_STREAM_UNPAUSE, STATUS_CODE_UNPUBLISH_SUCCESS,
    STATUS_DESCRIPTION, STATUS_DETAILS, STATUS_LEVEL, STATUS_LEVEL_STATUS,
};
use crate::message::types::DEFAULT_SID_NUMBER;
use crate::message::{MessageView, RtmpMessage};
use vstd::prelude::*;

verus! {

/// The bits of the double `127.0`.
pub const NUMBER_127: u64 = 0x405F_C000_0000_0000;

/// The bits of the double `239.0`.
pub const NUMBER_239: u64 = 0x406D_E000_0000_0000;

/// The bits of the double `252.0`.
pub const NUMBER_252: u64 = 0x406F_8000_0000_0000;

/// The bits of the double `3575.0`.
pub const NUMBER_3575: u64 = 0x40AB_EE00_0000_0000;

/// The version that the relay reports of itself.
pub const VERSION: &'static str = "v0.1.0";

/// An object whose properties are texts, in the given order.
pub open spec fn texts_object(pairs: Seq<(&str, &str)>) -> Amf0View {
    Amf0View::Object(
        Seq::new(pairs.len(), |i: int| (pairs[i].0@, Amf0View::Utf8String(pairs[i].1@))),
    )
}

/// A command without command object.
pub open spec fn plain_command(name: &str, transaction_id: u64, args: Seq<Amf0View>) -> MessageView {
    MessageView::Amf0Command {
        command_name: name@,
        transaction_id,
        command_object: Amf0View::Null,
        additional_arguments: args,
    }
}

/// An `onStatus` command that reports `pairs`.
pub open spec fn on_status(pairs: Seq<(&str, &str)>) -> MessageView {
    plain_command(COMMAND_ON_STATUS, NUMBER_ZERO, seq![texts_object(pairs)])
}

impl MessageView {
    /// The answer to a call that the relay does not know: a command without
    /// name.
    pub open spec fn null(transaction_id: u64) -> MessageView {
        plain_command("", transaction_id, Seq::empty())
    }

    pub open spec fn on_bw_done() -> MessageView {
        plain_command(COMMAND_ON_BW_DONE, NUMBER_ZERO, Seq::empty())
    }

    pub open spec fn play_stream(stream_name: Seq<char>) -> MessageView {
        plain_command(COMMAND_PLAY, NUMBER_ZERO, seq![Amf0View::Utf8String(stream_name)])
    }

    pub open spec fn create_stream() -> MessageView {
        plain_command(COMMAND_CREATE_STREAM, NUMBER_TWO, Seq::empty())
    }

    /// `_result` with the stream id 1.
    pub open spec fn create_stream_res(transaction_id: u64) -> MessageView {
        plain_command(COMMAND_RESULT, transaction_id, seq![Amf0View::Number(DEFAULT_SID_NUMBER)])
    }

    /// `_result` with an undefined value.
    pub open spec fn release_stream_res(transaction_id: u64) -> MessageView {
        plain_command(COMMAND_RESULT, transaction_id, seq![Amf0View::Undefined])
    }

    /// `_result` with an undefined value.
    pub open spec fn fcpublish_res(transaction_id: u64) -> MessageView {
        plain_command(COMMAND_RESULT, transaction_id, seq![Amf0View::Undefined])
    }

    /// `|RtmpSampleAccess(true, true)`.
    pub open spec fn sample_access() -> MessageView {
        MessageView::Amf0Data {
            command_name: DATA_SAMPLE_ACCESS@,
            values: seq![Amf0View::Boolean(true), Amf0View::Boolean(true)],
        }
    }

    pub open spec fn on_fcpublish() -> MessageView {
        plain_command(
            COMMAND_ON_FC_PUBLISH,
            NUMBER_ZERO,
            seq![
                texts_object(
                    seq![
                        (STATUS_CODE, STATUS_CODE_PUBLISH_START),
                        (STATUS_DESCRIPTION, "Started publishing stream."),
                    ],
                ),
            ],
        )
    }

    pub open spec fn on_fcunpublish() -> MessageView {
        plain_command(
            COMMAND_ON_FC_UNPUBLISH,
            NUMBER_ZERO,
            seq![
                texts_object(
                    seq![
                        (STATUS_CODE, STATUS_CODE_UNPUBLISH_SUCCESS),
                        (STATUS_DESCRIPTION, "Stop publishing stream."),
                    ],
                ),
            ],
        )
    }

    pub open spec fn on_status_publish_start() -> MessageView {
        on_status(
            seq![
                (STATUS_LEVEL, STATUS_LEVEL_STATUS),
                (STATUS_CODE, STATUS_CODE_PUBLISH_START),
                (STATUS_DESCRIPTION, "Started publishing stream."),
                (STATUS_CLIENT_ID, RTMP_SIG_CLIENT_ID),
            ],
        )
    }

    pub open spec fn on_status_unpublish() -> MessageView {
        on_status(
            seq![
                (STATUS_LEVEL, STATUS_LEVEL_STATUS),
                (STATUS_CODE, STATUS_CODE_UNPUBLISH_SUCCESS),
                (STATUS_DESCRIPTION, "Stream is now unpublished"),
                (STATUS_CLIENT_ID, RTMP_SIG_CLIENT_ID),
            ],
        )
    }

    pub open spec fn on_status_play_reset() -> MessageView {
        on_status(
            seq![
                (STATUS_LEVEL, STATUS_LEVEL_STATUS),
                (STATUS_CODE, STATUS_CODE_STREAM_RESET),
                (STATUS_DESCRIPTION, "Playing and resetting stream."),
                (STATUS_DETAILS, "stream"),
                (STATUS_CLIENT_ID, RTMP_SIG_CLIENT_ID),
            ],
        )
    }

    pub open spec fn on_status_play_start() -> MessageView {
        on_status(
            seq![
                (STATUS_LEVEL, STATUS_LEVEL_STATUS),
                (STATUS_CODE, STATUS_CODE_STREAM_START),
                (STATUS_DESCRIPTION, "Started playing stream."),
                (STATUS_DETAILS, "stream"),
                (STATUS_CLIENT_ID, RTMP_SIG_CLIENT_ID),
            ],
        )
    }

    pub open spec fn on_status_pause() -> MessageView {
        on_status(
            seq![
                (STATUS_LEVEL, STATUS_LEVEL_STATUS),
                (STATUS_CODE, STATUS_CODE_STREAM_PAUSE),
                (STATUS_DESCRIPTION, "Paused stream."),
            ],
        )
    }

    pub open spec fn on_status_unpause() -> MessageView {
        on_status(
            seq![
                (STATUS_LEVEL, STATUS_LEVEL_STATUS),
                (STATUS_CODE, STATUS_CODE_STREAM_UNPAUSE),
                (STATUS_DESCRIPTION, "Unpaused stream."),
            ],
        )
    }

    /// `onStatus(NetStream.Data.Start)` as a data message.
    pub open spec fn on_status_data_start() -> MessageView {
        MessageView::Amf0Data {
            command_name: COMMAND_ON_STATUS@,
            values: seq![texts_object(seq![(STATUS_CODE, STATUS_CODE_DATA_START)])],
        }
    }

    /// The `connect` command of an origin-pull client `uid` for `req`.
    pub open spec fn connect_app(req: RequestView, uid: Seq<char>) -> MessageView {
        MessageView::Amf0Command {
            command_name: COMMAND_CONNECT@,
            transaction_id: NUMBER_ONE,
            command_object: Amf0View::Object(
                seq![
                    ("app"@, Amf0View::Utf8String(req.app())),
                    ("flashVer"@, Amf0View::Utf8String("WIN 15,0,0,239"@)),
                    ("swfUrl"@, Amf0View::Utf8String(""@)),
                    ("tcUrl"@, Amf0View::Utf8String(req.tc_url)),
                    ("fpad"@, Amf0View::Boolean(false)),
                    ("capabilities"@, Amf0View::Number(NUMBER_239)),
                    ("audioCodecs"@, Amf0View::Number(NUMBER_3575)),
                    ("videoCodecs"@, Amf0View::Number(NUMBER_252)),
                    ("videoFunction"@, Amf0View::Number(NUMBER_ONE)),
                    ("pageUrl"@, Amf0View::Utf8String(""@)),
                    ("objectEncoding"@, Amf0View::Number(NUMBER_ZERO)),
                ],
            ),
            additional_arguments: seq![
                Amf0View::Object(
                    seq![
                        ("msir_version"@, Amf0View::Utf8String(VERSION@)),
                        ("msir_uid"@, Amf0View::Utf8String(uid)),
                    ],
                ),
            ],
        }
    }

    /// The `_result` that answers `connect`: the server's properties, and the
    /// status `NetConnection.Connect.Success` with the client's object
    /// encoding.
    pub open spec fn connect_app_res(object_encoding: u64) -> MessageView {
        MessageView::Amf0Command {
            command_name: COMMAND_RESULT@,
            transaction_id: NUMBER_ONE,
            command_object: Amf0View::Object(
                seq![
                    ("fmsVer"@, Amf0View::Utf8String(RTMP_SIG_FMS_VER@)),
                    ("capabilities"@, Amf0View::Number(NUMBER_127)),
                    ("mode"@, Amf0View::Number(NUMBER_ONE)),
                ],
            ),
            additional_arguments: seq![
                Amf0View::Object(
                    seq![
                        (STATUS_LEVEL@, Amf0View::Utf8String(STATUS_LEVEL_STATUS@)),
                        (STATUS_CODE@, Amf0View::Utf8String(STATUS_CODE_CONNECT_SUCCESS@)),
                        (STATUS_DESCRIPTION@, Amf0View::Utf8String("Connection succeeded"@)),
                        ("objectEncoding"@, Amf0View::Number(object_encoding)),
                        (
                            "data"@,
                            Amf0View::Object(
                                seq![
                                    ("msir_version"@, Amf0View::Utf8String(VERSION@)),
                                    ("msir_auther"@, Amf0View::Utf8String("Lukie"@)),
                                ],
                            ),
                        ),
                    ],
                ),
            ],
        }
    }
}

/// An object of texts.
fn fast_create_text_obj(pairs: Vec<(&'static str, &'static str)>) -> (r: Amf0Value)
    ensures
        r@ == texts_object(pairs@),
{
    let mut values: Vec<(&str, Amf0Value)> = Vec::new();
    let mut i: usize = 0;
    while i < pairs.len()
        invariant
            i <= pairs@.len(),
            values@.len() == i,
            forall|j: int|
                0 <= j < i ==> values@[j].0@ == pairs@[j].0@ && values@[j].1@
                    == Amf0View::Utf8String(pairs@[j].1@),
        decreases pairs@.len() - i,
    {
        values.push((pairs[i].0, Amf0Value::Utf8String(pairs[i].1.to_owned())));
        i += 1;
    }
    let r = fast_create_amf0_obj(values);
    assert(r@->Object_0 =~= texts_object(pairs@)->Object_0);
    r
}

/// An object with the given properties.
fn fast_create_amf0_obj(values: Vec<(&str, Amf0Value)>) -> (r: Amf0Value)
    ensures
        r@ == Amf0View::Object(Seq::new(values@.len(), |i: int| (values@[i].0@, values@[i].1@))),
{
    Amf0Value::object(values)
}

/// A text value.
fn text(s: &str) -> (r: Amf0Value)
    ensures
        r@ == Amf0View::Utf8String(s@),
{
    Amf0Value::Utf8String(s.to_owned())
}

/// A command without command object.
fn command(name: &str, transaction_id: u64, args: Vec<Amf0Value>) -> (r: RtmpMessage)
    ensures
        r@ == plain_command(name, transaction_id, values_view(args@)),
{
    RtmpMessage::Amf0Command {
        command_name: name.to_owned(),
        transaction_id,
        command_object: Amf0Value::Null,
        additional_arguments: args,
    }
}

/// A list of one value.
fn one(value: Amf0Value) -> (r: Vec<Amf0Value>)
    ensures
        values_view(r@) == seq![value@],
{
    let mut r: Vec<Amf0Value> = Vec::new();
    r.push(value);
    assert(values_view(r@) =~= seq![value@]);
    r
}

/// No values.
fn none() -> (r: Vec<Amf0Value>)
    ensures
        values_view(r@) == Seq::<Amf0View>::empty(),
{
    let r: Vec<Amf0Value> = Vec::new();
    assert(values_view(r@) =~= Seq::<Amf0View>::empty());
    r
}

impl RtmpMessage {
    pub fn new_null(transaction_id: u64) -> (r: Self)
        ensures
            r@ == MessageView::null(transaction_id),
    {
        command("", transaction_id, none())
    }

    pub fn new_on_bw_done() -> (r: Self)
        ensures
            r@ == MessageView::on_bw_done(),
    {
        command(COMMAND_ON_BW_DONE, NUMBER_ZERO, none())
    }

    pub fn new_play_stream(stream_name: String) -> (r: Self)
        ensures
            r@ == MessageView::play_stream(stream_name@),
    {
        command(COMMAND_PLAY, NUMBER_ZERO, one(Amf0Value::Utf8String(stream_name)))
    }

    pub fn new_create_stream() -> (r: Self)
        ensures
            r@ == MessageView::create_stream(),
    {
        command(COMMAND_CREATE_STREAM, NUMBER_TWO, none())
    }

    pub fn new_create_stream_res(transaction_id: u64) -> (r: Self)
        ensures
            r@ == MessageView::create_stream_res(transaction_id),
    {
        command(COMMAND_RESULT, transaction_id, one(Amf0Value::Number(DEFAULT_SID_NUMBER)))
    }

    pub fn new_release_stream_res(transaction_id: u64) -> (r: Self)
        ensures
            r@ == MessageView::release_stream_res(transaction_id),
    {
        command(COMMAND_RESULT, transaction_id, one(Amf0Value::Undefined))
    }

    pub fn new_fcpublish_res(transaction_id: u64) -> (r: Self)
        ensures
            r@ == MessageView::fcpublish_res(transaction_id),
    {
        command(COMMAND_RESULT, transaction_id, one(Amf0Value::Undefined))
    }

    pub fn new_sample_access() -> (r: Self)
        ensures
            r@ == MessageView::sample_access(),
    {
        let mut values: Vec<Amf0Value> = Vec::new();
        values.push(Amf0Value::Boolean(true));
        values.push(Amf0Value::Boolean(true));
        assert(values_view(values@) =~= seq![Amf0View::Boolean(true), Amf0View::Boolean(true)]);
        RtmpMessage::Amf0Data { command_name: DATA_SAMPLE_ACCESS.to_owned(), values }
    }

    pub fn new_on_fcpublish() -> (r: Self)
        ensures
            r@ == MessageView::on_fcpublish(),
    {
        command(
            COMMAND_ON_FC_PUBLISH,
            NUMBER_ZERO,
            one(
                fast_create_text_obj(
                    vec![
                        (STATUS_CODE, STATUS_CODE_PUBLISH_START),
                        (STATUS_DESCRIPTION, "Started publishing stream."),
                    ],
                ),
            ),
        )
    }

    pub fn new_on_fcunpublish() -> (r: Self)
        ensures
            r@ == MessageView::on_fcunpublish(),
    {
        command(
            COMMAND_ON_FC_UNPUBLISH,
            NUMBER_ZERO,
            one(
                fast_create_text_obj(
                    vec![
                        (STATUS_CODE, STATUS_CODE_UNPUBLISH_SUCCESS),
                        (STATUS_DESCRIPTION, "Stop publishing stream."),
                    ],
                ),
            ),
        )
    }

    pub fn new_on_status_publish_start() -> (r: Self)
        ensures
            r@ == MessageView::on_status_publish_start(),
    {
        command(
            COMMAND_ON_STATUS,
            NUMBER_ZERO,
            one(
                fast_create_text_obj(
                    vec![
                        (STATUS_LEVEL, STATUS_LEVEL_STATUS),
                        (STATUS_CODE, STATUS_CODE_PUBLISH_START),
                        (STATUS_DESCRIPTION, "Started publishing stream."),
                        (STATUS_CLIENT_ID, RTMP_SIG_CLIENT_ID),
                    ],
                ),
            ),
        )
    }

    pub fn new_on_status_unpublish() -> (r: Self)
        ensures
            r@ == MessageView::on_status_unpublish(),
    {
        command(
            COMMAND_ON_STATUS,
            NUMBER_ZERO,
            one(
                fast_create_text_obj(
                    vec![
                        (STATUS_LEVEL, STATUS_LEVEL_STATUS),
                        (STATUS_CODE, STATUS_CODE_UNPUBLISH_SUCCESS),
                        (STATUS_DESCRIPTION, "Stream is now unpublished"),
                        (STATUS_CLIENT_ID, RTMP_SIG_CLIENT_ID),
                    ],
                ),
            ),
        )
    }

    pub fn new_on_status_play_reset() -> (r: Self)
        ensures
            r@ == MessageView::on_status_play_reset(),
    {
        command(
            COMMAND_ON_STATUS,
            NUMBER_ZERO,
            one(
                fast_create_text_obj(
                    vec![
                        (STATUS_LEVEL, STATUS_LEVEL_STATUS),
                        (STATUS_CODE, STATUS_CODE_STREAM_RESET),
                        (STATUS_DESCRIPTION, "Playing and resetting stream."),
                        (STATUS_DETAILS, "stream"),
                        (STATUS_CLIENT_ID, RTMP_SIG_CLIENT_ID),
                    ],
                ),
            ),
        )
    }

    pub fn new_on_status_play_start() -> (r: Self)
        ensures
            r@ == MessageView::on_status_play_start(),
    {
        command(
            COMMAND_ON_STATUS,
            NUMBER_ZERO,
            one(
                fast_create_text_obj(
                    vec![
                        (STATUS_LEVEL, STATUS_LEVEL_STATUS),
                        (STATUS_CODE, STATUS_CODE_STREAM_START),
                        (STATUS_DESCRIPTION, "Started playing stream."),
                        (STATUS_DETAILS, "stream"),
                        (STATUS_CLIENT_ID, RTMP_SIG_CLIENT_ID),
                    ],
                ),
            ),
        )
    }

    pub fn new_on_status_pause() -> (r: Self)
        ensures
            r@ == MessageView::on_status_pause(),
    {
        command(
            COMMAND_ON_STATUS,
            NUMBER_ZERO,
            one(
                fast_create_text_obj(
                    vec![
                        (STATUS_LEVEL, STATUS_LEVEL_STATUS),
                        (STATUS_CODE, STATUS_CODE_STREAM_PAUSE),
                        (STATUS_DESCRIPTION, "Paused stream."),
                    ],
                ),
            ),
        )
    }

    pub fn new_on_status_unpause() -> (r: Self)
        ensures
            r@ == MessageView::on_status_unpause(),
    {
        command(
            COMMAND_ON_STATUS,
            NUMBER_ZERO,
            one(
                fast_create_text_obj(
                    vec![
                        (STATUS_LEVEL, STATUS_LEVEL_STATUS),
                        (STATUS_CODE, STATUS_CODE_STREAM_UNPAUSE),
                        (STATUS_DESCRIPTION, "Unpaused stream."),
                    ],
                ),
            ),
        )
    }

    pub fn new_on_status_data_start() -> (r: Self)
        ensures
            r@ == MessageView::on_status_data_start(),
    {
        let pairs = vec![(STATUS_CODE, STATUS_CODE_DATA_START)];
        assert(pairs@ =~= seq![(STATUS_CODE, STATUS_CODE_DATA_START)]);
        let values = one(fast_create_text_obj(pairs));
        RtmpMessage::Amf0Data { command_name: COMMAND_ON_STATUS.to_owned(), values }
    }

    pub fn new_connect_app(req: &Request, uid: String) -> (r: Self)
        ensures
            r@ == MessageView::connect_app(req@, uid@),
    {
        let command_object = fast_create_amf0_obj(
            vec![
                ("app", Amf0Value::Utf8String(req.app())),
                ("flashVer", text("WIN 15,0,0,239")),
                ("swfUrl", text("")),
                ("tcUrl", Amf0Value::Utf8String(req.tc_url.clone())),
                ("fpad", Amf0Value::Boolean(false)),
                ("capabilities", Amf0Value::Number(NUMBER_239)),
                ("audioCodecs", Amf0Value::Number(NUMBER_3575)),
                ("videoCodecs", Amf0Value::Number(NUMBER_252)),
                ("videoFunction", Amf0Value::Number(NUMBER_ONE)),
                ("pageUrl", text("")),
                ("objectEncoding", Amf0Value::Number(NUMBER_ZERO)),
            ],
        );
        let args = fast_create_amf0_obj(
            vec![("msir_version", text(VERSION)), ("msir_uid", Amf0Value::Utf8String(uid))],
        );
        assert(command_object@->Object_0 =~= MessageView::connect_app(
            req@,
            uid@,
        )->Amf0Command_command_object->Object_0);
        assert(args@->Object_0 =~= MessageView::connect_app(
            req@,
            uid@,
        )->Amf0Command_additional_arguments[0]->Object_0);
        RtmpMessage::Amf0Command {
            command_name: COMMAND_CONNECT.to_owned(),
            transaction_id: NUMBER_ONE,
            command_object,
            additional_arguments: one(args),
        }
    }

    pub fn new_connect_app_res(object_encoding: u64) -> (r: Self)
        ensures
            r@ == MessageView::connect_app_res(object_encoding),
    {
        let command_object = fast_create_amf0_obj(
            vec![
                ("fmsVer", text(RTMP_SIG_FMS_VER)),
                ("capabilities", Amf0Value::Number(NUMBER_127)),
                ("mode", Amf0Value::Number(NUMBER_ONE)),
            ],
        );
        let data = fast_create_amf0_obj(
            vec![("msir_version", text(VERSION)), ("msir_auther", text("Lukie"))],
        );
        assert(data@->Object_0 =~= seq![
            ("msir_version"@, Amf0View::Utf8String(VERSION@)),
            ("msir_auther"@, Amf0View::Utf8String("Lukie"@)),
        ]);
        let status = fast_create_amf0_obj(
            vec![
                (STATUS_LEVEL, text(STATUS_LEVEL_STATUS)),
                (STATUS_CODE, text(STATUS_CODE_CONNECT_SUCCESS)),
                (STATUS_DESCRIPTION, text("Connection succeeded")),
                ("objectEncoding", Amf0Value::Number(object_encoding)),
                ("data", data),
            ],
        );
        assert(command_object@->Object_0 =~= MessageView::connect_app_res(
            object_encoding,
        )->Amf0Command_command_object->Object_0);
        assert(status@->Object_0 =~= MessageView::connect_app_res(
            object_encoding,
        )->Amf0Command_additional_arguments[0]->Object_0);
        RtmpMessage::Amf0Command {
            command_name: COMMAND_RESULT.to_owned(),
            transaction_id: NUMBER_ONE,
            command_object,
            additional_arguments: one(status),
        }
    }
}

impl MessageView {
    /// Every object in this message holds each of its keys once.
    pub open spec fn keys_unique(self) -> bool {
        match self {
            MessageView::Amf0Command { command_object, additional_arguments, .. } => {
                &&& command_object.keys_unique()
                &&& forall|i: int|
                    0 <= i < additional_arguments.len() ==> (
                    #[trigger] additional_arguments[i]).keys_unique()
            },
            MessageView::Amf0Data { values, .. } => forall|i: int|
                0 <= i < values.len() ==> (#[trigger] values[i]).keys_unique(),
            _ => true,
        }
    }
}

/// An object of texts under keys that differ holds each key once.
pub proof fn lemma_texts_object_keys(pairs: Seq<(&str, &str)>)
    requires
        forall|i: int, j: int| 0 <= i < j < pairs.len() ==> pairs[i].0@ != pairs[j].0@,
    ensures
        texts_object(pairs).keys_unique(),
{
    let props = texts_object(pairs)->Object_0;
    assert(keys_distinct(props));
    assert forall|i: int| 0 <= i < props.len() implies (#[trigger] props[i]).1.keys_unique() by {
        assert(props[i].1 is Utf8String);
    }
}

/// The keys under which a status is reported differ from one another.
proof fn lemma_status_keys()
    ensures
        STATUS_LEVEL@.len() == 5,
        STATUS_CODE@.len() == 4,
        STATUS_DESCRIPTION@.len() == 11,
        STATUS_DETAILS@.len() == 7,
        STATUS_CLIENT_ID@.len() == 8,
{
    reveal_strlit("level");
    reveal_strlit("code");
    reveal_strlit("description");
    reveal_strlit("details");
    reveal_strlit("clientid");
}

/// The status messages of the relay hold each key once.
pub proof fn lemma_status_messages_keys()
    ensures
        MessageView::on_fcpublish().keys_unique(),
        MessageView::on_fcunpublish().keys_unique(),
        MessageView::on_status_publish_start().keys_unique(),
        MessageView::on_status_unpublish().keys_unique(),
        MessageView::on_status_play_reset().keys_unique(),
        MessageView::on_status_play_start().keys_unique(),
        MessageView::on_status_pause().keys_unique(),
        MessageView::on_status_unpause().keys_unique(),
        MessageView::on_status_data_start().keys_unique(),
{
    lemma_status_keys();
    lemma_texts_object_keys(
        seq![
            (STATUS_CODE, STATUS_CODE_PUBLISH_START),
            (STATUS_DESCRIPTION, "Started publishing stream."),
        ],
    );
    lemma_texts_object_keys(
        seq![
            (STATUS_CODE, STATUS_CODE_UNPUBLISH_SUCCESS),
            (STATUS_DESCRIPTION, "Stop publishing stream."),
        ],
    );
    lemma_texts_object_keys(
        seq![
            (STATUS_LEVEL, STATUS_LEVEL_STATUS),
            (STATUS_CODE, STATUS_CODE_PUBLISH_START),
            (STATUS_DESCRIPTION, "Started publishing stream."),
            (STATUS_CLIENT_ID, RTMP_SIG_CLIENT_ID),
        ],
    );
    lemma_texts_object_keys(
        seq![
            (STATUS_LEVEL, STATUS_LEVEL_STATUS),
            (STATUS_CODE, STATUS_CODE_UNPUBLISH_SUCCESS),
            (STATUS_DESCRIPTION, "Stream is now unpublished"),
            (STATUS_CLIENT_ID, RTMP_SIG_CLIENT_ID),
        ],
    );
    lemma_texts_object_keys(
        seq![
            (STATUS_LEVEL, STATUS_LEVEL_STATUS),
            (STATUS_CODE, STATUS_CODE_STREAM_RESET),
            (STATUS_DESCRIPTION, "Playing and resetting stream."),
            (STATUS_DETAILS, "stream"),
            (STATUS_CLIENT_ID, RTMP_SIG_CLIENT_ID),
        ],
    );
    lemma_texts_object_keys(
        seq![
            (STATUS_LEVEL, STATUS_LEVEL_STATUS),
            (STATUS_CODE, STATUS_CODE_STREAM_START),
            (STATUS_DESCRIPTION, "Started playing stream."),
            (STATUS_DETAILS, "stream"),
            (STATUS_CLIENT_ID, RTMP_SIG_CLIENT_ID),
        ],
    );
    lemma_texts_object_keys(
        seq![
            (STATUS_LEVEL, STATUS_LEVEL_STATUS),
            (STATUS_CODE, STATUS_CODE_STREAM_PAUSE),
            (STATUS_DESCRIPTION, "Paused stream."),
        ],
    );
    lemma_texts_object_keys(
        seq![
            (STATUS_LEVEL, STATUS_LEVEL_STATUS),
            (STATUS_CODE, STATUS_CODE_STREAM_UNPAUSE),
            (STATUS_DESCRIPTION, "Unpaused stream."),
        ],
    );
    lemma_texts_object_keys(seq![(STATUS_CODE, STATUS_CODE_DATA_START)]);
}

/// The messages of the relay that hold no object hold no key twice.
pub proof fn lemma_plain_messages_keys(transaction_id: u64, stream_name: Seq<char>)
    ensures
        MessageView::null(transaction_id).keys_unique(),
        MessageView::on_bw_done().keys_unique(),
        MessageView::play_stream(stream_name).keys_unique(),
        MessageView::create_stream().keys_unique(),
        MessageView::create_stream_res(transaction_id).keys_unique(),
        MessageView::release_stream_res(transaction_id).keys_unique(),
        MessageView::fcpublish_res(transaction_id).keys_unique(),
        MessageView::sample_access().keys_unique(),
{
}

/// The `connect` command of an origin-pull client holds each key once.
pub proof fn lemma_connect_app_keys(req: RequestView, uid: Seq<char>)
    ensures
        MessageView::connect_app(req, uid).keys_unique(),
{
    reveal_strlit("app");
    reveal_strlit("flashVer");
    reveal_strlit("swfUrl");
    reveal_strlit("tcUrl");
    reveal_strlit("fpad");
    reveal_strlit("capabilities");
    reveal_strlit("audioCodecs");
    reveal_strlit("videoCodecs");
    reveal_strlit("videoFunction");
    reveal_strlit("pageUrl");
    reveal_strlit("objectEncoding");
    reveal_strlit("msir_version");
    reveal_strlit("msir_uid");
    let asked = MessageView::connect_app(req, uid);
    let object = asked->Amf0Command_command_object->Object_0;
    assert(object[0].0.len() == 3);
    assert(object[1].0.len() == 8);
    assert(object[2].0.len() == 6);
    assert(object[3].0.len() == 5);
    assert(object[4].0.len() == 4);
    assert(object[5].0.len() == 12);
    assert(object[6].0.len() == 11);
    assert(object[7].0.len() == 11);
    assert(object[8].0.len() == 13);
    assert(object[9].0.len() == 7);
    assert(object[10].0.len() == 14);
    assert(object[6].0[0] == 'a');
    assert(object[7].0[0] == 'v');
    assert forall|i: int, j: int| 0 <= i < j < object.len() implies object[i].0
        != object[j].0 by {
        if i == 6 && j == 7 {
            assert(object[i].0[0] != object[j].0[0]);
        } else {
            assert(object[i].0.len() != object[j].0.len());
        }
    }
    assert forall|i: int| 0 <= i < object.len() implies (#[trigger] object[i]).1.keys_unique() by {
        assert(!(object[i].1 is Object) && !(object[i].1 is StrictArray));
    }
    let args = asked->Amf0Command_additional_arguments;
    let own = args[0]->Object_0;
    assert(own[0].0.len() == 12);
    assert(own[1].0.len() == 8);
    assert(keys_distinct(own));
    assert forall|i: int| 0 <= i < own.len() implies (#[trigger] own[i]).1.keys_unique() by {
        assert(own[i].1 is Utf8String);
    }
    assert(args[0].keys_unique());
}

/// The answer to `connect` holds each key once.
pub proof fn lemma_connect_app_res_keys(object_encoding: u64)
    ensures
        MessageView::connect_app_res(object_encoding).keys_unique(),
{
    reveal_strlit("level");
    reveal_strlit("code");
    reveal_strlit("description");
    reveal_strlit("capabilities");
    reveal_strlit("objectEncoding");
    reveal_strlit("msir_version");
    reveal_strlit("msir_auther");
    reveal_strlit("fmsVer");
    reveal_strlit("mode");
    reveal_strlit("data");
    let answer = MessageView::connect_app_res(object_encoding);
    let server = answer->Amf0Command_command_object->Object_0;
    assert(server[0].0.len() == 6);
    assert(server[1].0.len() == 12);
    assert(server[2].0.len() == 4);
    assert(keys_distinct(server));
    assert forall|i: int| 0 <= i < server.len() implies (#[trigger] server[i]).1.keys_unique() by {
        assert(!(server[i].1 is Object) && !(server[i].1 is StrictArray));
    }
    let status = answer->Amf0Command_additional_arguments[0]->Object_0;
    let data = status[4].1->Object_0;
    assert(data[0].0.len() == 12);
    assert(data[1].0.len() == 11);
    assert(keys_distinct(data));
    assert forall|i: int| 0 <= i < data.len() implies (#[trigger] data[i]).1.keys_unique() by {
        assert(data[i].1 is Utf8String);
    }
    assert(status[4].1.keys_unique());
    assert(status[0].0.len() == 5);
    assert(status[1].0.len() == 4);
    assert(status[2].0.len() == 11);
    assert(status[3].0.len() == 14);
    assert(status[4].0.len() == 4);
    assert(status[1].0[0] == 'c');
    assert(status[4].0[0] == 'd');
    assert forall|i: int, j: int| 0 <= i < j < status.len() implies status[i].0
        != status[j].0 by {
        if i == 1 && j == 4 {
            assert(status[i].0[0] != status[j].0[0]);
        } else {
            assert(status[i].0.len() != status[j].0.len());
        }
    }
    assert forall|i: int| 0 <= i < status.len() implies (#[trigger] status[i]).1.keys_unique() by {
        if i < 4 {
            assert(!(status[i].1 is Object) && !(status[i].1 is StrictArray));
        }
    }
    assert(answer->Amf0Command_additional_arguments[0].keys_unique());
}

} // verus!
