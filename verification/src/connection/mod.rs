//! What a connection is taken for, and what it may ask of its supervisor.

use vstd::prelude::*;

pub mod client;
pub mod context;
pub mod error;
pub mod server;

verus! {

#[derive(Debug, Clone, Copy, PartialEq, Eq, Structural)]
pub enum RtmpConnType {
    Play,
    FlvPlay,
    Pull,
    FmlePublish,
    FlashPublish,
    HaivisionPublish,
    Unknow,
}

impl RtmpConnType {
    /// Whether a connection of this type feeds a stream.
    pub open spec fn publishes(self) -> bool {
        self == RtmpConnType::Pull || self == RtmpConnType::FmlePublish || self
            == RtmpConnType::FlashPublish || self == RtmpConnType::HaivisionPublish
    }

    /// Whether a connection of this type plays a stream.
    pub open spec fn plays(self) -> bool {
        self == RtmpConnType::FlvPlay || self == RtmpConnType::Play
    }

    pub fn is_publish(&self) -> (r: bool)
        ensures
            r == self.publishes(),
    {
        match self {
            RtmpConnType::Pull
            | RtmpConnType::FmlePublish
            | RtmpConnType::FlashPublish
            | RtmpConnType::HaivisionPublish => true,
            _ => false,
        }
    }

    pub fn is_play(&self) -> (r: bool)
        ensures
            r == self.plays(),
    {
        match self {
            RtmpConnType::FlvPlay | RtmpConnType::Play => true,
            _ => false,
        }
    }

    /// The type's name in statistics.
    pub fn as_str(&self) -> (r: &'static str)
        ensures
            r@ == match self {
                RtmpConnType::Pull => "pull"@,
                RtmpConnType::Play => "play"@,
                RtmpConnType::FlvPlay => "flv-play"@,
                RtmpConnType::FmlePublish => "publish"@,
                RtmpConnType::FlashPublish => "publish"@,
                RtmpConnType::HaivisionPublish => "publish"@,
                RtmpConnType::Unknow => "unknow"@,
            },
    {
        match self {
            RtmpConnType::Pull => "pull",
            RtmpConnType::Play => "play",
            RtmpConnType::FlvPlay => "flv-play",
            RtmpConnType::FmlePublish => "publish",
            RtmpConnType::FlashPublish => "publish",
            RtmpConnType::HaivisionPublish => "publish",
            RtmpConnType::Unknow => "unknow",
        }
    }
}

/// What a connection asks of its supervisor.
#[derive(Debug, Clone, Copy, PartialEq, Eq, Structural)]
pub enum RtmpCtrlAction {
    /// From a publisher: the stream ends, another may follow.
    Republish,
    /// From a player: stop or resume the delivery.
    Pause(bool),
    /// From a player: the stream is closed.
    Close,
}

} // verus!
