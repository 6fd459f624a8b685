use vstd::prelude::*;
use std::time::Duration;
use crate::error::{PlayerError, SeekFailure, seek_error, seek_prefix, seek_detail, ErrorKind};
use crate::event::PlayerEvent;

verus! {

/// A control command as the device thread sees it, without its reply slot
/// or its payload for the sink.
#[derive(Debug, Clone, Copy)]
pub enum Command {
    Play,
    Pause,
    Stop,
    Seek(Duration),
    Append,
    SetVolume,
    GetVolume,
    GetPos,
    IsPaused,
    IsEmpty,
    Drain,
}

/// The operation the device thread performs on the sink for one command.
#[derive(Debug, Clone, Copy)]
pub enum DeviceOp {
    Play,
    Pause,
    Stop,
    /// Append the source, then pause at once: playback starts only on `Play`.
    AppendPaused,
    TrySeek(Duration),
    SetVolume,
    ReadVolume,
    ReadPosition,
    ReadPaused,
    ReadEmpty,
    /// Block until the current source has finished.
    SleepUntilEnd,
    /// Leave the sink alone.
    Nothing,
}

/// What the command's reply slot receives.
#[derive(Debug, Clone, Copy, PartialEq, Eq, Structural)]
pub enum Reply {
    /// The command has no reply slot.
    NoReply,
    /// Completion, with no value.
    Done,
    /// The seek's outcome.
    SeekOutcome,
    /// The value the sink reported.
    SinkValue,
    /// A zero position, without asking the sink.
    ZeroPosition,
}

/// The device thread's whole reaction to one command, in this order: the
/// sink operation, the reply, the event, and whether an end-of-track watcher
/// is started for a newly appended source.
#[derive(Debug, Clone, Copy)]
pub struct Reaction {
    pub op: DeviceOp,
    pub reply: Reply,
    pub event: Option<PlayerEvent>,
    pub watch_end: bool,
}

pub open spec fn reaction_spec(cmd: Command, sink_empty: bool) -> Reaction {
    match cmd {
        Command::Play => Reaction { op: DeviceOp::Play, reply: Reply::NoReply, event: Some(PlayerEvent::Play), watch_end: false },
        Command::Pause => Reaction { op: DeviceOp::Pause, reply: Reply::NoReply, event: Some(PlayerEvent::Pause), watch_end: false },
        Command::Stop => Reaction { op: DeviceOp::Stop, reply: Reply::Done, event: Some(PlayerEvent::Stop), watch_end: false },
        Command::Seek(pos) => Reaction { op: DeviceOp::TrySeek(pos), reply: Reply::SeekOutcome, event: Some(PlayerEvent::Seek(pos)), watch_end: false },
        Command::Append => Reaction { op: DeviceOp::AppendPaused, reply: Reply::NoReply, event: None, watch_end: true },
        Command::SetVolume => Reaction { op: DeviceOp::SetVolume, reply: Reply::NoReply, event: None, watch_end: false },
        Command::GetVolume => Reaction { op: DeviceOp::ReadVolume, reply: Reply::SinkValue, event: None, watch_end: false },
        Command::GetPos => if sink_empty {
            Reaction { op: DeviceOp::Nothing, reply: Reply::ZeroPosition, event: None, watch_end: false }
        } else {
            Reaction { op: DeviceOp::ReadPosition, reply: Reply::SinkValue, event: None, watch_end: false }
        },
        Command::IsPaused => Reaction { op: DeviceOp::ReadPaused, reply: Reply::SinkValue, event: None, watch_end: false },
        Command::IsEmpty => Reaction { op: DeviceOp::ReadEmpty, reply: Reply::SinkValue, event: None, watch_end: false },
        Command::Drain => Reaction { op: DeviceOp::SleepUntilEnd, reply: Reply::Done, event: None, watch_end: false },
    }
}

/// A command that the caller issues to change playback directly.
pub open spec fn is_direct_control(cmd: Command) -> bool {
    cmd is Play || cmd is Pause || cmd is Stop || cmd is Seek
}

/// Decides how the device thread handles `cmd`, given whether the sink is
/// empty. Each direct control yields exactly one event, emitted after the
/// sink operation; a position query on an empty sink answers zero without
/// asking the sink; only an append starts an end-of-track watcher.
pub fn react(cmd: Command, sink_empty: bool) -> (r: Reaction)
    ensures
        r == reaction_spec(cmd, sink_empty),
        is_direct_control(cmd) <==> r.event is Some,
        r.event != Some(PlayerEvent::End),
        cmd is GetPos && sink_empty ==> r.op is Nothing && r.reply == Reply::ZeroPosition,
        r.watch_end <==> cmd is Append,
{
    match cmd {
        Command::Play => Reaction { op: DeviceOp::Play, reply: Reply::NoReply, event: Some(PlayerEvent::Play), watch_end: false },
        Command::Pause => Reaction { op: DeviceOp::Pause, reply: Reply::NoReply, event: Some(PlayerEvent::Pause), watch_end: false },
        Command::Stop => Reaction { op: DeviceOp::Stop, reply: Reply::Done, event: Some(PlayerEvent::Stop), watch_end: false },
        Command::Seek(pos) => Reaction { op: DeviceOp::TrySeek(pos), reply: Reply::SeekOutcome, event: Some(PlayerEvent::Seek(pos)), watch_end: false },
        Command::Append => Reaction { op: DeviceOp::AppendPaused, reply: Reply::NoReply, event: None, watch_end: true },
        Command::SetVolume => Reaction { op: DeviceOp::SetVolume, reply: Reply::NoReply, event: None, watch_end: false },
        Command::GetVolume => Reaction { op: DeviceOp::ReadVolume, reply: Reply::SinkValue, event: None, watch_end: false },
        Command::GetPos => if sink_empty {
            Reaction { op: DeviceOp::Nothing, reply: Reply::ZeroPosition, event: None, watch_end: false }
        } else {
            Reaction { op: DeviceOp::ReadPosition, reply: Reply::SinkValue, event: None, watch_end: false }
        },
        Command::IsPaused => Reaction { op: DeviceOp::ReadPaused, reply: Reply::SinkValue, event: None, watch_end: false },
        Command::IsEmpty => Reaction { op: DeviceOp::ReadEmpty, reply: Reply::SinkValue, event: None, watch_end: false },
        Command::Drain => Reaction { op: DeviceOp::SleepUntilEnd, reply: Reply::Done, event: None, watch_end: false },
    }
}

/// The reply to a seek: success as is; a refusal classified as a
/// decoding-engine error.
pub fn seek_reply(outcome: Result<(), SeekFailure>) -> (r: Result<(), PlayerError>)
    ensures
        outcome is Ok <==> r is Ok,
        outcome matches Err(f) ==> r matches Err(e) && e.spec_kind() == ErrorKind::Rodio
            && e.spec_message() == seek_prefix(f) + seek_detail(f),
{
    match outcome {
        Ok(()) => Ok(()),
        Err(f) => Err(seek_error(f)),
    }
}

} // verus!
