use vstd::prelude::*;
use vstd::string::*;

verus! {

/// The errors surfaced to callers of the player.
#[derive(Debug, Clone)]
pub enum PlayerError {
    /// A malformed URL or a URL with an unsupported scheme.
    URLError { msg: String },
    /// A file or network access failure.
    IOError { msg: String },
    /// A failure of the audio decoding engine.
    RodioError { msg: String },
}

/// The three kinds of `PlayerError`, without their messages.
#[derive(Debug, Clone, Copy, PartialEq, Eq, Structural)]
pub enum ErrorKind {
    Url,
    Io,
    Rodio,
}

impl PlayerError {
    pub open spec fn spec_kind(&self) -> ErrorKind {
        match self {
            PlayerError::URLError { .. } => ErrorKind::Url,
            PlayerError::IOError { .. } => ErrorKind::Io,
            PlayerError::RodioError { .. } => ErrorKind::Rodio,
        }
    }

    pub open spec fn spec_message(&self) -> Seq<char> {
        match self {
            PlayerError::URLError { msg } => msg@,
            PlayerError::IOError { msg } => msg@,
            PlayerError::RodioError { msg } => msg@,
        }
    }

    /// Which of the three kinds this error is.
    pub fn kind(&self) -> (r: ErrorKind)
        ensures
            r == self.spec_kind(),
    {
        match self {
            PlayerError::URLError { .. } => ErrorKind::Url,
            PlayerError::IOError { .. } => ErrorKind::Io,
            PlayerError::RodioError { .. } => ErrorKind::Rodio,
        }
    }

    /// The human-readable message the error carries.
    pub fn message(&self) -> (r: &String)
        ensures
            r@ == self.spec_message(),
    {
        match self {
            PlayerError::URLError { msg } => msg,
            PlayerError::IOError { msg } => msg,
            PlayerError::RodioError { msg } => msg,
        }
    }
}

/// Builds an error of the given kind with the given message.
pub fn make_error(kind: ErrorKind, msg: String) -> (r: PlayerError)
    ensures
        r.spec_kind() == kind,
        r.spec_message() == msg@,
{
    match kind {
        ErrorKind::Url => PlayerError::URLError { msg },
        ErrorKind::Io => PlayerError::IOError { msg },
        ErrorKind::Rodio => PlayerError::RodioError { msg },
    }
}

/// Why the audio engine refused a seek, with the engine's description of it.
#[derive(Debug, Clone)]
pub enum SeekFailure {
    /// The underlying source does not support seeking.
    NotSupported { underlying_source: String },
    /// The decoder ran into an internal error while seeking.
    DecoderInternal { detail: String },
    /// A custom source reported an error.
    Other { detail: String },
    /// Any failure the engine may add later.
    Unexpected { detail: String },
}

pub open spec fn seek_prefix(f: SeekFailure) -> Seq<char> {
    match f {
        SeekFailure::NotSupported { .. } => "Not supported: "@,
        SeekFailure::DecoderInternal { .. } => "Decoder returned an error: "@,
        SeekFailure::Other { .. } => "Other error: "@,
        SeekFailure::Unexpected { .. } => "Unexpected error: "@,
    }
}

pub open spec fn seek_detail(f: SeekFailure) -> Seq<char> {
    match f {
        SeekFailure::NotSupported { underlying_source } => underlying_source@,
        SeekFailure::DecoderInternal { detail } => detail@,
        SeekFailure::Other { detail } => detail@,
        SeekFailure::Unexpected { detail } => detail@,
    }
}

/// Classifies a refused seek: every such failure is a decoding-engine error
/// whose message names the class of failure, then the engine's description.
pub fn seek_error(f: SeekFailure) -> (r: PlayerError)
    ensures
        r.spec_kind() == ErrorKind::Rodio,
        r.spec_message() == seek_prefix(f) + seek_detail(f),
{
    let (prefix, detail) = match f {
        SeekFailure::NotSupported { underlying_source } => ("Not supported: ", underlying_source),
        SeekFailure::DecoderInternal { detail } => ("Decoder returned an error: ", detail),
        SeekFailure::Other { detail } => ("Other error: ", detail),
        SeekFailure::Unexpected { detail } => ("Unexpected error: ", detail),
    };
    let msg = String::from_str(prefix).concat(detail.as_str());
    PlayerError::RodioError { msg }
}

} // verus!
