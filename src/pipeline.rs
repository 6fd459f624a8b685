use vstd::prelude::*;
use vstd::string::*;
use crate::error::{ErrorKind, PlayerError, make_error};
use crate::media::MediaItem;
use crate::playback::PlaybackState;
use crate::progress::{Progress, initial_progress, initial_progress_spec, target_kind};
use crate::resolve::{MediaTarget, resolve_target, parsed_scheme, resolution_spec, outcome_view};

verus! {

/// What a resolution knows once it has begun: where the audio comes from and
/// the buffer progress to publish.
#[derive(Debug, Clone)]
pub struct ResolutionStart {
    pub target: MediaTarget,
    pub progress: Progress,
}

pub open spec fn start_outcome_view(r: Result<ResolutionStart, PlayerError>) -> Result<MediaTarget, PlayerError> {
    match r {
        Ok(s) => Ok(s.target),
        Err(e) => Err(e),
    }
}

/// Begins resolving `item`: records it as the current request, clears the
/// stop flag, and reads its URL. A `file` URL gives its local path with the
/// buffer full at once; an `https` URL is streamed from an empty buffer;
/// any other URL is an error.
pub fn start_resolution(state: &mut PlaybackState, item: &MediaItem) -> (r: Result<ResolutionStart, PlayerError>)
    ensures
        *final(state) == old(state).spec_begin(*item),
        parsed_scheme(item.audio_url@) is Some ==> outcome_view(start_outcome_view(r))
            == resolution_spec(item.audio_url@, Ok(parsed_scheme(item.audio_url@)->0)),
        parsed_scheme(item.audio_url@) is None ==> r is Err && r->Err_0.spec_kind() == ErrorKind::Url,
        r matches Ok(s) ==> s.progress == initial_progress_spec(target_kind(s.target)),
{
    state.begin_resolution(item.clone_item());
    match resolve_target(item.audio_url.as_str()) {
        Ok(target) => {
            let progress = initial_progress(&target);
            Ok(ResolutionStart { target, progress })
        },
        Err(e) => Err(e),
    }
}

/// The total length a stream declares, which decoding a remote source needs;
/// its absence is an I/O error.
pub fn require_content_length(len: Option<u64>) -> (r: Result<u64, PlayerError>)
    ensures
        match len {
            Some(n) => r == Ok::<u64, PlayerError>(n),
            None => r matches Err(e) && e.spec_kind() == ErrorKind::Io
                && e.spec_message() == "Content length is not available!"@,
        },
{
    match len {
        Some(n) => Ok(n),
        None => Err(make_error(ErrorKind::Io, String::from_str("Content length is not available!"))),
    }
}

} // verus!
