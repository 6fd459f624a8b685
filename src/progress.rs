use vstd::prelude::*;
use crate::resolve::MediaTarget;

verus! {

/// The phase a remote download reports to its progress observer.
#[derive(Debug, Clone, Copy, PartialEq, Eq, Structural)]
pub enum DownloadPhase {
    /// Filling the buffer before playback can start.
    Prefetching,
    /// Fetching the rest of the resource.
    Downloading,
    /// The whole resource is here.
    Complete,
    /// Any phase the downloader may add later.
    Other,
}

/// How much of the current media is loaded, as the fraction `done / total`.
#[derive(Debug, Clone, Copy, PartialEq, Eq, Structural)]
pub struct Progress {
    pub done: u64,
    pub total: u64,
}

impl Progress {
    /// `self` is at most `o`, as fractions.
    pub open spec fn at_most(self, o: Progress) -> bool {
        self.done as int * o.total as int <= o.done as int * self.total as int
    }

    /// The fraction lies in [0, 1].
    pub open spec fn in_unit_range(self) -> bool {
        self.total > 0 && self.done <= self.total
    }

    pub open spec fn is_full(self) -> bool {
        self.total > 0 && self.done == self.total
    }
}

pub open spec fn none_loaded() -> Progress {
    Progress { done: 0, total: 1 }
}

pub open spec fn all_loaded() -> Progress {
    Progress { done: 1, total: 1 }
}

/// The buffer progress a resolution starts with: a local file is loaded at
/// once, a remote one has nothing yet.
pub open spec fn initial_progress_spec(t: TargetViewKind) -> Progress {
    match t {
        TargetViewKind::Local => all_loaded(),
        TargetViewKind::Remote => none_loaded(),
    }
}

pub ghost enum TargetViewKind {
    Local,
    Remote,
}

pub open spec fn target_kind(t: MediaTarget) -> TargetViewKind {
    match t {
        MediaTarget::LocalFile { .. } => TargetViewKind::Local,
        MediaTarget::Remote => TargetViewKind::Remote,
    }
}

/// The buffer progress to publish when resolution of `target` begins.
pub fn initial_progress(target: &MediaTarget) -> (r: Progress)
    ensures
        r == initial_progress_spec(target_kind(*target)),
        target is LocalFile ==> r.is_full(),
{
    match target {
        MediaTarget::LocalFile { .. } => Progress { done: 1, total: 1 },
        MediaTarget::Remote => Progress { done: 0, total: 1 },
    }
}

/// What a progress report of the download publishes, if anything.
pub open spec fn progress_update_spec(phase: DownloadPhase, position: u64, content_length: Option<u64>) -> Option<Progress> {
    match phase {
        DownloadPhase::Downloading => Some(
            match content_length {
                Some(len) => Progress { done: position, total: len },
                None => none_loaded(),
            },
        ),
        DownloadPhase::Complete => Some(all_loaded()),
        _ => None,
    }
}

/// Turns a download's progress report into the buffer progress to publish:
/// while downloading, the position over the content length (zero where the
/// length is unknown); on completion, all of it. Prefetching and other phases
/// publish nothing.
pub fn progress_update(phase: DownloadPhase, position: u64, content_length: Option<u64>) -> (r: Option<Progress>)
    ensures
        r == progress_update_spec(phase, position, content_length),
{
    match phase {
        DownloadPhase::Downloading => match content_length {
            Some(len) => Some(Progress { done: position, total: len }),
            None => Some(Progress { done: 0, total: 1 }),
        },
        DownloadPhase::Complete => Some(Progress { done: 1, total: 1 }),
        _ => None,
    }
}

/// While a remote item resolves, the published progress starts at zero,
/// never decreases as the download position advances, stays within [0, 1]
/// while the position is within the content length, and reaches one when the
/// download completes.
pub proof fn lemma_stream_progress_monotonic(
    first: u64,
    second: u64,
    content_length: Option<u64>,
)
    requires
        first <= second,
        content_length matches Some(len) ==> 0 < len && second <= len,
    ensures
        ({
            let start = initial_progress_spec(TargetViewKind::Remote);
            let a = progress_update_spec(DownloadPhase::Downloading, first, content_length)->0;
            let b = progress_update_spec(DownloadPhase::Downloading, second, content_length)->0;
            let end = progress_update_spec(DownloadPhase::Complete, second, content_length)->0;
            &&& start.at_most(a)
            &&& a.at_most(b)
            &&& b.at_most(end)
            &&& a.in_unit_range()
            &&& b.in_unit_range()
            &&& end.is_full()
        }),
{
    if let Some(len) = content_length {
        let (f, s, l) = (first as int, second as int, len as int);
        assert(f * l <= s * l) by (nonlinear_arith)
            requires
                f <= s,
                0 < l,
        ;
        assert(s * 1 <= 1 * l);
        assert(0 * l <= f * 1);
    }
}

} // verus!
