use vstd::prelude::*;
use crate::event::PlayerEvent;
use crate::media::MediaItem;

verus! {

/// The state shared between callers, the resolution tasks and the
/// end-of-track watchers: the most recently requested item, and whether the
/// user has stopped playback since that request.
#[derive(Debug, Clone)]
pub struct PlaybackState {
    pub current_item: Option<MediaItem>,
    pub stop_by_user: bool,
}

impl PlaybackState {
    pub open spec fn spec_begin(self, item: MediaItem) -> PlaybackState {
        PlaybackState { current_item: Some(item), stop_by_user: false }
    }

    pub open spec fn spec_stopped(self) -> PlaybackState {
        PlaybackState { stop_by_user: true, ..self }
    }

    /// A resolved source for `item` may still be handed to the device: no
    /// request, or only a value-equal one, has been made since.
    pub open spec fn spec_hands_off(self, item: MediaItem) -> bool {
        match self.current_item {
            Some(c) => c.same_as(&item),
            None => true,
        }
    }

    /// The event a watcher emits when the sink drains.
    pub open spec fn spec_end_event(self) -> Option<PlayerEvent> {
        if self.stop_by_user {
            None
        } else {
            Some(PlayerEvent::End)
        }
    }

    /// No item requested, no stop.
    pub fn new() -> (r: PlaybackState)
        ensures
            r.current_item is None,
            !r.stop_by_user,
    {
        PlaybackState { current_item: None, stop_by_user: false }
    }

    /// Records `item` as the current request and clears the stop flag, as
    /// each resolution does when it begins.
    pub fn begin_resolution(&mut self, item: MediaItem)
        ensures
            *final(self) == old(self).spec_begin(item),
    {
        self.current_item = Some(item);
        self.stop_by_user = false;
    }

    /// Marks that the user stopped playback; done before the stop command is sent.
    pub fn request_stop(&mut self)
        ensures
            *final(self) == old(self).spec_stopped(),
    {
        self.stop_by_user = true;
    }

    /// Whether a source resolved for `item` is still wanted (the supersession
    /// check). Requests for value-equal items coalesce: each of them is
    /// handed off while the latest request equals it.
    pub fn should_hand_off(&self, item: &MediaItem) -> (r: bool)
        ensures
            r == self.spec_hands_off(*item),
    {
        match &self.current_item {
            Some(c) => *c == *item,
            None => true,
        }
    }

    /// What an end-of-track watcher emits once the sink has drained: `End`,
    /// unless the user stopped playback.
    pub fn end_of_track_event(&self) -> (r: Option<PlayerEvent>)
        ensures
            r == self.spec_end_event(),
    {
        if self.stop_by_user {
            None
        } else {
            Some(PlayerEvent::End)
        }
    }
}

/// Once a newer item has been requested, the resolution of an earlier,
/// different item is not handed to the device, while the newer one is, and
/// further stops do not change that.
pub proof fn lemma_supersession(s: PlaybackState, older: MediaItem, newer: MediaItem)
    requires
        !older.same_as(&newer),
    ensures
        !s.spec_begin(older).spec_begin(newer).spec_hands_off(older),
        s.spec_begin(older).spec_begin(newer).spec_hands_off(newer),
        !s.spec_begin(older).spec_begin(newer).spec_stopped().spec_hands_off(older),
{
}

/// A user stop made after the current item was requested suppresses the
/// `End` of that track, however often it is repeated.
pub proof fn lemma_stop_suppresses_end(s: PlaybackState, item: MediaItem)
    ensures
        s.spec_begin(item).spec_stopped().spec_end_event() is None,
        s.spec_begin(item).spec_stopped().spec_stopped().spec_end_event() is None,
        s.spec_stopped().spec_end_event() is None,
{
}

/// A track requested and never stopped ends with exactly one `End`.
pub proof fn lemma_natural_end(s: PlaybackState, item: MediaItem)
    ensures
        s.spec_begin(item).spec_end_event() == Some(PlayerEvent::End),
        s.spec_stopped().spec_begin(item).spec_end_event() == Some(PlayerEvent::End),
{
}

} // verus!
