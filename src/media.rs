use vstd::prelude::*;

verus! {

/// A reference to one piece of audio to play. Two items are the same request
/// exactly when all their fields are equal.
#[derive(Debug, Clone)]
pub struct MediaItem {
    /// `file://<path>` for a local file, `https://...` for a remote one.
    pub audio_url: String,
    /// Hint for the decoder (for example `"wav"` or `"mp3"`).
    pub format: String,
    /// Replay gain in dB, held as the bit pattern of an IEEE-754 single.
    pub replay_gain_db_bits: u32,
    pub duration_secs: i32,
}

impl MediaItem {
    pub open spec fn same_as(&self, o: &MediaItem) -> bool {
        &&& self.audio_url@ == o.audio_url@
        &&& self.format@ == o.format@
        &&& self.replay_gain_db_bits == o.replay_gain_db_bits
        &&& self.duration_secs == o.duration_secs
    }
}

impl MediaItem {
    /// A copy of the item, field for field.
    pub fn clone_item(&self) -> (r: MediaItem)
        ensures
            r == *self,
    {
        MediaItem {
            audio_url: self.audio_url.clone(),
            format: self.format.clone(),
            replay_gain_db_bits: self.replay_gain_db_bits,
            duration_secs: self.duration_secs,
        }
    }
}

impl PartialEq for MediaItem {
    fn eq(&self, o: &MediaItem) -> (r: bool)
        ensures
            r == self.same_as(o),
    {
        self.audio_url == o.audio_url && self.format == o.format && self.replay_gain_db_bits
            == o.replay_gain_db_bits && self.duration_secs == o.duration_secs
    }
}

impl vstd::std_specs::cmp::PartialEqSpecImpl for MediaItem {
    open spec fn obeys_eq_spec() -> bool {
        true
    }

    open spec fn eq_spec(&self, o: &MediaItem) -> bool {
        self.same_as(o)
    }
}

} // verus!
