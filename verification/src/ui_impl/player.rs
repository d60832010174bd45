use crate::audio::AudioState;
use crate::plm::PlmStatus;
use vstd::prelude::*;

verus! {

/// Which of the front end's properties changed with a new snapshot.
#[derive(Clone, Copy, Debug, PartialEq, Eq, Structural)]
pub struct StatusSignals {
    /// The track changed: album, artist, track name and image are to be read anew.
    pub track_changed: bool,
    /// The playback state changed.
    pub state_changed: bool,
}

/// The name under which the front end knows a playback state. An engine that waits for data
/// counts as playing.
pub open spec fn play_state_text(state: AudioState) -> Seq<char> {
    match state {
        AudioState::Stopped => "stop"@,
        AudioState::Playing => "play"@,
        AudioState::WillPlayWhenDataArrives => "play"@,
        AudioState::Paused => "pause"@,
    }
}

/// The name under which the front end knows a playback state.
pub fn play_state_name(state: AudioState) -> (r: &'static str)
    ensures
        r@ == play_state_text(state),
{
    match state {
        AudioState::Stopped => "stop",
        AudioState::Playing => "play",
        AudioState::WillPlayWhenDataArrives => "play",
        AudioState::Paused => "pause",
    }
}

/// What the front end shows of the player: the snapshot that it saw last.
pub struct Player {
    plm_status: PlmStatus,
}

impl Player {
    /// The snapshot that was seen last.
    pub closed spec fn status(&self) -> PlmStatus {
        self.plm_status
    }

    /// A player that has seen nothing yet: no track, playback stopped.
    pub fn new() -> (r: Player)
        ensures
            r.status().playing_track is None,
            r.status().audio_state == AudioState::Stopped,
    {
        Player { plm_status: PlmStatus { playing_track: None, audio_state: AudioState::Stopped } }
    }

    /// Takes a new snapshot and says which properties changed with it.
    pub fn handle_incoming_plm_status(&mut self, new_status: PlmStatus) -> (r: StatusSignals)
        ensures
            final(self).status() == new_status,
            r.track_changed == match (old(self).status().playing_track, new_status.playing_track) {
                (Some(a), Some(b)) => a@ != b@,
                (None, None) => false,
                _ => true,
            },
            r.state_changed == (old(self).status().audio_state != new_status.audio_state),
    {
        let same_track = match (&self.plm_status.playing_track, &new_status.playing_track) {
            (Some(a), Some(b)) => *a == *b,
            (None, None) => true,
            _ => false,
        };
        let state_changed = self.plm_status.audio_state != new_status.audio_state;
        self.plm_status = new_status;
        StatusSignals { track_changed: !same_track, state_changed }
    }

    /// The album of the track that plays; empty while none does.
    pub fn current_album(&self) -> (r: &str)
        ensures
            r@ == match self.status().playing_track {
                Some(t) => t.album@,
                None => Seq::empty(),
            },
    {
        proof {
            reveal_strlit("");
        }
        match &self.plm_status.playing_track {
            Some(t) => t.album.as_str(),
            None => "",
        }
    }

    /// The artist of the track that plays; empty while none does.
    pub fn current_artist(&self) -> (r: &str)
        ensures
            r@ == match self.status().playing_track {
                Some(t) => t.artist@,
                None => Seq::empty(),
            },
    {
        proof {
            reveal_strlit("");
        }
        match &self.plm_status.playing_track {
            Some(t) => t.artist.as_str(),
            None => "",
        }
    }

    /// The cover URL of the track that plays; empty while none does.
    pub fn current_image_url(&self) -> (r: &str)
        ensures
            r@ == match self.status().playing_track {
                Some(t) => t.cover_url@,
                None => Seq::empty(),
            },
    {
        proof {
            reveal_strlit("");
        }
        match &self.plm_status.playing_track {
            Some(t) => t.cover_url.as_str(),
            None => "",
        }
    }

    /// The name of the track that plays; empty while none does.
    pub fn current_track_name(&self) -> (r: &str)
        ensures
            r@ == match self.status().playing_track {
                Some(t) => t.name@,
                None => Seq::empty(),
            },
    {
        proof {
            reveal_strlit("");
        }
        match &self.plm_status.playing_track {
            Some(t) => t.name.as_str(),
            None => "",
        }
    }

    /// The playback state under the name that the front end knows.
    pub fn play_state(&self) -> (r: &'static str)
        ensures
            r@ == play_state_text(self.status().audio_state),
    {
        play_state_name(self.plm_status.audio_state)
    }
}

} // verus!
