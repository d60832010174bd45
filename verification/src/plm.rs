use crate::audio::AudioCommand;
use crate::audio::AudioState;
use crate::library::TrackMetadata;
use bytes::Bytes;
use std::collections::VecDeque;
use vstd::prelude::*;
use vstd::std_specs::cmp::PartialEqSpecImpl;

verus! {

/// How far the payload of a playlist entry has come.
#[derive(Clone, Copy, Debug, PartialEq, Eq, Structural)]
pub enum LoadStatus {
    /// Nothing was asked for yet.
    NotLoaded,
    /// A fetch is under way.
    Loading,
    /// The payload arrived and was handed to the playback engine: the entry is ready.
    SentToAudioThread,
}

/// One playlist position: a track and how far its payload has come.
#[derive(Debug)]
pub struct PlaylistEntry {
    pub track: TrackMetadata,
    pub status: LoadStatus,
}

/// The snapshot that observers see.
#[derive(Debug)]
pub struct PlmStatus {
    pub playing_track: Option<TrackMetadata>,
    pub audio_state: AudioState,
}

impl Clone for PlmStatus {
    fn clone(&self) -> (r: Self)
        ensures
            r == *self,
    {
        PlmStatus {
            playing_track: match &self.playing_track {
                Some(t) => Some(t.clone()),
                None => None,
            },
            audio_state: self.audio_state,
        }
    }
}

impl Default for PlmStatus {
    fn default() -> (r: Self)
        ensures
            r.playing_track is None,
            r.audio_state == AudioState::Stopped,
    {
        PlmStatus { playing_track: None, audio_state: AudioState::Stopped }
    }
}

impl PartialEq for PlmStatus {
    fn eq(&self, other: &Self) -> (r: bool) {
        let same_track = match (&self.playing_track, &other.playing_track) {
            (Some(a), Some(b)) => a == b,
            (None, None) => true,
            _ => false,
        };
        same_track && self.audio_state == other.audio_state
    }
}

impl PartialEqSpecImpl for PlmStatus {
    open spec fn obeys_eq_spec() -> bool {
        true
    }

    open spec fn eq_spec(&self, other: &Self) -> bool {
        &&& self.audio_state == other.audio_state
        &&& match (self.playing_track, other.playing_track) {
            (Some(a), Some(b)) => a@ == b@,
            (None, None) => true,
            _ => false,
        }
    }
}

impl Eq for PlmStatus {

}

/// Everything that can arrive on the playlist manager's inbound queue.
#[derive(Debug)]
pub enum PlmCommand {
    SetPlaylist(Vec<TrackMetadata>),
    Stop,
    Pause,
    Play,
    Next,
    LoadTrackData { track_id: String, data: Bytes },
    AudioSkippedTrack { track_id: String },
    AudioFinishedTrack { track_id: String },
    AudioPlayingTrack { track_id: String },
    AudioState { state: AudioState },
}

/// The name of each kind of command, as it is written in a log.
pub open spec fn command_name(cmd: PlmCommand) -> Seq<char> {
    match cmd {
        PlmCommand::SetPlaylist(_) => "SetPlaylist"@,
        PlmCommand::Stop => "Stop"@,
        PlmCommand::Pause => "Pause"@,
        PlmCommand::Play => "Play"@,
        PlmCommand::Next => "Next"@,
        PlmCommand::LoadTrackData { .. } => "LoadTrackData"@,
        PlmCommand::AudioSkippedTrack { .. } => "AudioSkippedTrack"@,
        PlmCommand::AudioFinishedTrack { .. } => "AudioFinishedTrack"@,
        PlmCommand::AudioPlayingTrack { .. } => "AudioPlayingTrack"@,
        PlmCommand::AudioState { .. } => "AudioState"@,
    }
}

/// The track that a command speaks of, if it speaks of one.
pub open spec fn command_track(cmd: PlmCommand) -> Option<String> {
    match cmd {
        PlmCommand::LoadTrackData { track_id, .. } => Some(track_id),
        PlmCommand::AudioSkippedTrack { track_id } => Some(track_id),
        PlmCommand::AudioFinishedTrack { track_id } => Some(track_id),
        PlmCommand::AudioPlayingTrack { track_id } => Some(track_id),
        _ => None,
    }
}

impl PlmCommand {
    /// The name of this kind of command, as it is written in a log.
    pub fn name(&self) -> (r: &'static str)
        ensures
            r@ == command_name(*self),
    {
        match self {
            PlmCommand::SetPlaylist(_) => "SetPlaylist",
            PlmCommand::Stop => "Stop",
            PlmCommand::Pause => "Pause",
            PlmCommand::Play => "Play",
            PlmCommand::Next => "Next",
            PlmCommand::LoadTrackData { .. } => "LoadTrackData",
            PlmCommand::AudioSkippedTrack { .. } => "AudioSkippedTrack",
            PlmCommand::AudioFinishedTrack { .. } => "AudioFinishedTrack",
            PlmCommand::AudioPlayingTrack { .. } => "AudioPlayingTrack",
            PlmCommand::AudioState { .. } => "AudioState",
        }
    }

    /// The track that this command speaks of, if it speaks of one. A log shows it beside the
    /// name, and never the payload.
    pub fn track_id(&self) -> (r: Option<&String>)
        ensures
            match r {
                Some(id) => command_track(*self) == Some(*id),
                None => command_track(*self) is None,
            },
    {
        match self {
            PlmCommand::LoadTrackData { track_id, .. } => Some(track_id),
            PlmCommand::AudioSkippedTrack { track_id } => Some(track_id),
            PlmCommand::AudioFinishedTrack { track_id } => Some(track_id),
            PlmCommand::AudioPlayingTrack { track_id } => Some(track_id),
            _ => None,
        }
    }
}

/// What the playlist manager asks its surroundings to do in answer to a command.
#[derive(Debug)]
pub enum PlmAction {
    /// Put this command on the playback engine's queue.
    Audio(AudioCommand<Bytes>),
    /// Start fetching the payload of this track; it comes back as `LoadTrackData`.
    Fetch { track_id: String },
    /// Publish this snapshot to the observers.
    Publish(PlmStatus),
}

/// The playlist manager as a mathematical value.
pub struct PlmModel {
    /// The playlist, head first.
    pub playlist: Seq<PlaylistEntry>,
    /// The engine state that was last reported.
    pub audio_state: AudioState,
    /// The identifier recorded as now playing.
    pub playing_id: Option<Seq<char>>,
}

/// A playlist in which nothing was asked for yet.
pub open spec fn fresh(tracks: Seq<TrackMetadata>) -> Seq<PlaylistEntry> {
    Seq::new(tracks.len(), |i: int| PlaylistEntry { track: tracks[i], status: LoadStatus::NotLoaded })
}

/// The entry at `index` exists and nothing was asked for it yet.
pub open spec fn needs_fetch(playlist: Seq<PlaylistEntry>, index: int) -> bool {
    0 <= index < playlist.len() && playlist[index].status == LoadStatus::NotLoaded
}

/// The playlist after a fetch was started for the entry at `index`, if it needed one.
pub open spec fn mark_loading(playlist: Seq<PlaylistEntry>, index: int) -> Seq<PlaylistEntry> {
    if needs_fetch(playlist, index) {
        playlist.update(
            index,
            PlaylistEntry { track: playlist[index].track, status: LoadStatus::Loading },
        )
    } else {
        playlist
    }
}

/// The head is ready, so the entry behind it may be fetched.
pub open spec fn head_ready(playlist: Seq<PlaylistEntry>) -> bool {
    playlist.len() > 0 && playlist[0].status == LoadStatus::SentToAudioThread
}

/// The playlist after one run of the prefetch algorithm: the head is brought on its way, and
/// only behind a head that is ready the second entry too.
pub open spec fn prefetch(playlist: Seq<PlaylistEntry>) -> Seq<PlaylistEntry> {
    let first = mark_loading(playlist, 0);
    if head_ready(first) {
        mark_loading(first, 1)
    } else {
        first
    }
}

/// The fetch that one run of the prefetch algorithm starts, if any.
pub open spec fn prefetch_actions(playlist: Seq<PlaylistEntry>) -> Seq<PlmAction> {
    if needs_fetch(playlist, 0) {
        seq![PlmAction::Fetch { track_id: playlist[0].track.id }]
    } else if head_ready(playlist) && needs_fetch(playlist, 1) {
        seq![PlmAction::Fetch { track_id: playlist[1].track.id }]
    } else {
        Seq::empty()
    }
}

/// `index` is the first position of the playlist that holds the identifier `id`.
pub open spec fn is_first_with_id(playlist: Seq<PlaylistEntry>, id: Seq<char>, index: int) -> bool {
    &&& 0 <= index < playlist.len()
    &&& playlist[index].track.id@ == id
    &&& forall|j: int| 0 <= j < index ==> (#[trigger] playlist[j]).track.id@ != id
}

/// Some position of the playlist holds the identifier `id`.
pub open spec fn has_id(playlist: Seq<PlaylistEntry>, id: Seq<char>) -> bool {
    exists|i: int| is_first_with_id(playlist, id, i)
}

/// The first position of the playlist that holds the identifier `id`.
pub open spec fn position_of(playlist: Seq<PlaylistEntry>, id: Seq<char>) -> int
    recommends
        has_id(playlist, id),
{
    choose|i: int| is_first_with_id(playlist, id, i)
}

/// A payload for `id` is expected: the first entry with that identifier is being fetched.
pub open spec fn awaits_data(playlist: Seq<PlaylistEntry>, id: Seq<char>) -> bool {
    has_id(playlist, id) && playlist[position_of(playlist, id)].status == LoadStatus::Loading
}

/// The playlist after a payload for `id` arrived.
pub open spec fn deliver(playlist: Seq<PlaylistEntry>, id: Seq<char>) -> Seq<PlaylistEntry> {
    if awaits_data(playlist, id) {
        let i = position_of(playlist, id);
        playlist.update(
            i,
            PlaylistEntry { track: playlist[i].track, status: LoadStatus::SentToAudioThread },
        )
    } else {
        playlist
    }
}

/// The playlist without the entries that hold the identifier `id`.
pub open spec fn without_id(playlist: Seq<PlaylistEntry>, id: Seq<char>) -> Seq<PlaylistEntry> {
    playlist.filter(|e: PlaylistEntry| e.track.id@ != id)
}

/// The playlist without its head; an empty playlist stays empty.
pub open spec fn without_head(playlist: Seq<PlaylistEntry>) -> Seq<PlaylistEntry> {
    if playlist.len() == 0 {
        playlist
    } else {
        playlist.subrange(1, playlist.len() as int)
    }
}

/// Nothing beyond the first two positions was asked for.
pub open spec fn prefetch_bounded(playlist: Seq<PlaylistEntry>) -> bool {
    forall|i: int| 2 <= i < playlist.len() ==> (#[trigger] playlist[i]).status == LoadStatus::NotLoaded
}

/// The entry behind the head was asked for only once the head was ready: the track that is
/// about to play is never kept waiting by a fetch further down.
pub open spec fn head_served_first(playlist: Seq<PlaylistEntry>) -> bool {
    playlist.len() > 1 && playlist[1].status != LoadStatus::NotLoaded ==> playlist[0].status
        == LoadStatus::SentToAudioThread
}

/// The prefetch algorithm has nothing left to start.
pub open spec fn prefetch_settled(playlist: Seq<PlaylistEntry>) -> bool {
    !needs_fetch(playlist, 0) && !(head_ready(playlist) && needs_fetch(playlist, 1))
}

impl PlmModel {
    /// The invariant of the playlist manager.
    pub open spec fn wf(self) -> bool {
        &&& prefetch_bounded(self.playlist)
        &&& head_served_first(self.playlist)
        &&& prefetch_settled(self.playlist)
    }

    /// The track that the snapshot shows as playing: the first playlist entry that holds the
    /// recorded identifier.
    pub open spec fn current_track(self) -> Option<TrackMetadata> {
        match self.playing_id {
            Some(id) => if has_id(self.playlist, id) {
                Some(self.playlist[position_of(self.playlist, id)].track)
            } else {
                None
            },
            None => None,
        }
    }

    /// The snapshot that would be published now.
    pub open spec fn snapshot(self) -> PlmStatus {
        PlmStatus { playing_track: self.current_track(), audio_state: self.audio_state }
    }

    /// The state after `cmd`.
    pub open spec fn step(self, cmd: PlmCommand) -> PlmModel {
        match cmd {
            PlmCommand::SetPlaylist(tracks) => PlmModel {
                playlist: prefetch(fresh(tracks@)),
                ..self
            },
            PlmCommand::Stop => PlmModel { playlist: Seq::empty(), ..self },
            PlmCommand::Pause => self,
            PlmCommand::Play => self,
            PlmCommand::Next => PlmModel { playlist: prefetch(without_head(self.playlist)), ..self },
            PlmCommand::LoadTrackData { track_id, data } => PlmModel {
                playlist: prefetch(deliver(self.playlist, track_id@)),
                ..self
            },
            PlmCommand::AudioSkippedTrack { track_id } => self.track_over(track_id@),
            PlmCommand::AudioFinishedTrack { track_id } => self.track_over(track_id@),
            PlmCommand::AudioPlayingTrack { track_id } => PlmModel {
                playing_id: Some(track_id@),
                ..self
            },
            PlmCommand::AudioState { state } => PlmModel { audio_state: state, ..self },
        }
    }

    /// The state after the engine reported that it is done with `id`, played or skipped: the
    /// entries with that identifier leave, and the new head, if there is one, is presumed to
    /// be playing.
    pub open spec fn track_over(self, id: Seq<char>) -> PlmModel {
        let rest = prefetch(without_id(self.playlist, id));
        PlmModel {
            playlist: rest,
            playing_id: if rest.len() > 0 {
                Some(rest[0].track.id@)
            } else {
                self.playing_id
            },
            ..self
        }
    }

    /// What the surroundings are asked to do in answer to `cmd`, in order.
    pub open spec fn actions(self, cmd: PlmCommand) -> Seq<PlmAction> {
        match cmd {
            PlmCommand::SetPlaylist(tracks) => seq![PlmAction::Audio(AudioCommand::Stop)]
                + prefetch_actions(fresh(tracks@)),
            PlmCommand::Stop => seq![PlmAction::Audio(AudioCommand::Stop)],
            PlmCommand::Pause => seq![PlmAction::Audio(AudioCommand::Pause)],
            PlmCommand::Play => seq![PlmAction::Audio(AudioCommand::Play)],
            PlmCommand::Next => seq![PlmAction::Audio(AudioCommand::Next)] + prefetch_actions(
                without_head(self.playlist),
            ),
            PlmCommand::LoadTrackData { track_id, data } => self.delivery_actions(track_id@, data)
                + prefetch_actions(deliver(self.playlist, track_id@)),
            PlmCommand::AudioSkippedTrack { track_id } => self.track_over_actions(track_id@),
            PlmCommand::AudioFinishedTrack { track_id } => self.track_over_actions(track_id@),
            PlmCommand::AudioPlayingTrack { track_id } => seq![
                PlmAction::Publish(self.step(cmd).snapshot()),
            ],
            PlmCommand::AudioState { state } => seq![PlmAction::Publish(self.step(cmd).snapshot())],
        }
    }

    /// The payload goes on to the engine exactly when it was expected.
    pub open spec fn delivery_actions(self, id: Seq<char>, data: Bytes) -> Seq<PlmAction> {
        if awaits_data(self.playlist, id) {
            seq![
                PlmAction::Audio(
                    AudioCommand::EnqueueTrackData {
                        track_id: self.playlist[position_of(self.playlist, id)].track.id,
                        data,
                    },
                ),
            ]
        } else {
            Seq::empty()
        }
    }

    /// After a track is over: the fetch that the prefetch starts, then a snapshot if a head
    /// is left.
    pub open spec fn track_over_actions(self, id: Seq<char>) -> Seq<PlmAction> {
        let after = self.track_over(id);
        prefetch_actions(without_id(self.playlist, id)) + if after.playlist.len() > 0 {
            seq![PlmAction::Publish(after.snapshot())]
        } else {
            Seq::empty()
        }
    }
}

/// The playlist manager: playlist order, per-track load state, and what it was last told
/// by the playback engine.
pub struct PlmTask {
    playlist: VecDeque<PlaylistEntry>,
    audio_state: AudioState,
    audio_playing_track_id: Option<String>,
}

impl View for PlmTask {
    type V = PlmModel;

    closed spec fn view(&self) -> PlmModel {
        PlmModel {
            playlist: self.playlist@,
            audio_state: self.audio_state,
            playing_id: match self.audio_playing_track_id {
                Some(id) => Some(id@),
                None => None,
            },
        }
    }
}

/// The first position of `playlist` that holds `id` is unique.
pub proof fn lemma_first_with_id_unique(playlist: Seq<PlaylistEntry>, id: Seq<char>, index: int)
    requires
        is_first_with_id(playlist, id, index),
    ensures
        has_id(playlist, id),
        position_of(playlist, id) == index,
{
    let other = position_of(playlist, id);
    assert(is_first_with_id(playlist, id, other));
    if other < index {
        assert(playlist[other].track.id@ != id);
    }
    if index < other {
        assert(playlist[index].track.id@ != id);
    }
}

impl PlmTask {
    /// A manager with an empty playlist, a stopped engine and nothing playing.
    pub fn new() -> (r: Self)
        ensures
            r@.wf(),
            r@ == PlmModel::initial(),
    {
        PlmTask { playlist: VecDeque::new(), audio_state: AudioState::Stopped, audio_playing_track_id: None }
    }

    /// The playlist, head first.
    pub fn playlist(&self) -> (r: &VecDeque<PlaylistEntry>)
        ensures
            r@ == self@.playlist,
    {
        &self.playlist
    }

    /// The engine state that was last reported.
    pub fn audio_state(&self) -> (r: AudioState)
        ensures
            r == self@.audio_state,
    {
        self.audio_state
    }

    /// The identifier recorded as now playing.
    pub fn playing_track_id(&self) -> (r: Option<&String>)
        ensures
            match r {
                Some(id) => self@.playing_id == Some(id@),
                None => self@.playing_id is None,
            },
    {
        self.audio_playing_track_id.as_ref()
    }

    /// Gives the entry at `index` another load state; its track and every other entry stay.
    fn set_status(&mut self, index: usize, status: LoadStatus)
        requires
            index < old(self)@.playlist.len(),
        ensures
            final(self)@ == (PlmModel {
                playlist: old(self)@.playlist.update(
                    index as int,
                    PlaylistEntry { track: old(self)@.playlist[index as int].track, status },
                ),
                ..old(self)@
            }),
    {
        if let Some(entry) = self.playlist.remove(index) {
            self.playlist.insert(index, PlaylistEntry { track: entry.track, status });
        }
        assert(self.playlist@ =~= old(self).playlist@.update(
            index as int,
            PlaylistEntry { track: old(self).playlist@[index as int].track, status },
        ));
    }

    /// Starts the fetch for the entry at `index`, if it needs one: the entry is then being
    /// fetched, and the fetch is asked for. Nothing else changes.
    fn load_pl_index(&mut self, index: usize, out: &mut Vec<PlmAction>)
        ensures
            final(self)@ == (PlmModel {
                playlist: mark_loading(old(self)@.playlist, index as int),
                ..old(self)@
            }),
            final(out)@ == old(out)@ + if needs_fetch(old(self)@.playlist, index as int) {
                seq![PlmAction::Fetch { track_id: old(self)@.playlist[index as int].track.id }]
            } else {
                Seq::empty()
            },
    {
        if index < self.playlist.len() {
            match self.playlist[index].status {
                LoadStatus::NotLoaded => {
                    out.push(PlmAction::Fetch { track_id: self.playlist[index].track.id.clone() });
                    self.set_status(index, LoadStatus::Loading);
                    assert(self.playlist@ =~= mark_loading(old(self).playlist@, index as int));
                },
                LoadStatus::Loading => {
                    assert(out@ =~= old(out)@ + Seq::<PlmAction>::empty());
                },
                LoadStatus::SentToAudioThread => {
                    assert(out@ =~= old(out)@ + Seq::<PlmAction>::empty());
                },
            }
        } else {
            assert(out@ =~= old(out)@ + Seq::<PlmAction>::empty());
        }
    }

    /// The prefetch algorithm: brings the head on its way, and the entry behind it once the
    /// head is ready. It starts one fetch at most, for the first or the second entry, and
    /// leaves the playlist's length, order and tracks as they are.
    pub fn load_as_needed(&mut self, out: &mut Vec<PlmAction>)
        ensures
            final(self)@ == (PlmModel { playlist: prefetch(old(self)@.playlist), ..old(self)@ }),
            final(out)@ == old(out)@ + prefetch_actions(old(self)@.playlist),
            prefetch_bounded(old(self)@.playlist) ==> prefetch_bounded(final(self)@.playlist),
            prefetch_bounded(old(self)@.playlist) && head_served_first(old(self)@.playlist)
                ==> final(self)@.wf(),
            prefetch_actions(old(self)@.playlist).len() <= 1,
            final(self)@.playlist.len() == old(self)@.playlist.len(),
            forall|i: int|
                0 <= i < old(self)@.playlist.len() ==> (#[trigger] final(self)@.playlist[i]).track
                    == old(self)@.playlist[i].track,
            forall|i: int|
                2 <= i < old(self)@.playlist.len() ==> (#[trigger] final(self)@.playlist[i])
                    == old(self)@.playlist[i],
    {
        proof {
            lemma_prefetch_settles(self@.playlist);
        }
        self.load_pl_index(0, out);
        if self.playlist.len() > 0 {
            if let LoadStatus::SentToAudioThread = self.playlist[0].status {
                self.load_pl_index(1, out);
            }
        }
        assert(out@ =~= old(out)@ + prefetch_actions(old(self).playlist@));
    }

    /// The first position that holds `id`, if any.
    fn find_track(&self, id: &String) -> (r: Option<usize>)
        ensures
            r is Some == has_id(self.playlist@, id@),
            r is Some ==> r.unwrap() as int == position_of(self.playlist@, id@),
    {
        let mut i: usize = 0;
        while i < self.playlist.len()
            invariant
                i <= self.playlist.len(),
                forall|j: int| 0 <= j < i ==> (#[trigger] self.playlist@[j]).track.id@ != id@,
            decreases self.playlist.len() - i,
        {
            if self.playlist[i].track.id == *id {
                proof {
                    lemma_first_with_id_unique(self.playlist@, id@, i as int);
                }
                return Some(i);
            }
            i += 1;
        }
        None
    }

    /// Takes a payload that a fetch brought: it goes on to the engine if the first entry with
    /// that identifier was waiting for it, and is dropped otherwise. A payload for an
    /// identifier that no entry holds changes nothing and sends nothing.
    fn load_track_data(&mut self, track_id: String, data: Bytes, out: &mut Vec<PlmAction>)
        ensures
            final(self)@ == (PlmModel {
                playlist: deliver(old(self)@.playlist, track_id@),
                ..old(self)@
            }),
            final(out)@ == old(out)@ + old(self)@.delivery_actions(track_id@, data),
            !has_id(old(self)@.playlist, track_id@) ==> final(self)@ == old(self)@ && final(out)@
                == old(out)@,
    {
        match self.find_track(&track_id) {
            Some(i) => match self.playlist[i].status {
                LoadStatus::Loading => {
                    out.push(
                        PlmAction::Audio(
                            AudioCommand::EnqueueTrackData {
                                track_id: self.playlist[i].track.id.clone(),
                                data,
                            },
                        ),
                    );
                    self.set_status(i, LoadStatus::SentToAudioThread);
                    assert(self.playlist@ =~= deliver(old(self).playlist@, track_id@));
                },
                LoadStatus::NotLoaded => {
                    assert(out@ =~= old(out)@ + Seq::<PlmAction>::empty());
                },
                LoadStatus::SentToAudioThread => {
                    assert(out@ =~= old(out)@ + Seq::<PlmAction>::empty());
                },
            },
            None => {
                assert(out@ =~= old(out)@ + Seq::<PlmAction>::empty());
            },
        }
    }

    /// Drops every entry that holds `id`.
    fn remove_track(&mut self, id: &String)
        ensures
            final(self).playlist@ == without_id(old(self).playlist@, id@),
            final(self).audio_state == old(self).audio_state,
            final(self).audio_playing_track_id == old(self).audio_playing_track_id,
    {
        let ghost all = self.playlist@;
        let ghost keep = |e: PlaylistEntry| e.track.id@ != id@;
        let mut i: usize = 0;
        let ghost mut seen: int = 0;
        proof {
            assert(all.take(0) =~= Seq::<PlaylistEntry>::empty());
            assert(all.skip(0) =~= all);
            assert(all.take(0).filter(keep) =~= Seq::<PlaylistEntry>::empty()) by {
                reveal(Seq::filter);
            }
        }
        while i < self.playlist.len()
            invariant
                all == old(self).playlist@,
                keep == |e: PlaylistEntry| e.track.id@ != id@,
                0 <= seen <= all.len(),
                self.playlist@.len() - i == all.len() - seen,
                i <= self.playlist.len(),
                i as int == all.take(seen).filter(keep).len(),
                self.playlist@ =~= all.take(seen).filter(keep) + all.skip(seen),
                self.audio_state == old(self).audio_state,
                self.audio_playing_track_id == old(self).audio_playing_track_id,
            decreases all.len() - seen,
        {
            proof {
                assert(self.playlist@[i as int] == all[seen]);
                assert(all.take(seen + 1) =~= all.take(seen).push(all[seen]));
                assert(all.take(seen).push(all[seen]).drop_last() =~= all.take(seen));
                reveal(Seq::filter);
            }
            if self.playlist[i].track.id == *id {
                self.playlist.remove(i);
            } else {
                i += 1;
            }
            proof {
                seen = seen + 1;
            }
        }
        proof {
            assert(seen == all.len());
            assert(all.take(seen) =~= all);
        }
    }

    /// The snapshot to publish: the track that the recorded identifier names in the playlist,
    /// and the engine state last reported.
    pub fn publish_status(&self) -> (r: PlmStatus)
        ensures
            r == self@.snapshot(),
    {
        let playing_track = match &self.audio_playing_track_id {
            Some(id) => match self.find_track(id) {
                Some(i) => Some(self.playlist[i].track.clone()),
                None => None,
            },
            None => None,
        };
        PlmStatus { playing_track, audio_state: self.audio_state }
    }

    /// A playlist of these tracks in which nothing was asked for yet.
    fn fresh_playlist(tracks: Vec<TrackMetadata>) -> (r: VecDeque<PlaylistEntry>)
        ensures
            r@ == fresh(tracks@),
    {
        let mut entries: VecDeque<PlaylistEntry> = VecDeque::new();
        for track in it: tracks
            invariant
                it.seq() == tracks@,
                entries@ =~= fresh(tracks@.take(it.index())),
        {
            entries.push_back(PlaylistEntry { track, status: LoadStatus::NotLoaded });
        }
        assert(tracks@.take(tracks@.len() as int) =~= tracks@);
        entries
    }

    /// Takes one command or engine event, changes the playlist and what was recorded of the
    /// engine, and returns what the surroundings have to do, in order.
    pub fn handle(&mut self, cmd: PlmCommand) -> (r: Vec<PlmAction>)
        requires
            old(self)@.wf(),
        ensures
            final(self)@.wf(),
            final(self)@ == old(self)@.step(cmd),
            r@ == old(self)@.actions(cmd),
    {
        proof {
            lemma_step_keeps_wf(self@, cmd);
        }
        let mut out: Vec<PlmAction> = Vec::new();
        match cmd {
            PlmCommand::SetPlaylist(tracks) => {
                out.push(PlmAction::Audio(AudioCommand::Stop));
                self.playlist = Self::fresh_playlist(tracks);
                self.load_as_needed(&mut out);
            },
            PlmCommand::Stop => {
                self.playlist.clear();
                out.push(PlmAction::Audio(AudioCommand::Stop));
            },
            PlmCommand::Pause => {
                out.push(PlmAction::Audio(AudioCommand::Pause));
            },
            PlmCommand::Play => {
                out.push(PlmAction::Audio(AudioCommand::Play));
            },
            PlmCommand::Next => {
                self.playlist.pop_front();
                out.push(PlmAction::Audio(AudioCommand::Next));
                self.load_as_needed(&mut out);
            },
            PlmCommand::LoadTrackData { track_id, data } => {
                self.load_track_data(track_id, data, &mut out);
                self.load_as_needed(&mut out);
            },
            PlmCommand::AudioSkippedTrack { track_id } => {
                self.track_over(&track_id, &mut out);
            },
            PlmCommand::AudioFinishedTrack { track_id } => {
                self.track_over(&track_id, &mut out);
            },
            PlmCommand::AudioPlayingTrack { track_id } => {
                self.audio_playing_track_id = Some(track_id);
                out.push(PlmAction::Publish(self.publish_status()));
            },
            PlmCommand::AudioState { state } => {
                self.audio_state = state;
                out.push(PlmAction::Publish(self.publish_status()));
            },
        }
        assert(self@ =~= old(self)@.step(cmd));
        assert(out@ =~= old(self)@.actions(cmd));
        out
    }

    /// The engine is done with `id`, played or skipped.
    fn track_over(&mut self, id: &String, out: &mut Vec<PlmAction>)
        ensures
            final(self)@ == old(self)@.track_over(id@),
            final(out)@ == old(out)@ + old(self)@.track_over_actions(id@),
    {
        self.remove_track(id);
        self.load_as_needed(out);
        if self.playlist.len() > 0 {
            self.audio_playing_track_id = Some(self.playlist[0].track.id.clone());
            out.push(PlmAction::Publish(self.publish_status()));
        }
        assert(self@ =~= old(self)@.track_over(id@));
        assert(out@ =~= old(out)@ + old(self)@.track_over_actions(id@));
    }
}

/// One run of the prefetch algorithm leaves nothing to start, and touches the first two
/// positions only.
pub proof fn lemma_prefetch_settles(playlist: Seq<PlaylistEntry>)
    ensures
        prefetch_settled(prefetch(playlist)),
        prefetch(playlist).len() == playlist.len(),
        prefetch_bounded(playlist) ==> prefetch_bounded(prefetch(playlist)),
        head_served_first(playlist) ==> head_served_first(prefetch(playlist)),
        forall|i: int|
            0 <= i < playlist.len() ==> (#[trigger] prefetch(playlist)[i]).track
                == playlist[i].track,
{
}

/// Dropping the entries with one identifier keeps what lies beyond the first two positions
/// untouched by any fetch.
pub proof fn lemma_without_id_bounded(playlist: Seq<PlaylistEntry>, id: Seq<char>)
    requires
        prefetch_bounded(playlist),
        head_served_first(playlist),
    ensures
        prefetch_bounded(without_id(playlist, id)),
        head_served_first(without_id(playlist, id)),
        without_id(playlist, id).len() <= playlist.len(),
        without_id(playlist, id).len() == playlist.len() ==> without_id(playlist, id) == playlist,
    decreases playlist.len(),
{
    reveal(Seq::filter);
    if playlist.len() > 0 {
        let front = playlist.drop_last();
        lemma_without_id_bounded(front, id);
        let kept = without_id(playlist, id);
        if kept.len() == playlist.len() {
            assert(kept =~= playlist);
        }
    }
}

/// Every command keeps the invariant.
pub proof fn lemma_step_keeps_wf(m: PlmModel, cmd: PlmCommand)
    requires
        m.wf(),
    ensures
        m.step(cmd).wf(),
{
    match cmd {
        PlmCommand::SetPlaylist(tracks) => {
            lemma_prefetch_settles(fresh(tracks@));
        },
        PlmCommand::Next => {
            lemma_prefetch_settles(without_head(m.playlist));
        },
        PlmCommand::LoadTrackData { track_id, data } => {
            if awaits_data(m.playlist, track_id@) {
                assert(is_first_with_id(
                    m.playlist,
                    track_id@,
                    position_of(m.playlist, track_id@),
                ));
            }
            lemma_prefetch_settles(deliver(m.playlist, track_id@));
        },
        PlmCommand::AudioSkippedTrack { track_id } => {
            lemma_without_id_bounded(m.playlist, track_id@);
            lemma_prefetch_settles(without_id(m.playlist, track_id@));
        },
        PlmCommand::AudioFinishedTrack { track_id } => {
            lemma_without_id_bounded(m.playlist, track_id@);
            lemma_prefetch_settles(without_id(m.playlist, track_id@));
        },
        _ => {},
    }
}

/// The entries that are being fetched or are ready.
pub open spec fn in_pursuit(playlist: Seq<PlaylistEntry>) -> Seq<PlaylistEntry> {
    playlist.filter(|e: PlaylistEntry| e.status != LoadStatus::NotLoaded)
}

impl PlmModel {
    /// The state before anything arrived.
    pub open spec fn initial() -> PlmModel {
        PlmModel { playlist: Seq::empty(), audio_state: AudioState::Stopped, playing_id: None }
    }

    /// The state after the commands `cmds`, taken in order.
    pub open spec fn replay(self, cmds: Seq<PlmCommand>) -> PlmModel
        decreases cmds.len(),
    {
        if cmds.len() == 0 {
            self
        } else {
            self.replay(cmds.drop_last()).step(cmds.last())
        }
    }

    /// Since the last `AudioPlayingTrack` among `cmds`, no command replaced the recorded
    /// identifier by a guess.
    pub open spec fn unguessed(self, cmds: Seq<PlmCommand>) -> bool
        decreases cmds.len(),
    {
        if cmds.len() == 0 {
            true
        } else {
            let before = self.replay(cmds.drop_last());
            match cmds.last() {
                PlmCommand::AudioPlayingTrack { track_id } => true,
                cmd => before.step(cmd).playing_id == before.playing_id && self.unguessed(
                    cmds.drop_last(),
                ),
            }
        }
    }
}

/// The identifier of the last `AudioPlayingTrack` among `cmds`, or `before` where there is
/// none.
pub open spec fn last_playing_id(before: Option<Seq<char>>, cmds: Seq<PlmCommand>) -> Option<
    Seq<char>,
>
    decreases cmds.len(),
{
    if cmds.len() == 0 {
        before
    } else {
        match cmds.last() {
            PlmCommand::AudioPlayingTrack { track_id } => Some(track_id@),
            _ => last_playing_id(before, cmds.drop_last()),
        }
    }
}

/// Where nothing beyond the first two positions was asked for, at most two entries are being
/// fetched or are ready.
pub proof fn lemma_bounded_pursuit(playlist: Seq<PlaylistEntry>)
    requires
        prefetch_bounded(playlist),
    ensures
        in_pursuit(playlist).len() <= 2,
        in_pursuit(playlist).len() <= playlist.len(),
    decreases playlist.len(),
{
    reveal(Seq::filter);
    if playlist.len() > 0 {
        lemma_bounded_pursuit(playlist.drop_last());
    }
}

/// Prefetch bound: whatever commands arrive, at most two entries are being fetched or are
/// ready at once, every entry beyond the second was never asked for, and the second was
/// asked for only behind a head that is ready.
pub proof fn law_prefetch_bound(m: PlmModel, cmds: Seq<PlmCommand>)
    requires
        m.wf(),
    ensures
        m.replay(cmds).wf(),
        in_pursuit(m.replay(cmds).playlist).len() <= 2,
        forall|i: int|
            2 <= i < m.replay(cmds).playlist.len() ==> (#[trigger] m.replay(cmds).playlist[i]).status
                == LoadStatus::NotLoaded,
        head_served_first(m.replay(cmds).playlist),
    decreases cmds.len(),
{
    if cmds.len() > 0 {
        law_prefetch_bound(m, cmds.drop_last());
        lemma_step_keeps_wf(m.replay(cmds.drop_last()), cmds.last());
    }
    lemma_bounded_pursuit(m.replay(cmds).playlist);
}

/// Advance on an empty playlist: `Next` leaves it empty, starts no fetch, and still tells the
/// engine to advance.
pub proof fn law_next_on_empty(m: PlmModel)
    requires
        m.playlist.len() == 0,
    ensures
        m.step(PlmCommand::Next) == m,
        m.actions(PlmCommand::Next) == seq![PlmAction::Audio(AudioCommand::Next)],
{
    assert(m.step(PlmCommand::Next).playlist =~= m.playlist);
    assert(m.actions(PlmCommand::Next) =~= seq![PlmAction::Audio(AudioCommand::Next)]);
}

/// Stale data: a payload for an identifier that the playlist no longer holds changes nothing
/// and asks for nothing; in particular nothing is handed to the engine.
pub proof fn law_stale_data_ignored(m: PlmModel, track_id: String, data: Bytes)
    requires
        m.wf(),
        !has_id(m.playlist, track_id@),
    ensures
        m.step(PlmCommand::LoadTrackData { track_id, data }) == m,
        m.actions(PlmCommand::LoadTrackData { track_id, data }) == Seq::<PlmAction>::empty(),
{
    let cmd = PlmCommand::LoadTrackData { track_id, data };
    assert(m.step(cmd).playlist =~= m.playlist);
    assert(m.actions(cmd) =~= Seq::<PlmAction>::empty());
}

/// A payload never reaches the engine unless the first entry with its identifier was being
/// fetched, and it reaches it once.
pub proof fn law_enqueue_only_when_awaited(m: PlmModel, track_id: String, data: Bytes)
    ensures
        !awaits_data(m.playlist, track_id@) ==> forall|i: int|
            0 <= i < m.actions(PlmCommand::LoadTrackData { track_id, data }).len() ==> !(
            #[trigger] m.actions(PlmCommand::LoadTrackData { track_id, data })[i] is Audio),
        awaits_data(m.playlist, track_id@) ==> m.actions(
            PlmCommand::LoadTrackData { track_id, data },
        )[0] == PlmAction::Audio(
            AudioCommand::EnqueueTrackData {
                track_id: m.playlist[position_of(m.playlist, track_id@)].track.id,
                data,
            },
        ),
{
}

/// The track of a snapshot is always one of the playlist that holds the recorded identifier.
pub proof fn law_snapshot_names_recorded(m: PlmModel)
    ensures
        match m.snapshot().playing_track {
            Some(t) => m.playing_id == Some(t.id@) && exists|i: int|
                0 <= i < m.playlist.len() && #[trigger] m.playlist[i].track == t,
            None => true,
        },
{
    if let Some(id) = m.playing_id {
        if has_id(m.playlist, id) {
            let i = position_of(m.playlist, id);
            assert(is_first_with_id(m.playlist, id, i));
            assert(m.playlist[i].track == m.snapshot().playing_track.unwrap());
        }
    }
}

/// Whatever is published in answer to a command is the snapshot of the state after it.
pub proof fn law_published_is_snapshot(m: PlmModel, cmd: PlmCommand)
    ensures
        forall|i: int|
            0 <= i < m.actions(cmd).len() && (#[trigger] m.actions(cmd)[i]) is Publish
                ==> m.actions(cmd)[i] == PlmAction::Publish(m.step(cmd).snapshot()),
{
}

/// Status consistency: as long as no command since the last `AudioPlayingTrack` replaced the
/// recorded identifier by a guess, the snapshot shows no track, or one whose identifier is
/// that of the last `AudioPlayingTrack`.
pub proof fn law_status_consistency(m: PlmModel, cmds: Seq<PlmCommand>)
    requires
        m.unguessed(cmds),
    ensures
        m.replay(cmds).playing_id == last_playing_id(m.playing_id, cmds),
        match m.replay(cmds).snapshot().playing_track {
            Some(t) => Some(t.id@) == last_playing_id(m.playing_id, cmds),
            None => true,
        },
    decreases cmds.len(),
{
    if cmds.len() > 0 {
        match cmds.last() {
            PlmCommand::AudioPlayingTrack { track_id } => {},
            _ => {
                law_status_consistency(m, cmds.drop_last());
            },
        }
    }
    law_snapshot_names_recorded(m.replay(cmds));
}

/// Only the engine's events change the recorded identifier: a command of the user or a
/// payload leaves it as it was.
pub proof fn law_commands_keep_recorded_id(m: PlmModel, cmd: PlmCommand)
    requires
        !(cmd is AudioPlayingTrack),
        !(cmd is AudioSkippedTrack),
        !(cmd is AudioFinishedTrack),
    ensures
        m.step(cmd).playing_id == m.playing_id,
{
}

/// `Stop` empties the playlist, so that the next snapshot shows no track.
pub proof fn law_stop_clears(m: PlmModel)
    ensures
        m.step(PlmCommand::Stop).playlist.len() == 0,
        m.step(PlmCommand::Stop).snapshot().playing_track is None,
        m.actions(PlmCommand::Stop) == seq![PlmAction::Audio(AudioCommand::Stop)],
{
    let after = m.step(PlmCommand::Stop);
    if let Some(id) = after.playing_id {
        if has_id(after.playlist, id) {
            let i = position_of(after.playlist, id);
            assert(is_first_with_id(after.playlist, id, i));
        }
    }
}

} // verus!
