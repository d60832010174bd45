use crate::plm::PlmCommand;
use bytes::Bytes;
use std::collections::VecDeque;
use vstd::prelude::*;

verus! {

/// `bytes::Bytes`: the payload of a track, carried as it is. Nothing is known of what it
/// holds.
#[verifier::external_type_specification]
#[verifier::external_body]
pub struct ExBytes(Bytes);

/// The four states of the playback engine.
#[derive(Clone, Copy, Debug, PartialEq, Eq, Structural)]
pub enum AudioState {
    Stopped,
    Playing,
    WillPlayWhenDataArrives,
    Paused,
}

impl Default for AudioState {
    fn default() -> (r: Self)
        ensures
            r == AudioState::Stopped,
    {
        AudioState::Stopped
    }
}

/// What the playback engine can be told to do. `D` is what a track comes with when it is
/// enqueued: its payload while the command is on its way to the engine, and what probing the
/// payload found once the engine takes it.
#[derive(Debug)]
pub enum AudioCommand<D> {
    EnqueueTrackData { track_id: String, data: D },
    Stop,
    Pause,
    Play,
    Next,
}

/// What probing a payload found, for a payload whose container was recognised. `H` is
/// whatever holds the reader and the decoder that were opened; the engine carries it and
/// never looks inside.
#[derive(Debug)]
pub struct Probed<H> {
    /// The sub-streams of the container, in the reader's order: the identifier of each, and
    /// whether its codec is known.
    pub tracks: Vec<(u32, bool)>,
    /// Whether a decoder could be made for the first sub-stream whose codec is known.
    pub decoder_made: bool,
    /// The reader and the decoder.
    pub handle: H,
}

/// `index` is the first position of `tracks` whose codec is known.
pub open spec fn is_first_supported(tracks: Seq<(u32, bool)>, index: int) -> bool {
    &&& 0 <= index < tracks.len()
    &&& tracks[index].1
    &&& forall|j: int| 0 <= j < index ==> !(#[trigger] tracks[j]).1
}

/// The position of the first sub-stream whose codec is known.
pub open spec fn first_supported(tracks: Seq<(u32, bool)>) -> Option<int> {
    if exists|i: int| is_first_supported(tracks, i) {
        Some(choose|i: int| is_first_supported(tracks, i))
    } else {
        None
    }
}

/// A payload is playable when its container was recognised, one of its sub-streams has a
/// known codec, and a decoder could be made for the first such sub-stream.
pub open spec fn playable<H>(probed: Option<Probed<H>>) -> bool {
    match probed {
        Some(p) => first_supported(p.tracks@) is Some && p.decoder_made,
        None => false,
    }
}

/// The first sub-stream whose codec is known, by its position.
pub fn first_supported_track(tracks: &Vec<(u32, bool)>) -> (r: Option<usize>)
    ensures
        match r {
            Some(i) => first_supported(tracks@) == Some(i as int),
            None => first_supported(tracks@) is None,
        },
{
    let mut i: usize = 0;
    while i < tracks.len()
        invariant
            i <= tracks.len(),
            forall|j: int| 0 <= j < i ==> !(#[trigger] tracks@[j]).1,
        decreases tracks.len() - i,
    {
        if tracks[i].1 {
            proof {
                assert(is_first_supported(tracks@, i as int));
                let other = choose|k: int| is_first_supported(tracks@, k);
                if other < i {
                    assert(!tracks@[other].1);
                }
                if i < other {
                    assert(!tracks@[i as int].1);
                }
            }
            return Some(i);
        }
        i += 1;
    }
    None
}

/// What follows the packets that a step of the decode loop passes over.
#[derive(Clone, Copy, Debug, PartialEq, Eq, Structural)]
pub enum Verdict {
    /// The next packet belongs to the selected sub-stream: it is to be decoded.
    Decode,
    /// The reader gave nothing more: the stream is exhausted or broken, the track is over.
    TrackOver,
    /// Nothing of the selected sub-stream was among the packets at hand: the track goes on.
    GoOn,
}

/// What one step of the decode loop does with the packets that the reader gave.
#[derive(Clone, Copy, Debug, PartialEq, Eq, Structural)]
pub struct Reading {
    /// How many packets at the front belong to other sub-streams. They are dropped, none of
    /// them decoded.
    pub passed_over: usize,
    /// What follows them.
    pub verdict: Verdict,
}

/// What the decoder made of a packet.
#[derive(Clone, Copy, Debug, PartialEq, Eq, Structural)]
pub enum DecodeResult {
    /// Samples were decoded.
    Decoded,
    /// The packet could not be decoded; the decoder takes the next one.
    Failed,
    /// The decoder broke down and takes no more packets.
    Broken,
}

/// What one step of the decode loop met.
#[derive(Clone, Copy, Debug, PartialEq, Eq, Structural)]
pub enum UnitOutcome {
    /// The stream is exhausted or broken, or the decoder is: the track is over.
    StreamOver,
    /// Only packets of other sub-streams were at hand; they were passed over.
    OtherStream,
    /// The packet could not be decoded; the track goes on with the next one.
    DecodeFailed,
    /// A packet was decoded; its samples are to be written to the sink.
    Decoded,
}

/// What is to be done with the sink after one step of the decode loop.
#[derive(Clone, Copy, Debug, PartialEq, Eq, Structural)]
pub enum SinkAction {
    /// Nothing was decoded: the sink is left alone, and none is opened.
    Nothing,
    /// The session's sink is open: the decoded samples are written to it.
    Write,
    /// These are the session's first samples: the sink is opened for them, then they are
    /// written to it.
    OpenAndWrite,
}

/// The number of packets at the front of `upcoming` that belong to another sub-stream than
/// `selected`.
pub open spec fn leading_foreign(upcoming: Seq<u32>, selected: u32) -> int
    decreases upcoming.len(),
{
    if upcoming.len() == 0 || upcoming[0] == selected {
        0
    } else {
        1 + leading_foreign(upcoming.drop_first(), selected)
    }
}

/// What one step of the decode loop does for the sub-stream `selected`, where the reader
/// gave packets of the sub-streams `upcoming`, in this order, and, if `exhausted`, nothing
/// after them. Every packet in front of the first one of the selected sub-stream is passed
/// over. That one is decoded. Where there is none, the track is over if the reader gave
/// nothing more, and goes on if there may be more to read.
pub open spec fn reading_of(upcoming: Seq<u32>, exhausted: bool, selected: u32) -> Reading {
    let passed_over = leading_foreign(upcoming, selected);
    Reading {
        passed_over: passed_over as usize,
        verdict: if passed_over < upcoming.len() {
            Verdict::Decode
        } else if exhausted {
            Verdict::TrackOver
        } else {
            Verdict::GoOn
        },
    }
}

/// What a step of the decode loop met, from what it read and what the decoder made of the
/// packet that it was given. Where no packet was to be decoded, the decoder was not asked.
pub open spec fn unit_outcome(reading: Reading, decoded: DecodeResult) -> UnitOutcome {
    match reading.verdict {
        Verdict::TrackOver => UnitOutcome::StreamOver,
        Verdict::GoOn => UnitOutcome::OtherStream,
        Verdict::Decode => match decoded {
            DecodeResult::Decoded => UnitOutcome::Decoded,
            DecodeResult::Failed => UnitOutcome::DecodeFailed,
            DecodeResult::Broken => UnitOutcome::StreamOver,
        },
    }
}

/// The number of packets of other sub-streams at the front is the one position before which
/// no packet is of the selected sub-stream and at which one is, or the packets end.
pub proof fn lemma_leading_foreign(upcoming: Seq<u32>, selected: u32, k: int)
    requires
        0 <= k <= upcoming.len(),
        forall|i: int| 0 <= i < k ==> #[trigger] upcoming[i] != selected,
        k == upcoming.len() || upcoming[k] == selected,
    ensures
        leading_foreign(upcoming, selected) == k,
    decreases k,
{
    if k > 0 {
        let rest = upcoming.drop_first();
        assert(upcoming[0] != selected);
        assert forall|i: int| 0 <= i < k - 1 implies #[trigger] rest[i] != selected by {
            assert(rest[i] == upcoming[i + 1]);
        }
        lemma_leading_foreign(rest, selected, k - 1);
    }
}

impl Reading {
    /// What the step met, once the decoder has said what it made of the packet. `decoded` is
    /// looked at only where a packet was to be decoded.
    pub fn outcome(self, decoded: DecodeResult) -> (r: UnitOutcome)
        ensures
            r == unit_outcome(self, decoded),
    {
        match self.verdict {
            Verdict::TrackOver => UnitOutcome::StreamOver,
            Verdict::GoOn => UnitOutcome::OtherStream,
            Verdict::Decode => match decoded {
                DecodeResult::Decoded => UnitOutcome::Decoded,
                DecodeResult::Failed => UnitOutcome::DecodeFailed,
                DecodeResult::Broken => UnitOutcome::StreamOver,
            },
        }
    }
}

/// Whether the track goes on after a step with this outcome: only the end of the stream, a
/// fault of the reader or a breakdown of the decoder ends it.
pub fn track_goes_on(outcome: UnitOutcome) -> (r: bool)
    ensures
        r == !(outcome is StreamOver),
{
    match outcome {
        UnitOutcome::StreamOver => false,
        _ => true,
    }
}

/// The decode session of the track that is playing: the sub-stream that was selected,
/// whether the sink was opened for it, and the reader and decoder.
#[derive(Debug)]
pub struct PlayingStateData<H> {
    pub track_id: String,
    pub audio_track_id: u32,
    pub output_open: bool,
    pub handle: H,
}

/// The session that is opened for a playable payload: it plays the first sub-stream whose
/// codec is known, its sink is not open yet, and it holds what probing opened.
pub open spec fn session_for<H>(track_id: String, probed: Probed<H>) -> PlayingStateData<H>
    recommends
        playable(Some(probed)),
{
    PlayingStateData {
        track_id,
        audio_track_id: probed.tracks@[first_supported(probed.tracks@).unwrap()].0,
        output_open: false,
        handle: probed.handle,
    }
}

impl<H> PlayingStateData<H> {
    /// Opens a decode session for a payload as probing found it; `None` where the track
    /// cannot be played.
    pub fn new_for_track(track_id: String, probed: Option<Probed<H>>) -> (r: Option<Self>)
        ensures
            match r {
                Some(session) => playable(probed) && session == session_for(
                    track_id,
                    probed.unwrap(),
                ),
                None => !playable(probed),
            },
    {
        let Probed { tracks, decoder_made, handle } = match probed {
            Some(p) => p,
            None => {
                return None;
            },
        };
        let index = match first_supported_track(&tracks) {
            Some(i) => i,
            None => {
                return None;
            },
        };
        if !decoder_made {
            return None;
        }
        Some(PlayingStateData { track_id, audio_track_id: tracks[index].0, output_open: false, handle })
    }

    /// One step of the decode loop, as far as reading goes: says what is to be done with
    /// the packets that the reader gave, of the sub-streams `upcoming` and in this order,
    /// where `exhausted` says that the reader gave nothing after them. The packets of other
    /// sub-streams in front are passed over, up to as many as are at hand.
    pub fn process(&self, upcoming: &Vec<u32>, exhausted: bool) -> (r: Reading)
        ensures
            r == reading_of(upcoming@, exhausted, self.audio_track_id),
            r.passed_over <= upcoming@.len(),
            forall|i: int| 0 <= i < r.passed_over ==> #[trigger] upcoming@[i] != self.audio_track_id,
            r.verdict == Verdict::Decode <==> r.passed_over < upcoming@.len(),
            r.verdict == Verdict::Decode ==> upcoming@[r.passed_over as int] == self.audio_track_id,
            r.verdict == Verdict::TrackOver <==> r.passed_over == upcoming@.len() && exhausted,
            r.verdict == Verdict::GoOn <==> r.passed_over == upcoming@.len() && !exhausted,
    {
        let mut passed_over: usize = 0;
        while passed_over < upcoming.len()
            invariant
                passed_over <= upcoming.len(),
                forall|i: int| 0 <= i < passed_over ==> #[trigger] upcoming@[i] != self.audio_track_id,
            decreases upcoming.len() - passed_over,
        {
            if upcoming[passed_over] == self.audio_track_id {
                proof {
                    lemma_leading_foreign(upcoming@, self.audio_track_id, passed_over as int);
                }
                return Reading { passed_over, verdict: Verdict::Decode };
            }
            passed_over += 1;
        }
        proof {
            lemma_leading_foreign(upcoming@, self.audio_track_id, passed_over as int);
        }
        if exhausted {
            Reading { passed_over, verdict: Verdict::TrackOver }
        } else {
            Reading { passed_over, verdict: Verdict::GoOn }
        }
    }
}

/// The playback engine as a mathematical value.
pub struct EngineModel<H> {
    /// The state of the playback state machine.
    pub state: AudioState,
    /// The tracks that wait to be played, the next one first, each with what probing its
    /// payload found.
    pub queue: Seq<(String, Option<Probed<H>>)>,
    /// The decode session that is open.
    pub current: Option<PlayingStateData<H>>,
}

/// The number of payloads at the front of the queue that cannot be played.
pub open spec fn leading_unplayable<H>(queue: Seq<(String, Option<Probed<H>>)>) -> int
    decreases queue.len(),
{
    if queue.len() == 0 || playable(queue[0].1) {
        0
    } else {
        1 + leading_unplayable(queue.drop_first())
    }
}

/// One `AudioSkippedTrack` for each of the first `count` payloads of the queue, in order.
pub open spec fn skip_events<H>(queue: Seq<(String, Option<Probed<H>>)>, count: int) -> Seq<
    PlmCommand,
> {
    Seq::new(count as nat, |i: int| PlmCommand::AudioSkippedTrack { track_id: queue[i].0 })
}

/// One `AudioState` event when the state changed, none when it did not.
pub open spec fn state_report(before: AudioState, after: AudioState) -> Seq<PlmCommand> {
    if before == after {
        Seq::empty()
    } else {
        seq![PlmCommand::AudioState { state: after }]
    }
}

impl<H> EngineModel<H> {
    /// The engine before anything arrived.
    pub open spec fn initial() -> EngineModel<H> {
        EngineModel { state: AudioState::Stopped, queue: Seq::empty(), current: None }
    }

    /// A decode session is open only while playing or paused.
    pub open spec fn wf(self) -> bool {
        self.current is Some ==> self.state == AudioState::Playing || self.state
            == AudioState::Paused
    }

    /// The position in the queue of the payload that the next attempt to start will play, or
    /// the queue's length where none can be played.
    pub open spec fn next_playable(self) -> int {
        leading_unplayable(self.queue)
    }

    /// The engine after an attempt to start the next track: the session that was open is
    /// gone, the unplayable payloads at the front of the queue are dropped, and a session
    /// for the first playable one, if there is one, is open and playing.
    pub open spec fn start_next(self) -> EngineModel<H> {
        let k = self.next_playable();
        if k < self.queue.len() {
            EngineModel {
                state: AudioState::Playing,
                queue: self.queue.skip(k + 1),
                current: Some(session_for(self.queue[k].0, self.queue[k].1.unwrap())),
            }
        } else {
            EngineModel {
                state: AudioState::WillPlayWhenDataArrives,
                queue: Seq::empty(),
                current: None,
            }
        }
    }

    /// What an attempt to start the next track announces: one `AudioSkippedTrack` for each
    /// payload dropped, then `AudioPlayingTrack` if a session was opened.
    pub open spec fn start_next_events(self) -> Seq<PlmCommand> {
        let k = self.next_playable();
        skip_events(self.queue, k) + if k < self.queue.len() {
            seq![PlmCommand::AudioPlayingTrack { track_id: self.queue[k].0 }]
        } else {
            Seq::empty()
        }
    }

    /// The engine with one more track at the end of its queue.
    pub open spec fn enqueued(self, track_id: String, data: Option<Probed<H>>) -> EngineModel<H> {
        EngineModel { queue: self.queue.push((track_id, data)), ..self }
    }

    /// The engine after `cmd`. A command that starts no track leaves the session as it is:
    /// the same track, sub-stream, sink and reader.
    pub open spec fn step(self, cmd: AudioCommand<Option<Probed<H>>>) -> EngineModel<H> {
        match cmd {
            AudioCommand::EnqueueTrackData { track_id, data } => if self.state
                == AudioState::WillPlayWhenDataArrives {
                self.enqueued(track_id, data).start_next()
            } else {
                self.enqueued(track_id, data)
            },
            AudioCommand::Stop => EngineModel {
                state: AudioState::Stopped,
                queue: Seq::empty(),
                current: None,
            },
            AudioCommand::Pause => match self.state {
                AudioState::Stopped => self,
                _ => EngineModel { state: AudioState::Paused, ..self },
            },
            AudioCommand::Play => match self.state {
                AudioState::Stopped => self.start_next(),
                AudioState::Paused => EngineModel { state: AudioState::Playing, ..self },
                _ => self,
            },
            AudioCommand::Next => self.start_next(),
        }
    }

    /// The track events that `cmd` gives rise to, before the report of a state change.
    pub open spec fn announced(self, cmd: AudioCommand<Option<Probed<H>>>) -> Seq<PlmCommand> {
        match cmd {
            AudioCommand::EnqueueTrackData { track_id, data } => if self.state
                == AudioState::WillPlayWhenDataArrives {
                self.enqueued(track_id, data).start_next_events()
            } else {
                Seq::empty()
            },
            AudioCommand::Play => if self.state == AudioState::Stopped {
                self.start_next_events()
            } else {
                Seq::empty()
            },
            AudioCommand::Next => self.start_next_events(),
            _ => Seq::empty(),
        }
    }

    /// Everything that the engine sends to the playlist manager in answer to `cmd`, in
    /// order: the track events, then the new state if the state changed.
    pub open spec fn events(self, cmd: AudioCommand<Option<Probed<H>>>) -> Seq<PlmCommand> {
        self.announced(cmd) + state_report(self.state, self.step(cmd).state)
    }

    /// Whether a step of the decode loop has a session to work on: the engine is playing and
    /// a session is open.
    pub open spec fn decodes(self) -> bool {
        self.state == AudioState::Playing && self.current is Some
    }

    /// The engine after one step of the decode loop that met `outcome`. Only an engine that
    /// is playing decodes. One that finds no session open stops; the end of the stream
    /// starts the next track; decoded samples leave the session with its sink open; any
    /// other outcome leaves everything as it is.
    pub open spec fn after_unit(self, outcome: UnitOutcome) -> EngineModel<H> {
        if self.state != AudioState::Playing {
            self
        } else if self.current is None {
            EngineModel { state: AudioState::Stopped, ..self }
        } else if outcome is StreamOver {
            self.start_next()
        } else if outcome is Decoded {
            EngineModel {
                current: Some(PlayingStateData { output_open: true, ..self.current.unwrap() }),
                ..self
            }
        } else {
            self
        }
    }

    /// What is to be done with the sink after one step of the decode loop that met
    /// `outcome`: decoded samples are written, to a sink that is opened for them if the
    /// session has none yet; without decoded samples nothing is written and nothing opened.
    pub open spec fn sink_action(self, outcome: UnitOutcome) -> SinkAction {
        if self.decodes() && outcome is Decoded {
            if self.current.unwrap().output_open {
                SinkAction::Write
            } else {
                SinkAction::OpenAndWrite
            }
        } else {
            SinkAction::Nothing
        }
    }

    /// What the engine sends to the playlist manager after one step of the decode loop that
    /// met `outcome`: at the end of the stream `AudioFinishedTrack` and what the start of the
    /// next track announces; then the new state if the state changed.
    pub open spec fn unit_events(self, outcome: UnitOutcome) -> Seq<PlmCommand> {
        let after = self.after_unit(outcome);
        if self.decodes() && outcome is StreamOver {
            seq![PlmCommand::AudioFinishedTrack { track_id: self.current.unwrap().track_id }]
                + self.start_next_events() + state_report(self.state, after.state)
        } else {
            state_report(self.state, after.state)
        }
    }
}

/// The engine state of the playback thread: the state machine, the queue of tracks that
/// wait, and the decode session of the track that is playing.
pub struct AudioThread<H> {
    state: AudioState,
    queue: VecDeque<(String, Option<Probed<H>>)>,
    playing_state_data: Option<PlayingStateData<H>>,
}

impl<H> View for AudioThread<H> {
    type V = EngineModel<H>;

    closed spec fn view(&self) -> EngineModel<H> {
        EngineModel { state: self.state, queue: self.queue@, current: self.playing_state_data }
    }
}

/// The number of unplayable payloads at the front of a queue is the one position before
/// which nothing can be played and at which something can, or the queue ends.
pub proof fn lemma_leading_unplayable<H>(queue: Seq<(String, Option<Probed<H>>)>, k: int)
    requires
        0 <= k <= queue.len(),
        forall|i: int| 0 <= i < k ==> !playable((#[trigger] queue[i]).1),
        k == queue.len() || playable(queue[k].1),
    ensures
        leading_unplayable(queue) == k,
    decreases k,
{
    if k > 0 {
        let rest = queue.drop_first();
        assert(!playable(queue[0].1));
        assert forall|i: int| 0 <= i < k - 1 implies !playable((#[trigger] rest[i]).1) by {
            assert(rest[i] == queue[i + 1]);
        }
        lemma_leading_unplayable(rest, k - 1);
    }
}

impl<H> AudioThread<H> {
    /// An engine that is stopped, with nothing queued and no session open.
    pub fn new() -> (r: Self)
        ensures
            r@ == EngineModel::<H>::initial(),
            r@.wf(),
    {
        AudioThread { state: AudioState::Stopped, queue: VecDeque::new(), playing_state_data: None }
    }

    /// Attempts to start the next track: closes the session that is open, then takes tracks
    /// from the queue until one can be played or none is left, announcing each one that is
    /// passed over and the one that starts. Returns the state that results; the engine's own
    /// state is left for the caller to set.
    pub fn play_next_track(&mut self, out: &mut Vec<PlmCommand>) -> (r: AudioState)
        ensures
            final(self)@ == (EngineModel { state: old(self)@.state, ..old(self)@.start_next() }),
            r == old(self)@.start_next().state,
            final(out)@ == old(out)@ + old(self)@.start_next_events(),
            0 <= old(self)@.next_playable() <= old(self)@.queue.len(),
            forall|i: int|
                0 <= i < old(self)@.next_playable() ==> !playable(
                    (#[trigger] old(self)@.queue[i]).1,
                ),
            old(self)@.next_playable() < old(self)@.queue.len() ==> playable(
                old(self)@.queue[old(self)@.next_playable()].1,
            ),
    {
        let ghost before = self.queue@;
        let ghost sent = out@;
        let ghost mut done: int = 0;
        self.playing_state_data = None;
        proof {
            assert(self.queue@ =~= before.skip(0));
            assert(out@ =~= sent + skip_events(before, 0));
        }
        loop
            invariant
                before == old(self).queue@,
                sent == old(out)@,
                0 <= done <= before.len(),
                self.queue@ == before.skip(done),
                forall|i: int| 0 <= i < done ==> !playable((#[trigger] before[i]).1),
                out@ == sent + skip_events(before, done),
                self.playing_state_data is None,
                self.state == old(self).state,
            decreases before.len() - done,
        {
            let (track_id, data) = match self.queue.pop_front() {
                Some(item) => item,
                None => {
                    proof {
                        lemma_leading_unplayable(before, done);
                        assert(self.queue@ =~= Seq::<(String, Option<Probed<H>>)>::empty());
                        assert(out@ =~= old(out)@ + old(self)@.start_next_events());
                    }
                    return AudioState::WillPlayWhenDataArrives;
                },
            };
            assert(track_id == before[done].0 && data == before[done].1);
            match PlayingStateData::new_for_track(track_id.clone(), data) {
                Some(session) => {
                    out.push(PlmCommand::AudioPlayingTrack { track_id: session.track_id.clone() });
                    self.playing_state_data = Some(session);
                    proof {
                        lemma_leading_unplayable(before, done);
                        assert(self.queue@ =~= before.skip(done + 1));
                        assert(out@ =~= old(out)@ + old(self)@.start_next_events());
                    }
                    return AudioState::Playing;
                },
                None => {
                    out.push(PlmCommand::AudioSkippedTrack { track_id });
                    proof {
                        assert(self.queue@ =~= before.skip(done + 1));
                        assert(out@ =~= sent + skip_events(before, done + 1));
                        done = done + 1;
                    }
                },
            }
        }
    }

    /// Reports the state if it differs from `before`.
    fn report_state(&self, before: AudioState, out: &mut Vec<PlmCommand>)
        ensures
            final(out)@ == old(out)@ + state_report(before, self.state),
    {
        if before != self.state {
            out.push(PlmCommand::AudioState { state: self.state });
        } else {
            assert(out@ =~= old(out)@ + Seq::<PlmCommand>::empty());
        }
    }

    /// Takes one command, moves the state machine, and returns what is to be sent to the
    /// playlist manager, in order. A track that is enqueued comes with what probing its
    /// payload found, or with nothing where its container was not recognised.
    pub fn handle_command(&mut self, cmd: AudioCommand<Option<Probed<H>>>) -> (r: Vec<PlmCommand>)
        requires
            old(self)@.wf(),
        ensures
            final(self)@.wf(),
            final(self)@ == old(self)@.step(cmd),
            r@ == old(self)@.events(cmd),
    {
        let before = self.state;
        let mut out: Vec<PlmCommand> = Vec::new();
        match cmd {
            AudioCommand::EnqueueTrackData { track_id, data } => {
                self.queue.push_back((track_id, data));
                if self.state == AudioState::WillPlayWhenDataArrives {
                    self.state = self.play_next_track(&mut out);
                }
            },
            AudioCommand::Stop => {
                self.queue.clear();
                self.playing_state_data = None;
                self.state = AudioState::Stopped;
            },
            AudioCommand::Pause => match self.state {
                AudioState::Stopped => {},
                _ => {
                    self.state = AudioState::Paused;
                },
            },
            AudioCommand::Play => match self.state {
                AudioState::Stopped => {
                    self.state = self.play_next_track(&mut out);
                },
                AudioState::Paused => {
                    self.state = AudioState::Playing;
                },
                _ => {},
            },
            AudioCommand::Next => {
                self.state = self.play_next_track(&mut out);
            },
        }
        assert(self@ =~= old(self)@.step(cmd));
        assert(out@ =~= old(self)@.announced(cmd));
        self.report_state(before, &mut out);
        out
    }

    /// While playing, the command queue is polled without waiting, so that audio is rendered
    /// between commands; in every other state the engine waits for the next command.
    pub fn polls_without_waiting(&self) -> (r: bool)
        ensures
            r == (self@.state == AudioState::Playing),
    {
        self.state == AudioState::Playing
    }

    /// The state of the playback state machine.
    pub fn state(&self) -> (r: AudioState)
        ensures
            r == self@.state,
    {
        self.state
    }

    /// The number of tracks that wait in the queue.
    pub fn queue_len(&self) -> (r: usize)
        ensures
            r == self@.queue.len(),
    {
        self.queue.len()
    }

    /// The decode session that is open, if any.
    pub fn playing_state_data(&self) -> (r: Option<&PlayingStateData<H>>)
        ensures
            match r {
                Some(session) => self@.current == Some(*session),
                None => self@.current is None,
            },
    {
        self.playing_state_data.as_ref()
    }

    /// One step of the decode loop, as far as reading goes, for the time when no command
    /// waits: says what is to be done with the packets that the session's reader gave. An
    /// engine that is not playing, or has no session open, reads nothing.
    pub fn process_unit(&self, upcoming: &Vec<u32>, exhausted: bool) -> (r: Option<Reading>)
        ensures
            r == if self@.decodes() {
                Some(reading_of(upcoming@, exhausted, self@.current.unwrap().audio_track_id))
            } else {
                None
            },
    {
        if self.state == AudioState::Playing {
            match &self.playing_state_data {
                Some(session) => Some(session.process(upcoming, exhausted)),
                None => None,
            }
        } else {
            None
        }
    }

    /// Ends one step of the decode loop that met `outcome`: the end of the stream finishes
    /// the track and starts the next; decoded samples go to the sink, which is opened with
    /// the session's first samples; finding no session open stops the engine. Returns what
    /// is to be sent to the playlist manager, in order, and what is to be done with the
    /// sink.
    pub fn finish_unit(&mut self, outcome: UnitOutcome) -> (r: (Vec<PlmCommand>, SinkAction))
        requires
            old(self)@.wf(),
        ensures
            final(self)@.wf(),
            final(self)@ == old(self)@.after_unit(outcome),
            r.0@ == old(self)@.unit_events(outcome),
            r.1 == old(self)@.sink_action(outcome),
    {
        let before = self.state;
        let mut out: Vec<PlmCommand> = Vec::new();
        let mut sink = SinkAction::Nothing;
        if self.state == AudioState::Playing {
            match self.playing_state_data.take() {
                None => {
                    self.state = AudioState::Stopped;
                },
                Some(session) => {
                    if !track_goes_on(outcome) {
                        out.push(PlmCommand::AudioFinishedTrack { track_id: session.track_id });
                        self.state = self.play_next_track(&mut out);
                    } else if let UnitOutcome::Decoded = outcome {
                        sink = if session.output_open {
                            SinkAction::Write
                        } else {
                            SinkAction::OpenAndWrite
                        };
                        self.playing_state_data = Some(
                            PlayingStateData { output_open: true, ..session },
                        );
                    } else {
                        self.playing_state_data = Some(session);
                    }
                },
            }
        }
        assert(self@ =~= old(self)@.after_unit(outcome));
        self.report_state(before, &mut out);
        assert(out@ =~= old(self)@.unit_events(outcome));
        (out, sink)
    }
}

/// Every command keeps the engine's invariant.
pub proof fn law_step_keeps_wf<H>(m: EngineModel<H>, cmd: AudioCommand<Option<Probed<H>>>)
    requires
        m.wf(),
    ensures
        m.step(cmd).wf(),
{
}

/// Every step of the decode loop keeps the engine's invariant.
pub proof fn law_unit_keeps_wf<H>(m: EngineModel<H>, outcome: UnitOutcome)
    requires
        m.wf(),
    ensures
        m.after_unit(outcome).wf(),
{
}

/// A command that starts no track leaves the session untouched: pausing and resuming keep
/// the same track, sub-stream, sink and reader, and so does a track that only joins the
/// queue.
pub proof fn law_session_kept<H>(m: EngineModel<H>, cmd: AudioCommand<Option<Probed<H>>>)
    requires
        cmd is Pause || (cmd is Play && m.state != AudioState::Stopped) || (
        cmd is EnqueueTrackData && m.state != AudioState::WillPlayWhenDataArrives),
    ensures
        m.step(cmd).current == m.current,
        cmd is Pause || cmd is Play ==> m.step(cmd).queue == m.queue,
{
}

/// One step of the decode loop reads past the packets of other sub-streams: where `j`
/// packets of other sub-streams come first and a packet of the selected sub-stream follows,
/// the `j` are passed over and that packet is decoded in the same step; where the reader
/// gave nothing after them, the track is over in the same step and nothing is decoded.
pub proof fn law_unit_skips_other_streams(
    upcoming: Seq<u32>,
    exhausted: bool,
    selected: u32,
    j: int,
)
    requires
        0 <= j <= upcoming.len() <= usize::MAX,
        forall|i: int| 0 <= i < j ==> #[trigger] upcoming[i] != selected,
        j == upcoming.len() || upcoming[j] == selected,
    ensures
        reading_of(upcoming, exhausted, selected).passed_over == j,
        j < upcoming.len() ==> reading_of(upcoming, exhausted, selected).verdict == Verdict::Decode,
        j == upcoming.len() && exhausted ==> reading_of(upcoming, exhausted, selected).verdict
            == Verdict::TrackOver,
        j == upcoming.len() && !exhausted ==> reading_of(upcoming, exhausted, selected).verdict
            == Verdict::GoOn,
        j == upcoming.len() && exhausted ==> forall|decoded: DecodeResult|
            #[trigger] unit_outcome(reading_of(upcoming, exhausted, selected), decoded)
                == UnitOutcome::StreamOver,
{
    lemma_leading_foreign(upcoming, selected, j);
}

/// The sink is opened lazily and once: the first decoded samples of a session open it, later
/// ones find it open, and a step without decoded samples neither opens nor writes.
pub proof fn law_sink_opens_once<H>(m: EngineModel<H>, outcome: UnitOutcome)
    requires
        m.decodes(),
    ensures
        outcome is Decoded ==> m.after_unit(outcome).current is Some && m.after_unit(
            outcome,
        ).current.unwrap().output_open,
        outcome is Decoded ==> m.after_unit(outcome).sink_action(UnitOutcome::Decoded)
            == SinkAction::Write,
        m.sink_action(outcome) == SinkAction::OpenAndWrite <==> outcome is Decoded
            && !m.current.unwrap().output_open,
        !(outcome is Decoded) ==> m.sink_action(outcome) == SinkAction::Nothing,
        m.start_next().current is Some ==> !m.start_next().current.unwrap().output_open,
{
}

/// Skip convergence: where the first `k` payloads of the queue cannot be played and the next
/// one can, an attempt to start the next track announces exactly `k` skipped tracks, in queue
/// order, then the track that plays, and ends playing that track with the rest of the queue
/// still waiting.
pub proof fn law_skip_convergence<H>(m: EngineModel<H>, k: int)
    requires
        0 <= k < m.queue.len(),
        forall|i: int| 0 <= i < k ==> !playable((#[trigger] m.queue[i]).1),
        playable(m.queue[k].1),
    ensures
        m.start_next().state == AudioState::Playing,
        m.start_next().current == Some(session_for(m.queue[k].0, m.queue[k].1.unwrap())),
        m.start_next().current.unwrap().track_id == m.queue[k].0,
        m.start_next().queue == m.queue.skip(k + 1),
        m.start_next_events().len() == k + 1,
        forall|i: int|
            0 <= i < k ==> #[trigger] m.start_next_events()[i] == (PlmCommand::AudioSkippedTrack {
                track_id: m.queue[i].0,
            }),
        m.start_next_events()[k] == (PlmCommand::AudioPlayingTrack { track_id: m.queue[k].0 }),
{
    lemma_leading_unplayable(m.queue, k);
}

/// Where nothing in the queue can be played, an attempt to start the next track skips every
/// payload, empties the queue, and leaves the engine waiting for data.
pub proof fn law_nothing_playable<H>(m: EngineModel<H>)
    requires
        forall|i: int| 0 <= i < m.queue.len() ==> !playable((#[trigger] m.queue[i]).1),
    ensures
        m.start_next().state == AudioState::WillPlayWhenDataArrives,
        m.start_next().current is None,
        m.start_next().queue.len() == 0,
        m.start_next_events() == skip_events(m.queue, m.queue.len() as int),
{
    lemma_leading_unplayable(m.queue, m.queue.len() as int);
    assert(m.start_next_events() =~= skip_events(m.queue, m.queue.len() as int));
}

/// Exhaustion: `Play` on a stopped engine with an empty queue does not play; the engine
/// waits for data, and says so.
pub proof fn law_play_on_empty_queue<H>(m: EngineModel<H>)
    requires
        m.state == AudioState::Stopped,
        m.queue.len() == 0,
    ensures
        m.step(AudioCommand::Play).state == AudioState::WillPlayWhenDataArrives,
        m.step(AudioCommand::Play).current is None,
        m.events(AudioCommand::Play) == seq![
            PlmCommand::AudioState { state: AudioState::WillPlayWhenDataArrives },
        ],
{
    law_nothing_playable(m);
    assert(m.events(AudioCommand::Play) =~= seq![
        PlmCommand::AudioState { state: AudioState::WillPlayWhenDataArrives },
    ]);
}

/// `Stop` in any state discards the queue and the session and leaves the engine stopped; it
/// is reported unless the engine was stopped already.
pub proof fn law_stop_discards<H>(m: EngineModel<H>)
    ensures
        m.step(AudioCommand::Stop) == EngineModel::<H>::initial(),
        m.events(AudioCommand::Stop) == state_report(m.state, AudioState::Stopped),
{
    assert(m.events(AudioCommand::Stop) =~= state_report(m.state, AudioState::Stopped));
}

/// A payload that arrives while the engine waits for data starts playing at once if it can
/// be played, and is skipped if it cannot; in every other state it only joins the queue.
pub proof fn law_enqueue<H>(m: EngineModel<H>, track_id: String, data: Option<Probed<H>>)
    requires
        m.wf(),
    ensures
        m.state != AudioState::WillPlayWhenDataArrives ==> m.step(
            AudioCommand::EnqueueTrackData { track_id, data },
        ) == m.enqueued(track_id, data),
        m.state == AudioState::WillPlayWhenDataArrives && m.queue.len() == 0 && playable(data)
            ==> m.step(AudioCommand::EnqueueTrackData { track_id, data }) == (EngineModel {
            state: AudioState::Playing,
            queue: Seq::empty(),
            current: Some(session_for(track_id, data.unwrap())),
        }),
        m.state == AudioState::WillPlayWhenDataArrives && m.queue.len() == 0 && !playable(data)
            ==> m.step(AudioCommand::EnqueueTrackData { track_id, data }) == m,
{
    let cmd = AudioCommand::EnqueueTrackData { track_id, data };
    if m.state == AudioState::WillPlayWhenDataArrives && m.queue.len() == 0 {
        let q = m.enqueued(track_id, data);
        assert(q.queue[0] == (track_id, data));
        if playable(data) {
            lemma_leading_unplayable(q.queue, 0);
            assert(q.queue.skip(1) =~= Seq::<(String, Option<Probed<H>>)>::empty());
        } else {
            lemma_leading_unplayable(q.queue, 1);
            assert(m.queue =~= Seq::<(String, Option<Probed<H>>)>::empty());
        }
    }
}

/// What an attempt to start the next track announces never holds a report of the state, and
/// holds `AudioPlayingTrack` only as its last event, for the session that it opened.
pub proof fn lemma_start_next_events<H>(m: EngineModel<H>)
    ensures
        forall|i: int|
            0 <= i < m.start_next_events().len() ==> !(#[trigger] m.start_next_events()[i]
                is AudioState),
        forall|i: int|
            0 <= i < m.start_next_events().len() && (#[trigger] m.start_next_events()[i])
                is AudioPlayingTrack ==> {
                &&& i == m.start_next_events().len() - 1
                &&& m.start_next().state == AudioState::Playing
                &&& m.start_next().current is Some
                &&& m.start_next_events()[i] == (PlmCommand::AudioPlayingTrack {
                    track_id: m.start_next().current.unwrap().track_id,
                })
            },
{
}

/// State changes are reported: what the engine sends in answer to a command ends with its
/// new state exactly when the state changed, and holds no other report of the state.
pub proof fn law_state_changes_are_reported<H>(
    m: EngineModel<H>,
    cmd: AudioCommand<Option<Probed<H>>>,
)
    ensures
        m.step(cmd).state != m.state ==> m.events(cmd).len() > 0 && m.events(cmd).last() == (
        PlmCommand::AudioState { state: m.step(cmd).state }),
        forall|i: int|
            0 <= i < m.events(cmd).len() && (#[trigger] m.events(cmd)[i]) is AudioState ==> i
                == m.events(cmd).len() - 1 && m.step(cmd).state != m.state,
{
    lemma_start_next_events(m);
    match cmd {
        AudioCommand::EnqueueTrackData { track_id, data } => {
            lemma_start_next_events(m.enqueued(track_id, data));
        },
        _ => {},
    }
}

/// A new session is announced: `AudioPlayingTrack` is sent in answer to a command exactly
/// for the session that the command opened, which is then the one that plays.
pub proof fn law_new_sessions_are_announced<H>(
    m: EngineModel<H>,
    cmd: AudioCommand<Option<Probed<H>>>,
)
    ensures
        forall|i: int|
            0 <= i < m.events(cmd).len() && (#[trigger] m.events(cmd)[i]) is AudioPlayingTrack
                ==> {
                &&& m.step(cmd).state == AudioState::Playing
                &&& m.step(cmd).current is Some
                &&& m.events(cmd)[i] == (PlmCommand::AudioPlayingTrack {
                    track_id: m.step(cmd).current.unwrap().track_id,
                })
            },
{
    lemma_start_next_events(m);
    match cmd {
        AudioCommand::EnqueueTrackData { track_id, data } => {
            lemma_start_next_events(m.enqueued(track_id, data));
        },
        _ => {},
    }
}

/// A track that ends is reported as finished, once and first: a step of the decode loop
/// sends `AudioFinishedTrack` exactly when the engine was playing a session whose stream is
/// over, and then for that session's track.
pub proof fn law_finished_tracks_are_reported<H>(m: EngineModel<H>, outcome: UnitOutcome)
    ensures
        m.decodes() && outcome is StreamOver ==> m.unit_events(outcome)[0] == (
        PlmCommand::AudioFinishedTrack { track_id: m.current.unwrap().track_id }),
        forall|i: int|
            0 <= i < m.unit_events(outcome).len() && (#[trigger] m.unit_events(outcome)[i])
                is AudioFinishedTrack ==> i == 0 && m.decodes() && outcome is StreamOver,
{
    lemma_start_next_events(m);
}

} // verus!
