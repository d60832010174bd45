use bytes::Bytes;
use tinysonic::audio::AudioCommand;
use tinysonic::audio::AudioState;
use tinysonic::library::TrackMetadata;
use tinysonic::plm::LoadStatus;
use tinysonic::plm::PlmAction;
use tinysonic::plm::PlmCommand;
use tinysonic::plm::PlmStatus;
use tinysonic::plm::PlmTask;

fn track(id: &str) -> TrackMetadata {
    TrackMetadata {
        id: id.to_string(),
        name: format!("name of {id}"),
        artist: format!("artist of {id}"),
        album: "album".to_string(),
        stream_url: format!("http://host/stream?id={id}"),
        cover_url: format!("http://host/cover?id={id}"),
    }
}

fn payload(text: &'static str) -> Bytes {
    Bytes::from_static(text.as_bytes())
}

fn describe(actions: &[PlmAction]) -> Vec<String> {
    actions
        .iter()
        .map(|a| match a {
            PlmAction::Audio(AudioCommand::EnqueueTrackData { track_id, data }) => {
                format!("enqueue {track_id} {}", String::from_utf8_lossy(data))
            }
            PlmAction::Audio(AudioCommand::Stop) => "audio stop".to_string(),
            PlmAction::Audio(AudioCommand::Pause) => "audio pause".to_string(),
            PlmAction::Audio(AudioCommand::Play) => "audio play".to_string(),
            PlmAction::Audio(AudioCommand::Next) => "audio next".to_string(),
            PlmAction::Fetch { track_id } => format!("fetch {track_id}"),
            PlmAction::Publish(status) => format!(
                "publish {} {:?}",
                status.playing_track.as_ref().map(|t| t.id.as_str()).unwrap_or("-"),
                status.audio_state
            ),
        })
        .collect()
}

fn shape(plm: &PlmTask) -> Vec<(String, LoadStatus)> {
    plm.playlist().iter().map(|e| (e.track.id.clone(), e.status)).collect()
}

fn entry(id: &str, status: LoadStatus) -> (String, LoadStatus) {
    (id.to_string(), status)
}

fn bounded(plm: &PlmTask) -> bool {
    let list = plm.playlist();
    let busy = list.iter().filter(|e| e.status != LoadStatus::NotLoaded).count();
    let head_first = list.len() < 2
        || list[1].status == LoadStatus::NotLoaded
        || list[0].status == LoadStatus::SentToAudioThread;
    let settled = list.is_empty() || list[0].status != LoadStatus::NotLoaded;
    busy <= 2
        && list.iter().skip(2).all(|e| e.status == LoadStatus::NotLoaded)
        && head_first
        && settled
}

fn load(id: &str, text: &'static str) -> PlmCommand {
    PlmCommand::LoadTrackData { track_id: id.to_string(), data: payload(text) }
}

#[test]
fn a_new_manager_holds_nothing() {
    let plm = PlmTask::new();
    assert!(plm.playlist().is_empty());
    assert_eq!(plm.audio_state(), AudioState::Stopped);
    assert!(plm.playing_track_id().is_none());
    let status = plm.publish_status();
    assert!(status.playing_track.is_none());
    assert_eq!(status.audio_state, AudioState::Stopped);
    assert!(status == PlmStatus::default());
}

#[test]
fn set_playlist_stops_the_engine_and_fetches_the_head_only() {
    let mut plm = PlmTask::new();
    let actions = plm.handle(PlmCommand::SetPlaylist(vec![track("a"), track("b"), track("c")]));
    assert_eq!(describe(&actions), vec!["audio stop", "fetch a"]);
    assert_eq!(
        shape(&plm),
        vec![
            entry("a", LoadStatus::Loading),
            entry("b", LoadStatus::NotLoaded),
            entry("c", LoadStatus::NotLoaded)
        ]
    );
    assert_eq!(plm.playlist()[0].track, track("a"));
}

#[test]
fn set_playlist_with_no_tracks() {
    let mut plm = PlmTask::new();
    plm.handle(PlmCommand::SetPlaylist(vec![track("a")]));
    let actions = plm.handle(PlmCommand::SetPlaylist(vec![]));
    assert_eq!(describe(&actions), vec!["audio stop"]);
    assert!(plm.playlist().is_empty());
}

#[test]
fn a_payload_goes_to_the_engine_and_the_next_track_is_fetched() {
    let mut plm = PlmTask::new();
    plm.handle(PlmCommand::SetPlaylist(vec![track("a"), track("b"), track("c")]));
    let actions = plm.handle(load("a", "bytes of a"));
    assert_eq!(describe(&actions), vec!["enqueue a bytes of a", "fetch b"]);
    assert_eq!(
        shape(&plm),
        vec![
            entry("a", LoadStatus::SentToAudioThread),
            entry("b", LoadStatus::Loading),
            entry("c", LoadStatus::NotLoaded)
        ]
    );
    let actions = plm.handle(load("b", "bytes of b"));
    assert_eq!(describe(&actions), vec!["enqueue b bytes of b"]);
    assert_eq!(
        shape(&plm),
        vec![
            entry("a", LoadStatus::SentToAudioThread),
            entry("b", LoadStatus::SentToAudioThread),
            entry("c", LoadStatus::NotLoaded)
        ]
    );
}

#[test]
fn prefetch_bound_holds_along_a_run() {
    let mut plm = PlmTask::new();
    let tracks = vec![track("a"), track("b"), track("c"), track("d"), track("e")];
    let commands = vec![
        PlmCommand::SetPlaylist(tracks),
        load("a", "a"),
        load("b", "b"),
        load("c", "c"),
        PlmCommand::Next,
        load("c", "c"),
        PlmCommand::AudioFinishedTrack { track_id: "b".to_string() },
        PlmCommand::AudioSkippedTrack { track_id: "d".to_string() },
        load("e", "e"),
        PlmCommand::Next,
        PlmCommand::Next,
        PlmCommand::Next,
    ];
    assert!(bounded(&plm));
    for cmd in commands {
        plm.handle(cmd);
        assert!(bounded(&plm));
    }
    assert!(plm.playlist().is_empty());
}

#[test]
fn next_on_an_empty_playlist_leaves_it_empty() {
    let mut plm = PlmTask::new();
    let actions = plm.handle(PlmCommand::Next);
    assert_eq!(describe(&actions), vec!["audio next"]);
    assert!(plm.playlist().is_empty());
    let actions = plm.handle(PlmCommand::Next);
    assert_eq!(describe(&actions), vec!["audio next"]);
    assert!(plm.playlist().is_empty());
}

#[test]
fn next_drops_the_head_and_fetches_the_new_one() {
    let mut plm = PlmTask::new();
    plm.handle(PlmCommand::SetPlaylist(vec![track("a"), track("b"), track("c")]));
    let actions = plm.handle(PlmCommand::Next);
    assert_eq!(describe(&actions), vec!["audio next", "fetch b"]);
    assert_eq!(
        shape(&plm),
        vec![entry("b", LoadStatus::Loading), entry("c", LoadStatus::NotLoaded)]
    );
}

#[test]
fn stale_data_is_ignored() {
    let mut plm = PlmTask::new();
    plm.handle(PlmCommand::SetPlaylist(vec![track("a"), track("b")]));
    plm.handle(PlmCommand::Next);
    let before = shape(&plm);
    let actions = plm.handle(load("a", "late bytes of a"));
    assert!(actions.is_empty());
    assert_eq!(shape(&plm), before);
    let actions = plm.handle(load("never heard of", "x"));
    assert!(actions.is_empty());
    assert_eq!(shape(&plm), before);
}

#[test]
fn data_for_an_entry_that_is_not_loading_is_ignored() {
    let mut plm = PlmTask::new();
    plm.handle(PlmCommand::SetPlaylist(vec![track("a"), track("b"), track("c")]));
    let before = shape(&plm);
    assert!(plm.handle(load("c", "c")).is_empty());
    assert_eq!(shape(&plm), before);
    plm.handle(load("a", "a"));
    let before = shape(&plm);
    assert!(plm.handle(load("a", "a again")).is_empty());
    assert_eq!(shape(&plm), before);
}

#[test]
fn a_finished_track_leaves_wherever_it_stands() {
    let mut plm = PlmTask::new();
    plm.handle(PlmCommand::SetPlaylist(vec![track("a"), track("b"), track("a"), track("c")]));
    plm.handle(load("a", "a"));
    let actions = plm.handle(PlmCommand::AudioFinishedTrack { track_id: "a".to_string() });
    assert_eq!(describe(&actions), vec!["publish b Stopped"]);
    assert_eq!(
        shape(&plm),
        vec![entry("b", LoadStatus::Loading), entry("c", LoadStatus::NotLoaded)]
    );
    assert_eq!(plm.playing_track_id(), Some(&"b".to_string()));
}

#[test]
fn a_skipped_track_makes_room_for_the_next_fetch() {
    let mut plm = PlmTask::new();
    plm.handle(PlmCommand::SetPlaylist(vec![track("a"), track("b"), track("c")]));
    plm.handle(load("a", "a"));
    plm.handle(load("b", "b"));
    let actions = plm.handle(PlmCommand::AudioSkippedTrack { track_id: "a".to_string() });
    assert_eq!(describe(&actions), vec!["fetch c", "publish b Stopped"]);
    assert_eq!(
        shape(&plm),
        vec![entry("b", LoadStatus::SentToAudioThread), entry("c", LoadStatus::Loading)]
    );
}

#[test]
fn the_last_track_finishing_publishes_nothing() {
    let mut plm = PlmTask::new();
    plm.handle(PlmCommand::SetPlaylist(vec![track("a")]));
    plm.handle(PlmCommand::AudioPlayingTrack { track_id: "a".to_string() });
    let actions = plm.handle(PlmCommand::AudioFinishedTrack { track_id: "a".to_string() });
    assert!(actions.is_empty());
    assert!(plm.playlist().is_empty());
    assert_eq!(plm.playing_track_id(), Some(&"a".to_string()));
    assert!(plm.publish_status().playing_track.is_none());
}

#[test]
fn the_snapshot_names_the_track_last_reported_as_playing() {
    let mut plm = PlmTask::new();
    plm.handle(PlmCommand::SetPlaylist(vec![track("a"), track("b")]));
    let actions = plm.handle(PlmCommand::AudioPlayingTrack { track_id: "b".to_string() });
    assert_eq!(describe(&actions), vec!["publish b Stopped"]);
    let actions = plm.handle(PlmCommand::AudioState { state: AudioState::Playing });
    assert_eq!(describe(&actions), vec!["publish b Playing"]);
    match &actions[0] {
        PlmAction::Publish(status) => assert_eq!(status.playing_track, Some(track("b"))),
        _ => panic!("a snapshot was expected"),
    }
    plm.handle(PlmCommand::Pause);
    plm.handle(load("a", "a"));
    assert_eq!(plm.playing_track_id(), Some(&"b".to_string()));
    let actions = plm.handle(PlmCommand::AudioPlayingTrack { track_id: "gone".to_string() });
    assert_eq!(describe(&actions), vec!["publish - Playing"]);
    assert_eq!(plm.audio_state(), AudioState::Playing);
}

#[test]
fn stop_empties_the_playlist() {
    let mut plm = PlmTask::new();
    plm.handle(PlmCommand::SetPlaylist(vec![track("a"), track("b")]));
    plm.handle(PlmCommand::AudioPlayingTrack { track_id: "a".to_string() });
    let actions = plm.handle(PlmCommand::Stop);
    assert_eq!(describe(&actions), vec!["audio stop"]);
    assert!(plm.playlist().is_empty());
    assert!(plm.publish_status().playing_track.is_none());
}

#[test]
fn pause_and_play_are_passed_on() {
    let mut plm = PlmTask::new();
    plm.handle(PlmCommand::SetPlaylist(vec![track("a")]));
    let before = shape(&plm);
    assert_eq!(describe(&plm.handle(PlmCommand::Pause)), vec!["audio pause"]);
    assert_eq!(describe(&plm.handle(PlmCommand::Play)), vec!["audio play"]);
    assert_eq!(shape(&plm), before);
}

#[test]
fn snapshots_compare_by_what_they_show() {
    let a = PlmStatus { playing_track: Some(track("a")), audio_state: AudioState::Playing };
    let b = a.clone();
    assert!(a == b);
    let c = PlmStatus { playing_track: Some(track("c")), audio_state: AudioState::Playing };
    assert!(a != c);
    let d = PlmStatus { playing_track: None, audio_state: AudioState::Playing };
    assert!(a != d);
    let e = PlmStatus { playing_track: Some(track("a")), audio_state: AudioState::Paused };
    assert!(a != e);
    assert!(track("a") == track("a").clone());
    assert!(track("a") != track("b"));
    assert_eq!(TrackMetadata::default().id, "");
}

#[test]
fn commands_have_names_and_tracks() {
    assert_eq!(PlmCommand::SetPlaylist(vec![]).name(), "SetPlaylist");
    assert_eq!(PlmCommand::Stop.name(), "Stop");
    assert_eq!(PlmCommand::Pause.name(), "Pause");
    assert_eq!(PlmCommand::Play.name(), "Play");
    assert_eq!(PlmCommand::Next.name(), "Next");
    assert_eq!(load("a", "x").name(), "LoadTrackData");
    assert_eq!(load("a", "x").track_id(), Some(&"a".to_string()));
    let skipped = PlmCommand::AudioSkippedTrack { track_id: "s".to_string() };
    assert_eq!(skipped.name(), "AudioSkippedTrack");
    assert_eq!(skipped.track_id(), Some(&"s".to_string()));
    let finished = PlmCommand::AudioFinishedTrack { track_id: "f".to_string() };
    assert_eq!(finished.name(), "AudioFinishedTrack");
    assert_eq!(finished.track_id(), Some(&"f".to_string()));
    let playing = PlmCommand::AudioPlayingTrack { track_id: "p".to_string() };
    assert_eq!(playing.name(), "AudioPlayingTrack");
    assert_eq!(playing.track_id(), Some(&"p".to_string()));
    let state = PlmCommand::AudioState { state: AudioState::Paused };
    assert_eq!(state.name(), "AudioState");
    assert!(state.track_id().is_none());
    assert!(PlmCommand::Next.track_id().is_none());
}

#[test]
fn prefetch_starts_one_fetch_at_most() {
    let mut plm = PlmTask::new();
    let mut out = vec![];
    plm.load_as_needed(&mut out);
    assert!(out.is_empty());
    plm.handle(PlmCommand::SetPlaylist(vec![track("a"), track("b"), track("c")]));
    let before = shape(&plm);
    plm.load_as_needed(&mut out);
    assert!(out.is_empty());
    assert_eq!(shape(&plm), before);
    let actions = plm.handle(load("a", "bytes"));
    assert_eq!(describe(&actions), vec!["enqueue a bytes", "fetch b"]);
    plm.load_as_needed(&mut out);
    assert!(out.is_empty());
    assert_eq!(
        shape(&plm),
        vec![
            entry("a", LoadStatus::SentToAudioThread),
            entry("b", LoadStatus::Loading),
            entry("c", LoadStatus::NotLoaded)
        ]
    );
}

#[test]
fn a_payload_for_no_entry_changes_nothing() {
    let mut plm = PlmTask::new();
    assert!(plm.handle(load("a", "bytes")).is_empty());
    assert!(plm.playlist().is_empty());
    plm.handle(PlmCommand::SetPlaylist(vec![track("a"), track("b")]));
    let before = shape(&plm);
    assert!(plm.handle(load("z", "bytes")).is_empty());
    assert_eq!(shape(&plm), before);
    assert_eq!(plm.playlist().front().unwrap().track, track("a"));
    assert_eq!(plm.playlist().len(), 2);
}
