use bytes::Bytes;
use std::cell::Cell;
use std::sync::Arc;
use tinysonic::audio::AudioState;
use tinysonic::library::Album;
use tinysonic::library::TrackMetadata;
use tinysonic::plm::PlmStatus;
use tinysonic::rodio_utils::DoneCallback;
use tinysonic::subsonic_client::AlbumListType;
use tinysonic::ui_impl::albums::parse_sort_order;
use tinysonic::ui_impl::albums::role_name;
use tinysonic::ui_impl::albums::sort_order_name;
use tinysonic::ui_impl::albums::Albums;
use tinysonic::ui_impl::albums::AlbumsRequest;
use tinysonic::ui_impl::albums::ALBUM_ARTIST;
use tinysonic::ui_impl::albums::ALBUM_COVER_URL;
use tinysonic::ui_impl::albums::ALBUM_ID;
use tinysonic::ui_impl::albums::ALBUM_NAME;
use tinysonic::ui_impl::player::play_state_name;
use tinysonic::ui_impl::player::Player;
use tinysonic::ui_impl::player::StatusSignals;
use tinysonic::ui_impl::simple::Simple;
use tinysonic::widgets::net_image::ImageLoadFinished;
use tinysonic::widgets::net_image::ImageRef;
use tinysonic::widgets::net_image::NetImageState;

fn album(id: &str) -> Album {
    Album {
        album_id: id.to_string(),
        name: format!("name {id}"),
        artist: format!("artist {id}"),
        cover_url: format!("cover {id}"),
    }
}

fn track(id: &str) -> TrackMetadata {
    TrackMetadata {
        id: id.to_string(),
        name: format!("name {id}"),
        artist: format!("artist {id}"),
        album: format!("album {id}"),
        stream_url: format!("stream {id}"),
        cover_url: format!("cover {id}"),
    }
}

fn status(id: Option<&str>, audio_state: AudioState) -> PlmStatus {
    PlmStatus { playing_track: id.map(track), audio_state }
}

#[test]
fn sort_orders_have_names() {
    let named = vec![
        (AlbumListType::Random, "random"),
        (AlbumListType::Newest, "newest"),
        (AlbumListType::Highest, "highest"),
        (AlbumListType::Frequent, "frequent"),
        (AlbumListType::Recent, "recent"),
        (AlbumListType::AlphabeticalByName, "by_name"),
        (AlbumListType::AlphabeticalByArtist, "by_artist"),
        (AlbumListType::Starred, "starred"),
    ];
    for (order, name) in named {
        assert_eq!(sort_order_name(&order), name);
        assert!(parse_sort_order(name) == Some(order));
    }
    assert_eq!(sort_order_name(&AlbumListType::ByYear { from_year: 1, to_year: 2 }), "");
    assert_eq!(sort_order_name(&AlbumListType::ByGenre { genre: "jazz".to_string() }), "");
    assert!(parse_sort_order("").is_none());
    assert!(parse_sort_order("Random").is_none());
    assert!(parse_sort_order("alphabeticalByName").is_none());
}

#[test]
fn the_album_list_fetches_when_its_order_changes() {
    let mut albums = Albums::new();
    assert_eq!(albums.sort_order(), "random");
    assert_eq!(albums.search(), "");
    assert_eq!(albums.row_count(), 0);
    assert!(albums.set_sort_order("random".to_string()).is_none());
    assert!(albums.set_sort_order("no order".to_string()).is_none());
    assert_eq!(albums.sort_order(), "random");
    assert!(albums.handle_incoming_list(Some(vec![album("a")])));
    match albums.set_sort_order("newest".to_string()) {
        Some(AlbumsRequest::List(order)) => assert!(order == AlbumListType::Newest),
        _ => panic!("a new order asks for the list"),
    }
    assert_eq!(albums.sort_order(), "newest");
    assert_eq!(albums.row_count(), 0);
}

#[test]
fn the_album_list_searches_when_there_is_a_search_text() {
    let mut albums = Albums::new();
    assert!(albums.set_search(String::new()).is_none());
    match albums.set_search("blue".to_string()) {
        Some(AlbumsRequest::Search(text)) => assert_eq!(text, "blue"),
        _ => panic!("a new search text asks for a search"),
    }
    assert_eq!(albums.search(), "blue");
    assert!(albums.set_search("blue".to_string()).is_none());
    match albums.set_sort_order("starred".to_string()) {
        Some(AlbumsRequest::Search(text)) => assert_eq!(text, "blue"),
        _ => panic!("with a search text every fetch is a search"),
    }
    match albums.set_search(String::new()) {
        Some(AlbumsRequest::List(order)) => assert!(order == AlbumListType::Starred),
        _ => panic!("without search text the list is asked for"),
    }
    match albums.fetch() {
        AlbumsRequest::List(order) => assert!(order == AlbumListType::Starred),
        _ => panic!("without search text the list is asked for"),
    }
}

#[test]
fn the_album_list_shows_what_arrived() {
    let mut albums = Albums::new();
    assert!(!albums.handle_incoming_list(None));
    assert!(albums.handle_incoming_list(Some(vec![album("a"), album("b")])));
    assert_eq!(albums.row_count(), 2);
    assert_eq!(albums.album_id(0), "a");
    assert_eq!(albums.name(1), "name b");
    assert_eq!(albums.artist(1), "artist b");
    assert_eq!(albums.cover_url(0), "cover a");
    assert_eq!(albums.album_id(2), "");
    assert_eq!(albums.name(2), "");
    assert_eq!(albums.artist(7), "");
    assert_eq!(albums.cover_url(usize::MAX), "");
    assert!(!albums.handle_incoming_list(None));
    assert_eq!(albums.row_count(), 2);
    albums.fetch();
    assert_eq!(albums.row_count(), 0);
}

#[test]
fn playback_states_have_names() {
    assert_eq!(play_state_name(AudioState::Stopped), "stop");
    assert_eq!(play_state_name(AudioState::Playing), "play");
    assert_eq!(play_state_name(AudioState::WillPlayWhenDataArrives), "play");
    assert_eq!(play_state_name(AudioState::Paused), "pause");
}

#[test]
fn the_player_shows_the_last_snapshot() {
    let mut player = Player::new();
    assert_eq!(player.play_state(), "stop");
    assert_eq!(player.current_album(), "");
    assert_eq!(player.current_artist(), "");
    assert_eq!(player.current_image_url(), "");
    assert_eq!(player.current_track_name(), "");

    let signals = player.handle_incoming_plm_status(status(Some("a"), AudioState::Playing));
    assert_eq!(signals, StatusSignals { track_changed: true, state_changed: true });
    assert_eq!(player.play_state(), "play");
    assert_eq!(player.current_album(), "album a");
    assert_eq!(player.current_artist(), "artist a");
    assert_eq!(player.current_image_url(), "cover a");
    assert_eq!(player.current_track_name(), "name a");

    let signals = player.handle_incoming_plm_status(status(Some("a"), AudioState::Playing));
    assert_eq!(signals, StatusSignals { track_changed: false, state_changed: false });
    let signals = player.handle_incoming_plm_status(status(Some("a"), AudioState::Paused));
    assert_eq!(signals, StatusSignals { track_changed: false, state_changed: true });
    let signals = player.handle_incoming_plm_status(status(Some("b"), AudioState::Paused));
    assert_eq!(signals, StatusSignals { track_changed: true, state_changed: false });
    let signals = player.handle_incoming_plm_status(status(None, AudioState::Stopped));
    assert_eq!(signals, StatusSignals { track_changed: true, state_changed: true });
    assert_eq!(player.current_track_name(), "");
    let signals = player.handle_incoming_plm_status(status(None, AudioState::Stopped));
    assert_eq!(signals, StatusSignals { track_changed: false, state_changed: false });
}

#[test]
fn the_simple_object_greets() {
    let mut simple = Simple::new();
    assert_eq!(simple.message(), "Hello World!");
    simple.set_message("something else".to_string());
    assert_eq!(simple.message(), "Hello World!");
}

#[test]
fn an_image_takes_its_own_bytes_only() {
    let mut state = NetImageState::cover("c-1");
    assert!(state.image_ref == ImageRef::Cover("c-1".to_string()));
    assert!(state.data.is_none());

    let other = ImageLoadFinished {
        image_ref: ImageRef::Cover("c-2".to_string()),
        data: Arc::new(Bytes::from_static(b"other")),
    };
    assert!(!state.accept(&other));
    assert!(state.data.is_none());

    let url = ImageLoadFinished {
        image_ref: ImageRef::Url("c-1".to_string()),
        data: Arc::new(Bytes::from_static(b"url")),
    };
    assert!(!state.accept(&url));
    assert!(state.data.is_none());

    let own = ImageLoadFinished {
        image_ref: ImageRef::Cover("c-1".to_string()),
        data: Arc::new(Bytes::from_static(b"own")),
    };
    assert!(state.accept(&own));
    assert_eq!(state.data.as_deref(), Some(&Bytes::from_static(b"own")));
    assert!(!state.accept(&other));
    assert_eq!(state.data.as_deref(), Some(&Bytes::from_static(b"own")));
}

#[test]
fn an_image_is_asked_for_when_it_changes() {
    let a = NetImageState::cover("a");
    let same = NetImageState::cover("a");
    let b = NetImageState::cover("b");
    let url = NetImageState { image_ref: ImageRef::Url("a".to_string()), data: None };
    assert!(!NetImageState::needs_request(&a, &same));
    assert!(NetImageState::needs_request(&a, &b));
    assert!(NetImageState::needs_request(&a, &url));
    assert!(ImageRef::Url("a".to_string()).clone() == ImageRef::Url("a".to_string()));
}

#[test]
fn the_done_callback_fires_once() {
    let calls = Cell::new(0);
    let mut done = DoneCallback::new(vec![1, 2].into_iter(), |()| calls.set(calls.get() + 1));
    assert_eq!(done.inner().len(), 2);
    let next = done.inner_mut().next();
    assert_eq!(done.pass_next(next), Some(1));
    let next = done.inner_mut().next();
    assert_eq!(done.pass_next(next), Some(2));
    assert_eq!(calls.get(), 0);
    let next = done.inner_mut().next();
    assert_eq!(done.pass_next(next), None);
    assert_eq!(calls.get(), 1);
    let next = done.inner_mut().next();
    assert_eq!(done.pass_next(next), None);
    assert_eq!(calls.get(), 1);
    assert_eq!(done.into_inner().len(), 0);
}

#[test]
fn the_done_callback_says_when_the_call_is_due() {
    let mut done = DoneCallback::new(7u8, ());
    assert_eq!(*done.inner(), 7);
    *done.inner_mut() = 9;
    assert_eq!(*done.inner(), 9);
    assert!(!done.note_next(&Some(1)));
    assert!(done.note_next(&None::<u8>));
    assert!(!done.note_next(&None::<u8>));
    assert!(!done.note_next(&Some(1)));
    assert_eq!(done.into_inner(), 9);
}

#[test]
fn rows_give_their_fields_by_role() {
    assert_eq!((ALBUM_NAME, ALBUM_ARTIST, ALBUM_COVER_URL, ALBUM_ID), (256, 257, 258, 259));
    assert_eq!(role_name(256), "name");
    assert_eq!(role_name(257), "artist");
    assert_eq!(role_name(258), "cover_url");
    assert_eq!(role_name(259), "album_id");
    assert_eq!(role_name(0), "");
    let mut albums = Albums::new();
    albums.add_albums(vec![album("a")]);
    albums.add_albums(vec![album("b"), album("c")]);
    assert_eq!(albums.row_count(), 3);
    assert_eq!(albums.data(1, ALBUM_NAME), Some("name b"));
    assert_eq!(albums.data(1, ALBUM_ARTIST), Some("artist b"));
    assert_eq!(albums.data(2, ALBUM_COVER_URL), Some("cover c"));
    assert_eq!(albums.data(0, ALBUM_ID), Some("a"));
    assert_eq!(albums.data(0, 255), None);
    assert_eq!(albums.data(0, 260), None);
    assert_eq!(albums.data(3, ALBUM_NAME), None);
}
