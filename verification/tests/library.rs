use tinysonic::library::Album;
use tinysonic::library::Config;
use tinysonic::library::Library;
use tinysonic::library::GET_ALBUMS_WINDOW_SIZE;
use tinysonic::library::LIST_COVER_SIZE;
use tinysonic::library::NUM_SEARCH_RESULTS;
use tinysonic::library::RANDOM_WINDOW_SIZE;
use tinysonic::subsonic_client::AlbumId3;
use tinysonic::subsonic_client::AlbumListType;
use tinysonic::subsonic_client::AlbumWithSongsId3;
use tinysonic::subsonic_client::ApiError;
use tinysonic::subsonic_client::Child;
use tinysonic::subsonic_client::MediaType;

fn config(url: &str) -> Config {
    Config { url: url.to_string(), username: "user".to_string(), password: "secret".to_string() }
}

fn child(id: &str, title: &str, artist: Option<&str>, cover_art: Option<&str>) -> Child {
    Child {
        id: id.to_string(),
        parent: None,
        is_dir: false,
        title: title.to_string(),
        album: None,
        artist: artist.map(|a| a.to_string()),
        track: Some(1),
        year: None,
        genre: None,
        cover_art: cover_art.map(|c| c.to_string()),
        size: None,
        content_type: None,
        suffix: None,
        transcoded_content_type: None,
        transcoded_soffix: None,
        duration: None,
        bit_rate: None,
        is_video: None,
        user_rating: None,
        play_count: None,
        disc_number: None,
        created: None,
        starred: None,
        album_id: None,
        artist_id: None,
        media_type: Some(MediaType::Music),
        bookmark_position: None,
        original_width: None,
        original_height: None,
    }
}

fn album_id3(name: &str) -> AlbumId3 {
    AlbumId3 {
        id: "al-1".to_string(),
        name: name.to_string(),
        artist: None,
        artist_id: None,
        cover_art: None,
        song_count: None,
        duration: None,
        play_count: None,
        created: None,
        starred: None,
        year: None,
        genre: None,
    }
}

fn tail(url: &str) -> Vec<(String, String)> {
    let url = url::Url::parse(url).unwrap();
    url.query_pairs().skip(6).map(|(k, v)| (k.into_owned(), v.into_owned())).collect()
}

fn pair(k: &str, v: &str) -> (String, String) {
    (k.to_string(), v.to_string())
}

#[test]
fn a_library_needs_a_url() {
    assert!(Library::try_new(config("no url at all")).is_none());
    assert!(Library::try_new(config("http://host/rest")).is_some());
    let library = Library::new(config("http://host/rest"));
    assert!(library.client().build_req_url("ping", &vec![]).is_ok());
}

#[test]
fn window_sizes() {
    assert_eq!(GET_ALBUMS_WINDOW_SIZE, 100);
    assert_eq!(RANDOM_WINDOW_SIZE, 18);
    assert_eq!(NUM_SEARCH_RESULTS, 100);
    assert_eq!(LIST_COVER_SIZE, 200);
    assert_eq!(Library::window_size(&AlbumListType::Random), 18);
    assert_eq!(Library::window_size(&AlbumListType::Newest), 100);
    assert_eq!(Library::window_size(&AlbumListType::ByGenre { genre: "jazz".to_string() }), 100);
}

#[test]
fn paging_goes_on_after_a_full_window_only() {
    assert_eq!(Library::next_offset(&AlbumListType::Newest, 0, 100), Some(100));
    assert_eq!(Library::next_offset(&AlbumListType::Newest, 300, 100), Some(400));
    assert_eq!(Library::next_offset(&AlbumListType::Newest, 300, 250), Some(400));
    assert_eq!(Library::next_offset(&AlbumListType::Newest, 300, 99), None);
    assert_eq!(Library::next_offset(&AlbumListType::Newest, 0, 0), None);
    assert_eq!(Library::next_offset(&AlbumListType::Random, 0, 18), None);
    assert_eq!(Library::next_offset(&AlbumListType::Random, 0, 100), None);
}

#[test]
fn an_album_is_made_of_an_entry() {
    let library = Library::new(config("http://host/rest"));
    let album = library.album_from_child(child("al-1", "Kind of Blue", Some("Miles"), Some("c-1")));
    let album = album.ok().unwrap();
    assert_eq!(album.album_id, "al-1");
    assert_eq!(album.name, "Kind of Blue");
    assert_eq!(album.artist, "Miles");
    assert!(album.cover_url.starts_with("http://host/rest/getCoverArt?u=user&t="));
    assert_eq!(tail(&album.cover_url), vec![pair("id", "c-1"), pair("size", "200")]);

    let bare = library.album_from_child(child("al-2", "Untitled", None, None)).ok().unwrap();
    assert_eq!(bare.album_id, "al-2");
    assert_eq!(bare.artist, "");
    assert_eq!(bare.cover_url, "");
    assert_eq!(bare.clone().name, "Untitled");
    assert_eq!(Album::default().name, "");
}

#[test]
fn albums_keep_the_order_of_their_entries() {
    let library = Library::new(config("http://host/rest"));
    let albums = library
        .albums_from_children(vec![
            child("a", "A", None, None),
            child("b", "B", Some("x"), Some("cb")),
            child("c", "C", None, None),
        ])
        .ok()
        .unwrap();
    let ids: Vec<&str> = albums.iter().map(|a| a.album_id.as_str()).collect();
    assert_eq!(ids, vec!["a", "b", "c"]);
    assert_eq!(tail(&albums[1].cover_url), vec![pair("id", "cb"), pair("size", "200")]);
    assert!(library.albums_from_children(vec![]).ok().unwrap().is_empty());
}

#[test]
fn tracks_are_made_of_the_songs_of_an_album() {
    let library = Library::new(config("http://host/rest"));
    let album = AlbumWithSongsId3 {
        album_id3: album_id3("Kind of Blue"),
        songs: vec![
            child("t1", "So What", Some("Miles"), Some("c-1")),
            child("t2", "Freddie Freeloader", None, None),
        ],
    };
    let tracks = library.tracks_of_album(album).ok().unwrap();
    assert_eq!(tracks.len(), 2);
    assert_eq!(tracks[0].id, "t1");
    assert_eq!(tracks[0].name, "So What");
    assert_eq!(tracks[0].artist, "Miles");
    assert_eq!(tracks[0].album, "Kind of Blue");
    assert!(tracks[0].stream_url.starts_with("http://host/rest/stream?u=user&t="));
    assert_eq!(tail(&tracks[0].stream_url), vec![pair("id", "t1")]);
    assert!(tracks[0].cover_url.starts_with("http://host/rest/getCoverArt?"));
    assert_eq!(tail(&tracks[0].cover_url), vec![pair("id", "c-1")]);
    assert_eq!(tracks[1].id, "t2");
    assert_eq!(tracks[1].artist, "");
    assert_eq!(tracks[1].album, "Kind of Blue");
    assert_eq!(tracks[1].cover_url, "");
}

#[test]
fn a_base_url_without_path_fails_where_a_url_is_needed() {
    let library = Library::new(config("mailto:someone@example.com"));
    assert!(matches!(
        library.album_from_child(child("a", "A", None, Some("c"))),
        Err(ApiError::UrlCannotBeABaseUrl)
    ));
    assert!(library.album_from_child(child("a", "A", None, None)).is_ok());
    assert!(matches!(
        library.albums_from_children(vec![child("a", "A", None, None), child("b", "B", None, Some("c"))]),
        Err(ApiError::UrlCannotBeABaseUrl)
    ));
    assert!(matches!(
        library.track_from_child(child("t", "T", None, None), &"X".to_string()),
        Err(ApiError::UrlCannotBeABaseUrl)
    ));
    let empty = AlbumWithSongsId3 { album_id3: album_id3("X"), songs: vec![] };
    assert!(library.tracks_of_album(empty).ok().unwrap().is_empty());
}
