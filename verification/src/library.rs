use crate::auth::SubsonicAuth;
use crate::subsonic_client::cover_art_query;
use crate::subsonic_client::parsed_url;
use crate::subsonic_client::stream_query;
use crate::subsonic_client::url_string;
use crate::subsonic_client::url_to_string;
use crate::subsonic_client::AlbumListType;
use crate::subsonic_client::AlbumWithSongsId3;
use crate::subsonic_client::ApiError;
use crate::subsonic_client::Child;
use crate::subsonic_client::Client;
use vstd::prelude::*;
use vstd::std_specs::cmp::PartialEqSpecImpl;

verus! {

/// An album as shown in the album list.
#[derive(Debug)]
pub struct Album {
    pub album_id: String,
    pub name: String,
    pub artist: String,
    pub cover_url: String,
}

impl Clone for Album {
    fn clone(&self) -> (r: Self)
        ensures
            r == *self,
    {
        Album {
            album_id: self.album_id.clone(),
            name: self.name.clone(),
            artist: self.artist.clone(),
            cover_url: self.cover_url.clone(),
        }
    }
}

impl Default for Album {
    fn default() -> (r: Self)
        ensures
            r.album_id@ == Seq::<char>::empty(),
            r.name@ == Seq::<char>::empty(),
            r.artist@ == Seq::<char>::empty(),
            r.cover_url@ == Seq::<char>::empty(),
    {
        Album {
            album_id: String::new(),
            name: String::new(),
            artist: String::new(),
            cover_url: String::new(),
        }
    }
}

/// The text of every field of a track, as sequences of characters.
pub struct TrackText {
    pub id: Seq<char>,
    pub name: Seq<char>,
    pub artist: Seq<char>,
    pub album: Seq<char>,
    pub stream_url: Seq<char>,
    pub cover_url: Seq<char>,
}

/// What the catalog knows of one track. Immutable once created.
#[derive(Debug)]
pub struct TrackMetadata {
    pub id: String,
    pub name: String,
    pub artist: String,
    pub album: String,
    pub stream_url: String,
    pub cover_url: String,
}

impl View for TrackMetadata {
    type V = TrackText;

    open spec fn view(&self) -> TrackText {
        TrackText {
            id: self.id@,
            name: self.name@,
            artist: self.artist@,
            album: self.album@,
            stream_url: self.stream_url@,
            cover_url: self.cover_url@,
        }
    }
}

impl Clone for TrackMetadata {
    fn clone(&self) -> (r: Self)
        ensures
            r == *self,
    {
        TrackMetadata {
            id: self.id.clone(),
            name: self.name.clone(),
            artist: self.artist.clone(),
            album: self.album.clone(),
            stream_url: self.stream_url.clone(),
            cover_url: self.cover_url.clone(),
        }
    }
}

impl Default for TrackMetadata {
    fn default() -> (r: Self)
        ensures
            r.id@ == Seq::<char>::empty(),
            r.name@ == Seq::<char>::empty(),
            r.artist@ == Seq::<char>::empty(),
            r.album@ == Seq::<char>::empty(),
            r.stream_url@ == Seq::<char>::empty(),
            r.cover_url@ == Seq::<char>::empty(),
    {
        TrackMetadata {
            id: String::new(),
            name: String::new(),
            artist: String::new(),
            album: String::new(),
            stream_url: String::new(),
            cover_url: String::new(),
        }
    }
}

impl PartialEq for TrackMetadata {
    fn eq(&self, other: &Self) -> (r: bool) {
        self.id == other.id && self.name == other.name && self.artist == other.artist
            && self.album == other.album && self.stream_url == other.stream_url
            && self.cover_url == other.cover_url
    }
}

impl PartialEqSpecImpl for TrackMetadata {
    open spec fn obeys_eq_spec() -> bool {
        true
    }

    open spec fn eq_spec(&self, other: &Self) -> bool {
        self@ == other@
    }
}

impl Eq for TrackMetadata {

}

/// The number of albums asked for at once.
pub const GET_ALBUMS_WINDOW_SIZE: usize = 100;

/// The number of albums asked for at once in random order.
pub const RANDOM_WINDOW_SIZE: usize = 18;

/// The number of artists and of albums that a search asks for.
pub const NUM_SEARCH_RESULTS: usize = 100;

/// The edge, in pixels, of the covers of an album list.
pub const LIST_COVER_SIZE: usize = 200;

/// Where the catalog is and who asks.
#[derive(Debug)]
pub struct Config {
    pub url: String,
    pub username: String,
    pub password: String,
}

/// The text of an optional string, empty where there is none.
pub open spec fn text_or_empty(s: Option<String>) -> Seq<char> {
    match s {
        Some(s) => s@,
        None => Seq::empty(),
    }
}

/// The number of albums that one request for the list asks for.
pub open spec fn window_for(list_type: AlbumListType) -> usize {
    if list_type is Random {
        RANDOM_WINDOW_SIZE
    } else {
        GET_ALBUMS_WINDOW_SIZE
    }
}

/// Where the next window of the album list starts, after a window that started at `offset`
/// brought `fetched` albums: nowhere after a window that was not full or after random
/// albums, and one window further on otherwise.
pub open spec fn offset_after(list_type: AlbumListType, offset: int, fetched: int) -> Option<int> {
    if fetched < GET_ALBUMS_WINDOW_SIZE || list_type is Random {
        None
    } else {
        Some(offset + GET_ALBUMS_WINDOW_SIZE)
    }
}

/// The music library: the catalog seen as albums and tracks.
pub struct Library {
    client: Client,
}

impl Library {
    /// The client that writes the library's requests.
    pub closed spec fn client_view(&self) -> Client {
        self.client
    }

    /// `url` is written as `text`, and is the URL that asks this library's catalog for the
    /// cover `art_id`, scaled where a size is given.
    pub open spec fn is_cover_url(&self, art_id: Seq<char>, size: Option<usize>, text: Seq<char>) -> bool {
        exists|salt: Seq<char>, url: url::Url| #[trigger]
            self.client_view().is_request_url("getCoverArt"@, cover_art_query(art_id, size), salt, url)
                && text == url_string(url)
    }

    /// `text` is a URL that asks this library's catalog for the stream of the track `id`.
    pub open spec fn is_stream_url(&self, id: Seq<char>, text: Seq<char>) -> bool {
        exists|salt: Seq<char>, url: url::Url| #[trigger]
            self.client_view().is_request_url(
                "stream"@,
                stream_query(id, None, None, None, None, None),
                salt,
                url,
            ) && text == url_string(url)
    }

    /// `text` is the cover URL of an entry with this cover, empty where it has none.
    pub open spec fn is_cover_of(&self, cover_art: Option<String>, size: Option<usize>, text: Seq<char>) -> bool {
        match cover_art {
            Some(art_id) => self.is_cover_url(art_id@, size, text),
            None => text.len() == 0,
        }
    }

    /// `album` is what the album list shows for `child`.
    pub open spec fn is_album_of(&self, child: Child, album: Album) -> bool {
        &&& album.album_id == child.id
        &&& album.name == child.title
        &&& album.artist@ == text_or_empty(child.artist)
        &&& self.is_cover_of(child.cover_art, Some(LIST_COVER_SIZE), album.cover_url@)
    }

    /// `track` is the playlist's record of the song `child` of an album named `album`.
    pub open spec fn is_track_of(&self, child: Child, album: Seq<char>, track: TrackMetadata) -> bool {
        &&& track.id == child.id
        &&& track.name == child.title
        &&& track.artist@ == text_or_empty(child.artist)
        &&& track.album@ == album
        &&& self.is_stream_url(child.id@, track.stream_url@)
        &&& self.is_cover_of(child.cover_art, None, track.cover_url@)
    }

    /// Writing the cover URL of an entry fails with `e`: the entry has a cover, and the URL
    /// that asks for it cannot be written.
    pub open spec fn cover_fails(&self, cover_art: Option<String>, size: Option<usize>, e: ApiError) -> bool {
        match cover_art {
            Some(art_id) => self.client_view().request_fails(
                "getCoverArt"@,
                cover_art_query(art_id@, size),
                e,
            ),
            None => false,
        }
    }

    /// Writing the stream URL of the track `id` fails with `e`.
    pub open spec fn stream_fails(&self, id: Seq<char>, e: ApiError) -> bool {
        self.client_view().request_fails(
            "stream"@,
            stream_query(id, None, None, None, None, None),
            e,
        )
    }

    /// A library for the catalog that `config` names; its URL has to be one.
    pub fn new(config: Config) -> (r: Library)
        requires
            parsed_url(config.url@) is Some,
        ensures
            r.client_view().auth().user() == config.username@,
            r.client_view().auth().password() == config.password@,
            Some(r.client_view().base_url()) == parsed_url(config.url@),
    {
        let auth = SubsonicAuth::new(config.username.as_str(), config.password.as_str());
        Library { client: Client::new(auth, config.url.as_str()) }
    }

    /// A library for the catalog that `config` names; none where its URL is none.
    pub fn try_new(config: Config) -> (r: Option<Library>)
        ensures
            r is Some == parsed_url(config.url@) is Some,
            r matches Some(library) ==> {
                &&& library.client_view().auth().user() == config.username@
                &&& library.client_view().auth().password() == config.password@
                &&& Some(library.client_view().base_url()) == parsed_url(config.url@)
            },
    {
        let auth = SubsonicAuth::new(config.username.as_str(), config.password.as_str());
        match Client::try_new(auth, config.url.as_str()) {
            Some(_) => Some(Library::new(config)),
            None => None,
        }
    }

    /// The client that writes the library's requests.
    pub fn client(&self) -> (r: &Client)
        ensures
            *r == self.client_view(),
    {
        &self.client
    }

    /// The number of albums that one request for the list asks for.
    pub fn window_size(list_type: &AlbumListType) -> (r: usize)
        ensures
            r == window_for(*list_type),
    {
        if list_type.is_random() {
            RANDOM_WINDOW_SIZE
        } else {
            GET_ALBUMS_WINDOW_SIZE
        }
    }

    /// Where the next window of the album list starts, if another one is to be asked for.
    pub fn next_offset(list_type: &AlbumListType, offset: usize, fetched_count: usize) -> (r:
        Option<usize>)
        requires
            offset <= usize::MAX - GET_ALBUMS_WINDOW_SIZE,
        ensures
            match r {
                Some(next) => offset_after(*list_type, offset as int, fetched_count as int) == Some(
                    next as int,
                ),
                None => offset_after(*list_type, offset as int, fetched_count as int) is None,
            },
    {
        if fetched_count < GET_ALBUMS_WINDOW_SIZE {
            None
        } else if list_type.is_random() {
            None
        } else {
            Some(offset + GET_ALBUMS_WINDOW_SIZE)
        }
    }

    /// The cover URL of an entry, written out; empty for an entry without cover.
    fn cover_url(&self, cover_art: &Option<String>, size: Option<usize>) -> (r: Result<
        String,
        ApiError,
    >)
        ensures
            match r {
                Ok(text) => self.is_cover_of(*cover_art, size, text@),
                Err(e) => self.cover_fails(*cover_art, size, e),
            },
    {
        match cover_art {
            Some(art_id) => match self.client.cover_art_url(art_id.as_str(), size) {
                Ok(url) => {
                    let text = url_to_string(&url);
                    proof {
                        let salt = choose|salt: Seq<char>| #[trigger]
                            self.client_view().is_request_url(
                                "getCoverArt"@,
                                cover_art_query(art_id@, size),
                                salt,
                                url,
                            );
                        assert(self.client_view().is_request_url(
                            "getCoverArt"@,
                            cover_art_query(art_id@, size),
                            salt,
                            url,
                        ) && text@ == url_string(url));
                    }
                    Ok(text)
                },
                Err(e) => Err(e),
            },
            None => Ok(String::new()),
        }
    }

    /// What the album list shows for an entry: its identifier, title and artist, and the URL
    /// of its cover. It fails only where a cover URL cannot be written.
    pub fn album_from_child(&self, child: Child) -> (r: Result<Album, ApiError>)
        ensures
            match r {
                Ok(album) => self.is_album_of(child, album),
                Err(e) => self.cover_fails(child.cover_art, Some(LIST_COVER_SIZE), e),
            },
    {
        let cover_url = match self.cover_url(&child.cover_art, Some(LIST_COVER_SIZE)) {
            Ok(text) => text,
            Err(e) => {
                return Err(e);
            },
        };
        let artist = match child.artist {
            Some(a) => a,
            None => String::new(),
        };
        Ok(Album { album_id: child.id, name: child.title, artist, cover_url })
    }

    /// The playlist's record of a song of the album `album`, with the URLs of its stream and
    /// of its cover. It fails only where a URL cannot be written.
    pub fn track_from_child(&self, child: Child, album: &String) -> (r: Result<
        TrackMetadata,
        ApiError,
    >)
        ensures
            match r {
                Ok(track) => self.is_track_of(child, album@, track),
                Err(e) => self.stream_fails(child.id@, e) || self.cover_fails(
                    child.cover_art,
                    None,
                    e,
                ),
            },
    {
        let stream_url = match self.client.stream_url(
            child.id.as_str(),
            None,
            None,
            None,
            None,
            None,
        ) {
            Ok(url) => {
                let text = url_to_string(&url);
                proof {
                    let salt = choose|salt: Seq<char>| #[trigger]
                        self.client_view().is_request_url(
                            "stream"@,
                            stream_query(child.id@, None, None, None, None, None),
                            salt,
                            url,
                        );
                    assert(self.client_view().is_request_url(
                        "stream"@,
                        stream_query(child.id@, None, None, None, None, None),
                        salt,
                        url,
                    ) && text@ == url_string(url));
                }
                text
            },
            Err(e) => {
                return Err(e);
            },
        };
        let cover_url = match self.cover_url(&child.cover_art, None) {
            Ok(text) => text,
            Err(e) => {
                return Err(e);
            },
        };
        let artist = match child.artist {
            Some(a) => a,
            None => String::new(),
        };
        Ok(
            TrackMetadata {
                id: child.id,
                name: child.title,
                artist,
                album: album.clone(),
                stream_url,
                cover_url,
            },
        )
    }

    /// What the album list shows for the entries of one window, in their order. It fails
    /// where a cover URL cannot be written.
    pub fn albums_from_children(&self, children: Vec<Child>) -> (r: Result<Vec<Album>, ApiError>)
        ensures
            match r {
                Ok(albums) => albums@.len() == children@.len() && forall|i: int|
                    0 <= i < children@.len() ==> self.is_album_of(
                        children@[i],
                        #[trigger] albums@[i],
                    ),
                Err(e) => exists|i: int|
                    0 <= i < children@.len() && self.cover_fails(
                        (#[trigger] children@[i]).cover_art,
                        Some(LIST_COVER_SIZE),
                        e,
                    ),
            },
    {
        let mut albums: Vec<Album> = Vec::new();
        for child in it: children
            invariant
                it.seq() == children@,
                albums@.len() == it.index(),
                forall|i: int|
                    0 <= i < it.index() ==> self.is_album_of(children@[i], #[trigger] albums@[i]),
        {
            let ghost at = it.index();
            match self.album_from_child(child) {
                Ok(album) => {
                    albums.push(album);
                },
                Err(e) => {
                    assert(self.cover_fails(children@[at].cover_art, Some(LIST_COVER_SIZE), e));
                    return Err(e);
                },
            }
        }
        Ok(albums)
    }

    /// The playlist's records of the songs of an album, in their order. It fails where a URL
    /// cannot be written.
    pub fn tracks_of_album(&self, album: AlbumWithSongsId3) -> (r: Result<
        Vec<TrackMetadata>,
        ApiError,
    >)
        ensures
            match r {
                Ok(tracks) => tracks@.len() == album.songs@.len() && forall|i: int|
                    0 <= i < album.songs@.len() ==> self.is_track_of(
                        album.songs@[i],
                        album.album_id3.name@,
                        #[trigger] tracks@[i],
                    ),
                Err(e) => exists|i: int|
                    0 <= i < album.songs@.len() && (self.stream_fails(
                        (#[trigger] album.songs@[i]).id@,
                        e,
                    ) || self.cover_fails(album.songs@[i].cover_art, None, e)),
            },
    {
        let AlbumWithSongsId3 { album_id3, songs } = album;
        let mut tracks: Vec<TrackMetadata> = Vec::new();
        for child in it: songs
            invariant
                it.seq() == songs@,
                songs@ == album.songs@,
                album_id3 == album.album_id3,
                tracks@.len() == it.index(),
                forall|i: int|
                    0 <= i < it.index() ==> self.is_track_of(
                        songs@[i],
                        album_id3.name@,
                        #[trigger] tracks@[i],
                    ),
        {
            let ghost at = it.index();
            match self.track_from_child(child, &album_id3.name) {
                Ok(track) => {
                    tracks.push(track);
                },
                Err(e) => {
                    assert(0 <= at < songs@.len());
                    assert(self.stream_fails(songs@[at].id@, e) || self.cover_fails(
                        songs@[at].cover_art,
                        None,
                        e,
                    ));
                    return Err(e);
                },
            }
        }
        Ok(tracks)
    }
}

} // verus!
