use crate::library::Album;
use crate::subsonic_client::same_order;
use crate::subsonic_client::AlbumListType;
use crate::text::same_text;
use vstd::prelude::*;

verus! {

/// What the front end calls an order of the album list; the orders that take years or a
/// genre have no name there.
pub open spec fn order_text(order: AlbumListType) -> Seq<char> {
    match order {
        AlbumListType::Random => "random"@,
        AlbumListType::Newest => "newest"@,
        AlbumListType::Highest => "highest"@,
        AlbumListType::Frequent => "frequent"@,
        AlbumListType::Recent => "recent"@,
        AlbumListType::AlphabeticalByName => "by_name"@,
        AlbumListType::AlphabeticalByArtist => "by_artist"@,
        AlbumListType::Starred => "starred"@,
        AlbumListType::ByYear { .. } => ""@,
        AlbumListType::ByGenre { .. } => ""@,
    }
}

/// The order that the front end means by a name, if the name is one of an order.
pub open spec fn order_named(text: Seq<char>) -> Option<AlbumListType> {
    if text == "random"@ {
        Some(AlbumListType::Random)
    } else if text == "newest"@ {
        Some(AlbumListType::Newest)
    } else if text == "highest"@ {
        Some(AlbumListType::Highest)
    } else if text == "frequent"@ {
        Some(AlbumListType::Frequent)
    } else if text == "recent"@ {
        Some(AlbumListType::Recent)
    } else if text == "by_name"@ {
        Some(AlbumListType::AlphabeticalByName)
    } else if text == "by_artist"@ {
        Some(AlbumListType::AlphabeticalByArtist)
    } else if text == "starred"@ {
        Some(AlbumListType::Starred)
    } else {
        None
    }
}

/// What the front end calls an order of the album list.
pub fn sort_order_name(order: &AlbumListType) -> (r: &'static str)
    ensures
        r@ == order_text(*order),
{
    match order {
        AlbumListType::Random => "random",
        AlbumListType::Newest => "newest",
        AlbumListType::Highest => "highest",
        AlbumListType::Frequent => "frequent",
        AlbumListType::Recent => "recent",
        AlbumListType::AlphabeticalByName => "by_name",
        AlbumListType::AlphabeticalByArtist => "by_artist",
        AlbumListType::Starred => "starred",
        AlbumListType::ByYear { .. } => "",
        AlbumListType::ByGenre { .. } => "",
    }
}

/// The order that the front end means by a name.
pub fn parse_sort_order(text: &str) -> (r: Option<AlbumListType>)
    ensures
        r == order_named(text@),
{
    if same_text(text, "random") {
        Some(AlbumListType::Random)
    } else if same_text(text, "newest") {
        Some(AlbumListType::Newest)
    } else if same_text(text, "highest") {
        Some(AlbumListType::Highest)
    } else if same_text(text, "frequent") {
        Some(AlbumListType::Frequent)
    } else if same_text(text, "recent") {
        Some(AlbumListType::Recent)
    } else if same_text(text, "by_name") {
        Some(AlbumListType::AlphabeticalByName)
    } else if same_text(text, "by_artist") {
        Some(AlbumListType::AlphabeticalByArtist)
    } else if same_text(text, "starred") {
        Some(AlbumListType::Starred)
    } else {
        None
    }
}

/// Every order that has a name is found again by its name.
pub proof fn law_order_names_round_trip(order: AlbumListType)
    requires
        !(order is ByYear),
        !(order is ByGenre),
    ensures
        order_named(order_text(order)) == Some(order),
{
    reveal_strlit("random");
    reveal_strlit("newest");
    reveal_strlit("highest");
    reveal_strlit("frequent");
    reveal_strlit("recent");
    reveal_strlit("by_name");
    reveal_strlit("by_artist");
    reveal_strlit("starred");
    let name = order_text(order);
    match order {
        AlbumListType::Random => {
            assert(name[0] == 'r' && name.len() == 6);
        },
        AlbumListType::Newest => {
            assert(name[0] == 'n');
        },
        AlbumListType::Highest => {
            assert(name[0] == 'h');
        },
        AlbumListType::Frequent => {
            assert(name[0] == 'f');
        },
        AlbumListType::Recent => {
            assert(name[0] == 'r' && name[1] == 'e');
            assert("random"@[1] == 'a');
        },
        AlbumListType::AlphabeticalByName => {
            assert(name[0] == 'b' && name[3] == 'n');
        },
        AlbumListType::AlphabeticalByArtist => {
            assert(name[0] == 'b' && name[3] == 'a');
            assert("by_name"@[3] == 'n');
        },
        AlbumListType::Starred => {
            assert(name[0] == 's');
        },
        _ => {},
    }
}

/// The first role that a list model may give a meaning of its own.
pub const USER_ROLE: i32 = 0x0100;

/// The role under which a row gives its album's name.
pub const ALBUM_NAME: i32 = USER_ROLE;

/// The role under which a row gives its album's artist.
pub const ALBUM_ARTIST: i32 = USER_ROLE + 1;

/// The role under which a row gives the URL of its album's cover.
pub const ALBUM_COVER_URL: i32 = USER_ROLE + 2;

/// The role under which a row gives its album's identifier.
pub const ALBUM_ID: i32 = USER_ROLE + 3;

/// The name of the field that a role stands for; empty for a role that stands for none.
pub open spec fn role_text(role: i32) -> Seq<char> {
    if role == ALBUM_NAME {
        "name"@
    } else if role == ALBUM_ARTIST {
        "artist"@
    } else if role == ALBUM_COVER_URL {
        "cover_url"@
    } else if role == ALBUM_ID {
        "album_id"@
    } else {
        ""@
    }
}

/// What an album gives under a role; nothing under a role that stands for no field.
pub open spec fn album_field(album: Album, role: i32) -> Option<Seq<char>> {
    if role == ALBUM_NAME {
        Some(album.name@)
    } else if role == ALBUM_ARTIST {
        Some(album.artist@)
    } else if role == ALBUM_COVER_URL {
        Some(album.cover_url@)
    } else if role == ALBUM_ID {
        Some(album.album_id@)
    } else {
        None
    }
}

/// The name of the field that a role stands for.
pub fn role_name(role: i32) -> (r: &'static str)
    ensures
        r@ == role_text(role),
{
    if role == ALBUM_NAME {
        "name"
    } else if role == ALBUM_ARTIST {
        "artist"
    } else if role == ALBUM_COVER_URL {
        "cover_url"
    } else if role == ALBUM_ID {
        "album_id"
    } else {
        ""
    }
}

/// What is to be asked of the library to fill the list.
#[derive(Debug)]
pub enum AlbumsRequest {
    /// The albums in this order.
    List(AlbumListType),
    /// The albums that a search for this text finds.
    Search(String),
}

/// The album list of the front end: the albums that are shown, the order they are asked for
/// in, and the search text.
pub struct Albums {
    list: Vec<Album>,
    album_list_type: AlbumListType,
    search: String,
}

/// The album list as a mathematical value.
pub struct AlbumsView {
    pub list: Seq<Album>,
    pub order: AlbumListType,
    pub search: Seq<char>,
}

impl View for Albums {
    type V = AlbumsView;

    closed spec fn view(&self) -> AlbumsView {
        AlbumsView { list: self.list@, order: self.album_list_type, search: self.search@ }
    }
}

impl AlbumsView {
    /// What a fetch asks for: the albums in the chosen order while there is no search text,
    /// and what the search finds once there is one.
    pub open spec fn is_request(self, request: AlbumsRequest) -> bool {
        if self.search.len() == 0 {
            request == AlbumsRequest::List(self.order)
        } else {
            request matches AlbumsRequest::Search(text) && text@ == self.search
        }
    }
}

impl Albums {
    /// An empty list in random order, with no search text.
    pub fn new() -> (r: Albums)
        ensures
            r@.list.len() == 0,
            r@.order == AlbumListType::Random,
            r@.search.len() == 0,
    {
        Albums { list: Vec::new(), album_list_type: AlbumListType::Random, search: String::new() }
    }

    /// The order under the name that the front end knows.
    pub fn sort_order(&self) -> (r: &'static str)
        ensures
            r@ == order_text(self@.order),
    {
        sort_order_name(&self.album_list_type)
    }

    /// Starts a fetch: empties the list and says what is to be asked of the library.
    pub fn fetch(&mut self) -> (r: AlbumsRequest)
        ensures
            final(self)@.list.len() == 0,
            final(self)@.order == old(self)@.order,
            final(self)@.search == old(self)@.search,
            old(self)@.is_request(r),
    {
        self.list.clear();
        if self.search.as_str().is_empty() {
            AlbumsRequest::List(self.album_list_type.clone())
        } else {
            AlbumsRequest::Search(self.search.clone())
        }
    }

    /// Chooses an order by its name. A name that is none, or that of the order already
    /// chosen, changes nothing; another order is taken over and the list fetched anew.
    pub fn set_sort_order(&mut self, order: String) -> (r: Option<AlbumsRequest>)
        ensures
            match order_named(order@) {
                Some(chosen) if !same_order(chosen, old(self)@.order) => {
                    &&& final(self)@.order == chosen
                    &&& final(self)@.search == old(self)@.search
                    &&& final(self)@.list.len() == 0
                    &&& r matches Some(request) && final(self)@.is_request(request)
                },
                _ => r is None && final(self)@ == old(self)@,
            },
    {
        match parse_sort_order(order.as_str()) {
            Some(chosen) => {
                if self.album_list_type != chosen {
                    self.album_list_type = chosen;
                    Some(self.fetch())
                } else {
                    None
                }
            },
            None => None,
        }
    }

    /// The search text.
    pub fn search(&self) -> (r: &str)
        ensures
            r@ == self@.search,
    {
        self.search.as_str()
    }

    /// Sets the search text. The same text changes nothing; another one is taken over and
    /// the list fetched anew.
    pub fn set_search(&mut self, value: String) -> (r: Option<AlbumsRequest>)
        ensures
            if value@ == old(self)@.search {
                r is None && final(self)@ == old(self)@
            } else {
                &&& final(self)@.search == value@
                &&& final(self)@.order == old(self)@.order
                &&& final(self)@.list.len() == 0
                &&& r matches Some(request) && final(self)@.is_request(request)
            },
    {
        if self.search != value {
            self.search = value;
            Some(self.fetch())
        } else {
            None
        }
    }

    /// The number of albums that are shown.
    pub fn row_count(&self) -> (r: usize)
        ensures
            r == self@.list.len(),
    {
        self.list.len()
    }

    /// The identifier of the album in row `index`; empty beyond the last row.
    pub fn album_id(&self, index: usize) -> (r: &str)
        ensures
            r@ == if index < self@.list.len() {
                self@.list[index as int].album_id@
            } else {
                Seq::empty()
            },
    {
        proof {
            reveal_strlit("");
        }
        if index < self.list.len() {
            self.list[index].album_id.as_str()
        } else {
            ""
        }
    }

    /// The artist of the album in row `index`; empty beyond the last row.
    pub fn artist(&self, index: usize) -> (r: &str)
        ensures
            r@ == if index < self@.list.len() {
                self@.list[index as int].artist@
            } else {
                Seq::empty()
            },
    {
        proof {
            reveal_strlit("");
        }
        if index < self.list.len() {
            self.list[index].artist.as_str()
        } else {
            ""
        }
    }

    /// The cover URL of the album in row `index`; empty beyond the last row.
    pub fn cover_url(&self, index: usize) -> (r: &str)
        ensures
            r@ == if index < self@.list.len() {
                self@.list[index as int].cover_url@
            } else {
                Seq::empty()
            },
    {
        proof {
            reveal_strlit("");
        }
        if index < self.list.len() {
            self.list[index].cover_url.as_str()
        } else {
            ""
        }
    }

    /// The name of the album in row `index`; empty beyond the last row.
    pub fn name(&self, index: usize) -> (r: &str)
        ensures
            r@ == if index < self@.list.len() {
                self@.list[index as int].name@
            } else {
                Seq::empty()
            },
    {
        proof {
            reveal_strlit("");
        }
        if index < self.list.len() {
            self.list[index].name.as_str()
        } else {
            ""
        }
    }

    /// What the row `index` gives under `role`: a field of its album, or nothing beyond
    /// the last row and under a role that stands for no field.
    pub fn data(&self, index: usize, role: i32) -> (r: Option<&str>)
        ensures
            match r {
                Some(text) => index < self@.list.len() && album_field(
                    self@.list[index as int],
                    role,
                ) == Some(text@),
                None => index >= self@.list.len() || album_field(self@.list[index as int], role)
                    is None,
            },
    {
        if index < self.list.len() {
            let album = &self.list[index];
            if role == ALBUM_NAME {
                Some(album.name.as_str())
            } else if role == ALBUM_ARTIST {
                Some(album.artist.as_str())
            } else if role == ALBUM_COVER_URL {
                Some(album.cover_url.as_str())
            } else if role == ALBUM_ID {
                Some(album.album_id.as_str())
            } else {
                None
            }
        } else {
            None
        }
    }

    /// Adds albums at the end of the list, as one window after the other arrives.
    pub fn add_albums(&mut self, albums: Vec<Album>)
        ensures
            final(self)@.list == old(self)@.list + albums@,
            final(self)@.order == old(self)@.order,
            final(self)@.search == old(self)@.search,
    {
        let mut albums = albums;
        self.list.append(&mut albums);
    }

    /// Takes the albums that a fetch brought, if it brought any: they replace the list.
    /// Says whether the list was replaced.
    pub fn handle_incoming_list(&mut self, incoming: Option<Vec<Album>>) -> (r: bool)
        ensures
            r == incoming is Some,
            final(self)@.order == old(self)@.order,
            final(self)@.search == old(self)@.search,
            final(self)@.list == match incoming {
                Some(albums) => albums@,
                None => old(self)@.list,
            },
    {
        match incoming {
            Some(albums) => {
                self.list = albums;
                true
            },
            None => false,
        }
    }
}

} // verus!
