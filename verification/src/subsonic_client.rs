use crate::auth::append_all;
use crate::auth::encoded_bytes;
use crate::auth::lemma_growth_adds;
use crate::auth::pairs_fit;
use crate::auth::pairs_growth;
use crate::auth::room_after;
use crate::auth::url_byte_len;
use crate::auth::url_len;
use crate::auth::MAX_URL_LEN;
use crate::auth::auth_pairs;
use crate::auth::is_salt;
use crate::auth::pairs_text;
use crate::auth::with_pairs;
use crate::auth::SubsonicAuth;
use crate::text::bool_string;
use crate::text::bool_text;
use crate::text::decimal;
use crate::text::decimal_text;
use vstd::prelude::*;
use vstd::std_specs::cmp::PartialEqSpecImpl;

verus! {

/// `reqwest::Error`: why a transfer failed. Opaque; it is only carried.
#[verifier::external_type_specification]
#[verifier::external_body]
pub struct ExReqwestError(reqwest::Error);

/// The HTTP status of a redirect.
pub const STATUS_FOUND: u16 = 302;

/// Everything that a request to the catalog can fail with.
#[derive(Debug)]
pub enum ApiError {
    UrlCannotBeABaseUrl,
    UrlTooLong,
    RequestError(reqwest::Error),
    Generic(String),
    RequiredParameterMissing(String),
    ClientMustUpgrade(String),
    ServerMustUpgrade(String),
    WrongUsernameOrPassword(String),
    NoTokenAuthForLdap(String),
    UserNotAuthorized(String),
    TrialExpired(String),
    NotFound(String),
    MalformedApiResponse,
    SuspiciousRedirect,
}

/// An error with its message as a sequence of characters, and without what a failed
/// transfer carries.
pub enum ApiErrorText {
    UrlCannotBeABaseUrl,
    UrlTooLong,
    RequestError,
    Generic(Seq<char>),
    RequiredParameterMissing(Seq<char>),
    ClientMustUpgrade(Seq<char>),
    ServerMustUpgrade(Seq<char>),
    WrongUsernameOrPassword(Seq<char>),
    NoTokenAuthForLdap(Seq<char>),
    UserNotAuthorized(Seq<char>),
    TrialExpired(Seq<char>),
    NotFound(Seq<char>),
    MalformedApiResponse,
    SuspiciousRedirect,
}

impl View for ApiError {
    type V = ApiErrorText;

    open spec fn view(&self) -> ApiErrorText {
        match self {
            ApiError::UrlCannotBeABaseUrl => ApiErrorText::UrlCannotBeABaseUrl,
            ApiError::UrlTooLong => ApiErrorText::UrlTooLong,
            ApiError::RequestError(_) => ApiErrorText::RequestError,
            ApiError::Generic(m) => ApiErrorText::Generic(m@),
            ApiError::RequiredParameterMissing(m) => ApiErrorText::RequiredParameterMissing(m@),
            ApiError::ClientMustUpgrade(m) => ApiErrorText::ClientMustUpgrade(m@),
            ApiError::ServerMustUpgrade(m) => ApiErrorText::ServerMustUpgrade(m@),
            ApiError::WrongUsernameOrPassword(m) => ApiErrorText::WrongUsernameOrPassword(m@),
            ApiError::NoTokenAuthForLdap(m) => ApiErrorText::NoTokenAuthForLdap(m@),
            ApiError::UserNotAuthorized(m) => ApiErrorText::UserNotAuthorized(m@),
            ApiError::TrialExpired(m) => ApiErrorText::TrialExpired(m@),
            ApiError::NotFound(m) => ApiErrorText::NotFound(m@),
            ApiError::MalformedApiResponse => ApiErrorText::MalformedApiResponse,
            ApiError::SuspiciousRedirect => ApiErrorText::SuspiciousRedirect,
        }
    }
}

/// The error that the catalog's error code `code` stands for, with its message.
pub open spec fn error_for_code(code: i32, message: Seq<char>) -> ApiErrorText {
    if code == 10 {
        ApiErrorText::RequiredParameterMissing(message)
    } else if code == 20 {
        ApiErrorText::ClientMustUpgrade(message)
    } else if code == 30 {
        ApiErrorText::ServerMustUpgrade(message)
    } else if code == 40 {
        ApiErrorText::WrongUsernameOrPassword(message)
    } else if code == 41 {
        ApiErrorText::NoTokenAuthForLdap(message)
    } else if code == 50 {
        ApiErrorText::UserNotAuthorized(message)
    } else if code == 60 {
        ApiErrorText::TrialExpired(message)
    } else if code == 70 {
        ApiErrorText::NotFound(message)
    } else {
        ApiErrorText::Generic(message)
    }
}

/// The text that is shown for an error: for an error of the catalog, what it means and the
/// server's message in brackets; for a generic one the message alone.
pub open spec fn error_text(e: ApiErrorText) -> Seq<char> {
    match e {
        ApiErrorText::UrlCannotBeABaseUrl => "The configured url is not a valid base url"@,
        ApiErrorText::UrlTooLong => "The url of the request is too long"@,
        ApiErrorText::RequestError => "Request error"@,
        ApiErrorText::Generic(m) => m,
        ApiErrorText::RequiredParameterMissing(m) => "Required Parameter is missing. ("@ + m
            + ")"@,
        ApiErrorText::ClientMustUpgrade(m) =>
            "Incompatible Subsonic REST protocol version. Client must upgrade. ("@ + m + ")"@,
        ApiErrorText::ServerMustUpgrade(m) =>
            "Incompatible Subsonic REST protocol version. Server must upgrade. ("@ + m + ")"@,
        ApiErrorText::WrongUsernameOrPassword(m) => "Wrong username or password. ("@ + m + ")"@,
        ApiErrorText::NoTokenAuthForLdap(m) =>
            "Token authentication not supported for LDAP users. ("@ + m + ")"@,
        ApiErrorText::UserNotAuthorized(m) => "User is not authorized for the given operation. ("@
            + m + ")"@,
        ApiErrorText::TrialExpired(m) =>
            "The trial period for the Subsonic server is over. Please upgrade to Subsonic Premium. Visit subsonic.org for details. ("@
                + m + ")"@,
        ApiErrorText::NotFound(m) => "The requested data was not found. ("@ + m + ")"@,
        ApiErrorText::MalformedApiResponse => "Malformed API Response"@,
        ApiErrorText::SuspiciousRedirect =>
            "The server returned a redirect, but the response could not be parsed. Check your base url; Navidrome does this if you have a bogus path there."@,
    }
}

impl ApiError {
    /// The error that the catalog's error code stands for: each known code its own kind,
    /// every other code a generic error.
    pub fn from_code(code: i32, message: String) -> (r: ApiError)
        ensures
            r@ == error_for_code(code, message@),
    {
        if code == 10 {
            ApiError::RequiredParameterMissing(message)
        } else if code == 20 {
            ApiError::ClientMustUpgrade(message)
        } else if code == 30 {
            ApiError::ServerMustUpgrade(message)
        } else if code == 40 {
            ApiError::WrongUsernameOrPassword(message)
        } else if code == 41 {
            ApiError::NoTokenAuthForLdap(message)
        } else if code == 50 {
            ApiError::UserNotAuthorized(message)
        } else if code == 60 {
            ApiError::TrialExpired(message)
        } else if code == 70 {
            ApiError::NotFound(message)
        } else {
            ApiError::Generic(message)
        }
    }

    /// The error for a response whose body could not be read as an answer of the catalog:
    /// after a redirect (status 302) the base URL is under suspicion; after any other status
    /// the failure is passed on as it is.
    pub fn from_unreadable_body(status: u16, cause: reqwest::Error) -> (r: ApiError)
        ensures
            r == if status == STATUS_FOUND {
                ApiError::SuspiciousRedirect
            } else {
                ApiError::RequestError(cause)
            },
    {
        if status == STATUS_FOUND {
            ApiError::SuspiciousRedirect
        } else {
            ApiError::RequestError(cause)
        }
    }

    /// A prefix, the server's message, and a closing bracket.
    fn bracketed(prefix: &str, message: &String) -> (r: String)
        ensures
            r@ == prefix@ + message@ + ")"@,
    {
        let mut text = String::from_str(prefix);
        text.append(message.as_str());
        text.append(")");
        text
    }

    /// The text that is shown for this error.
    pub fn message(&self) -> (r: String)
        ensures
            r@ == error_text(self@),
    {
        match self {
            ApiError::UrlCannotBeABaseUrl => String::from_str(
                "The configured url is not a valid base url",
            ),
            ApiError::UrlTooLong => String::from_str("The url of the request is too long"),
            ApiError::RequestError(_) => String::from_str("Request error"),
            ApiError::Generic(m) => m.clone(),
            ApiError::RequiredParameterMissing(m) => Self::bracketed(
                "Required Parameter is missing. (",
                m,
            ),
            ApiError::ClientMustUpgrade(m) => Self::bracketed(
                "Incompatible Subsonic REST protocol version. Client must upgrade. (",
                m,
            ),
            ApiError::ServerMustUpgrade(m) => Self::bracketed(
                "Incompatible Subsonic REST protocol version. Server must upgrade. (",
                m,
            ),
            ApiError::WrongUsernameOrPassword(m) => Self::bracketed(
                "Wrong username or password. (",
                m,
            ),
            ApiError::NoTokenAuthForLdap(m) => Self::bracketed(
                "Token authentication not supported for LDAP users. (",
                m,
            ),
            ApiError::UserNotAuthorized(m) => Self::bracketed(
                "User is not authorized for the given operation. (",
                m,
            ),
            ApiError::TrialExpired(m) => Self::bracketed(
                "The trial period for the Subsonic server is over. Please upgrade to Subsonic Premium. Visit subsonic.org for details. (",
                m,
            ),
            ApiError::NotFound(m) => Self::bracketed("The requested data was not found. (", m),
            ApiError::MalformedApiResponse => String::from_str("Malformed API Response"),
            ApiError::SuspiciousRedirect => String::from_str(
                "The server returned a redirect, but the response could not be parsed. Check your base url; Navidrome does this if you have a bogus path there.",
            ),
        }
    }
}

/// Whether the server says that the request went well.
#[derive(Clone, Copy, Debug, PartialEq, Eq, Structural)]
pub enum ResponseStatus {
    Okay,
    Failed,
}

/// What every response says of the server and of the request's fate.
#[derive(Debug)]
pub struct RequestInfo {
    pub status: ResponseStatus,
    pub version: String,
    pub server_type: String,
    pub server_version: String,
}

/// The error that a response may carry.
#[derive(Debug)]
pub struct ResponseError {
    pub code: i32,
    pub message: Option<String>,
}

/// The body of a response: what the server says of itself, the payload that was asked for,
/// and the error, each of the two last where there is one.
#[derive(Debug)]
pub struct ResponseBody<T> {
    pub info: RequestInfo,
    pub payload: Option<T>,
    pub error: Option<ResponseError>,
}

/// A response as it comes over the wire.
#[derive(Debug)]
pub struct ResponseEnvelope<T> {
    pub body: ResponseBody<T>,
}

/// The message of an error of the server, empty where it sent none.
pub open spec fn message_or_empty(message: Option<String>) -> Seq<char> {
    match message {
        Some(m) => m@,
        None => Seq::empty(),
    }
}

impl<T> ResponseEnvelope<T> {
    /// Sorts a response: one that carries an error fails with the error that its code
    /// stands for, one without error and without payload is malformed, and any other is
    /// handed back as it came.
    pub fn check(self) -> (r: Result<ResponseEnvelope<T>, ApiError>)
        ensures
            match self.body.error {
                Some(e) => r matches Err(err) && err@ == error_for_code(
                    e.code,
                    message_or_empty(e.message),
                ),
                None => if self.body.payload is None {
                    r == Err::<ResponseEnvelope<T>, ApiError>(ApiError::MalformedApiResponse)
                } else {
                    r == Ok::<ResponseEnvelope<T>, ApiError>(self)
                },
            },
    {
        let ResponseEnvelope { body } = self;
        let ResponseBody { info, payload, error } = body;
        match error {
            Some(e) => {
                let message = match e.message {
                    Some(m) => m,
                    None => String::new(),
                };
                Err(ApiError::from_code(e.code, message))
            },
            None => match payload {
                None => Err(ApiError::MalformedApiResponse),
                Some(p) => Ok(
                    ResponseEnvelope { body: ResponseBody { info, payload: Some(p), error: None } },
                ),
            },
        }
    }

    /// The payload of a response that went well; the error of one that did not.
    pub fn into_payload(self) -> (r: Result<T, ApiError>)
        ensures
            match self.body.error {
                Some(e) => r matches Err(err) && err@ == error_for_code(
                    e.code,
                    message_or_empty(e.message),
                ),
                None => match self.body.payload {
                    None => r == Err::<T, ApiError>(ApiError::MalformedApiResponse),
                    Some(p) => r == Ok::<T, ApiError>(p),
                },
            },
    {
        match self.check() {
            Ok(envelope) => match envelope.body.payload {
                Some(p) => Ok(p),
                None => Err(ApiError::MalformedApiResponse),
            },
            Err(e) => Err(e),
        }
    }
}

/// The orders in which the catalog lists albums.
#[derive(Debug)]
pub enum AlbumListType {
    Random,
    Newest,
    Highest,
    Frequent,
    Recent,
    AlphabeticalByName,
    AlphabeticalByArtist,
    Starred,
    ByYear { from_year: u16, to_year: u16 },
    ByGenre { genre: String },
}

impl Clone for AlbumListType {
    fn clone(&self) -> (r: Self)
        ensures
            r == *self,
    {
        match self {
            AlbumListType::Random => AlbumListType::Random,
            AlbumListType::Newest => AlbumListType::Newest,
            AlbumListType::Highest => AlbumListType::Highest,
            AlbumListType::Frequent => AlbumListType::Frequent,
            AlbumListType::Recent => AlbumListType::Recent,
            AlbumListType::AlphabeticalByName => AlbumListType::AlphabeticalByName,
            AlbumListType::AlphabeticalByArtist => AlbumListType::AlphabeticalByArtist,
            AlbumListType::Starred => AlbumListType::Starred,
            AlbumListType::ByYear { from_year, to_year } => AlbumListType::ByYear {
                from_year: *from_year,
                to_year: *to_year,
            },
            AlbumListType::ByGenre { genre } => AlbumListType::ByGenre { genre: genre.clone() },
        }
    }
}

impl PartialEq for AlbumListType {
    fn eq(&self, other: &Self) -> (r: bool) {
        match (self, other) {
            (AlbumListType::Random, AlbumListType::Random) => true,
            (AlbumListType::Newest, AlbumListType::Newest) => true,
            (AlbumListType::Highest, AlbumListType::Highest) => true,
            (AlbumListType::Frequent, AlbumListType::Frequent) => true,
            (AlbumListType::Recent, AlbumListType::Recent) => true,
            (AlbumListType::AlphabeticalByName, AlbumListType::AlphabeticalByName) => true,
            (AlbumListType::AlphabeticalByArtist, AlbumListType::AlphabeticalByArtist) => true,
            (AlbumListType::Starred, AlbumListType::Starred) => true,
            (
                AlbumListType::ByYear { from_year: a, to_year: b },
                AlbumListType::ByYear { from_year: c, to_year: d },
            ) => *a == *c && *b == *d,
            (AlbumListType::ByGenre { genre: a }, AlbumListType::ByGenre { genre: b }) => *a == *b,
            _ => false,
        }
    }
}

impl PartialEqSpecImpl for AlbumListType {
    open spec fn obeys_eq_spec() -> bool {
        true
    }

    open spec fn eq_spec(&self, other: &Self) -> bool {
        same_order(*self, *other)
    }
}

impl Eq for AlbumListType {

}

/// Two orders are the same: the same kind, with the same years or the same genre.
pub open spec fn same_order(a: AlbumListType, b: AlbumListType) -> bool {
    match (a, b) {
        (AlbumListType::Random, AlbumListType::Random) => true,
        (AlbumListType::Newest, AlbumListType::Newest) => true,
        (AlbumListType::Highest, AlbumListType::Highest) => true,
        (AlbumListType::Frequent, AlbumListType::Frequent) => true,
        (AlbumListType::Recent, AlbumListType::Recent) => true,
        (AlbumListType::AlphabeticalByName, AlbumListType::AlphabeticalByName) => true,
        (AlbumListType::AlphabeticalByArtist, AlbumListType::AlphabeticalByArtist) => true,
        (AlbumListType::Starred, AlbumListType::Starred) => true,
        (
            AlbumListType::ByYear { from_year: a, to_year: b },
            AlbumListType::ByYear { from_year: c, to_year: d },
        ) => a == c && b == d,
        (AlbumListType::ByGenre { genre: a }, AlbumListType::ByGenre { genre: b }) => a@ == b@,
        _ => false,
    }
}

/// The value of the `type` parameter that asks for an order.
pub open spec fn param_name(t: AlbumListType) -> Seq<char> {
    match t {
        AlbumListType::Random => "random"@,
        AlbumListType::Newest => "newest"@,
        AlbumListType::Highest => "highest"@,
        AlbumListType::Frequent => "frequent"@,
        AlbumListType::Recent => "recent"@,
        AlbumListType::AlphabeticalByName => "alphabeticalByName"@,
        AlbumListType::AlphabeticalByArtist => "alphabeticalByArtist"@,
        AlbumListType::Starred => "starred"@,
        AlbumListType::ByYear { .. } => "byYear"@,
        AlbumListType::ByGenre { .. } => "byGenre"@,
    }
}

impl AlbumListType {
    /// The value of the `type` parameter that asks for this order.
    pub fn to_param_str(&self) -> (r: &'static str)
        ensures
            r@ == param_name(*self),
    {
        match self {
            AlbumListType::Random => "random",
            AlbumListType::Newest => "newest",
            AlbumListType::Highest => "highest",
            AlbumListType::Frequent => "frequent",
            AlbumListType::Recent => "recent",
            AlbumListType::AlphabeticalByName => "alphabeticalByName",
            AlbumListType::AlphabeticalByArtist => "alphabeticalByArtist",
            AlbumListType::Starred => "starred",
            AlbumListType::ByYear { .. } => "byYear",
            AlbumListType::ByGenre { .. } => "byGenre",
        }
    }

    /// Whether this is the random order.
    pub fn is_random(&self) -> (r: bool)
        ensures
            r == (*self is Random),
    {
        match self {
            AlbumListType::Random => true,
            _ => false,
        }
    }
}

/// The URL that a text parses to, if it parses.
pub uninterp spec fn parsed_url(text: Seq<char>) -> Option<url::Url>;

/// The URL with one more segment at the end of its path; none for a URL that cannot be a
/// base.
pub uninterp spec fn with_segment(url: url::Url, segment: Seq<char>) -> Option<url::Url>;

/// A URL written out.
pub uninterp spec fn url_string(url: url::Url) -> Seq<char>;

/// Calls `Url::parse`. Trusted: the outcome depends on the text alone.
#[verifier::external_body]
fn parse_url(text: &str) -> (r: Option<url::Url>)
    ensures
        r == parsed_url(text@),
{
    url::Url::parse(text).ok()
}

/// The most bytes that one more path segment can add to a URL: the segment encoded, and the
/// slashes around it.
pub open spec fn segment_growth(segment: Seq<char>) -> nat {
    encoded_bytes(segment) + 4
}

/// Copies the URL and calls `Url::path_segments_mut` and `PathSegmentsMut::push` on the
/// copy. The crate keeps positions in a URL as `u32` and gives up on a URL that is longer,
/// so the call is made only where the URL stays within that. Trusted: the outcome depends on
/// the URL and the segment alone, there is none exactly when `path_segments_mut` fails, and
/// the URL grows by slashes and three bytes at most for each byte of the segment.
#[verifier::external_body]
fn push_segment(base: &url::Url, segment: &str) -> (r: Option<url::Url>)
    requires
        url_byte_len(*base) + segment_growth(segment@) <= MAX_URL_LEN,
    ensures
        r == with_segment(*base, segment@),
        r matches Some(url) ==> url_byte_len(url) <= url_byte_len(*base) + segment_growth(
            segment@,
        ),
{
    let mut url = base.clone();
    match url.path_segments_mut() {
        Ok(mut segments) => {
            segments.push(segment);
        },
        Err(()) => {
            return None;
        },
    }
    Some(url)
}

/// Calls `Url::as_str` and copies what it gives. Trusted: the text depends on the URL alone.
#[verifier::external_body]
pub(crate) fn url_to_string(url: &url::Url) -> (r: String)
    ensures
        r@ == url_string(*url),
{
    url.as_str().to_owned()
}

/// One pair where a value is given, none where it is not.
pub open spec fn optional_pair(key: Seq<char>, value: Option<Seq<char>>) -> Seq<
    (Seq<char>, Seq<char>),
> {
    match value {
        Some(v) => seq![(key, v)],
        None => Seq::empty(),
    }
}

/// A number where one is given, written in decimal.
pub open spec fn optional_decimal(n: Option<usize>) -> Option<Seq<char>> {
    match n {
        Some(n) => Some(decimal_text(n as nat)),
        None => None,
    }
}

/// A truth value where one is given, written out.
pub open spec fn optional_bool(b: Option<bool>) -> Option<Seq<char>> {
    match b {
        Some(b) => Some(bool_text(b)),
        None => None,
    }
}

/// A text where one is given.
pub open spec fn optional_text(s: Option<&str>) -> Option<Seq<char>> {
    match s {
        Some(s) => Some(s@),
        None => None,
    }
}

/// The pairs that ask for the cover art `id`, scaled to `size` where one is given.
pub open spec fn cover_art_query(id: Seq<char>, size: Option<usize>) -> Seq<
    (Seq<char>, Seq<char>),
> {
    seq![("id"@, id)] + optional_pair("size"@, optional_decimal(size))
}

/// The pairs that ask for the stream of the track `id`.
pub open spec fn stream_query(
    id: Seq<char>,
    max_bit_rate: Option<usize>,
    format: Option<&str>,
    time_offset: Option<usize>,
    estimate_content_length: Option<bool>,
    converted: Option<bool>,
) -> Seq<(Seq<char>, Seq<char>)> {
    seq![("id"@, id)] + optional_pair("max_bit_rate"@, optional_decimal(max_bit_rate))
        + optional_pair("format"@, optional_text(format)) + optional_pair(
        "time_offset"@,
        optional_decimal(time_offset),
    ) + optional_pair("estimate_content_length"@, optional_bool(estimate_content_length))
        + optional_pair("converted"@, optional_bool(converted))
}

/// The pairs of an order that takes more than its name: the years of `ByYear`, the genre
/// of `ByGenre`.
pub open spec fn list_type_query(list_type: AlbumListType) -> Seq<(Seq<char>, Seq<char>)> {
    match list_type {
        AlbumListType::ByYear { from_year, to_year } => seq![
            ("fromYear"@, decimal_text(from_year as nat)),
            ("toYear"@, decimal_text(to_year as nat)),
        ],
        AlbumListType::ByGenre { genre } => seq![("genre"@, genre@)],
        _ => Seq::empty(),
    }
}

/// The pairs that ask for a window of the album list.
pub open spec fn album_list_query(
    list_type: AlbumListType,
    size: Option<usize>,
    offset: Option<usize>,
    music_folder_id: Option<&str>,
) -> Seq<(Seq<char>, Seq<char>)> {
    seq![("type"@, param_name(list_type))] + list_type_query(list_type) + optional_pair(
        "size"@,
        optional_decimal(size),
    ) + optional_pair("offset"@, optional_decimal(offset)) + optional_pair(
        "music_folder_id"@,
        optional_text(music_folder_id),
    )
}

/// Adds the pair of a number that may be given.
fn push_number(pairs: &mut Vec<(&'static str, String)>, key: &'static str, value: Option<usize>)
    ensures
        pairs_text(final(pairs)@) == pairs_text(old(pairs)@) + optional_pair(
            key@,
            optional_decimal(value),
        ),
{
    if let Some(n) = value {
        pairs.push((key, decimal(n)));
    }
    assert(pairs_text(pairs@) =~= pairs_text(old(pairs)@) + optional_pair(
        key@,
        optional_decimal(value),
    ));
}

/// Adds the pair of a truth value that may be given.
fn push_bool(pairs: &mut Vec<(&'static str, String)>, key: &'static str, value: Option<bool>)
    ensures
        pairs_text(final(pairs)@) == pairs_text(old(pairs)@) + optional_pair(
            key@,
            optional_bool(value),
        ),
{
    if let Some(b) = value {
        pairs.push((key, bool_string(b)));
    }
    assert(pairs_text(pairs@) =~= pairs_text(old(pairs)@) + optional_pair(
        key@,
        optional_bool(value),
    ));
}

/// Adds the pair of a text that may be given.
fn push_text(pairs: &mut Vec<(&'static str, String)>, key: &'static str, value: Option<&str>)
    ensures
        pairs_text(final(pairs)@) == pairs_text(old(pairs)@) + optional_pair(
            key@,
            optional_text(value),
        ),
{
    if let Some(s) = value {
        pairs.push((key, s.to_owned()));
    }
    assert(pairs_text(pairs@) =~= pairs_text(old(pairs)@) + optional_pair(
        key@,
        optional_text(value),
    ));
}

/// The pairs that ask for the cover art `id`.
pub fn cover_art_params(id: &str, size: Option<usize>) -> (r: Vec<(&'static str, String)>)
    ensures
        pairs_text(r@) == cover_art_query(id@, size),
{
    let mut pairs: Vec<(&'static str, String)> = Vec::new();
    pairs.push(("id", id.to_owned()));
    assert(pairs_text(pairs@) =~= seq![("id"@, id@)]);
    push_number(&mut pairs, "size", size);
    pairs
}

/// The pairs that ask for the stream of the track `id`.
pub fn stream_params(
    id: &str,
    max_bit_rate: Option<usize>,
    format: Option<&str>,
    time_offset: Option<usize>,
    estimate_content_length: Option<bool>,
    converted: Option<bool>,
) -> (r: Vec<(&'static str, String)>)
    ensures
        pairs_text(r@) == stream_query(
            id@,
            max_bit_rate,
            format,
            time_offset,
            estimate_content_length,
            converted,
        ),
{
    let mut pairs: Vec<(&'static str, String)> = Vec::new();
    pairs.push(("id", id.to_owned()));
    assert(pairs_text(pairs@) =~= seq![("id"@, id@)]);
    push_number(&mut pairs, "max_bit_rate", max_bit_rate);
    push_text(&mut pairs, "format", format);
    push_number(&mut pairs, "time_offset", time_offset);
    push_bool(&mut pairs, "estimate_content_length", estimate_content_length);
    push_bool(&mut pairs, "converted", converted);
    pairs
}

/// The pairs that ask for a window of the album list.
pub fn album_list_params(
    list_type: &AlbumListType,
    size: Option<usize>,
    offset: Option<usize>,
    music_folder_id: Option<&str>,
) -> (r: Vec<(&'static str, String)>)
    ensures
        pairs_text(r@) == album_list_query(*list_type, size, offset, music_folder_id),
{
    let mut pairs: Vec<(&'static str, String)> = Vec::new();
    pairs.push(("type", list_type.to_param_str().to_owned()));
    match list_type {
        AlbumListType::ByYear { from_year, to_year } => {
            pairs.push(("fromYear", decimal(*from_year as usize)));
            pairs.push(("toYear", decimal(*to_year as usize)));
        },
        AlbumListType::ByGenre { genre } => {
            pairs.push(("genre", genre.clone()));
        },
        _ => {},
    }
    assert(pairs_text(pairs@) =~= seq![("type"@, param_name(*list_type))] + list_type_query(
        *list_type,
    ));
    push_number(&mut pairs, "size", size);
    push_number(&mut pairs, "offset", offset);
    push_text(&mut pairs, "music_folder_id", music_folder_id);
    pairs
}

/// What the client needs to write the URL of a request: who asks, and where the server is.
pub struct Client {
    auth: SubsonicAuth,
    base_url: url::Url,
}

impl Client {
    /// Who asks.
    pub closed spec fn auth(&self) -> SubsonicAuth {
        self.auth
    }

    /// Where the server is.
    pub closed spec fn base_url(&self) -> url::Url {
        self.base_url
    }

    /// Whether a request to `endpoint` with these pairs, signed with `salt`, has the URL
    /// `url`.
    pub open spec fn is_request_url(
        &self,
        endpoint: Seq<char>,
        args: Seq<(Seq<char>, Seq<char>)>,
        salt: Seq<char>,
        url: url::Url,
    ) -> bool {
        &&& is_salt(salt)
        &&& self.segment_fits(endpoint)
        &&& with_segment(self.base_url(), endpoint) is Some
        &&& pairs_fit(
            with_segment(self.base_url(), endpoint).unwrap(),
            auth_pairs(self.auth().user(), self.auth().password(), salt) + args,
        )
        &&& url == with_pairs(
            with_segment(self.base_url(), endpoint).unwrap(),
            auth_pairs(self.auth().user(), self.auth().password(), salt) + args,
        )
    }

    /// The base URL has room for `endpoint` as another path segment.
    pub open spec fn segment_fits(&self, endpoint: Seq<char>) -> bool {
        url_byte_len(self.base_url()) + segment_growth(endpoint) <= MAX_URL_LEN
    }

    /// The base URL takes `endpoint` as another path segment, but has then no room for the
    /// signature with the salt `salt` and these pairs.
    pub open spec fn query_too_long(
        &self,
        endpoint: Seq<char>,
        args: Seq<(Seq<char>, Seq<char>)>,
        salt: Seq<char>,
    ) -> bool {
        &&& is_salt(salt)
        &&& self.segment_fits(endpoint)
        &&& with_segment(self.base_url(), endpoint) is Some
        &&& !pairs_fit(
            with_segment(self.base_url(), endpoint).unwrap(),
            auth_pairs(self.auth().user(), self.auth().password(), salt) + args,
        )
    }

    /// Writing the URL of a request to `endpoint` with these pairs fails with `e`: the URL
    /// would be too long, with the endpoint or with the signature of some new salt and the
    /// pairs; or there is room, but the base URL takes no path.
    pub open spec fn request_fails(
        &self,
        endpoint: Seq<char>,
        args: Seq<(Seq<char>, Seq<char>)>,
        e: ApiError,
    ) -> bool {
        match e {
            ApiError::UrlTooLong => !self.segment_fits(endpoint) || exists|salt: Seq<char>|
             #[trigger]
                self.query_too_long(endpoint, args, salt),
            ApiError::UrlCannotBeABaseUrl => self.segment_fits(endpoint) && with_segment(
                self.base_url(),
                endpoint,
            ) is None,
            _ => false,
        }
    }

    /// The outcome of writing the URL of a request to `endpoint` with these pairs: it gives
    /// the base with the endpoint as another path segment and, in the query, the signature
    /// with some new salt and then the pairs; or it fails, for a URL that would be too long
    /// and for a base URL that takes no path.
    pub open spec fn request_url_written(
        &self,
        endpoint: Seq<char>,
        args: Seq<(Seq<char>, Seq<char>)>,
        r: Result<url::Url, ApiError>,
    ) -> bool {
        match r {
            Ok(url) => exists|salt: Seq<char>| #[trigger]
                self.is_request_url(endpoint, args, salt, url),
            Err(e) => self.request_fails(endpoint, args, e),
        }
    }

    /// A client for the server at `base_url`, which has to be a URL.
    pub fn new(auth: SubsonicAuth, base_url: &str) -> (r: Client)
        requires
            parsed_url(base_url@) is Some,
        ensures
            r.auth() == auth,
            Some(r.base_url()) == parsed_url(base_url@),
    {
        match parse_url(base_url) {
            Some(url) => Client { auth, base_url: url },
            None => vstd::pervasive::unreached(),
        }
    }

    /// A client for the server at `base_url`; none where that is no URL.
    pub fn try_new(auth: SubsonicAuth, base_url: &str) -> (r: Option<Client>)
        ensures
            r is Some == parsed_url(base_url@) is Some,
            r matches Some(client) ==> client.auth() == auth && Some(client.base_url())
                == parsed_url(base_url@),
    {
        match parse_url(base_url) {
            Some(_) => Some(Client::new(auth, base_url)),
            None => None,
        }
    }

    /// Writes the URL of a request to `endpoint` with the pairs `args`.
    pub fn build_req_url(&self, endpoint: &str, args: &Vec<(&'static str, String)>) -> (r: Result<
        url::Url,
        ApiError,
    >)
        ensures
            self.request_url_written(endpoint@, pairs_text(args@), r),
    {
        let base_len = url_len(&self.base_url);
        let endpoint_len = endpoint.as_bytes().len();
        if base_len as u64 > MAX_URL_LEN || endpoint_len as u64 > MAX_URL_LEN {
            return Err(ApiError::UrlTooLong);
        }
        if 3 * (endpoint_len as u64) + 4 > MAX_URL_LEN - base_len as u64 {
            return Err(ApiError::UrlTooLong);
        }
        let mut url = match push_segment(&self.base_url, endpoint) {
            Some(url) => url,
            None => {
                return Err(ApiError::UrlCannotBeABaseUrl);
            },
        };
        let ghost with_endpoint = url;
        let salt = SubsonicAuth::fresh_salt();
        let signature = self.auth.query_pairs(salt.as_str());
        proof {
            lemma_growth_adds(pairs_text(signature@), pairs_text(args@));
        }
        let room = MAX_URL_LEN - url_len(&url) as u64;
        let fits = match room_after(room, &signature) {
            Some(left) => room_after(left, args).is_some(),
            None => false,
        };
        if !fits {
            assert(self.query_too_long(endpoint@, pairs_text(args@), salt@));
            return Err(ApiError::UrlTooLong);
        }
        append_all(&mut url, &signature);
        append_all(&mut url, args);
        proof {
            lemma_with_pairs_add(with_endpoint, pairs_text(signature@), pairs_text(args@));
            assert(self.is_request_url(endpoint@, pairs_text(args@), salt@, url));
            assert(exists|s: Seq<char>| #[trigger]
                self.is_request_url(endpoint@, pairs_text(args@), s, url));
            let ghost written: Result<url::Url, ApiError> = Ok(url);
            assert(written matches Ok(u) && u == url);
            assert(match written {
                Ok(u) => exists|s: Seq<char>| #[trigger]
                    self.is_request_url(endpoint@, pairs_text(args@), s, u),
                Err(e) => false,
            });
        }
        Ok(url)
    }

    /// The URL that gives the cover art `id`, scaled to `size` where one is given.
    pub fn cover_art_url(&self, id: &str, size: Option<usize>) -> (r: Result<url::Url, ApiError>)
        ensures
            self.request_url_written("getCoverArt"@, cover_art_query(id@, size), r),
    {
        let params = cover_art_params(id, size);
        self.build_req_url("getCoverArt", &params)
    }

    /// The URL that gives the stream of the track `id`.
    pub fn stream_url(
        &self,
        id: &str,
        max_bit_rate: Option<usize>,
        format: Option<&str>,
        time_offset: Option<usize>,
        estimate_content_length: Option<bool>,
        converted: Option<bool>,
    ) -> (r: Result<url::Url, ApiError>)
        ensures
            self.request_url_written(
                "stream"@,
                stream_query(
                    id@,
                    max_bit_rate,
                    format,
                    time_offset,
                    estimate_content_length,
                    converted,
                ),
                r,
            ),
    {
        let params = stream_params(
            id,
            max_bit_rate,
            format,
            time_offset,
            estimate_content_length,
            converted,
        );
        self.build_req_url("stream", &params)
    }
}

/// Appending two runs of pairs one after the other is appending them joined.
pub proof fn lemma_with_pairs_add(
    url: url::Url,
    first: Seq<(Seq<char>, Seq<char>)>,
    second: Seq<(Seq<char>, Seq<char>)>,
)
    ensures
        with_pairs(with_pairs(url, first), second) == with_pairs(url, first + second),
    decreases second.len(),
{
    if second.len() == 0 {
        assert(first + second =~= first);
    } else {
        lemma_with_pairs_add(url, first, second.drop_last());
        assert((first + second).drop_last() =~= first + second.drop_last());
    }
}

/// The kinds of media that the catalog holds.
#[derive(Clone, Copy, Debug, PartialEq, Eq, Structural)]
pub enum MediaType {
    Music,
    Podcast,
    Audiobook,
    Video,
}

/// An album as the catalog describes it by its tags.
#[derive(Debug)]
pub struct AlbumId3 {
    pub id: String,
    pub name: String,
    pub artist: Option<String>,
    pub artist_id: Option<String>,
    pub cover_art: Option<String>,
    pub song_count: Option<i32>,
    pub duration: Option<i32>,
    pub play_count: Option<i32>,
    pub created: Option<String>,
    pub starred: Option<String>,
    pub year: Option<i32>,
    pub genre: Option<String>,
}

/// One entry of a directory or of a list: a song, an album or a folder. The average of its
/// ratings is left to the wire format.
#[derive(Debug)]
pub struct Child {
    pub id: String,
    pub parent: Option<String>,
    pub is_dir: bool,
    pub title: String,
    pub album: Option<String>,
    pub artist: Option<String>,
    pub track: Option<i32>,
    pub year: Option<i32>,
    pub genre: Option<String>,
    pub cover_art: Option<String>,
    pub size: Option<i64>,
    pub content_type: Option<String>,
    pub suffix: Option<String>,
    pub transcoded_content_type: Option<String>,
    pub transcoded_soffix: Option<String>,
    pub duration: Option<i32>,
    pub bit_rate: Option<i32>,
    pub is_video: Option<bool>,
    pub user_rating: Option<u8>,
    pub play_count: Option<i64>,
    pub disc_number: Option<i32>,
    pub created: Option<String>,
    pub starred: Option<String>,
    pub album_id: Option<String>,
    pub artist_id: Option<String>,
    pub media_type: Option<MediaType>,
    pub bookmark_position: Option<i64>,
    pub original_width: Option<i32>,
    pub original_height: Option<i32>,
}

/// An album with its songs.
#[derive(Debug)]
pub struct AlbumWithSongsId3 {
    pub album_id3: AlbumId3,
    pub songs: Vec<Child>,
}

/// The answer to a ping: nothing beyond what every response says.
#[derive(Debug)]
pub struct PingBody {}

/// The answer to the question for the licence.
#[derive(Debug)]
pub struct GetLicenseBody {
    pub license: License,
}

/// The server's licence.
#[derive(Debug)]
pub struct License {
    pub valid: bool,
    pub email: Option<String>,
    pub license_expires: Option<String>,
    pub trial_expires: Option<String>,
}

/// A top-level folder of the catalog.
#[derive(Debug)]
pub struct MusicFolder {
    pub id: i64,
    pub name: String,
}

/// A genre, with the number of songs and albums that it holds.
#[derive(Debug)]
pub struct Genre {
    pub song_count: i64,
    pub album_count: i64,
    pub name: String,
}

/// An artist as the catalog describes it by its tags.
#[derive(Debug)]
pub struct ArtistId3 {
    pub id: String,
    pub name: String,
    pub cover_art: Option<String>,
    pub artist_image_url: Option<String>,
    pub album_count: Option<i32>,
    pub starred: Option<String>,
}

/// An artist with its albums.
#[derive(Debug)]
pub struct ArtistWithAlbumsId3 {
    pub artist_id3: ArtistId3,
    pub albums: Vec<AlbumId3>,
}

/// What is told of an artist beyond the tags.
#[derive(Debug)]
pub struct ArtistInfoBase {
    pub biography: Option<String>,
    pub music_brainz_id: Option<String>,
    pub last_fm_url: Option<String>,
    pub small_image_url: Option<String>,
    pub medium_image_url: Option<String>,
    pub large_image_url: Option<String>,
}

/// What is told of an artist, with the artists that are similar.
#[derive(Debug)]
pub struct ArtistInfo2 {
    pub base: ArtistInfoBase,
    pub similar_artists: Vec<ArtistId3>,
}

/// What is told of an album beyond the tags.
#[derive(Debug)]
pub struct AlbumInfo {
    pub notes: Option<String>,
    pub music_brainz_id: Option<String>,
    pub last_fm_url: Option<String>,
    pub small_image_url: Option<String>,
    pub medium_image_url: Option<String>,
    pub large_image_url: Option<String>,
}

} // verus!
