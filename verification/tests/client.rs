use tinysonic::auth::append_pairs;
use tinysonic::auth::room_after;
use tinysonic::auth::SubsonicAuth;
use tinysonic::auth::MAX_URL_LEN;
use tinysonic::auth::SALT_SIZE;
use tinysonic::subsonic_client::album_list_params;
use tinysonic::subsonic_client::cover_art_params;
use tinysonic::subsonic_client::stream_params;
use tinysonic::subsonic_client::AlbumListType;
use tinysonic::subsonic_client::ApiError;
use tinysonic::subsonic_client::Client;
use tinysonic::subsonic_client::RequestInfo;
use tinysonic::subsonic_client::ResponseBody;
use tinysonic::subsonic_client::ResponseEnvelope;
use tinysonic::subsonic_client::ResponseError;
use tinysonic::subsonic_client::ResponseStatus;
use tinysonic::subsonic_client::STATUS_FOUND;
use tinysonic::text::bool_string;
use tinysonic::text::decimal;
use tinysonic::text::same_text;

fn owned(pairs: Vec<(&'static str, String)>) -> Vec<(String, String)> {
    pairs.into_iter().map(|(k, v)| (k.to_string(), v)).collect()
}

fn pair(k: &str, v: &str) -> (String, String) {
    (k.to_string(), v.to_string())
}

fn query(url: &url::Url) -> Vec<(String, String)> {
    url.query_pairs().map(|(k, v)| (k.into_owned(), v.into_owned())).collect()
}

fn info(status: ResponseStatus) -> RequestInfo {
    RequestInfo {
        status,
        version: "1.16.1".to_string(),
        server_type: "navidrome".to_string(),
        server_version: "0.49".to_string(),
    }
}

fn envelope(payload: Option<u32>, error: Option<ResponseError>) -> ResponseEnvelope<u32> {
    let status = if error.is_some() { ResponseStatus::Failed } else { ResponseStatus::Okay };
    ResponseEnvelope { body: ResponseBody { info: info(status), payload, error } }
}

fn failure(code: i32, message: Option<&str>) -> ApiError {
    let error = ResponseError { code, message: message.map(|m| m.to_string()) };
    match envelope(Some(1), Some(error)).check() {
        Err(e) => e,
        Ok(_) => panic!("a response with an error must fail"),
    }
}

#[test]
fn decimal_writes_numbers() {
    assert_eq!(decimal(0), "0");
    assert_eq!(decimal(7), "7");
    assert_eq!(decimal(10), "10");
    assert_eq!(decimal(200), "200");
    assert_eq!(decimal(1234567890), "1234567890");
    assert_eq!(decimal(usize::MAX), usize::MAX.to_string());
    assert_eq!(bool_string(true), "true");
    assert_eq!(bool_string(false), "false");
    assert!(same_text("random", "random"));
    assert!(same_text("", ""));
    assert!(!same_text("random", "Random"));
    assert!(!same_text("random", "rando"));
}

#[test]
fn album_list_types_have_their_parameter() {
    assert_eq!(AlbumListType::Random.to_param_str(), "random");
    assert_eq!(AlbumListType::Newest.to_param_str(), "newest");
    assert_eq!(AlbumListType::Highest.to_param_str(), "highest");
    assert_eq!(AlbumListType::Frequent.to_param_str(), "frequent");
    assert_eq!(AlbumListType::Recent.to_param_str(), "recent");
    assert_eq!(AlbumListType::AlphabeticalByName.to_param_str(), "alphabeticalByName");
    assert_eq!(AlbumListType::AlphabeticalByArtist.to_param_str(), "alphabeticalByArtist");
    assert_eq!(AlbumListType::Starred.to_param_str(), "starred");
    assert_eq!(AlbumListType::ByYear { from_year: 1990, to_year: 1999 }.to_param_str(), "byYear");
    assert_eq!(AlbumListType::ByGenre { genre: "jazz".to_string() }.to_param_str(), "byGenre");
    assert!(AlbumListType::Random.is_random());
    assert!(!AlbumListType::Starred.is_random());
}

#[test]
fn album_list_types_compare() {
    assert!(AlbumListType::Random == AlbumListType::Random.clone());
    assert!(AlbumListType::Random != AlbumListType::Newest);
    let jazz = AlbumListType::ByGenre { genre: "jazz".to_string() };
    assert!(jazz == jazz.clone());
    assert!(jazz != AlbumListType::ByGenre { genre: "rock".to_string() });
    let nineties = AlbumListType::ByYear { from_year: 1990, to_year: 1999 };
    assert!(nineties == nineties.clone());
    assert!(nineties != AlbumListType::ByYear { from_year: 1990, to_year: 2000 });
}

#[test]
fn album_list_params_in_order() {
    assert_eq!(
        owned(album_list_params(&AlbumListType::Random, Some(18), Some(0), None)),
        vec![pair("type", "random"), pair("size", "18"), pair("offset", "0")]
    );
    assert_eq!(
        owned(album_list_params(
            &AlbumListType::ByYear { from_year: 1990, to_year: 1999 },
            None,
            Some(300),
            Some("folder")
        )),
        vec![
            pair("type", "byYear"),
            pair("fromYear", "1990"),
            pair("toYear", "1999"),
            pair("offset", "300"),
            pair("music_folder_id", "folder")
        ]
    );
    assert_eq!(
        owned(album_list_params(
            &AlbumListType::ByGenre { genre: "jazz".to_string() },
            None,
            None,
            None
        )),
        vec![pair("type", "byGenre"), pair("genre", "jazz")]
    );
}

#[test]
fn cover_art_and_stream_params_in_order() {
    assert_eq!(owned(cover_art_params("al-1", None)), vec![pair("id", "al-1")]);
    assert_eq!(
        owned(cover_art_params("al-1", Some(200))),
        vec![pair("id", "al-1"), pair("size", "200")]
    );
    assert_eq!(owned(stream_params("t1", None, None, None, None, None)), vec![pair("id", "t1")]);
    assert_eq!(
        owned(stream_params("t1", Some(320), Some("mp3"), Some(12), Some(true), Some(false))),
        vec![
            pair("id", "t1"),
            pair("max_bit_rate", "320"),
            pair("format", "mp3"),
            pair("time_offset", "12"),
            pair("estimate_content_length", "true"),
            pair("converted", "false")
        ]
    );
}

#[test]
fn every_error_code_has_its_error() {
    assert!(matches!(failure(0, Some("m")), ApiError::Generic(m) if m == "m"));
    assert!(matches!(failure(10, Some("m")), ApiError::RequiredParameterMissing(m) if m == "m"));
    assert!(matches!(failure(20, Some("m")), ApiError::ClientMustUpgrade(m) if m == "m"));
    assert!(matches!(failure(30, Some("m")), ApiError::ServerMustUpgrade(m) if m == "m"));
    assert!(matches!(failure(40, Some("m")), ApiError::WrongUsernameOrPassword(m) if m == "m"));
    assert!(matches!(failure(41, Some("m")), ApiError::NoTokenAuthForLdap(m) if m == "m"));
    assert!(matches!(failure(50, Some("m")), ApiError::UserNotAuthorized(m) if m == "m"));
    assert!(matches!(failure(60, Some("m")), ApiError::TrialExpired(m) if m == "m"));
    assert!(matches!(failure(70, Some("m")), ApiError::NotFound(m) if m == "m"));
    assert!(matches!(failure(71, Some("m")), ApiError::Generic(m) if m == "m"));
    assert!(matches!(failure(-1, None), ApiError::Generic(m) if m.is_empty()));
    assert!(matches!(failure(40, None), ApiError::WrongUsernameOrPassword(m) if m.is_empty()));
    assert!(matches!(ApiError::from_code(70, "gone".to_string()), ApiError::NotFound(m) if m == "gone"));
}

#[test]
fn responses_are_sorted() {
    match envelope(Some(5), None).check() {
        Ok(e) => {
            assert_eq!(e.body.payload, Some(5));
            assert_eq!(e.body.info.status, ResponseStatus::Okay);
            assert_eq!(e.body.info.server_type, "navidrome");
            assert!(e.body.error.is_none());
        }
        Err(_) => panic!("a response with a payload and no error is fine"),
    }
    assert!(matches!(envelope(None, None).check(), Err(ApiError::MalformedApiResponse)));
    assert!(matches!(envelope(Some(5), None).into_payload(), Ok(5)));
    assert!(matches!(envelope(None, None).into_payload(), Err(ApiError::MalformedApiResponse)));
    let error = ResponseError { code: 70, message: Some("no such album".to_string()) };
    assert!(matches!(
        envelope(None, Some(error)).into_payload(),
        Err(ApiError::NotFound(m)) if m == "no such album"
    ));
}

#[test]
fn errors_have_their_text() {
    assert_eq!(
        ApiError::UrlCannotBeABaseUrl.message(),
        "The configured url is not a valid base url"
    );
    assert_eq!(ApiError::Generic("plain".to_string()).message(), "plain");
    assert_eq!(
        ApiError::RequiredParameterMissing("id".to_string()).message(),
        "Required Parameter is missing. (id)"
    );
    assert_eq!(
        ApiError::ClientMustUpgrade("x".to_string()).message(),
        "Incompatible Subsonic REST protocol version. Client must upgrade. (x)"
    );
    assert_eq!(
        ApiError::ServerMustUpgrade("x".to_string()).message(),
        "Incompatible Subsonic REST protocol version. Server must upgrade. (x)"
    );
    assert_eq!(
        ApiError::WrongUsernameOrPassword("x".to_string()).message(),
        "Wrong username or password. (x)"
    );
    assert_eq!(
        ApiError::NoTokenAuthForLdap("x".to_string()).message(),
        "Token authentication not supported for LDAP users. (x)"
    );
    assert_eq!(
        ApiError::UserNotAuthorized("x".to_string()).message(),
        "User is not authorized for the given operation. (x)"
    );
    assert_eq!(
        ApiError::TrialExpired("x".to_string()).message(),
        "The trial period for the Subsonic server is over. Please upgrade to Subsonic Premium. Visit subsonic.org for details. (x)"
    );
    assert_eq!(
        ApiError::NotFound("x".to_string()).message(),
        "The requested data was not found. (x)"
    );
    assert_eq!(ApiError::MalformedApiResponse.message(), "Malformed API Response");
    assert_eq!(
        ApiError::SuspiciousRedirect.message(),
        "The server returned a redirect, but the response could not be parsed. Check your base url; Navidrome does this if you have a bogus path there."
    );
}

#[test]
fn a_salt_is_thirty_six_letters_and_digits() {
    assert_eq!(SALT_SIZE, 36);
    let salt = SubsonicAuth::fresh_salt();
    assert_eq!(salt.chars().count(), 36);
    assert!(salt.chars().all(|c| c.is_ascii_alphanumeric()));
    assert_ne!(salt, SubsonicAuth::fresh_salt());
}

#[test]
fn the_signature_holds_the_digest_of_password_and_salt() {
    let auth = SubsonicAuth::new("user", "sesame");
    let pairs = owned(auth.query_pairs("c19b2d"));
    assert_eq!(
        pairs,
        vec![
            pair("u", "user"),
            pair("t", "26719a1196d2a940705a59634eb18eab"),
            pair("s", "c19b2d"),
            pair("v", "1.16.1"),
            pair("c", "subsonic-client"),
            pair("f", "json")
        ]
    );
    let expected = format!("{:x}", md5::compute("sesamec19b2d".as_bytes()));
    assert_eq!(pairs[1].1, expected);
}

#[test]
fn signing_appends_to_the_query() {
    let auth = SubsonicAuth::new("user", "secret");
    let mut url = url::Url::parse("http://host/rest/ping?x=1").unwrap();
    assert!(auth.add_to_query_pairs(&mut url));
    let pairs = query(&url);
    assert_eq!(pairs.len(), 7);
    assert_eq!(pairs[0], pair("x", "1"));
    assert_eq!(pairs[1], pair("u", "user"));
    assert_eq!(pairs[2].0, "t");
    assert_eq!(pairs[3].0, "s");
    assert_eq!(pairs[3].1.len(), 36);
    assert_eq!(pairs[2].1, format!("{:x}", md5::compute(format!("secret{}", pairs[3].1))));
    assert_eq!(pairs[4], pair("v", "1.16.1"));
    assert_eq!(pairs[5], pair("c", "subsonic-client"));
    assert_eq!(pairs[6], pair("f", "json"));
    assert_eq!(url.path(), "/rest/ping");
}

#[test]
fn a_client_needs_a_url() {
    assert!(Client::try_new(SubsonicAuth::new("u", "p"), "not a url").is_none());
    assert!(Client::try_new(SubsonicAuth::new("u", "p"), "").is_none());
    assert!(Client::try_new(SubsonicAuth::new("u", "p"), "http://host/rest").is_some());
    let client = Client::new(SubsonicAuth::new("u", "p"), "http://host/rest");
    assert!(client.build_req_url("ping", &vec![]).is_ok());
}

#[test]
fn request_urls_hold_endpoint_signature_and_arguments() {
    let client = Client::new(SubsonicAuth::new("user", "secret"), "http://host:4533/rest");
    let url = client.build_req_url("getAlbum", &vec![("id", "al 1&2".to_string())]).unwrap();
    assert_eq!(url.scheme(), "http");
    assert_eq!(url.host_str(), Some("host"));
    assert_eq!(url.port(), Some(4533));
    assert_eq!(url.path(), "/rest/getAlbum");
    let pairs = query(&url);
    assert_eq!(pairs.len(), 7);
    assert_eq!(pairs[0], pair("u", "user"));
    assert_eq!(pairs[1].1, format!("{:x}", md5::compute(format!("secret{}", pairs[2].1))));
    assert_eq!(pairs[6], pair("id", "al 1&2"));
    assert!(url.as_str().ends_with("&v=1.16.1&c=subsonic-client&f=json&id=al+1%262"));
}

#[test]
fn cover_art_and_stream_urls() {
    let client = Client::new(SubsonicAuth::new("user", "secret"), "http://host/rest");
    let cover = client.cover_art_url("al-1", Some(200)).unwrap();
    assert_eq!(cover.path(), "/rest/getCoverArt");
    assert_eq!(query(&cover)[6..].to_vec(), vec![pair("id", "al-1"), pair("size", "200")]);
    let cover = client.cover_art_url("al-1", None).unwrap();
    assert_eq!(query(&cover)[6..].to_vec(), vec![pair("id", "al-1")]);
    let stream = client.stream_url("t1", Some(128), None, None, None, Some(true)).unwrap();
    assert_eq!(stream.path(), "/rest/stream");
    assert_eq!(
        query(&stream)[6..].to_vec(),
        vec![pair("id", "t1"), pair("max_bit_rate", "128"), pair("converted", "true")]
    );
}

#[test]
fn a_base_url_without_path_cannot_take_requests() {
    let client = Client::new(SubsonicAuth::new("user", "secret"), "mailto:someone@example.com");
    assert!(matches!(client.build_req_url("ping", &vec![]), Err(ApiError::UrlCannotBeABaseUrl)));
    assert!(matches!(client.cover_art_url("a", None), Err(ApiError::UrlCannotBeABaseUrl)));
    assert!(matches!(
        client.stream_url("a", None, None, None, None, None),
        Err(ApiError::UrlCannotBeABaseUrl)
    ));
}

fn transfer_failure() -> reqwest::Error {
    match reqwest::Client::new().get("no url").build() {
        Err(e) => e,
        Ok(_) => panic!("a request needs a url"),
    }
}

#[test]
fn an_unreadable_body_after_a_redirect_is_suspicious() {
    assert_eq!(STATUS_FOUND, 302);
    assert!(matches!(
        ApiError::from_unreadable_body(302, transfer_failure()),
        ApiError::SuspiciousRedirect
    ));
    assert!(matches!(
        ApiError::from_unreadable_body(200, transfer_failure()),
        ApiError::RequestError(_)
    ));
    assert!(matches!(
        ApiError::from_unreadable_body(301, transfer_failure()),
        ApiError::RequestError(_)
    ));
    assert_eq!(ApiError::RequestError(transfer_failure()).message(), "Request error");
}

#[test]
fn pairs_take_three_bytes_for_each_of_theirs_and_four_more() {
    assert_eq!(MAX_URL_LEN, u32::MAX as u64);
    assert_eq!(room_after(100, &vec![]), Some(100));
    assert_eq!(room_after(0, &vec![]), Some(0));
    assert_eq!(room_after(100, &vec![("k", "v".to_string())]), Some(90));
    assert_eq!(room_after(10, &vec![("k", "v".to_string())]), Some(0));
    assert_eq!(room_after(9, &vec![("k", "v".to_string())]), None);
    assert_eq!(room_after(100, &vec![("id", "abc".to_string()), ("", String::new())]), Some(77));
    assert_eq!(room_after(22, &vec![("id", "abc".to_string()), ("", String::new())]), None);
    assert_eq!(room_after(100, &vec![("k", "\u{e9}".to_string())]), Some(87));
    assert_eq!(room_after(MAX_URL_LEN, &vec![("k", "v".to_string())]), Some(MAX_URL_LEN - 10));
}

#[test]
fn pairs_are_appended_where_there_is_room() {
    let mut url = url::Url::parse("http://host/rest/ping?x=1#part").unwrap();
    let pairs = vec![("id", "al 1".to_string()), ("size", "200".to_string())];
    assert!(append_pairs(&mut url, &pairs));
    assert_eq!(url.as_str(), "http://host/rest/ping?x=1&id=al+1&size=200#part");
    assert!(append_pairs(&mut url, &vec![]));
    assert_eq!(url.as_str(), "http://host/rest/ping?x=1&id=al+1&size=200#part");
    assert_eq!(ApiError::UrlTooLong.message(), "The url of the request is too long");
}
