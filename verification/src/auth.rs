use crate::text::string_of_chars;
use vstd::prelude::*;

verus! {

/// `url::Url`: a parsed URL. Opaque; what is known of one is what the functions below say.
#[verifier::external_type_specification]
#[verifier::external_body]
pub struct ExUrl(url::Url);

/// The number of characters of a salt.
pub const SALT_SIZE: usize = 36;

/// The MD5 digest of a text's UTF-8 bytes, written as lower-case hexadecimal digits.
pub uninterp spec fn md5_hex(text: Seq<char>) -> Seq<char>;

/// The URL with one more pair at the end of its query, the pair encoded as a form is.
pub uninterp spec fn with_pair(url: url::Url, key: Seq<char>, value: Seq<char>) -> url::Url;

/// The number of bytes of a URL as it is written out.
pub uninterp spec fn url_byte_len(url: url::Url) -> nat;

/// Calls `md5::compute` on the text's bytes and formats the digest with `{:x}`. Trusted: the
/// outcome depends on the text alone.
#[verifier::external_body]
fn md5_hex_string(text: &str) -> (r: String)
    ensures
        r@ == md5_hex(text@),
{
    format!("{:x}", md5::compute(text.as_bytes()))
}

/// Draws one character from `rand`'s `Alphanumeric` distribution with the thread's
/// generator. Trusted: whatever is drawn is an ASCII letter or digit.
#[verifier::external_body]
fn sample_alphanumeric() -> (r: char)
    ensures
        is_alphanumeric(r),
{
    char::from(rand::Rng::sample(&mut rand::thread_rng(), rand::distributions::Alphanumeric))
}

/// Calls `Url::as_str` and takes the length of what it gives. Trusted: it is the number of
/// bytes of the URL written out.
#[verifier::external_body]
pub(crate) fn url_len(url: &url::Url) -> (r: usize)
    ensures
        r == url_byte_len(*url),
{
    url.as_str().len()
}

/// Calls `Url::query_pairs_mut` and `Serializer::append_pair`, and lets the serializer go,
/// which writes the query back. The crate keeps positions in a URL as `u32` and gives up on
/// a URL that is longer, so the call is made only where the URL stays within that.
/// Trusted: the URL that results depends on the URL before and on the pair alone, and it
/// grows by a `?` or `&`, the `=`, and three bytes at most for each byte of key and value.
#[verifier::external_body]
pub(crate) fn append_pair(url: &mut url::Url, key: &str, value: &str)
    requires
        url_byte_len(*old(url)) + pair_growth(key@, value@) <= MAX_URL_LEN,
    ensures
        *final(url) == with_pair(*old(url), key@, value@),
        url_byte_len(*final(url)) <= url_byte_len(*old(url)) + pair_growth(key@, value@),
{
    url.query_pairs_mut().append_pair(key, value);
}

/// The most bytes that a URL can have: its positions are kept as `u32`.
pub const MAX_URL_LEN: u64 = 0xFFFF_FFFF;

/// The number of bytes of a text in UTF-8.
pub open spec fn text_bytes(text: Seq<char>) -> nat {
    vstd::utf8::encode_utf8(text).len()
}

/// The most bytes that a text can add to a URL where every byte of it is written as a
/// percent sign and two digits.
pub open spec fn encoded_bytes(text: Seq<char>) -> nat {
    3 * text_bytes(text)
}

/// The most bytes that one more pair can add to a URL: key and value encoded, and the
/// signs around them.
pub open spec fn pair_growth(key: Seq<char>, value: Seq<char>) -> nat {
    encoded_bytes(key) + encoded_bytes(value) + 4
}

/// The most bytes that these pairs can add to a URL.
pub open spec fn pairs_growth(pairs: Seq<(Seq<char>, Seq<char>)>) -> nat
    decreases pairs.len(),
{
    if pairs.len() == 0 {
        0
    } else {
        pairs_growth(pairs.drop_last()) + pair_growth(pairs.last().0, pairs.last().1)
    }
}

/// The URL has room for these pairs.
pub open spec fn pairs_fit(url: url::Url, pairs: Seq<(Seq<char>, Seq<char>)>) -> bool {
    url_byte_len(url) + pairs_growth(pairs) <= MAX_URL_LEN
}

/// The first pairs of a run need no more room than the whole run.
pub proof fn lemma_growth_of_prefix(pairs: Seq<(Seq<char>, Seq<char>)>, n: int)
    requires
        0 <= n <= pairs.len(),
    ensures
        pairs_growth(pairs.take(n)) <= pairs_growth(pairs),
        n < pairs.len() ==> pairs_growth(pairs.take(n + 1)) == pairs_growth(pairs.take(n))
            + pair_growth(pairs[n].0, pairs[n].1),
    decreases pairs.len(),
{
    if n == pairs.len() {
        assert(pairs.take(n) =~= pairs);
    } else {
        assert(pairs.take(n + 1).drop_last() =~= pairs.take(n));
        assert(pairs.take(n + 1).last() == pairs[n]);
        assert(pairs.drop_last().take(n) =~= pairs.take(n));
        lemma_growth_of_prefix(pairs.drop_last(), n);
    }
}

/// Two runs of pairs need the room of the one and of the other.
pub proof fn lemma_growth_adds(
    first: Seq<(Seq<char>, Seq<char>)>,
    second: Seq<(Seq<char>, Seq<char>)>,
)
    ensures
        pairs_growth(first + second) == pairs_growth(first) + pairs_growth(second),
    decreases second.len(),
{
    if second.len() == 0 {
        assert(first + second =~= first);
    } else {
        lemma_growth_adds(first, second.drop_last());
        assert((first + second).drop_last() =~= first + second.drop_last());
        assert((first + second).last() == second.last());
    }
}

/// An ASCII letter or digit.
pub open spec fn is_alphanumeric(c: char) -> bool {
    ('a' <= c && c <= 'z') || ('A' <= c && c <= 'Z') || ('0' <= c && c <= '9')
}

/// A salt: `SALT_SIZE` ASCII letters and digits.
pub open spec fn is_salt(salt: Seq<char>) -> bool {
    salt.len() == SALT_SIZE && forall|i: int| 0 <= i < salt.len() ==> is_alphanumeric(#[trigger] salt[i])
}

/// Pairs of a query as sequences of characters.
pub open spec fn pairs_text(pairs: Seq<(&'static str, String)>) -> Seq<(Seq<char>, Seq<char>)> {
    pairs.map_values(|p: (&'static str, String)| (p.0@, p.1@))
}

/// The URL with these pairs at the end of its query, in order.
pub open spec fn with_pairs(url: url::Url, pairs: Seq<(Seq<char>, Seq<char>)>) -> url::Url
    decreases pairs.len(),
{
    if pairs.len() == 0 {
        url
    } else {
        with_pair(with_pairs(url, pairs.drop_last()), pairs.last().0, pairs.last().1)
    }
}

/// The pairs that sign a request: the user, the token (the digest of password and salt),
/// the salt, the protocol version, the client's name and the format asked for.
pub open spec fn auth_pairs(user: Seq<char>, password: Seq<char>, salt: Seq<char>) -> Seq<
    (Seq<char>, Seq<char>),
> {
    seq![
        ("u"@, user),
        ("t"@, md5_hex(password + salt)),
        ("s"@, salt),
        ("v"@, "1.16.1"@),
        ("c"@, "subsonic-client"@),
        ("f"@, "json"@),
    ]
}

/// What is left of `room` bytes once these pairs have taken what they can need; nothing
/// where they can need more.
pub fn room_after(room: u64, pairs: &Vec<(&'static str, String)>) -> (r: Option<u64>)
    requires
        room <= MAX_URL_LEN,
    ensures
        match r {
            Some(left) => pairs_growth(pairs_text(pairs@)) + left == room,
            None => pairs_growth(pairs_text(pairs@)) > room,
        },
{
    let ghost all = pairs_text(pairs@);
    let mut left = room;
    let mut i: usize = 0;
    assert(all.take(0) =~= Seq::<(Seq<char>, Seq<char>)>::empty());
    while i < pairs.len()
        invariant
            i <= pairs.len(),
            all == pairs_text(pairs@),
            room <= MAX_URL_LEN,
            pairs_growth(all.take(i as int)) + left == room,
        decreases pairs.len() - i,
    {
        let key_len = pairs[i].0.as_bytes().len();
        let value_len = pairs[i].1.as_str().as_bytes().len();
        proof {
            lemma_growth_of_prefix(all, i as int);
            lemma_growth_of_prefix(all, i + 1);
            assert(all[i as int] == (pairs@[i as int].0@, pairs@[i as int].1@));
        }
        if key_len as u64 > MAX_URL_LEN || value_len as u64 > MAX_URL_LEN {
            return None;
        }
        let need: u64 = 3 * (key_len as u64) + 3 * (value_len as u64) + 4;
        if need > left {
            return None;
        }
        left = left - need;
        i += 1;
    }
    assert(all.take(pairs.len() as int) =~= all);
    Some(left)
}

/// Appends every pair to the query of a URL that has room for them, in order.
pub(crate) fn append_all(url: &mut url::Url, pairs: &Vec<(&'static str, String)>)
    requires
        pairs_fit(*old(url), pairs_text(pairs@)),
    ensures
        *final(url) == with_pairs(*old(url), pairs_text(pairs@)),
        url_byte_len(*final(url)) <= url_byte_len(*old(url)) + pairs_growth(pairs_text(pairs@)),
{
    let ghost all = pairs_text(pairs@);
    let mut i: usize = 0;
    assert(all.take(0) =~= Seq::<(Seq<char>, Seq<char>)>::empty());
    while i < pairs.len()
        invariant
            i <= pairs.len(),
            all == pairs_text(pairs@),
            pairs_fit(*old(url), all),
            *url == with_pairs(*old(url), all.take(i as int)),
            url_byte_len(*url) <= url_byte_len(*old(url)) + pairs_growth(all.take(i as int)),
        decreases pairs.len() - i,
    {
        proof {
            lemma_growth_of_prefix(all, i as int);
            lemma_growth_of_prefix(all, i + 1);
            assert(all.take(i + 1).drop_last() =~= all.take(i as int));
            assert(all.take(i + 1).last() == (pairs@[i as int].0@, pairs@[i as int].1@));
        }
        append_pair(url, pairs[i].0, pairs[i].1.as_str());
        i += 1;
    }
    assert(all.take(pairs.len() as int) =~= all);
}

/// Appends every pair to the query of the URL, in order, if the URL has room for them all;
/// a URL without that room is left as it is. Says whether the pairs were appended.
pub fn append_pairs(url: &mut url::Url, pairs: &Vec<(&'static str, String)>) -> (r: bool)
    ensures
        r == pairs_fit(*old(url), pairs_text(pairs@)),
        *final(url) == if r {
            with_pairs(*old(url), pairs_text(pairs@))
        } else {
            *old(url)
        },
        r ==> url_byte_len(*final(url)) <= url_byte_len(*old(url)) + pairs_growth(
            pairs_text(pairs@),
        ),
{
    let len = url_len(url);
    if len as u64 > MAX_URL_LEN {
        return false;
    }
    match room_after(MAX_URL_LEN - len as u64, pairs) {
        Some(_) => {
            append_all(url, pairs);
            true
        },
        None => false,
    }
}

/// The name and password that requests are signed with.
#[derive(Debug)]
pub struct SubsonicAuth {
    user: String,
    password: String,
}

impl SubsonicAuth {
    /// The user's name.
    pub closed spec fn user(&self) -> Seq<char> {
        self.user@
    }

    /// The user's password.
    pub closed spec fn password(&self) -> Seq<char> {
        self.password@
    }

    pub fn new(user: &str, password: &str) -> (r: SubsonicAuth)
        ensures
            r.user() == user@,
            r.password() == password@,
    {
        SubsonicAuth { user: user.to_owned(), password: password.to_owned() }
    }

    /// Draws a new salt.
    pub fn fresh_salt() -> (r: String)
        ensures
            is_salt(r@),
    {
        let mut chars: Vec<char> = Vec::new();
        while chars.len() < SALT_SIZE
            invariant
                chars.len() <= SALT_SIZE,
                forall|i: int| 0 <= i < chars.len() ==> is_alphanumeric(#[trigger] chars@[i]),
            decreases SALT_SIZE - chars.len(),
        {
            chars.push(sample_alphanumeric());
        }
        string_of_chars(&chars)
    }

    /// The pairs that sign a request with the salt `salt`.
    pub fn query_pairs(&self, salt: &str) -> (r: Vec<(&'static str, String)>)
        ensures
            pairs_text(r@) == auth_pairs(self.user(), self.password(), salt@),
    {
        let mut salted = self.password.clone();
        salted.append(salt);
        let token = md5_hex_string(salted.as_str());
        let mut pairs: Vec<(&'static str, String)> = Vec::new();
        pairs.push(("u", self.user.clone()));
        pairs.push(("t", token));
        pairs.push(("s", salt.to_owned()));
        pairs.push(("v", String::from_str("1.16.1")));
        pairs.push(("c", String::from_str("subsonic-client")));
        pairs.push(("f", String::from_str("json")));
        assert(pairs_text(pairs@) =~= auth_pairs(self.user(), self.password(), salt@));
        pairs
    }

    /// Signs the URL of a request: draws a new salt and appends the pairs that follow from
    /// it to the query, if the URL has room for them; a URL without that room is left as it
    /// is. Says whether the URL was signed.
    pub fn add_to_query_pairs(&self, url: &mut url::Url) -> (r: bool)
        ensures
            exists|salt: Seq<char>| #[trigger]
                self.signed_with(salt, *old(url), *final(url), r),
    {
        let salt = Self::fresh_salt();
        let pairs = self.query_pairs(salt.as_str());
        let signed = append_pairs(url, &pairs);
        assert(self.signed_with(salt@, *old(url), *url, signed));
        signed
    }

    /// Signing `before` with the salt `salt` gave `after`, and `signed` says whether there
    /// was room for the signature.
    pub open spec fn signed_with(
        &self,
        salt: Seq<char>,
        before: url::Url,
        after: url::Url,
        signed: bool,
    ) -> bool {
        let pairs = auth_pairs(self.user(), self.password(), salt);
        &&& is_salt(salt)
        &&& signed == pairs_fit(before, pairs)
        &&& after == if signed {
            with_pairs(before, pairs)
        } else {
            before
        }
    }
}

} // verus!
