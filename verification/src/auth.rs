//! Player identity: usernames, offline UUIDs and sessions.

use vstd::prelude::*;
use crate::digest::{md5_digest, md5_of, spec_uuid_hyphenated, uuid_hyphenated};
use crate::error::LauncherError;
use crate::text::{
    char_is_alphanumeric, concat2, concat3, decimal_digit, decimal_string, decimal_value,
    is_unicode_alphanumeric, lemma_decimal_reads_back, owned, spec_decimal, spec_trim, trim,
};
use vstd::utf8::encode_utf8;

verus! {

/// How a player signed in.
#[derive(Clone, Copy, Debug, PartialEq, Eq, Structural)]
pub enum AuthType {
    Offline,
    Microsoft,
}

/// The signed-in player.
#[derive(Clone, Debug, PartialEq, Eq)]
pub struct UserProfile {
    pub username: String,
    pub uuid: String,
    pub token: Option<String>,
    pub auth_type: AuthType,
}

/// Errors of authentication.
#[derive(Clone, Debug, PartialEq, Eq)]
pub enum AuthError {
    InvalidUsername(String),
    MissingSession,
}

impl AuthError {
    /// The text that describes the error.
    pub open spec fn spec_message(&self) -> Seq<char> {
        match self {
            AuthError::InvalidUsername(u) => "Username: "@ + u@ + " is not a valid input"@,
            AuthError::MissingSession => "There is no active session"@,
        }
    }

    /// Renders the error as text.
    pub fn message(&self) -> (m: String)
        ensures
            m@ == self.spec_message(),
    {
        match self {
            AuthError::InvalidUsername(u) => concat3("Username: ", u.as_str(), " is not a valid input"),
            AuthError::MissingSession => owned("There is no active session"),
        }
    }
}


/// A character allowed in a username.
pub open spec fn username_char(c: char) -> bool {
    is_unicode_alphanumeric(c) || c == '_'
}

/// The rule for a (trimmed) username: 3 to 16 bytes of UTF-8, made only of
/// alphanumeric characters and underscores.
pub open spec fn username_ok(t: Seq<char>) -> bool {
    &&& 3 <= encode_utf8(t).len() <= 16
    &&& forall|i: int| 0 <= i < t.len() ==> username_char(#[trigger] t[i])
}

/// Whether `r` is the error that rejects `username`: an invalid-username
/// error that carries the trimmed input.
pub open spec fn rejects_username(r: LauncherError, username: Seq<char>) -> bool {
    r matches LauncherError::Auth(AuthError::InvalidUsername(u)) && u@ == spec_trim(username)
}

/// Checks a username after trimming surrounding whitespace.
pub fn validate_username(username: &str) -> (r: Result<(), LauncherError>)
    ensures
        r is Ok <==> username_ok(spec_trim(username@)),
        r matches Err(e) ==> rejects_username(e, username@),
{
    let t = trim(username);
    let len = t.as_bytes().len();
    if len < 3 || len > 16 {
        return Err(LauncherError::Auth(AuthError::InvalidUsername(owned(t))));
    }
    let n = t.unicode_len();
    let mut i: usize = 0;
    while i < n
        invariant
            n == t@.len(),
            0 <= i <= n,
            t@ == spec_trim(username@),
            3 <= encode_utf8(t@).len() <= 16,
            forall|k: int| 0 <= k < i ==> username_char(#[trigger] t@[k]),
        decreases n - i,
    {
        let c = t.get_char(i);
        if !(char_is_alphanumeric(c) || c == '_') {
            return Err(LauncherError::Auth(AuthError::InvalidUsername(owned(t))));
        }
        i = i + 1;
    }
    Ok(())
}

/// The bytes hashed for an offline identity: `OfflinePlayer:` and the name,
/// in UTF-8.
pub open spec fn offline_seed(username: Seq<char>) -> Seq<u8> {
    encode_utf8("OfflinePlayer:"@ + username)
}

/// The 16 UUID bytes of an offline player: the MD5 of the seed, marked as a
/// name-based (version 3) UUID of the RFC 4122 variant.
pub open spec fn spec_offline_uuid_bytes(username: Seq<char>) -> Seq<u8> {
    let h = md5_of(offline_seed(username));
    h.update(6, (h[6] & 0x0fu8) | 0x30u8).update(8, (h[8] & 0x3fu8) | 0x80u8)
}

/// The offline UUID is taken from the MD5 digest of the UTF-8 text
/// `OfflinePlayer:` followed by the entire name: every byte but the sixth and
/// the eighth is the digest's own, the sixth keeps the digest's low nibble
/// under the version nibble `3`, and the eighth keeps the digest's low six
/// bits under the RFC 4122 variant bits `10` (a digest has far more than
/// nine bytes).
pub proof fn lemma_offline_uuid_is_name_digest(username: Seq<char>)
    ensures
        ({
            let h = md5_of(encode_utf8("OfflinePlayer:"@ + username));
            let b = spec_offline_uuid_bytes(username);
            h.len() > 8 ==> {
                &&& b.len() == h.len()
                &&& forall|i: int| 0 <= i < h.len() && i != 6 && i != 8 ==> #[trigger] b[i] == h[i]
                &&& b[6] / 16 == 3
                &&& b[6] % 16 == h[6] % 16
                &&& b[8] / 64 == 2
                &&& b[8] % 64 == h[8] % 64
            }
        }),
{
    let h = md5_of(encode_utf8("OfflinePlayer:"@ + username));
    let b = spec_offline_uuid_bytes(username);
    assert(h == md5_of(offline_seed(username)));
    if h.len() > 8 {
        let x: u8 = h[6];
        let y: u8 = h[8];
        assert(((x & 0x0fu8) | 0x30u8) / 16 == 3 && ((x & 0x0fu8) | 0x30u8) % 16 == x % 16)
            by (bit_vector);
        assert(((y & 0x3fu8) | 0x80u8) / 64 == 2 && ((y & 0x3fu8) | 0x80u8) % 64 == y % 64)
            by (bit_vector);
        assert(b[6] == (x & 0x0fu8) | 0x30u8);
        assert(b[8] == (y & 0x3fu8) | 0x80u8);
    }
}

/// The text of an offline player's UUID.
pub open spec fn spec_offline_uuid(username: Seq<char>) -> Seq<char> {
    spec_uuid_hyphenated(spec_offline_uuid_bytes(username))
}

/// The deterministic UUID of an offline player, derived from the untrimmed
/// name. Its version digit is `3` and its variant digit one of `8 9 a b`.
pub fn offline_uuid(username: &str) -> (u: String)
    ensures
        u@ == spec_offline_uuid(username@),
        u@.len() == 36,
        u@[14] == '3',
        u@[19] == '8' || u@[19] == '9' || u@[19] == 'a' || u@[19] == 'b',
        spec_offline_uuid_bytes(username@).len() == 16,
        forall|i: int|
            0 <= i < 16 && i != 6 && i != 8 ==> #[trigger] spec_offline_uuid_bytes(username@)[i]
                == md5_of(encode_utf8("OfflinePlayer:"@ + username@))[i],
{
    let seed = concat2("OfflinePlayer:", username);
    let mut b = md5_digest(seed.as_str().as_bytes());
    let b6 = b[6];
    let b8 = b[8];
    b[6] = (b6 & 0x0f) | 0x30;
    b[8] = (b8 & 0x3f) | 0x80;
    assert(((b6 & 0x0fu8) | 0x30u8) / 16 == 3) by (bit_vector);
    assert(8 <= ((b8 & 0x3fu8) | 0x80u8) / 16 <= 11) by (bit_vector);
    assert(b@ =~= spec_offline_uuid_bytes(username@));
    proof {
        lemma_offline_uuid_is_name_digest(username@);
    }
    let u = uuid_hyphenated(b);
    assert(u@[14] == crate::digest::spec_hex_lower(b@)[12]);
    assert(u@[19] == crate::digest::spec_hex_lower(b@)[16]);
    u
}

/// The profile of an offline player who signs in with `username`, or the
/// rejection of an invalid name. The profile keeps the name as typed.
pub fn offline_profile(username: &str) -> (r: Result<UserProfile, LauncherError>)
    ensures
        r is Ok <==> username_ok(spec_trim(username@)),
        r matches Err(e) ==> rejects_username(e, username@),
        r matches Ok(p) ==> {
            &&& p.username@ == username@
            &&& p.uuid@ == spec_offline_uuid(username@)
            &&& p.token is None
            &&& p.auth_type == AuthType::Offline
        },
{
    match validate_username(username) {
        Err(e) => Err(e),
        Ok(()) => {
            let uuid = offline_uuid(username);
            Ok(UserProfile { username: owned(username), uuid, token: None, auth_type: AuthType::Offline })
        },
    }
}


/// The session shown to the player: a Microsoft session wins over an
/// offline one.
pub fn prefer_session(microsoft: Option<UserProfile>, offline: Option<UserProfile>) -> (r: Option<UserProfile>)
    ensures
        r == (if microsoft is Some { microsoft } else { offline }),
{
    match microsoft {
        Some(p) => Some(p),
        None => offline,
    }
}

/// The application id registered with Microsoft for the launcher.
pub const CLIENT_ID: &'static str = "a3b355d3-569d-4db8-9323-86fdb75e8e41";

/// The local address that receives the OAuth redirect on `port`.
pub open spec fn spec_redirect_uri(port: u16) -> Seq<char> {
    "http://localhost:"@ + spec_decimal(port as nat)
}

/// The redirect address is `http://localhost:` followed by the whole
/// decimal notation of the port: every character after the prefix is a
/// digit, the first of them is no leading zero, and together they read back
/// as the port itself.
pub proof fn lemma_redirect_uri_carries_port(port: u16)
    ensures
        spec_redirect_uri(port).len() > 17,
        spec_redirect_uri(port).take(17) == "http://localhost:"@,
        forall|i: int|
            17 <= i < spec_redirect_uri(port).len() ==> decimal_digit(#[trigger] spec_redirect_uri(port)[i]),
        decimal_value(spec_redirect_uri(port).skip(17)) == port as int,
        spec_redirect_uri(port).len() > 18 ==> spec_redirect_uri(port)[17] != '0',
{
    reveal_strlit("http://localhost:");
    let prefix = "http://localhost:"@;
    let digits = spec_decimal(port as nat);
    let uri = spec_redirect_uri(port);
    lemma_decimal_reads_back(port as nat);
    assert(prefix.len() == 17);
    assert(uri.take(17) =~= prefix);
    assert(uri.skip(17) =~= digits);
    assert forall|i: int| 17 <= i < uri.len() implies decimal_digit(#[trigger] uri[i]) by {
        assert(uri[i] == digits[i - 17]);
    }
    assert(uri.len() > 18 ==> uri[17] == digits[0]);
}

/// The local address that receives the OAuth redirect on `port`.
pub fn redirect_uri(port: u16) -> (r: String)
    ensures
        r@ == spec_redirect_uri(port),
        r@.take(17) == "http://localhost:"@,
        decimal_value(r@.skip(17)) == port as int,
{
    let p = decimal_string(port as u64);
    let r = concat2("http://localhost:", p.as_str());
    proof {
        lemma_redirect_uri_carries_port(port);
    }
    r
}

/// The Microsoft consent page for the launcher, redirecting to `port`.
pub open spec fn spec_authorize_url(port: u16) -> Seq<char> {
    "https://login.microsoftonline.com/consumers/oauth2/v2.0/authorize?client_id="@ + CLIENT_ID@
        + "&response_type=code&redirect_uri="@ + spec_redirect_uri(port)
        + "&scope=XboxLive.signin%20offline_access&prompt=select_account"@
}

/// The Microsoft consent page for the launcher, redirecting to `port`.
pub fn authorize_url(port: u16) -> (r: String)
    ensures
        r@ == spec_authorize_url(port),
{
    let mut r = concat2(
        "https://login.microsoftonline.com/consumers/oauth2/v2.0/authorize?client_id=",
        CLIENT_ID,
    );
    r.append("&response_type=code&redirect_uri=");
    let uri = redirect_uri(port);
    r.append(uri.as_str());
    r.append("&scope=XboxLive.signin%20offline_access&prompt=select_account");
    r
}

/// The Xbox Live ticket that carries a Microsoft access token.
pub fn rps_ticket(ms_token: &str) -> (r: String)
    ensures
        r@ == "d="@ + ms_token@,
{
    concat2("d=", ms_token)
}

/// The identity token presented to Minecraft services.
pub fn xbox_identity_token(userhash: &str, xsts_token: &str) -> (r: String)
    ensures
        r@ == "XBL3.0 x="@ + userhash@ + ";"@ + xsts_token@,
{
    let mut r = concat3("XBL3.0 x=", userhash, ";");
    r.append(xsts_token);
    r
}

/// A value the Microsoft sign-in needs from a service reply; its absence
/// means no session could be opened.
pub fn require_field(field: Option<String>) -> (r: Result<String, LauncherError>)
    ensures
        field matches Some(v) ==> r == Ok::<String, LauncherError>(v),
        field is None ==> r == Err::<String, LauncherError>(LauncherError::Auth(AuthError::MissingSession)),
{
    match field {
        Some(v) => Ok(v),
        None => Err(LauncherError::Auth(AuthError::MissingSession)),
    }
}

/// The profile of a player signed in through Microsoft.
pub fn microsoft_profile(username: String, uuid: String, mc_token: String) -> (p: UserProfile)
    ensures
        p.username == username,
        p.uuid == uuid,
        p.token == Some(mc_token),
        p.auth_type == AuthType::Microsoft,
{
    UserProfile { username, uuid, token: Some(mc_token), auth_type: AuthType::Microsoft }
}


/// One decoded `key=value` pair of a URL's query.
#[derive(Clone, Debug, PartialEq, Eq)]
pub struct QueryPair {
    pub key: String,
    pub value: String,
}

/// The percent-decoded query pairs of a URL, in order, or `None` when the
/// text is not an absolute URL (as `url::Url::parse` and `query_pairs` give
/// them).
pub uninterp spec fn query_pairs_of(url: Seq<char>) -> Option<Seq<(Seq<char>, Seq<char>)>>;

/// The keys and values of a list of query pairs.
pub open spec fn pair_views(v: Seq<QueryPair>) -> Seq<(Seq<char>, Seq<char>)> {
    v.map_values(|p: QueryPair| (p.key@, p.value@))
}

/// Whether a parsing result carries exactly the pairs of `parsed`.
pub open spec fn parses_as(r: Option<Vec<QueryPair>>, parsed: Option<Seq<(Seq<char>, Seq<char>)>>) -> bool {
    match r {
        Some(v) => parsed matches Some(ps) && ps == pair_views(v@),
        None => parsed is None,
    }
}

/// `url::Url::parse` (re-exported as `reqwest::Url`) then `query_pairs`:
/// the pairs named by `query_pairs_of`.
#[verifier::external_body]
pub(crate) fn query_pairs(url: &str) -> (r: Option<Vec<QueryPair>>)
    ensures
        parses_as(r, query_pairs_of(url@)),
{
    let parsed = reqwest::Url::parse(url).ok()?;
    Some(parsed.query_pairs().map(|(k, v)| QueryPair { key: k.into_owned(), value: v.into_owned() }).collect())
}

/// The value of the first pair keyed `key`.
pub open spec fn first_value(pairs: Seq<(Seq<char>, Seq<char>)>, key: Seq<char>) -> Option<Seq<char>>
    decreases pairs.len(),
{
    if pairs.len() == 0 {
        None
    } else if pairs[0].0 == key {
        Some(pairs[0].1)
    } else {
        first_value(pairs.drop_first(), key)
    }
}

/// The authorisation code an OAuth redirect carries: the first `code`
/// parameter of its query, if the URL parses and has one.
pub open spec fn spec_oauth_code(url: Seq<char>) -> Option<Seq<char>> {
    match query_pairs_of(url) {
        Some(ps) => first_value(ps, "code"@),
        None => None,
    }
}

/// Takes the authorisation code from the URL the OAuth redirect called.
pub fn oauth_code(callback_url: &str) -> (r: Option<String>)
    ensures
        r is None <==> spec_oauth_code(callback_url@) is None,
        r matches Some(c) ==> spec_oauth_code(callback_url@) == Some(c@),
{
    let pairs = match query_pairs(callback_url) {
        None => {
            return None;
        },
        Some(pairs) => pairs,
    };
    let ghost ps = pair_views(pairs@);
    let code_key = owned("code");
    let mut i: usize = 0;
    assert(ps.skip(0) =~= ps);
    while i < pairs.len()
        invariant
            0 <= i <= pairs@.len(),
            ps == pair_views(pairs@),
            query_pairs_of(callback_url@) == Some(ps),
            code_key@ == "code"@,
            first_value(ps, "code"@) == first_value(ps.skip(i as int), "code"@),
        decreases pairs@.len() - i,
    {
        assert(ps.skip(i as int)[0] == ps[i as int]);
        assert(ps.skip(i as int).drop_first() =~= ps.skip(i + 1));
        assert(ps[i as int] == (pairs@[i as int].key@, pairs@[i as int].value@));
        if pairs[i].key == code_key {
            return Some(pairs[i].value.clone());
        }
        i = i + 1;
    }
    assert(ps.skip(i as int).len() == 0);
    None
}

} // verus!
