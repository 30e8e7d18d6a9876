//! Random alphanumeric tokens: the upload authentication token and the
//! names under which converted files are stored.
use vstd::prelude::*;

use rand::Rng;

use crate::text::{is_ascii_alphanumeric, push_char};

verus! {

/// Number of characters in a generated authentication token.
pub const TOKEN_LEN: usize = 30;

/// Number of characters in a generated file name.
pub const FILE_NAME_LEN: usize = 8;

/// An ASCII letter or digit, as a byte.
pub open spec fn is_alphanumeric_byte(b: u8) -> bool {
    (48 <= b && b <= 57) || (65 <= b && b <= 90) || (97 <= b && b <= 122)
}

/// Every character of `s` is an ASCII letter or digit.
pub open spec fn all_alphanumeric(s: Seq<char>) -> bool {
    forall|i: int| 0 <= i < s.len() ==> is_ascii_alphanumeric(#[trigger] s[i])
}

/// One byte drawn from `rand::distributions::Alphanumeric` with the
/// thread-local generator. The source of that distribution picks from the
/// 62 bytes `A-Z`, `a-z`, `0-9`; which one is drawn is left open.
#[verifier::external_body]
fn sample_alphanumeric() -> (b: u8)
    ensures
        is_alphanumeric_byte(b),
{
    rand::thread_rng().sample(rand::distributions::Alphanumeric)
}

/// The characters that these bytes stand for, one per byte.
pub open spec fn bytes_as_chars(draws: Seq<u8>) -> Seq<char> {
    draws.map_values(|b: u8| b as char)
}

/// The string of the characters that these bytes stand for, one per byte.
pub fn alphanumeric_string(draws: &Vec<u8>) -> (s: String)
    ensures
        s@ == bytes_as_chars(draws@),
        (forall|i: int| 0 <= i < draws@.len() ==> is_alphanumeric_byte(#[trigger] draws@[i]))
            ==> all_alphanumeric(s@),
{
    let mut s = String::new();
    let mut i: usize = 0;
    while i < draws.len()
        invariant
            i <= draws.len(),
            s@ == bytes_as_chars(draws@).take(i as int),
        decreases draws.len() - i,
    {
        let c = draws[i] as char;
        push_char(&mut s, c);
        i = i + 1;
        assert(s@ =~= bytes_as_chars(draws@).take(i as int));
    }
    assert(s@ =~= bytes_as_chars(draws@));
    assert forall|k: int|
        (forall|i: int| 0 <= i < draws@.len() ==> is_alphanumeric_byte(#[trigger] draws@[i])) && 0
            <= k < s@.len() implies is_ascii_alphanumeric(#[trigger] s@[k]) by {
        assert(s@[k] == draws@[k] as char);
        assert(is_alphanumeric_byte(draws@[k]));
        assert((draws@[k] as char) as u32 == draws@[k] as u32);
    }
    s
}

/// A fresh random string of `len` ASCII letters and digits: `len` bytes are
/// drawn from the alphanumeric distribution and taken as characters.
pub fn random_alphanumeric(len: usize) -> (s: String)
    ensures
        s@.len() == len,
        all_alphanumeric(s@),
{
    let mut draws: Vec<u8> = Vec::new();
    let mut i: usize = 0;
    while i < len
        invariant
            i <= len,
            draws@.len() == i,
            forall|k: int| 0 <= k < i ==> is_alphanumeric_byte(#[trigger] draws@[k]),
        decreases len - i,
    {
        draws.push(sample_alphanumeric());
        i = i + 1;
    }
    alphanumeric_string(&draws)
}

/// The upload authentication token.
pub struct Auth {
    pub token: String,
}

impl Auth {
    /// A new authentication token of `TOKEN_LEN` random ASCII letters and digits.
    pub fn new() -> (a: Auth)
        ensures
            a.token@.len() == TOKEN_LEN,
            all_alphanumeric(a.token@),
    {
        Auth { token: random_alphanumeric(TOKEN_LEN) }
    }
}

/// A candidate name for a stored upload: `FILE_NAME_LEN` random ASCII
/// letters and digits.
pub fn file_name() -> (s: String)
    ensures
        s@.len() == FILE_NAME_LEN,
        all_alphanumeric(s@),
{
    random_alphanumeric(FILE_NAME_LEN)
}

/// What to do with a drawn file name.
pub enum NameDecision {
    /// Store the upload under this name.
    Accept(String),
    /// Draw another name and ask again.
    Redraw,
}

/// The naming rule for stored uploads: a drawn name is used only when no
/// stored upload has it (`taken` tells whether `uploads/<name>.webp` exists);
/// otherwise another name is drawn, until a free one is found.
pub fn decide_file_name(candidate: String, taken: bool) -> (d: NameDecision)
    ensures
        taken <==> d is Redraw,
        d matches NameDecision::Accept(n) ==> n@ == candidate@,
{
    if taken {
        NameDecision::Redraw
    } else {
        NameDecision::Accept(candidate)
    }
}

/// The directory that holds the server's configuration.
pub open spec fn config_dir() -> Seq<char> {
    "/etc/bild-server/"@
}

/// The file, inside the configuration directory, that holds the token.
pub open spec fn key_file() -> Seq<char> {
    "auth.key"@
}

/// The directory that holds the server's configuration.
pub fn config_dir_path() -> (p: String)
    ensures
        p@ == config_dir(),
{
    String::from_str("/etc/bild-server/")
}

/// The file that holds the token: the configuration directory and `auth.key`.
pub fn key_file_path() -> (p: String)
    ensures
        p@ == config_dir() + key_file(),
{
    let mut p = String::from_str("/etc/bild-server/");
    p.append("auth.key");
    p
}

/// The header line to paste into a client: `Authorization: Bearer ` and the token.
pub fn authorization_header(token: &str) -> (h: String)
    ensures
        h@ == "Authorization: Bearer "@ + token@,
{
    let mut h = String::from_str("Authorization: Bearer ");
    h.append(token);
    h
}

/// The hint that says where the token was saved.
pub fn saved_hint() -> (h: String)
    ensures
        h@ == "The token has also been saved to "@ + config_dir() + key_file(),
{
    let mut h = String::from_str("The token has also been saved to ");
    h.append("/etc/bild-server/");
    h.append("auth.key");
    h
}

} // verus!
