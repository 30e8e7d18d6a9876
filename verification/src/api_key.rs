//! Authentication of requests by the `Authorization` header against the
//! token stored on the server.
use vstd::prelude::*;

use crate::text::{contains_seq, occurs_at, strip_all, strip_all_exec, str_eq};

verus! {

/// The scheme prefix that is removed from the `Authorization` header.
pub open spec fn bearer_prefix() -> Seq<char> {
    "Bearer "@
}

/// Whether an `Authorization` header value matches the stored token: every
/// occurrence of `"Bearer "` is removed and what is left must equal it.
pub open spec fn header_matches(header: Seq<char>, stored: Seq<char>) -> bool {
    strip_all(header, bearer_prefix()) == stored
}

/// Why a request was refused authentication.
#[derive(Debug, PartialEq, Eq, Structural)]
pub enum ApiKeyError {
    /// The request carries no `Authorization` header.
    Missing,
    /// The header does not match the stored token.
    Invalid,
}

impl ApiKeyError {
    /// The HTTP status answered for a refused key: 400 (Bad Request) for both kinds.
    pub fn status(&self) -> (s: u16)
        ensures
            s == 400,
    {
        400
    }
}

/// An accepted `Authorization` header value.
pub struct ApiKey<'a>(&'a str);

impl<'a> ApiKey<'a> {
    /// The header value as the request carried it.
    pub closed spec fn header(&self) -> Seq<char> {
        self.0@
    }

    /// The header value as the request carried it.
    pub fn key(&self) -> (k: &'a str)
        ensures
            k@ == self.header(),
    {
        self.0
    }

    /// Authenticates a request: no header gives `Missing`; a header that
    /// matches `stored_key` once every `"Bearer "` is removed is accepted and
    /// kept as given; any other header gives `Invalid`.
    pub fn from_header(header: Option<&'a str>, stored_key: &str) -> (r: Result<
        ApiKey<'a>,
        ApiKeyError,
    >)
        ensures
            header is None ==> r == Err::<ApiKey<'a>, ApiKeyError>(ApiKeyError::Missing),
            header matches Some(h) ==> {
                if header_matches(h@, stored_key@) {
                    r matches Ok(k) && k.header() == h@
                } else {
                    r == Err::<ApiKey<'a>, ApiKeyError>(ApiKeyError::Invalid)
                }
            },
    {
        match header {
            None => Err(ApiKeyError::Missing),
            Some(key) => {
                let stripped = strip_all_exec(key, "Bearer ");
                if str_eq(stripped.as_str(), stored_key) {
                    Ok(ApiKey(key))
                } else {
                    Err(ApiKeyError::Invalid)
                }
            },
        }
    }
}

/// Removing the occurrences of a pattern from text that starts with it is
/// the same as removing them from the rest.
pub proof fn lemma_strip_leading(pat: Seq<char>, t: Seq<char>)
    ensures
        strip_all(pat + t, pat) == strip_all(t, pat),
{
    let s = pat + t;
    if pat.len() == 0 {
        assert(s =~= t);
    } else {
        assert(s.take(pat.len() as int) =~= pat);
        assert(s.skip(pat.len() as int) =~= t);
    }
}

/// Text in which a pattern does not occur is left unchanged by removing it.
pub proof fn lemma_strip_absent(t: Seq<char>, pat: Seq<char>)
    requires
        !contains_seq(t, pat),
    ensures
        strip_all(t, pat) == t,
    decreases t.len(),
{
    if t.len() == 0 || pat.len() == 0 {
    } else {
        if pat.len() <= t.len() && t.take(pat.len() as int) == pat {
            assert(t.subrange(0, pat.len() as int) =~= t.take(pat.len() as int));
            assert(occurs_at(t, 0, pat));
        }
        let rest = t.skip(1);
        assert forall|i: int| !occurs_at(rest, i, pat) by {
            if occurs_at(rest, i, pat) {
                assert(rest.subrange(i, i + pat.len()) =~= t.subrange(i + 1, i + 1 + pat.len()));
                assert(occurs_at(t, i + 1, pat));
            }
        }
        lemma_strip_absent(rest, pat);
        assert(seq![t[0]] + rest =~= t);
    }
}

/// Law: a header of the form `"Bearer " + token`, where the token itself holds
/// no `"Bearer "`, is accepted exactly when the token equals the stored one.
pub proof fn bearer_header_accepted(token: Seq<char>, stored: Seq<char>)
    requires
        !contains_seq(token, "Bearer "@),
    ensures
        header_matches("Bearer "@ + token, stored) <==> token == stored,
{
    reveal_strlit("Bearer ");
    lemma_strip_leading(bearer_prefix(), token);
    lemma_strip_absent(token, bearer_prefix());
}

/// Law: the stored token given bare, without the `"Bearer "` scheme, is
/// accepted too, as long as it holds no `"Bearer "` itself.
pub proof fn bare_token_accepted(stored: Seq<char>)
    requires
        !contains_seq(stored, "Bearer "@),
    ensures
        header_matches(stored, stored),
{
    reveal_strlit("Bearer ");
    lemma_strip_absent(stored, bearer_prefix());
}

} // verus!
