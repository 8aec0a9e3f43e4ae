//! URL resolution: joining the client's base address with a request key.
//!
//! The joining itself follows the WHATWG URL standard and is done by the
//! `url` crate; its outcome is named by uninterpreted spec functions, and
//! the one trusted wrapper below relates the call to those names.

use vstd::prelude::*;

verus! {

/// Whether `s` parses as a valid absolute URL.
pub uninterp spec fn url_parse_ok(s: Seq<char>) -> bool;

/// The serialization of the URL obtained by resolving `key` against the
/// absolute URL that `base` parses to, or `None` when the combination is
/// not a valid URL. Meaningful only when `url_parse_ok(base)` holds.
pub uninterp spec fn url_join(base: Seq<char>, key: Seq<char>) -> Option<Seq<char>>;

/// The outcome of resolving `key` against `base`: the serialization of the
/// joined URL, or `None` when `base` is not a valid absolute URL or the
/// joined combination is not a valid URL.
pub open spec fn resolve_spec(base: Seq<char>, key: Seq<char>) -> Option<Seq<char>> {
    if url_parse_ok(base) {
        url_join(base, key)
    } else {
        None
    }
}

#[verifier::external_type_specification]
#[verifier::external_body]
pub struct ExParseError(url::ParseError);

/// Relies on `url::Url::parse` and `url::Url::join`: parsing depends on the
/// input string alone, joining on the base URL and the key alone, and
/// `String::from` on a `Url` returns its serialization.
#[verifier::external_body]
pub(crate) fn join_raw(base: &str, key: &str) -> (r: Result<String, url::ParseError>)
    ensures
        match r {
            Ok(u) => url_parse_ok(base@) && url_join(base@, key@) == Some(u@),
            Err(_) => !url_parse_ok(base@) || url_join(base@, key@) is None,
        },
{
    url::Url::parse(base).and_then(|b| b.join(key)).map(String::from)
}

/// Resolution is a pure function of the base address and the key: two
/// outcomes of resolving the same key against the same base are always
/// equal, so repeated calls return the same URL.
pub proof fn lemma_resolve_deterministic(
    base: Seq<char>,
    key: Seq<char>,
    r1: Option<Seq<char>>,
    r2: Option<Seq<char>>,
)
    requires
        r1 == resolve_spec(base, key),
        r2 == resolve_spec(base, key),
    ensures
        r1 == r2,
{
}

} // verus!
