//! URLs, PKCE values and random tokens, through `url`, `sha2`, `base64` and
//! `rand`.

use vstd::prelude::*;

use crate::error::{is_url_error, YnabError};
use crate::text::{chars_of, string_of, trimmed, trim};

verus! {

/// What `url::Url::parse(s)` gives: the serialization of the parsed URL, or
/// the text of its parse error.
pub uninterp spec fn url_parse_outcome(s: Seq<char>) -> Result<Seq<char>, Seq<char>>;

/// What parsing `base` with `url::Url::parse` and joining `relative` onto it
/// with `Url::join` gives: the serialization of the joined URL, or the text
/// of the parse error.
pub uninterp spec fn joined_url_outcome(base: Seq<char>, relative: Seq<char>) -> Result<
    Seq<char>,
    Seq<char>,
>;

/// What parsing `url` with `url::Url::parse` and appending one query pair
/// with `query_pairs_mut().append_pair(key, value)` gives: the serialization
/// of the URL with the pair, or the text of the parse error.
pub uninterp spec fn appended_pair_outcome(url: Seq<char>, key: Seq<char>, value: Seq<char>) -> Result<
    Seq<char>,
    Seq<char>,
>;

/// One appended pair, after a URL or after an error.
pub open spec fn url_step(u: Result<Seq<char>, Seq<char>>, pair: (Seq<char>, Seq<char>)) -> Result<
    Seq<char>,
    Seq<char>,
> {
    match u {
        Ok(v) => appended_pair_outcome(v, pair.0, pair.1),
        Err(e) => Err(e),
    }
}

/// The URL `u` with `pairs` appended in order; the first error stays.
pub open spec fn url_with_pairs(
    u: Result<Seq<char>, Seq<char>>,
    pairs: Seq<(Seq<char>, Seq<char>)>,
) -> Result<Seq<char>, Seq<char>>
    decreases pairs.len(),
{
    if pairs.len() == 0 {
        u
    } else {
        url_step(url_with_pairs(u, pairs.drop_last()), pairs.last())
    }
}

/// The texts of an outcome.
pub open spec fn text_outcome(r: Result<String, String>) -> Result<Seq<char>, Seq<char>> {
    match r {
        Ok(s) => Ok(s@),
        Err(e) => Err(e@),
    }
}

/// The SHA-256 digest (`sha2::Sha256::digest`) of the UTF-8 bytes of `s`.
pub uninterp spec fn sha256_of_text(s: Seq<char>) -> Seq<u8>;

/// The unpadded URL-safe base64 text (`base64::engine::general_purpose::URL_SAFE_NO_PAD`)
/// of `bytes`.
pub uninterp spec fn base64_url_text(bytes: Seq<u8>) -> Seq<char>;

/// The views of key/value pairs.
pub open spec fn pairs_view(v: Seq<(String, String)>) -> Seq<(Seq<char>, Seq<char>)> {
    Seq::new(v.len(), |i: int| (v[i].0@, v[i].1@))
}

/// Parses `s` with `url::Url::parse` and serializes the result.
#[verifier::external_body]
fn parse_url(s: &str) -> (r: Result<String, String>)
    ensures
        match url_parse_outcome(s@) {
            Ok(u) => r is Ok && r->Ok_0@ == u,
            Err(e) => r is Err && r->Err_0@ == e,
        },
{
    match url::Url::parse(s) {
        Ok(u) => Ok(u.to_string()),
        Err(e) => Err(e.to_string()),
    }
}

/// Parses `base` with `url::Url::parse` and joins `relative` onto it with
/// `Url::join`; the contract claims only that the outcome is the one
/// `joined_url_outcome` names.
#[verifier::external_body]
fn join_url(base: &str, relative: &str) -> (r: Result<String, String>)
    ensures
        text_outcome(r) == joined_url_outcome(base@, relative@),
{
    match url::Url::parse(base).and_then(|u| u.join(relative)) {
        Ok(u) => Ok(u.to_string()),
        Err(e) => Err(e.to_string()),
    }
}

/// Parses `url` with `url::Url::parse` and appends one query pair with
/// `query_pairs_mut().append_pair`; the contract claims only that the
/// outcome is the one `appended_pair_outcome` names.
#[verifier::external_body]
fn append_query_pair(url: &str, key: &str, value: &str) -> (r: Result<String, String>)
    ensures
        text_outcome(r) == appended_pair_outcome(url@, key@, value@),
{
    match url::Url::parse(url) {
        Ok(mut u) => {
            u.query_pairs_mut().append_pair(key, value);
            Ok(u.to_string())
        },
        Err(e) => Err(e.to_string()),
    }
}

/// The SHA-256 digest of the UTF-8 bytes of `s` (`sha2::Sha256::digest`),
/// 32 bytes long.
#[verifier::external_body]
fn sha256_text(s: &str) -> (r: Vec<u8>)
    ensures
        r@ == sha256_of_text(s@),
        r@.len() == 32,
{
    <sha2::Sha256 as sha2::Digest>::digest(s.as_bytes()).to_vec()
}

/// Encodes bytes as unpadded URL-safe base64 (`URL_SAFE_NO_PAD.encode`).
#[verifier::external_body]
fn base64_url(bytes: &[u8]) -> (r: String)
    ensures
        r@ == base64_url_text(bytes@),
{
    base64::Engine::encode(&base64::engine::general_purpose::URL_SAFE_NO_PAD, bytes)
}

/// `length` bytes from the operating system's random source
/// (`rand::rngs::OsRng::fill_bytes`). Nothing is stated of their values.
#[verifier::external_body]
fn random_bytes(length: usize) -> (r: Vec<u8>)
    ensures
        r@.len() == length,
{
    let mut bytes = vec![0u8; length];
    rand::RngCore::fill_bytes(&mut rand::rngs::OsRng, &mut bytes);
    bytes
}

/// The PKCE `S256` challenge of a verifier: the unpadded URL-safe base64 of
/// its SHA-256 digest.
pub fn code_challenge(verifier: &str) -> (r: String)
    ensures
        r@ == base64_url_text(sha256_of_text(verifier@)),
{
    let hash = sha256_text(verifier);
    base64_url(hash.as_slice())
}

/// Unpadded URL-safe base64 text of `length` random bytes.
pub fn random_url_safe_bytes(length: usize) -> (r: String)
    ensures
        exists|b: Seq<u8>| b.len() == length && r@ == base64_url_text(b),
{
    let bytes = random_bytes(length);
    base64_url(bytes.as_slice())
}

/// Random bytes behind the OAuth `state` parameter.
pub const OAUTH_STATE_BYTES: usize = 24;

/// Random bytes behind the PKCE code verifier.
pub const PKCE_VERIFIER_BYTES: usize = 48;

/// The values an OAuth authorization starts with.
#[derive(Debug)]
pub struct PkceStart {
    pub state: String,
    pub code_verifier: String,
    pub code_challenge: String,
}

/// Fresh values for an authorization: a `state` of 24 random bytes and a
/// code verifier of 48, each as unpadded URL-safe base64, and the `S256`
/// challenge of the verifier.
pub fn pkce_start() -> (r: PkceStart)
    ensures
        exists|b: Seq<u8>| b.len() == OAUTH_STATE_BYTES && r.state@ == base64_url_text(b),
        exists|b: Seq<u8>| b.len() == PKCE_VERIFIER_BYTES && r.code_verifier@ == base64_url_text(b),
        r.code_challenge@ == base64_url_text(sha256_of_text(r.code_verifier@)),
{
    let state = random_url_safe_bytes(OAUTH_STATE_BYTES);
    let code_verifier = random_url_safe_bytes(PKCE_VERIFIER_BYTES);
    let code_challenge = code_challenge(code_verifier.as_str());
    PkceStart { state, code_verifier, code_challenge }
}

/// `s` with a `/` appended unless it already ends with one.
pub open spec fn with_trailing_slash(s: Seq<char>) -> Seq<char> {
    if s.len() > 0 && s.last() == '/' {
        s
    } else {
        s.push('/')
    }
}

/// The API base URL: the input trimmed, with a trailing `/` so that paths
/// join below it, parsed and serialized by `url`.
pub fn normalize_base_url(input: &str) -> (r: Result<String, YnabError>)
    ensures
        match url_parse_outcome(with_trailing_slash(trimmed(input@))) {
            Ok(u) => r is Ok && r->Ok_0@ == u,
            Err(e) => r is Err && is_url_error(r->Err_0, e),
        },
{
    let mut v = chars_of(trim(input).as_str());
    if !(v.len() > 0 && v[v.len() - 1] == '/') {
        v.push('/');
    }
    let normalized = string_of(v.as_slice());
    match parse_url(normalized.as_str()) {
        Ok(u) => Ok(u),
        Err(e) => Err(YnabError::Url(e)),
    }
}

/// `s` without its leading `/` characters (`trim_start_matches('/')`).
pub open spec fn strip_leading_slashes(s: Seq<char>) -> Seq<char>
    decreases s.len(),
{
    if s.len() > 0 && s[0] == '/' {
        strip_leading_slashes(s.drop_first())
    } else {
        s
    }
}

proof fn lemma_strip_from(s: Seq<char>, i: int)
    requires
        0 <= i <= s.len(),
        forall|j: int| 0 <= j < i ==> #[trigger] s[j] == '/',
        i < s.len() ==> s[i] != '/',
    ensures
        strip_leading_slashes(s) == s.subrange(i, s.len() as int),
    decreases i,
{
    if i == 0 {
        assert(s.subrange(0, s.len() as int) =~= s);
    } else {
        let r = s.drop_first();
        assert forall|j: int| 0 <= j < i - 1 implies #[trigger] r[j] == '/' by {
            assert(r[j] == s[j + 1]);
        }
        lemma_strip_from(r, i - 1);
        assert(r.subrange(i - 1, r.len() as int) =~= s.subrange(i, s.len() as int));
    }
}

/// The query pairs of an API request: `last_knowledge_of_server` first, when
/// given, then the listed ones.
pub open spec fn request_pairs(last_knowledge: Option<u64>, query: Seq<(String, String)>) -> Seq<
    (Seq<char>, Seq<char>),
> {
    match last_knowledge {
        Some(k) => seq![("last_knowledge_of_server"@, crate::text::decimal(k as nat))] + pairs_view(
            query,
        ),
        None => pairs_view(query),
    }
}

/// The URL of an API request: `path`, without its leading slashes, joined
/// onto the base URL, with the server knowledge and the query pairs
/// appended.
pub fn api_request_url(
    base_url: &str,
    path: &str,
    last_knowledge: Option<u64>,
    query: &Vec<(String, String)>,
) -> (r: Result<String, YnabError>)
    ensures
        match url_with_pairs(
            joined_url_outcome(base_url@, strip_leading_slashes(path@)),
            request_pairs(last_knowledge, query@),
        ) {
            Ok(u) => r is Ok && r->Ok_0@ == u,
            Err(e) => r is Err && is_url_error(r->Err_0, e),
        },
{
    let p = chars_of(path);
    let mut i: usize = 0;
    while i < p.len() && p[i] == '/'
        invariant
            p@ == path@,
            i <= p@.len(),
            forall|j: int| 0 <= j < i ==> #[trigger] p@[j] == '/',
        decreases p@.len() - i,
    {
        i = i + 1;
    }
    proof {
        lemma_strip_from(path@, i as int);
    }
    let relative = string_of(crate::text::slice_chars(p.as_slice(), i, p.len()).as_slice());
    let mut pairs: Vec<(String, String)> = Vec::new();
    if let Some(k) = last_knowledge {
        pairs.push(("last_knowledge_of_server".to_owned(), crate::text::u64_text(k)));
    }
    let mut j: usize = 0;
    while j < query.len()
        invariant
            j <= query@.len(),
            pairs_view(pairs@) == match last_knowledge {
                Some(k) => seq![("last_knowledge_of_server"@, crate::text::decimal(k as nat))]
                    + pairs_view(query@.take(j as int)),
                None => pairs_view(query@.take(j as int)),
            },
        decreases query@.len() - j,
    {
        let item = (query[j].0.clone(), query[j].1.clone());
        proof {
            assert(pairs_view(pairs@.push(item)) =~= pairs_view(pairs@).push((item.0@, item.1@)));
            assert(pairs_view(query@.take(j + 1)) =~= pairs_view(query@.take(j as int)).push(
                (query@[j as int].0@, query@[j as int].1@),
            ));
        }
        pairs.push(item);
        j = j + 1;
    }
    proof {
        assert(query@.take(query@.len() as int) =~= query@);
        if last_knowledge is None {
            assert(pairs_view(pairs@) =~= pairs_view(query@));
        }
    }
    let ghost start = joined_url_outcome(base_url@, relative@);
    let ghost all = pairs_view(pairs@);
    let mut current = join_url(base_url, relative.as_str());
    let mut k: usize = 0;
    while k < pairs.len()
        invariant
            k <= pairs@.len(),
            all == pairs_view(pairs@),
            text_outcome(current) == url_with_pairs(start, all.take(k as int)),
        decreases pairs@.len() - k,
    {
        proof {
            assert(all.take(k + 1).drop_last() =~= all.take(k as int));
        }
        current = match current {
            Ok(u) => append_query_pair(u.as_str(), pairs[k].0.as_str(), pairs[k].1.as_str()),
            Err(e) => Err(e),
        };
        k = k + 1;
    }
    proof {
        assert(all.take(pairs@.len() as int) =~= all);
    }
    match current {
        Ok(u) => Ok(u),
        Err(e) => Err(YnabError::Url(e)),
    }
}

} // verus!
