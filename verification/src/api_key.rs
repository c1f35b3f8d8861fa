//! The rotating access credential: extraction from the remote script bundle,
//! and a lazily-refreshed in-memory cache.
//!
//! The credential is embedded in the bundle text as a known JavaScript object
//! key followed by a quoted run of key characters. Extraction is specified
//! exactly over the character sequence of the body; only the regex engine
//! that performs the search is trusted.

use vstd::prelude::*;

verus! {

/// The capture pattern the bundle text is scraped with.
const API_KEY_PATTERN: &'static str = r#"gatewaySubscriptionKey:Q\("([a-zA-Z0-9-]+)"\)"#;

/// A character that may appear in a credential: ASCII letters, digits, and
/// the hyphen.
pub open spec fn spec_is_key_char(c: char) -> bool {
    ('a' <= c && c <= 'z') || ('A' <= c && c <= 'Z') || ('0' <= c && c <= '9') || c == '-'
}

/// The literal text that precedes the credential in the bundle.
pub open spec fn spec_key_marker() -> Seq<char> {
    "gatewaySubscriptionKey:Q(\""@
}

/// The end of the maximal run of key characters starting at `m`.
pub open spec fn spec_key_run_end(body: Seq<char>, m: int) -> int
    decreases body.len() - m,
    when 0 <= m <= body.len()
{
    if m < body.len() && spec_is_key_char(body[m]) {
        spec_key_run_end(body, m + 1)
    } else {
        m
    }
}

/// The credential pattern matches at position `i`: the marker, then a
/// non-empty maximal run of key characters, closed by a quote and a
/// parenthesis.
pub open spec fn spec_key_match_at(body: Seq<char>, i: int) -> bool {
    let mk = spec_key_marker();
    0 <= i && i + mk.len() <= body.len() && body.subrange(i, i + mk.len() as int) == mk && {
        let m = i + mk.len();
        let j = spec_key_run_end(body, m as int);
        j > m && j + 2 <= body.len() && body[j] == '"' && body[j + 1] == ')'
    }
}

/// The position of the leftmost match at or after `i`, if any.
pub open spec fn spec_first_key_match(body: Seq<char>, i: int) -> Option<int>
    decreases body.len() + 1 - i,
    when 0 <= i <= body.len() + 1
{
    if i + spec_key_marker().len() > body.len() {
        None
    } else if spec_key_match_at(body, i) {
        Some(i)
    } else {
        spec_first_key_match(body, i + 1)
    }
}

/// The value the capture pattern extracts from `body`: the key-character run
/// of the leftmost match, if the pattern matches at all.
pub open spec fn spec_extract_key(body: Seq<char>) -> Option<Seq<char>> {
    match spec_first_key_match(body, 0) {
        Some(i) => {
            let m = i + spec_key_marker().len();
            Some(body.subrange(m as int, spec_key_run_end(body, m as int)))
        },
        None => None,
    }
}

/// Relies on `regex::Regex::new` accepting the fixed, valid pattern
/// `API_KEY_PATTERN`, and on `regex::Regex::captures` returning the first
/// (leftmost) match of that pattern in the haystack. For this pattern a match
/// starting at `i` is the literal marker followed by a maximal, non-empty run
/// of characters of the bracket class, closed by `")` — the class excludes
/// `"`, so backtracking cannot shorten the run — and the first capture group
/// is exactly that run. `Captures::get(1)` returns that group's text.
#[verifier::external_body]
fn regex_capture_api_key(body: &str) -> (r: Option<String>)
    ensures
        match r {
            Some(key) => spec_extract_key(body@) == Some(key@),
            None => spec_extract_key(body@) is None,
        },
{
    let re = regex::Regex::new(API_KEY_PATTERN).expect("invalid key pattern");
    re.captures(body).and_then(|captures| captures.get(1)).map(|m| m.as_str().to_string())
}

/// Why the credential could not be acquired.
#[derive(Debug, PartialEq, Eq)]
pub enum ApiKeyError {
    /// The bundle request failed in the transport.
    RequestError(String),
    /// The bundle request returned a non-success status.
    ResponseError(u16),
    /// The bundle response body could not be read.
    ResponseBodyError(String),
    /// The capture pattern found no credential in the bundle.
    ApiKeyNotFound,
}

/// An access credential for the upstream service.
#[derive(Clone, Debug)]
pub struct ApiKey {
    key: String,
}

impl View for ApiKey {
    type V = Seq<char>;

    closed spec fn view(&self) -> Seq<char> {
        self.key@
    }
}

impl ApiKey {
    /// Wraps a raw credential string.
    pub fn from_raw(key: &str) -> (r: Self)
        ensures
            r@ == key@,
    {
        Self { key: key.to_owned() }
    }

    /// The credential as a string slice.
    pub fn get(&self) -> (r: &str)
        ensures
            r@ == self@,
    {
        self.key.as_str()
    }

    /// A copy of the credential with the same view.
    pub fn duplicate(&self) -> (r: Self)
        ensures
            r@ == self@,
    {
        ApiKey { key: self.key.clone() }
    }
}

/// Applies the fixed capture pattern to a bundle body.
pub fn extract_api_key(body: &str) -> (r: Result<ApiKey, ApiKeyError>)
    ensures
        match r {
            Ok(key) => spec_extract_key(body@) == Some(key@),
            Err(e) => e == ApiKeyError::ApiKeyNotFound && spec_extract_key(body@) is None,
        },
{
    match regex_capture_api_key(body) {
        Some(key) => Ok(ApiKey { key }),
        None => Err(ApiKeyError::ApiKeyNotFound),
    }
}

/// What one attempt to fetch the script bundle came to. The application
/// performs the request and reports back: it reads the body only when
/// `is_success_status` allows, and hands the body text over unchanged.
pub enum BundleFetchEvent {
    /// The request failed in the transport; no response arrived.
    TransportFailed(String),
    /// A response arrived with a non-success status; the body was not read.
    StatusOnly(u16),
    /// A response arrived with a success status but its body was unreadable.
    BodyUnreadable(String),
    /// A response arrived with a success status and this body text.
    Body(String),
}

/// The in-memory cache of the access credential: absent until a bundle fetch
/// succeeds, then held for the lifetime of the cache, re-fetched only on
/// demand.
pub struct CredentialCache {
    key: Option<ApiKey>,
}

impl CredentialCache {
    /// The cached credential, as a character sequence.
    pub closed spec fn cached(&self) -> Option<Seq<char>> {
        match self.key {
            Some(k) => Some(k@),
            None => None,
        }
    }

    /// A fetch is needed exactly when a refresh is forced or nothing is
    /// cached yet.
    pub open spec fn spec_needs_fetch(&self, force_refresh: bool) -> bool {
        force_refresh || self.cached() is None
    }

    /// An empty cache.
    pub fn new() -> (c: Self)
        ensures
            c.cached() is None,
    {
        CredentialCache { key: None }
    }

    /// Must the bundle be fetched before a credential can be returned?
    pub fn needs_fetch(&self, force_refresh: bool) -> (r: bool)
        ensures
            r == self.spec_needs_fetch(force_refresh),
    {
        force_refresh || self.key.is_none()
    }

    /// The cached credential, if any.
    pub fn cached_key(&self) -> (r: Option<&ApiKey>)
        ensures
            match r {
                Some(k) => self.cached() == Some(k@),
                None => self.cached() is None,
            },
    {
        self.key.as_ref()
    }

    /// Accepts the outcome of one bundle fetch: applies the error taxonomy,
    /// extracts the credential from a body, and caches it on success. On any
    /// failure the cache is left as it was.
    pub fn accept(&mut self, event: BundleFetchEvent) -> (r: Result<ApiKey, ApiKeyError>)
        ensures
            match event {
                BundleFetchEvent::TransportFailed(m) => r == Err::<ApiKey, ApiKeyError>(
                    ApiKeyError::RequestError(m),
                ) && final(self).cached() == old(self).cached(),
                BundleFetchEvent::StatusOnly(status) => r == Err::<ApiKey, ApiKeyError>(
                    ApiKeyError::ResponseError(status),
                ) && final(self).cached() == old(self).cached(),
                BundleFetchEvent::BodyUnreadable(m) => r == Err::<ApiKey, ApiKeyError>(
                    ApiKeyError::ResponseBodyError(m),
                ) && final(self).cached() == old(self).cached(),
                BundleFetchEvent::Body(body) => match spec_extract_key(body@) {
                    Some(k) => r matches Ok(key) && key@ == k && final(self).cached() == Some(k),
                    None => r == Err::<ApiKey, ApiKeyError>(ApiKeyError::ApiKeyNotFound)
                        && final(self).cached() == old(self).cached(),
                },
            },
    {
        match event {
            BundleFetchEvent::TransportFailed(m) => Err(ApiKeyError::RequestError(m)),
            BundleFetchEvent::StatusOnly(status) => Err(ApiKeyError::ResponseError(status)),
            BundleFetchEvent::BodyUnreadable(m) => Err(ApiKeyError::ResponseBodyError(m)),
            BundleFetchEvent::Body(body) => match extract_api_key(body.as_str()) {
                Ok(key) => {
                    self.key = Some(key.duplicate());
                    Ok(key)
                },
                Err(e) => Err(e),
            },
        }
    }
}

/// Once a credential is cached, acquiring without a forced refresh needs no
/// fetch: the cached value itself is returned.
pub proof fn lemma_cached_acquire_needs_no_fetch(cache: CredentialCache, key: Seq<char>)
    requires
        cache.cached() == Some(key),
    ensures
        !cache.spec_needs_fetch(false),
{
}

/// A forced refresh always fetches, whatever is cached.
pub proof fn lemma_force_refresh_always_fetches(cache: CredentialCache)
    ensures
        cache.spec_needs_fetch(true),
{
}

} // verus!
