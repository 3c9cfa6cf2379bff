//! HTTP client settings, the retry schedule and the fallback rule.

use vstd::prelude::*;
use std::time::Duration;
use vstd::arithmetic::power2::{pow2, lemma2_to64, lemma_pow2_unfold, lemma_pow2_strictly_increases};
use crate::text::{
    concat3, contains, copy_str, extend_chars, find_char, first_index_of, skip_chars_str, split_on,
    split_on_str, str_contains, str_eq, string_from, take_chars_str, to_lowercase, trim, trim_str,
    unicode_lower, views_of,
};

verus! {

/// Default user agent (Chrome 100).
pub const DEFAULT_USER_AGENT: &'static str =
    "Mozilla/5.0 (Windows NT 10.0; Win64; x64) AppleWebKit/537.36 (KHTML, like Gecko) Chrome/100.0.4896.133 Safari/537.36";

/// Default timeout in seconds.
pub const DEFAULT_TIMEOUT: u64 = 10;

/// Default retry count.
pub const DEFAULT_RETRIES: u32 = 3;

/// The whole seconds of a duration, as `Duration::as_secs` gives them.
pub uninterp spec fn duration_secs(d: Duration) -> nat;

/// What `Duration::from_secs` gives for a number of seconds.
pub uninterp spec fn secs_duration(secs: u64) -> Duration;

/// `Duration::from_secs`. Trusted: the result is `secs_duration(secs)`, and
/// it holds `secs` whole seconds, as its documentation says.
#[verifier::external_body]
pub(crate) fn duration_from_secs(secs: u64) -> (d: Duration)
    ensures
        d == secs_duration(secs),
        duration_secs(d) == secs,
{
    Duration::from_secs(secs)
}

/// `Duration::as_secs`. Trusted: the result is `duration_secs(d)`.
#[verifier::external_body]
pub(crate) fn duration_as_secs(d: &Duration) -> (r: u64)
    ensures
        r == duration_secs(*d),
{
    d.as_secs()
}

/// `Clone` of `Duration`. Trusted: `Duration` is `Copy`, so the clone is the
/// same value.
pub assume_specification[ <Duration as Clone>::clone ](d: &Duration) -> (r: Duration)
    ensures
        r == *d,
;

/// HTTP backend.
#[derive(Debug, Clone, Copy, PartialEq, Eq, Structural)]
pub enum HttpBackend {
    /// The plain HTTP client.
    Reqwest,
    /// CloudFlare bypass through the Python `cloudscraper` bridge.
    CloudScraper,
}

/// A list of names and values in which no name occurs twice, read as a map.
pub open spec fn pairs_map(v: Seq<(String, String)>) -> Map<Seq<char>, Seq<char>>
    decreases v.len(),
{
    if v.len() == 0 {
        Map::empty()
    } else {
        pairs_map(v.drop_last()).insert(v.last().0@, v.last().1@)
    }
}

/// No name occurs twice.
pub open spec fn unique_names(v: Seq<(String, String)>) -> bool {
    forall|i: int, j: int| 0 <= i < j < v.len() ==> v[i].0@ != v[j].0@
}

/// HTTP client settings.
#[derive(Debug, Clone)]
pub struct HttpConfig {
    /// User agent.
    pub user_agent: String,
    /// Request timeout.
    pub timeout: Duration,
    /// Number of retries after the first attempt.
    pub retries: u32,
    /// HTTP/HTTPS proxy URL.
    pub proxy: Option<String>,
    /// SOCKS5 proxy URL.
    pub socks_proxy: Option<String>,
    /// Whether certificates are checked.
    pub verify_ssl: bool,
    /// Extra headers, one per name.
    pub headers: Vec<(String, String)>,
    /// Cookies, one per name.
    pub cookies: Vec<(String, String)>,
    /// Backend to use.
    pub backend: HttpBackend,
    /// Debug output.
    pub debug: bool,
}

impl HttpConfig {
    /// Headers and cookies each hold a name at most once.
    pub open spec fn wf(&self) -> bool {
        unique_names(self.headers@) && unique_names(self.cookies@)
    }
}

impl Default for HttpConfig {
    fn default() -> (r: Self)
        ensures
            r.user_agent@ == DEFAULT_USER_AGENT@,
            r.timeout == secs_duration(DEFAULT_TIMEOUT),
            duration_secs(r.timeout) == DEFAULT_TIMEOUT,
            r.retries == DEFAULT_RETRIES,
            r.proxy is None,
            r.socks_proxy is None,
            r.verify_ssl,
            r.headers@.len() == 0,
            r.cookies@.len() == 0,
            r.backend == HttpBackend::Reqwest,
            !r.debug,
            r.wf(),
    {
        HttpConfig {
            user_agent: copy_str(DEFAULT_USER_AGENT),
            timeout: duration_from_secs(DEFAULT_TIMEOUT),
            retries: DEFAULT_RETRIES,
            proxy: None,
            socks_proxy: None,
            verify_ssl: true,
            headers: Vec::new(),
            cookies: Vec::new(),
            backend: HttpBackend::Reqwest,
            debug: false,
        }
    }
}

proof fn lemma_pairs_map_domain(v: Seq<(String, String)>, k: Seq<char>)
    ensures
        pairs_map(v).contains_key(k) <==> exists|i: int| 0 <= i < v.len() && v[i].0@ == k,
    decreases v.len(),
{
    if v.len() > 0 {
        lemma_pairs_map_domain(v.drop_last(), k);
        if pairs_map(v.drop_last()).contains_key(k) {
            let i = choose|i: int| 0 <= i < v.drop_last().len() && v.drop_last()[i].0@ == k;
            assert(v[i].0@ == k);
        }
        if exists|i: int| 0 <= i < v.len() && v[i].0@ == k {
            let i = choose|i: int| 0 <= i < v.len() && v[i].0@ == k;
            if i < v.len() - 1 {
                assert(v.drop_last()[i].0@ == k);
            }
        }
    }
}

proof fn lemma_pairs_map_update(v: Seq<(String, String)>, i: int, p: (String, String))
    requires
        unique_names(v),
        0 <= i < v.len(),
        v[i].0@ == p.0@,
    ensures
        pairs_map(v.update(i, p)) == pairs_map(v).insert(p.0@, p.1@),
        unique_names(v.update(i, p)),
    decreases v.len(),
{
    let w = v.update(i, p);
    if i == v.len() - 1 {
        assert(w.drop_last() =~= v.drop_last());
        assert(pairs_map(w) =~= pairs_map(v).insert(p.0@, p.1@));
    } else {
        assert(w.drop_last() =~= v.drop_last().update(i, p));
        lemma_pairs_map_update(v.drop_last(), i, p);
        assert(v.last().0@ != p.0@);
        assert(pairs_map(w) =~= pairs_map(v).insert(p.0@, p.1@));
    }
}

/// Sets `name` to `value`: the pair with that name gets the new value, or
/// the pair is appended.
fn insert_pair(v: &mut Vec<(String, String)>, name: &str, value: &str)
    requires
        unique_names(old(v)@),
    ensures
        unique_names(final(v)@),
        pairs_map(final(v)@) == pairs_map(old(v)@).insert(name@, value@),
{
    let mut i: usize = 0;
    while i < v.len()
        invariant
            i <= v.len(),
            v@ == old(v)@,
            unique_names(v@),
            forall|j: int| 0 <= j < i ==> v@[j].0@ != name@,
        decreases v.len() - i,
    {
        if str_eq(v[i].0.as_str(), name) {
            let p = (copy_str(name), copy_str(value));
            proof {
                lemma_pairs_map_update(v@, i as int, p);
            }
            v.set(i, p);
            return;
        }
        i = i + 1;
    }
    let p = (copy_str(name), copy_str(value));
    let ghost before = v@;
    v.push(p);
    proof {
        assert(v@.drop_last() =~= before);
        assert forall|a: int, b: int| 0 <= a < b < v@.len() implies v@[a].0@ != v@[b].0@ by {
            if b == v@.len() - 1 {
                assert(v@[a] == before[a]);
            } else {
                assert(v@[a] == before[a] && v@[b] == before[b]);
            }
        }
    }
}

/// Builder of HTTP client settings.
#[derive(Debug, Clone)]
pub struct HttpClientBuilder {
    /// The settings built so far.
    pub config: HttpConfig,
}

impl HttpClientBuilder {
    /// A builder that starts from the default settings.
    pub fn new() -> (r: Self)
        ensures
            r.config.user_agent@ == DEFAULT_USER_AGENT@,
            r.config.timeout == secs_duration(DEFAULT_TIMEOUT),
            duration_secs(r.config.timeout) == DEFAULT_TIMEOUT,
            r.config.retries == DEFAULT_RETRIES,
            r.config.proxy is None,
            r.config.socks_proxy is None,
            r.config.verify_ssl,
            r.config.headers@.len() == 0,
            r.config.cookies@.len() == 0,
            r.config.backend == HttpBackend::Reqwest,
            !r.config.debug,
            r.config.wf(),
    {
        HttpClientBuilder { config: HttpConfig::default() }
    }

    /// Sets the user agent.
    pub fn user_agent(self, ua: &str) -> (r: Self)
        ensures
            r.config == (HttpConfig { user_agent: r.config.user_agent, ..self.config }),
            r.config.user_agent@ == ua@,
    {
        let mut c = self.config;
        c.user_agent = copy_str(ua);
        HttpClientBuilder { config: c }
    }

    /// Sets the timeout.
    pub fn timeout(self, timeout: Duration) -> (r: Self)
        ensures
            r.config == (HttpConfig { timeout, ..self.config }),
    {
        let mut c = self.config;
        c.timeout = timeout;
        HttpClientBuilder { config: c }
    }

    /// Sets the retry count.
    pub fn retries(self, retries: u32) -> (r: Self)
        ensures
            r.config == (HttpConfig { retries, ..self.config }),
    {
        let mut c = self.config;
        c.retries = retries;
        HttpClientBuilder { config: c }
    }

    /// Sets the HTTP/HTTPS proxy.
    pub fn proxy(self, proxy: &str) -> (r: Self)
        ensures
            r.config == (HttpConfig { proxy: r.config.proxy, ..self.config }),
            r.config.proxy matches Some(p) && p@ == proxy@,
    {
        let mut c = self.config;
        c.proxy = Some(copy_str(proxy));
        HttpClientBuilder { config: c }
    }

    /// Sets the SOCKS5 proxy.
    pub fn socks_proxy(self, proxy: &str) -> (r: Self)
        ensures
            r.config == (HttpConfig { socks_proxy: r.config.socks_proxy, ..self.config }),
            r.config.socks_proxy matches Some(p) && p@ == proxy@,
    {
        let mut c = self.config;
        c.socks_proxy = Some(copy_str(proxy));
        HttpClientBuilder { config: c }
    }

    /// Sets certificate checking.
    pub fn verify_ssl(self, verify: bool) -> (r: Self)
        ensures
            r.config == (HttpConfig { verify_ssl: verify, ..self.config }),
    {
        let mut c = self.config;
        c.verify_ssl = verify;
        HttpClientBuilder { config: c }
    }

    /// Sets a header; a header of the same name is replaced.
    pub fn header(self, key: &str, value: &str) -> (r: Self)
        requires
            self.config.wf(),
        ensures
            r.config.wf(),
            r.config == (HttpConfig { headers: r.config.headers, ..self.config }),
            pairs_map(r.config.headers@) == pairs_map(self.config.headers@).insert(key@, value@),
    {
        let mut c = self.config;
        insert_pair(&mut c.headers, key, value);
        HttpClientBuilder { config: c }
    }

    /// Sets a cookie; a cookie of the same name is replaced.
    pub fn cookie(self, key: &str, value: &str) -> (r: Self)
        requires
            self.config.wf(),
        ensures
            r.config.wf(),
            r.config == (HttpConfig { cookies: r.config.cookies, ..self.config }),
            pairs_map(r.config.cookies@) == pairs_map(self.config.cookies@).insert(key@, value@),
    {
        let mut c = self.config;
        insert_pair(&mut c.cookies, key, value);
        HttpClientBuilder { config: c }
    }

    /// Sets the backend.
    pub fn backend(self, backend: HttpBackend) -> (r: Self)
        ensures
            r.config == (HttpConfig { backend, ..self.config }),
    {
        let mut c = self.config;
        c.backend = backend;
        HttpClientBuilder { config: c }
    }

    /// Sets debug output.
    pub fn debug(self, debug: bool) -> (r: Self)
        ensures
            r.config == (HttpConfig { debug, ..self.config }),
    {
        let mut c = self.config;
        c.debug = debug;
        HttpClientBuilder { config: c }
    }
}

/// What a setting read after a write gives back: the value last written under
/// that name, while other names keep theirs.
pub proof fn lemma_cookie_read_after_write(
    b: HttpClientBuilder,
    r: HttpClientBuilder,
    key: Seq<char>,
    value: Seq<char>,
    other: Seq<char>,
)
    requires
        pairs_map(r.config.cookies@) == pairs_map(b.config.cookies@).insert(key, value),
    ensures
        pairs_map(r.config.cookies@)[key] == value,
        other != key ==> pairs_map(r.config.cookies@).contains_key(other) == pairs_map(
            b.config.cookies@,
        ).contains_key(other),
        other != key ==> pairs_map(r.config.cookies@)[other] == pairs_map(b.config.cookies@)[other],
{
}

/// Status codes after which a request is tried again: 429, 500, 502, 503, 504.
pub open spec fn retryable_status(code: u16) -> bool {
    code == 429 || code == 500 || code == 502 || code == 503 || code == 504
}

/// Whether a response with this status is tried again.
pub fn is_retryable_status(code: u16) -> (r: bool)
    ensures
        r == retryable_status(code),
{
    code == 429 || code == 500 || code == 502 || code == 503 || code == 504
}

/// The outcome of one attempt.
#[derive(Debug, Clone, Copy, PartialEq, Eq, Structural)]
pub enum Attempt {
    /// A response with this status arrived.
    Status(u16),
    /// The request failed before a response arrived.
    Failed,
}

/// What the retry loop does after an attempt.
#[derive(Debug, Clone, Copy, PartialEq, Eq, Structural)]
pub enum RetryAction {
    /// Hand the response to the caller.
    Return,
    /// Wait this many seconds, then try again.
    Retry(u64),
    /// Give up with the last error.
    GiveUp,
}

/// The retry rule: a success, or a status that is not retried, is returned;
/// otherwise the request is tried again after `2^attempt` seconds while
/// attempts remain (attempts are numbered from 0 to `retries`).
pub open spec fn retry_action(attempt: u32, retries: u32, outcome: Attempt) -> RetryAction {
    let again = match outcome {
        Attempt::Status(code) => !(200 <= code < 300) && retryable_status(code),
        Attempt::Failed => true,
    };
    if !again {
        RetryAction::Return
    } else if attempt < retries {
        RetryAction::Retry(pow2(attempt as nat) as u64)
    } else {
        RetryAction::GiveUp
    }
}

/// The decision after attempt number `attempt` of `retries + 1`.
pub fn next_retry_action(attempt: u32, retries: u32, outcome: Attempt) -> (r: RetryAction)
    requires
        attempt <= retries,
        attempt < retries ==> attempt < 64,
    ensures
        r == retry_action(attempt, retries, outcome),
        r matches RetryAction::Retry(d) ==> d == pow2(attempt as nat),
{
    let again = match outcome {
        Attempt::Status(code) => !(200 <= code && code < 300) && is_retryable_status(code),
        Attempt::Failed => true,
    };
    if !again {
        RetryAction::Return
    } else if attempt < retries {
        let mut d: u64 = 1;
        let mut i: u32 = 0;
        proof {
            lemma2_to64();
        }
        while i < attempt
            invariant
                i <= attempt < 64,
                d == pow2(i as nat),
            decreases attempt - i,
        {
            proof {
                lemma2_to64();
                lemma_pow2_unfold((i + 1) as nat);
                if i + 1 < 64 {
                    lemma_pow2_strictly_increases((i + 1) as nat, 64);
                }
            }
            d = d * 2;
            i = i + 1;
        }
        RetryAction::Retry(d)
    } else {
        RetryAction::GiveUp
    }
}

/// `name=value` pairs joined by `; `.
pub open spec fn cookie_header_text(v: Seq<(String, String)>) -> Seq<char>
    decreases v.len(),
{
    if v.len() == 0 {
        Seq::empty()
    } else if v.len() == 1 {
        v[0].0@ + "="@ + v[0].1@
    } else {
        cookie_header_text(v.drop_last()) + "; "@ + v.last().0@ + "="@ + v.last().1@
    }
}

/// The `Cookie` header for a list of cookies.
pub fn build_cookie_header(cookies: &Vec<(String, String)>) -> (r: String)
    ensures
        r@ == cookie_header_text(cookies@),
{
    let mut out: Vec<char> = Vec::new();
    let mut i: usize = 0;
    while i < cookies.len()
        invariant
            i <= cookies.len(),
            out@ == cookie_header_text(cookies@.take(i as int)),
        decreases cookies.len() - i,
    {
        proof {
            assert(cookies@.take(i + 1).drop_last() =~= cookies@.take(i as int));
        }
        if i > 0 {
            extend_chars(&mut out, "; ");
        }
        extend_chars(&mut out, cookies[i].0.as_str());
        extend_chars(&mut out, "=");
        extend_chars(&mut out, cookies[i].1.as_str());
        i = i + 1;
        proof {
            if i == 1 {
                assert(out@ =~= cookie_header_text(cookies@.take(i as int)));
            } else {
                assert(out@ =~= cookie_header_text(cookies@.take(i as int)));
            }
        }
    }
    assert(cookies@.take(cookies.len() as int) =~= cookies@);
    string_from(&out)
}

/// Errors after which the CloudScraper backend is tried: the lowercased
/// message mentions CloudFlare, 403, cf-ray or "just a moment".
pub open spec fn falls_back(message: Seq<char>) -> bool {
    let l = unicode_lower(message);
    contains(l, "cloudflare"@) || contains(l, "403"@) || contains(l, "cf-ray"@) || contains(
        l,
        "just a moment"@,
    )
}

/// Whether a failed plain request is tried again through CloudScraper.
pub fn should_fallback(error_message: &str) -> (r: bool)
    ensures
        r == falls_back(error_message@),
{
    let l = to_lowercase(error_message);
    str_contains(l.as_str(), "cloudflare") || str_contains(l.as_str(), "403") || str_contains(
        l.as_str(),
        "cf-ray",
    ) || str_contains(l.as_str(), "just a moment")
}

/// The cookie of one `name=value` item, both sides trimmed; `None` when the
/// item has no `=`.
pub open spec fn cookie_item(item: Seq<char>) -> Option<(Seq<char>, Seq<char>)> {
    let t = trim(item);
    match first_index_of(t, '=') {
        Some(i) => Some((trim(t.take(i)), trim(t.skip(i + 1)))),
        None => None,
    }
}

/// The cookies of a `name1=value1,name2=value2` setting, as a map from name
/// to value: items without `=` are passed over, and of a name given twice
/// the later value stays.
pub open spec fn cookie_map(items: Seq<Seq<char>>) -> Map<Seq<char>, Seq<char>>
    decreases items.len(),
{
    if items.len() == 0 {
        Map::empty()
    } else {
        let rest = cookie_map(items.drop_last());
        match cookie_item(items.last()) {
            Some(p) => rest.insert(p.0, p.1),
            None => rest,
        }
    }
}

/// The cookies of one domain's setting in the `[cookies]` section
/// (`name1=value1,name2=value2`; the reading of `Config::cookies`), one pair
/// per name, the later value of a repeated name kept.
pub fn cookie_pairs(setting: &str) -> (r: Vec<(String, String)>)
    ensures
        unique_names(r@),
        pairs_map(r@) == cookie_map(split_on(setting@, ',')),
{
    let items = split_on_str(setting, ',');
    let ghost iv = views_of(items@);
    let mut out: Vec<(String, String)> = Vec::new();
    let mut i: usize = 0;
    assert(pairs_map(out@) =~= Map::<Seq<char>, Seq<char>>::empty());
    while i < items.len()
        invariant
            i <= items.len(),
            iv == views_of(items@),
            iv == split_on(setting@, ','),
            unique_names(out@),
            pairs_map(out@) == cookie_map(iv.take(i as int)),
        decreases items.len() - i,
    {
        proof {
            assert(iv.take(i + 1).drop_last() =~= iv.take(i as int));
            assert(iv.take(i + 1).last() == items@[i as int]@);
        }
        let t = trim_str(items[i].as_str());
        match find_char(t.as_str(), '=') {
            Some(k) => {
                let name_part = take_chars_str(t.as_str(), k);
                let from = skip_chars_str(t.as_str(), k);
                let value_part = skip_chars_str(from.as_str(), 1);
                assert(value_part@ =~= t@.skip(k + 1));
                let name = trim_str(name_part.as_str());
                let value = trim_str(value_part.as_str());
                insert_pair(&mut out, name.as_str(), value.as_str());
            },
            None => {},
        }
        i = i + 1;
    }
    assert(iv.take(items.len() as int) =~= iv);
    out
}

} // verus!
