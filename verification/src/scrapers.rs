//! The metadata sources: where each is reached and the text rules each one
//! applies to what it reads.

use vstd::prelude::*;
use crate::scraper::{IdFormat, Scraper};
use crate::text::{
    concat, concat3, copy_str, ends_with, find_char, find_str, first_index_of, first_occurrence,
    replace, replace_str, skip_chars_str, squash_ws, squash_ws_str, take_chars_str, to_lowercase,
    to_uppercase, trim, trim_str, unicode_lower, unicode_upper,
};

verus! {

/// `clean_text` of most sources: the words of the text joined by single spaces.
pub open spec fn words_joined(s: Seq<char>) -> Seq<char> {
    squash_ws(s)
}

/// The five entities `&amp; &lt; &gt; &quot; &#39;` decoded, in that order.
pub open spec fn entities_decoded(s: Seq<char>) -> Seq<char> {
    replace(
        replace(
            replace(replace(replace(s, "&amp;"@, "&"@), "&lt;"@, "<"@), "&gt;"@, ">"@),
            "&quot;"@,
            "\""@,
        ),
        "&#39;"@,
        "'"@,
    )
}

/// `clean_text` of Jav321 and Mgstage: trimmed, then the entities decoded.
pub open spec fn trimmed_decoded(s: Seq<char>) -> Seq<char> {
    entities_decoded(trim(s))
}

/// `s` up to, not including, the first `c`.
pub open spec fn before_char(s: Seq<char>, c: char) -> Seq<char> {
    match first_index_of(s, c) {
        Some(i) => s.take(i),
        None => s,
    }
}

pub(crate) fn before_char_str(s: &str, c: char) -> (r: String)
    ensures
        r@ == before_char(s@, c),
{
    match find_char(s, c) {
        Some(i) => take_chars_str(s, i),
        None => copy_str(s),
    }
}

fn decode_entities(s: &str) -> (r: String)
    ensures
        r@ == entities_decoded(s@),
{
    proof {
        reveal_strlit("&amp;");
        reveal_strlit("&lt;");
        reveal_strlit("&gt;");
        reveal_strlit("&quot;");
        reveal_strlit("&#39;");
    }
    let a = replace_str(s, "&amp;", "&");
    let b = replace_str(a.as_str(), "&lt;", "<");
    let c = replace_str(b.as_str(), "&gt;", ">");
    let d = replace_str(c.as_str(), "&quot;", "\"");
    replace_str(d.as_str(), "&#39;", "'")
}

pub(crate) fn trim_decode(s: &str) -> (r: String)
    ensures
        r@ == trimmed_decoded(s@),
{
    let t = trim_str(s);
    decode_entities(t.as_str())
}

// ---------------------------------------------------------------------------
// AVMOO
// ---------------------------------------------------------------------------

/// AVMOO (a JAV aggregator).
#[derive(Debug, Clone)]
pub struct AvmooScraper {
    /// Base URL (mirrors differ).
    pub base_url: String,
}

impl AvmooScraper {
    /// The scraper for `https://avmoo.com`.
    pub fn new() -> (r: Self)
        ensures
            r.base_url@ == "https://avmoo.com"@,
    {
        AvmooScraper { base_url: copy_str("https://avmoo.com") }
    }

    /// The scraper for a mirror.
    pub fn with_base_url(base_url: String) -> (r: Self)
        ensures
            r.base_url == base_url,
    {
        AvmooScraper { base_url }
    }

    /// The words of the text joined by single spaces.
    pub fn clean_text(&self, text: &str) -> (r: String)
        ensures
            r@ == words_joined(text@),
    {
        squash_ws_str(text)
    }
}

impl Scraper for AvmooScraper {
    fn source(&self) -> (r: &'static str)
        ensures
            r@ == "avmoo"@,
    {
        "avmoo"
    }

    fn imagecut(&self) -> (r: i32)
        ensures
            r == 1,
    {
        1
    }

    fn preferred_id_format(&self) -> (r: IdFormat)
        ensures
            r == IdFormat::Display,
    {
        IdFormat::Display
    }

    /// `<base>/movie/<NUMBER>`, the number upper-cased.
    fn query_number_url(&self, number: &str) -> (r: String)
        ensures
            r@ == self.base_url@ + "/movie/"@ + unicode_upper(number@),
    {
        let n = to_uppercase(number);
        concat3(self.base_url.as_str(), "/movie/", n.as_str())
    }
}

// ---------------------------------------------------------------------------
// DMM
// ---------------------------------------------------------------------------

/// DMM / FANZA, the official catalogue.
#[derive(Debug, Clone)]
pub struct DmmScraper {
    /// Base URL.
    pub base_url: String,
}

/// The content id in a DMM URL: what follows the first `cid=`, up to the
/// next `/` or `&`, when it is not empty.
#[verifier::opaque]
pub open spec fn cid_in_url(url: Seq<char>) -> Option<Seq<char>> {
    match first_occurrence(url, "cid="@) {
        Some(i) => cid_at_start(url.skip(i + 4)),
        None => None,
    }
}

proof fn lemma_cid_found(url: Seq<char>, i: int)
    requires
        first_occurrence(url, "cid="@) == Some(i),
    ensures
        cid_in_url(url) == cid_at_start(url.skip(i + 4)),
{
    reveal(cid_in_url);
}

proof fn lemma_cid_missing(url: Seq<char>)
    requires
        !crate::text::contains(url, "cid="@),
    ensures
        cid_in_url(url) is None,
{
    reveal(cid_in_url);
}

/// The text up to the first `/` or `&`, when it is not empty.
pub open spec fn cid_at_start(rest: Seq<char>) -> Option<Seq<char>> {
    let cid = before_char(before_char(rest, '/'), '&');
    if cid.len() > 0 {
        Some(cid)
    } else {
        None
    }
}

fn cid_after(url: &str, i: usize) -> (r: Option<String>)
    requires
        i + 4 <= url@.len(),
    ensures
        r matches Some(c) ==> cid_at_start(url@.skip(i + 4)) == Some(c@),
        r is None ==> cid_at_start(url@.skip(i + 4)) is None,
{
    let from = skip_chars_str(url, i);
    let rest = skip_chars_str(from.as_str(), 4);
    assert(rest@ =~= url@.skip(i + 4));
    cid_at_start_str(rest.as_str())
}

fn cid_at_start_str(rest: &str) -> (r: Option<String>)
    ensures
        r matches Some(c) ==> cid_at_start(rest@) == Some(c@),
        r is None ==> cid_at_start(rest@) is None,
{
    let a = before_char_str(rest, '/');
    let cid = before_char_str(a.as_str(), '&');
    if cid.as_str().is_empty() {
        None
    } else {
        Some(cid)
    }
}

impl DmmScraper {
    /// The scraper for `https://www.dmm.co.jp`.
    pub fn new() -> (r: Self)
        ensures
            r.base_url@ == "https://www.dmm.co.jp"@,
    {
        DmmScraper { base_url: copy_str("https://www.dmm.co.jp") }
    }

    /// The scraper for another base URL.
    pub fn with_base_url(base_url: String) -> (r: Self)
        ensures
            r.base_url == base_url,
    {
        DmmScraper { base_url }
    }

    /// The content id in a product URL (`.../cid=ssis00123/` gives `ssis00123`).
    pub fn extract_cid_from_url(&self, url: &str) -> (r: Option<String>)
        ensures
            r matches Some(c) ==> cid_in_url(url@) == Some(c@),
            r is None ==> cid_in_url(url@) is None,
    {
        let found = find_str(url, "cid=");
        match found {
            Some(i) => {
                proof {
                    reveal_strlit("cid=");
                    assert(i + 4 <= url@.len());
                }
                let r = cid_after(url, i);
                proof {
                    lemma_cid_found(url@, i as int);
                }
                r
            },
            None => {
                proof {
                    lemma_cid_missing(url@);
                }
                None
            },
        }
    }

    /// The words of the text joined by single spaces.
    pub fn clean_text(&self, text: &str) -> (r: String)
        ensures
            r@ == words_joined(text@),
    {
        squash_ws_str(text)
    }
}

impl Scraper for DmmScraper {
    fn source(&self) -> (r: &'static str)
        ensures
            r@ == "dmm"@,
    {
        "dmm"
    }

    fn imagecut(&self) -> (r: i32)
        ensures
            r == 1,
    {
        1
    }

    fn preferred_id_format(&self) -> (r: IdFormat)
        ensures
            r == IdFormat::Content,
    {
        IdFormat::Content
    }

    /// The catalogue search page for the content id.
    fn query_number_url(&self, number: &str) -> (r: String)
        ensures
            r@ == self.base_url@ + "/search/=/searchstr="@ + number@ + "/"@,
    {
        let a = concat3(self.base_url.as_str(), "/search/=/searchstr=", number);
        concat(a.as_str(), "/")
    }
}

// ---------------------------------------------------------------------------
// FC2
// ---------------------------------------------------------------------------

/// FC2 Club (FC2-PPV titles).
#[derive(Debug, Clone)]
pub struct Fc2Scraper {
    /// Base URL.
    pub base_url: String,
}

/// The bare FC2 id: upper-cased, the prefixes `FC2-PPV-`, `FC2-`, `FC2PPV`
/// and `FC2` removed in that order, then trimmed.
pub open spec fn fc2_id(number: Seq<char>) -> Seq<char> {
    trim(
        replace(
            replace(
                replace(replace(unicode_upper(number), "FC2-PPV-"@, ""@), "FC2-"@, ""@),
                "FC2PPV"@,
                ""@,
            ),
            "FC2"@,
            ""@,
        ),
    )
}

impl Fc2Scraper {
    /// The scraper for `https://adult.contents.fc2.com`.
    pub fn new() -> (r: Self)
        ensures
            r.base_url@ == "https://adult.contents.fc2.com"@,
    {
        Fc2Scraper { base_url: copy_str("https://adult.contents.fc2.com") }
    }

    /// The scraper for another base URL.
    pub fn with_base_url(base_url: String) -> (r: Self)
        ensures
            r.base_url == base_url,
    {
        Fc2Scraper { base_url }
    }

    /// The bare id of `FC2-PPV-1234567`, `FC2-1234567`, `FC2PPV1234567`
    /// or `1234567`.
    pub fn extract_fc2_id(&self, number: &str) -> (r: String)
        ensures
            r@ == fc2_id(number@),
    {
        proof {
            reveal_strlit("FC2-PPV-");
            reveal_strlit("FC2-");
            reveal_strlit("FC2PPV");
            reveal_strlit("FC2");
        }
        let u = to_uppercase(number);
        let a = replace_str(u.as_str(), "FC2-PPV-", "");
        let b = replace_str(a.as_str(), "FC2-", "");
        let c = replace_str(b.as_str(), "FC2PPV", "");
        let d = replace_str(c.as_str(), "FC2", "");
        trim_str(d.as_str())
    }

    /// The words of the text joined by single spaces.
    pub fn clean_text(&self, text: &str) -> (r: String)
        ensures
            r@ == words_joined(text@),
    {
        squash_ws_str(text)
    }
}

impl Scraper for Fc2Scraper {
    fn source(&self) -> (r: &'static str)
        ensures
            r@ == "fc2"@,
    {
        "fc2"
    }

    fn imagecut(&self) -> (r: i32)
        ensures
            r == 1,
    {
        1
    }

    fn preferred_id_format(&self) -> (r: IdFormat)
        ensures
            r == IdFormat::Display,
    {
        IdFormat::Display
    }

    /// `<base>/article/<id>/`.
    fn query_number_url(&self, number: &str) -> (r: String)
        ensures
            r@ == self.base_url@ + "/article/"@ + fc2_id(number@) + "/"@,
    {
        let id = self.extract_fc2_id(number);
        let a = concat3(self.base_url.as_str(), "/article/", id.as_str());
        concat(a.as_str(), "/")
    }
}

// ---------------------------------------------------------------------------
// IMDB
// ---------------------------------------------------------------------------

/// IMDB.
#[derive(Debug, Clone, Copy)]
pub struct ImdbScraper;

impl ImdbScraper {
    /// The IMDB scraper.
    pub fn new() -> (r: Self) {
        ImdbScraper
    }
}

impl Scraper for ImdbScraper {
    fn source(&self) -> (r: &'static str)
        ensures
            r@ == "imdb"@,
    {
        "imdb"
    }

    fn imagecut(&self) -> (r: i32)
        ensures
            r == 0,
    {
        0
    }

    fn preferred_id_format(&self) -> (r: IdFormat)
        ensures
            r == IdFormat::Display,
    {
        IdFormat::Display
    }

    /// `https://www.imdb.com/title/<id>`.
    fn query_number_url(&self, number: &str) -> (r: String)
        ensures
            r@ == "https://www.imdb.com/title/"@ + number@,
    {
        concat("https://www.imdb.com/title/", number)
    }
}

// ---------------------------------------------------------------------------
// Jav321
// ---------------------------------------------------------------------------

/// Jav321.
#[derive(Debug, Clone)]
pub struct Jav321Scraper {
    /// Base URL.
    pub base_url: String,
}

impl Jav321Scraper {
    /// The scraper for `https://jp.jav321.com`.
    pub fn new() -> (r: Self)
        ensures
            r.base_url@ == "https://jp.jav321.com"@,
    {
        Jav321Scraper { base_url: copy_str("https://jp.jav321.com") }
    }

    /// Trimmed, with `&amp; &lt; &gt; &quot; &#39;` decoded.
    pub fn clean_text(&self, text: &str) -> (r: String)
        ensures
            r@ == trimmed_decoded(text@),
    {
        trim_decode(text)
    }
}

impl Scraper for Jav321Scraper {
    fn source(&self) -> (r: &'static str)
        ensures
            r@ == "jav321"@,
    {
        "jav321"
    }

    fn imagecut(&self) -> (r: i32)
        ensures
            r == 1,
    {
        1
    }

    fn preferred_id_format(&self) -> (r: IdFormat)
        ensures
            r == IdFormat::Display,
    {
        IdFormat::Display
    }

    /// The search page. Lookups go to the movie's page by its address
    /// (`video_url`) with a GET; the site's own search form posts to this page.
    fn query_number_url(&self, number: &str) -> (r: String)
        ensures
            r@ == self.base_url@ + "/search"@,
    {
        concat(self.base_url.as_str(), "/search")
    }
}

// ---------------------------------------------------------------------------
// JavDB
// ---------------------------------------------------------------------------

/// JavDB.
#[derive(Debug, Clone)]
pub struct JavdbScraper {
    /// Base URL.
    pub base_url: String,
    /// Locale of the pages (`en`, `zh`).
    pub locale: String,
}

/// The entities decoded, then `&nbsp;` as a space.
pub open spec fn html_decoded(s: Seq<char>) -> Seq<char> {
    replace(entities_decoded(s), "&nbsp;"@, " "@)
}

impl JavdbScraper {
    /// The scraper for `https://javdb.com` in English.
    pub fn new() -> (r: Self)
        ensures
            r.base_url@ == "https://javdb.com"@,
            r.locale@ == "en"@,
    {
        JavdbScraper { base_url: copy_str("https://javdb.com"), locale: copy_str("en") }
    }

    /// The scraper for `https://javdb.com` in another locale.
    pub fn with_locale(locale: String) -> (r: Self)
        ensures
            r.base_url@ == "https://javdb.com"@,
            r.locale == locale,
    {
        JavdbScraper { base_url: copy_str("https://javdb.com"), locale }
    }

    /// The detail page of a path in a locale.
    pub fn build_detail_url(&self, path: &str, locale: &str) -> (r: String)
        ensures
            r@ == self.base_url@ + path@ + "?locale="@ + locale@,
    {
        let a = concat3(self.base_url.as_str(), path, "?locale=");
        concat(a.as_str(), locale)
    }

    /// The words of the text joined by single spaces.
    pub fn clean_text(&self, text: &str) -> (r: String)
        ensures
            r@ == words_joined(text@),
    {
        squash_ws_str(text)
    }

    /// `&amp; &lt; &gt; &quot; &#39; &nbsp;` decoded.
    pub fn decode_html_entities(&self, text: &str) -> (r: String)
        ensures
            r@ == html_decoded(text@),
    {
        proof {
            reveal_strlit("&nbsp;");
        }
        let d = decode_entities(text);
        replace_str(d.as_str(), "&nbsp;", " ")
    }
}

impl Scraper for JavdbScraper {
    fn source(&self) -> (r: &'static str)
        ensures
            r@ == "javdb"@,
    {
        "javdb"
    }

    fn imagecut(&self) -> (r: i32)
        ensures
            r == 1,
    {
        1
    }

    fn preferred_id_format(&self) -> (r: IdFormat)
        ensures
            r == IdFormat::Display,
    {
        IdFormat::Display
    }

    /// The search page for the number.
    fn query_number_url(&self, number: &str) -> (r: String)
        ensures
            r@ == self.base_url@ + "/search?q="@ + number@ + "&f=all"@,
    {
        let a = concat3(self.base_url.as_str(), "/search?q=", number);
        concat(a.as_str(), "&f=all")
    }
}

// ---------------------------------------------------------------------------
// JAVLibrary
// ---------------------------------------------------------------------------

/// JAVLibrary.
#[derive(Debug, Clone)]
pub struct JavlibraryScraper {
    /// Base URL (mirrors differ).
    pub base_url: String,
}

impl JavlibraryScraper {
    /// The scraper for `https://www.javlibrary.com`.
    pub fn new() -> (r: Self)
        ensures
            r.base_url@ == "https://www.javlibrary.com"@,
    {
        JavlibraryScraper { base_url: copy_str("https://www.javlibrary.com") }
    }

    /// The scraper for a mirror.
    pub fn with_base_url(base_url: String) -> (r: Self)
        ensures
            r.base_url == base_url,
    {
        JavlibraryScraper { base_url }
    }

    /// The words of the text joined by single spaces.
    pub fn clean_text(&self, text: &str) -> (r: String)
        ensures
            r@ == words_joined(text@),
    {
        squash_ws_str(text)
    }
}

impl Scraper for JavlibraryScraper {
    fn source(&self) -> (r: &'static str)
        ensures
            r@ == "javlibrary"@,
    {
        "javlibrary"
    }

    fn imagecut(&self) -> (r: i32)
        ensures
            r == 1,
    {
        1
    }

    fn preferred_id_format(&self) -> (r: IdFormat)
        ensures
            r == IdFormat::Content,
    {
        IdFormat::Content
    }

    /// `<base>/en/?v=jav<NUMBER>`, upper-cased, hyphens removed.
    fn query_number_url(&self, number: &str) -> (r: String)
        ensures
            r@ == self.base_url@ + "/en/?v=jav"@ + replace(unicode_upper(number@), "-"@, ""@),
    {
        proof {
            reveal_strlit("-");
        }
        let u = to_uppercase(number);
        let n = replace_str(u.as_str(), "-", "");
        concat3(self.base_url.as_str(), "/en/?v=jav", n.as_str())
    }
}

// ---------------------------------------------------------------------------
// MGStage
// ---------------------------------------------------------------------------

/// MGStage.
#[derive(Debug, Clone)]
pub struct MgstageScraper {
    /// Base URL.
    pub base_url: String,
}

/// The base URL and the path, with a `/` at the end.
pub open spec fn with_trailing_slash(base: Seq<char>, path: Seq<char>) -> Seq<char> {
    let full = base + path;
    if ends_with(full, "/"@) {
        full
    } else {
        full + "/"@
    }
}

impl MgstageScraper {
    /// The scraper for `https://www.mgstage.com`.
    pub fn new() -> (r: Self)
        ensures
            r.base_url@ == "https://www.mgstage.com"@,
    {
        MgstageScraper { base_url: copy_str("https://www.mgstage.com") }
    }

    /// The full URL of a path, ending in `/`.
    pub fn normalize_url(&self, path: &str) -> (r: String)
        ensures
            r@ == with_trailing_slash(self.base_url@, path@),
    {
        let full = concat(self.base_url.as_str(), path);
        if crate::text::str_ends_with(full.as_str(), "/") {
            full
        } else {
            concat(full.as_str(), "/")
        }
    }

    /// Trimmed, with `&amp; &lt; &gt; &quot; &#39;` decoded.
    pub fn clean_text(&self, text: &str) -> (r: String)
        ensures
            r@ == trimmed_decoded(text@),
    {
        trim_decode(text)
    }
}

impl Scraper for MgstageScraper {
    fn source(&self) -> (r: &'static str)
        ensures
            r@ == "mgstage"@,
    {
        "mgstage"
    }

    fn imagecut(&self) -> (r: i32)
        ensures
            r == 1,
    {
        1
    }

    fn preferred_id_format(&self) -> (r: IdFormat)
        ensures
            r == IdFormat::Display,
    {
        IdFormat::Display
    }

    /// The search page for the number.
    fn query_number_url(&self, number: &str) -> (r: String)
        ensures
            r@ == self.base_url@ + "/search/cSearch.php?search_word="@ + number@,
    {
        concat3(self.base_url.as_str(), "/search/cSearch.php?search_word=", number)
    }
}

// ---------------------------------------------------------------------------
// R18.dev
// ---------------------------------------------------------------------------

/// R18.dev (JSON API).
#[derive(Debug, Clone)]
pub struct R18DevScraper {
    /// Base URL of the detail endpoint.
    pub base_url: String,
}

impl R18DevScraper {
    /// The scraper for the public R18.dev endpoint.
    pub fn new() -> (r: Self)
        ensures
            r.base_url@ == "https://r18.dev/videos/vod/movies/detail/-"@,
    {
        R18DevScraper { base_url: copy_str("https://r18.dev/videos/vod/movies/detail/-") }
    }

    /// The scraper for another endpoint.
    pub fn with_base_url(base_url: String) -> (r: Self)
        ensures
            r.base_url == base_url,
    {
        R18DevScraper { base_url }
    }
}

impl Scraper for R18DevScraper {
    fn source(&self) -> (r: &'static str)
        ensures
            r@ == "r18dev"@,
    {
        "r18dev"
    }

    fn imagecut(&self) -> (r: i32)
        ensures
            r == 1,
    {
        1
    }

    fn preferred_id_format(&self) -> (r: IdFormat)
        ensures
            r == IdFormat::Display,
    {
        IdFormat::Display
    }

    /// The `dvd_id` endpoint for the number.
    fn query_number_url(&self, number: &str) -> (r: String)
        ensures
            r@ == self.base_url@ + "/dvd_id="@ + number@ + "/json"@,
    {
        let a = concat3(self.base_url.as_str(), "/dvd_id=", number);
        concat(a.as_str(), "/json")
    }
}

// ---------------------------------------------------------------------------
// TMDB
// ---------------------------------------------------------------------------

/// The Movie Database.
#[derive(Debug, Clone)]
pub struct TmdbScraper {
    /// API key (not used by the page scraper).
    pub api_key: Option<String>,
}

impl TmdbScraper {
    /// The scraper without an API key.
    pub fn new() -> (r: Self)
        ensures
            r.api_key is None,
    {
        TmdbScraper { api_key: None }
    }

    /// The scraper with an API key.
    pub fn with_api_key(api_key: String) -> (r: Self)
        ensures
            r.api_key == Some(api_key),
    {
        TmdbScraper { api_key: Some(api_key) }
    }
}

impl Scraper for TmdbScraper {
    fn source(&self) -> (r: &'static str)
        ensures
            r@ == "tmdb"@,
    {
        "tmdb"
    }

    fn imagecut(&self) -> (r: i32)
        ensures
            r == 0,
    {
        0
    }

    fn preferred_id_format(&self) -> (r: IdFormat)
        ensures
            r == IdFormat::Display,
    {
        IdFormat::Display
    }

    /// The Chinese page of the movie id.
    fn query_number_url(&self, number: &str) -> (r: String)
        ensures
            r@ == "https://www.themoviedb.org/movie/"@ + number@ + "?language=zh-CN"@,
    {
        concat3("https://www.themoviedb.org/movie/", number, "?language=zh-CN")
    }
}

// ---------------------------------------------------------------------------
// Tokyo-Hot
// ---------------------------------------------------------------------------

/// Tokyo-Hot.
#[derive(Debug, Clone)]
pub struct TokyohotScraper {
    /// Base URL.
    pub base_url: String,
}

/// The Tokyo-Hot id: lower-cased, the prefixes `tokyo-hot-`, `tokyohot-`,
/// `tokyo-hot` and `tokyohot` removed in that order, then trimmed.
pub open spec fn tokyohot_id(number: Seq<char>) -> Seq<char> {
    trim(
        replace(
            replace(
                replace(replace(unicode_lower(number), "tokyo-hot-"@, ""@), "tokyohot-"@, ""@),
                "tokyo-hot"@,
                ""@,
            ),
            "tokyohot"@,
            ""@,
        ),
    )
}

impl TokyohotScraper {
    /// The scraper for `https://www.tokyo-hot.com`.
    pub fn new() -> (r: Self)
        ensures
            r.base_url@ == "https://www.tokyo-hot.com"@,
    {
        TokyohotScraper { base_url: copy_str("https://www.tokyo-hot.com") }
    }

    /// The scraper for another base URL.
    pub fn with_base_url(base_url: String) -> (r: Self)
        ensures
            r.base_url == base_url,
    {
        TokyohotScraper { base_url }
    }

    /// `TOKYO-HOT-N0001`, `N0001` and `n0001` all give `n0001`.
    pub fn normalize_id(&self, number: &str) -> (r: String)
        ensures
            r@ == tokyohot_id(number@),
    {
        proof {
            reveal_strlit("tokyo-hot-");
            reveal_strlit("tokyohot-");
            reveal_strlit("tokyo-hot");
            reveal_strlit("tokyohot");
        }
        let l = to_lowercase(number);
        let a = replace_str(l.as_str(), "tokyo-hot-", "");
        let b = replace_str(a.as_str(), "tokyohot-", "");
        let c = replace_str(b.as_str(), "tokyo-hot", "");
        let d = replace_str(c.as_str(), "tokyohot", "");
        trim_str(d.as_str())
    }

    /// The words of the text joined by single spaces.
    pub fn clean_text(&self, text: &str) -> (r: String)
        ensures
            r@ == words_joined(text@),
    {
        squash_ws_str(text)
    }
}

impl Scraper for TokyohotScraper {
    fn source(&self) -> (r: &'static str)
        ensures
            r@ == "tokyohot"@,
    {
        "tokyohot"
    }

    fn imagecut(&self) -> (r: i32)
        ensures
            r == 1,
    {
        1
    }

    fn preferred_id_format(&self) -> (r: IdFormat)
        ensures
            r == IdFormat::Display,
    {
        IdFormat::Display
    }

    /// `<base>/product/?q=<id>`.
    fn query_number_url(&self, number: &str) -> (r: String)
        ensures
            r@ == self.base_url@ + "/product/?q="@ + tokyohot_id(number@),
    {
        let id = self.normalize_id(number);
        concat3(self.base_url.as_str(), "/product/?q=", id.as_str())
    }
}

} // verus!
