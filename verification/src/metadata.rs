//! Movie metadata as the scrapers fill it in, and the clean-up every
//! scraper applies afterwards.

use vstd::prelude::*;
use crate::text::{
    chars_of, copy_str, find_char, first_index_of, lowercase, str_contains, str_ends_with,
    take_chars_str, to_lowercase, trim, trim_str, contains, ends_with, drop_last_n_str,
};

verus! {

/// Metadata of one movie.
///
/// The user rating is kept as the text the source gave (empty when it gave
/// none); reading it as a number is left to the caller.
#[derive(Debug, Clone)]
pub struct MovieMetadata {
    pub number: String,
    pub title: String,
    pub studio: String,
    pub release: String,
    pub year: String,
    pub outline: String,
    pub runtime: String,
    pub director: String,
    pub actor: Vec<String>,
    /// Actor name and photo URL, one pair per name.
    pub actor_photo: Vec<(String, String)>,
    pub cover: String,
    pub cover_small: String,
    pub extrafanart: Vec<String>,
    pub trailer: String,
    pub tag: Vec<String>,
    pub label: String,
    pub series: String,
    /// The user rating as the source wrote it.
    pub userrating: String,
    pub uservotes: u32,
    pub uncensored: bool,
    pub website: String,
    pub source: String,
    /// Cover crop mode (0 copy, 1 face crop, 3 small cover).
    pub imagecut: i32,
}

/// The metadata as plain values.
pub struct MetadataView {
    pub number: Seq<char>,
    pub title: Seq<char>,
    pub studio: Seq<char>,
    pub release: Seq<char>,
    pub year: Seq<char>,
    pub outline: Seq<char>,
    pub runtime: Seq<char>,
    pub director: Seq<char>,
    pub actor: Seq<Seq<char>>,
    pub actor_photo: Seq<(Seq<char>, Seq<char>)>,
    pub cover: Seq<char>,
    pub cover_small: Seq<char>,
    pub extrafanart: Seq<Seq<char>>,
    pub trailer: Seq<char>,
    pub tag: Seq<Seq<char>>,
    pub label: Seq<char>,
    pub series: Seq<char>,
    pub userrating: Seq<char>,
    pub uservotes: u32,
    pub uncensored: bool,
    pub website: Seq<char>,
    pub source: Seq<char>,
    pub imagecut: i32,
}

pub open spec fn texts(v: Seq<String>) -> Seq<Seq<char>> {
    v.map_values(|s: String| s@)
}

pub open spec fn text_pairs(v: Seq<(String, String)>) -> Seq<(Seq<char>, Seq<char>)> {
    v.map_values(|p: (String, String)| (p.0@, p.1@))
}

impl View for MovieMetadata {
    type V = MetadataView;

    open spec fn view(&self) -> MetadataView {
        MetadataView {
            number: self.number@,
            title: self.title@,
            studio: self.studio@,
            release: self.release@,
            year: self.year@,
            outline: self.outline@,
            runtime: self.runtime@,
            director: self.director@,
            actor: texts(self.actor@),
            actor_photo: text_pairs(self.actor_photo@),
            cover: self.cover@,
            cover_small: self.cover_small@,
            extrafanart: texts(self.extrafanart@),
            trailer: self.trailer@,
            tag: texts(self.tag@),
            label: self.label@,
            series: self.series@,
            userrating: self.userrating@,
            uservotes: self.uservotes,
            uncensored: self.uncensored,
            website: self.website@,
            source: self.source@,
            imagecut: self.imagecut,
        }
    }
}

/// Metadata with nothing filled in, and crop mode 1.
pub open spec fn empty_metadata() -> MetadataView {
    MetadataView {
        number: Seq::empty(),
        title: Seq::empty(),
        studio: Seq::empty(),
        release: Seq::empty(),
        year: Seq::empty(),
        outline: Seq::empty(),
        runtime: Seq::empty(),
        director: Seq::empty(),
        actor: Seq::empty(),
        actor_photo: Seq::empty(),
        cover: Seq::empty(),
        cover_small: Seq::empty(),
        extrafanart: Seq::empty(),
        trailer: Seq::empty(),
        tag: Seq::empty(),
        label: Seq::empty(),
        series: Seq::empty(),
        userrating: Seq::empty(),
        uservotes: 0,
        uncensored: false,
        website: Seq::empty(),
        source: Seq::empty(),
        imagecut: 1,
    }
}

impl Default for MovieMetadata {
    fn default() -> (r: Self)
        ensures
            r@ == empty_metadata(),
    {
        let r = MovieMetadata {
            number: String::new(),
            title: String::new(),
            studio: String::new(),
            release: String::new(),
            year: String::new(),
            outline: String::new(),
            runtime: String::new(),
            director: String::new(),
            actor: Vec::new(),
            actor_photo: Vec::new(),
            cover: String::new(),
            cover_small: String::new(),
            extrafanart: Vec::new(),
            trailer: String::new(),
            tag: Vec::new(),
            label: String::new(),
            series: String::new(),
            userrating: String::new(),
            uservotes: 0,
            uncensored: false,
            website: String::new(),
            source: String::new(),
            imagecut: 1,
        };
        assert(r@.actor =~= Seq::<Seq<char>>::empty());
        assert(r@.actor_photo =~= Seq::<(Seq<char>, Seq<char>)>::empty());
        assert(r@.extrafanart =~= Seq::<Seq<char>>::empty());
        assert(r@.tag =~= Seq::<Seq<char>>::empty());
        r
    }
}

/// Valid metadata has a title, a number and a cover (large or small).
pub open spec fn valid_metadata(m: MetadataView) -> bool {
    m.title.len() > 0 && m.number.len() > 0 && (m.cover.len() > 0 || m.cover_small.len() > 0)
}

/// The number of bytes of a character in UTF-8.
pub open spec fn char_width(c: char) -> nat {
    if (c as u32) < 0x80 {
        1
    } else if (c as u32) < 0x800 {
        2
    } else if (c as u32) < 0x10000 {
        3
    } else {
        4
    }
}

/// The number of bytes of a text in UTF-8.
pub open spec fn utf8_len(s: Seq<char>) -> nat
    decreases s.len(),
{
    if s.len() == 0 {
        0
    } else {
        utf8_len(s.drop_last()) + char_width(s.last())
    }
}

proof fn lemma_utf8_len_mono(s: Seq<char>, i: int)
    requires
        0 <= i <= s.len(),
    ensures
        utf8_len(s.take(i)) <= utf8_len(s),
    decreases s.len() - i,
{
    if i < s.len() {
        lemma_utf8_len_mono(s, i + 1);
        assert(s.take(i + 1).drop_last() =~= s.take(i));
    } else {
        assert(s.take(i) =~= s);
    }
}

/// Whether a text is more than `n` bytes long in UTF-8.
pub(crate) fn utf8_len_exceeds(s: &str, n: u64) -> (r: bool)
    requires
        n < 1000,
    ensures
        r == (utf8_len(s@) > n),
{
    let v = chars_of(s);
    let mut w: u64 = 0;
    let mut i: usize = 0;
    while i < v.len()
        invariant
            i <= v.len(),
            v@ == s@,
            n < 1000,
            w == utf8_len(v@.take(i as int)),
            w <= n,
        decreases v.len() - i,
    {
        proof {
            assert(v@.take(i + 1).drop_last() =~= v@.take(i as int));
        }
        let c = v[i] as u32;
        let cw: u64 = if c < 0x80 {
            1
        } else if c < 0x800 {
            2
        } else if c < 0x10000 {
            3
        } else {
            4
        };
        if w + cw > n {
            proof {
                lemma_utf8_len_mono(v@, i + 1);
            }
            return true;
        }
        w = w + cw;
        i = i + 1;
    }
    assert(v@.take(v.len() as int) =~= v@);
    false
}

/// Whether a text is four bytes long in UTF-8.
fn is_four_bytes(s: &str) -> (r: bool)
    ensures
        r == (utf8_len(s@) == 4),
{
    utf8_len_exceeds(s, 3) && !utf8_len_exceeds(s, 4)
}

/// The year read from a release date: what precedes the first `-`, when it
/// is four bytes long; kept only when no year is set yet.
pub open spec fn year_after_extract(m: MetadataView) -> Seq<char> {
    if m.year.len() == 0 && m.release.len() > 0 {
        let first = match first_index_of(m.release, '-') {
            Some(i) => m.release.take(i),
            None => m.release,
        };
        if utf8_len(first) == 4 {
            first
        } else {
            m.year
        }
    } else {
        m.year
    }
}

/// `s` without all trailing repetitions of `p`.
pub open spec fn strip_suffix_all(s: Seq<char>, p: Seq<char>) -> Seq<char>
    decreases s.len(),
{
    if p.len() > 0 && p.len() <= s.len() && ends_with(s, p) {
        strip_suffix_all(s.take(s.len() - p.len()), p)
    } else {
        s
    }
}

/// A runtime without surrounding space and trailing `min` / `mi` units.
pub open spec fn normalized_runtime(r: Seq<char>) -> Seq<char> {
    if r.len() > 0 {
        trim(strip_suffix_all(strip_suffix_all(trim(r), "min"@), "mi"@))
    } else {
        r
    }
}

/// The words that mark uncensored releases.
pub open spec fn uncensored_keywords() -> Seq<Seq<char>> {
    seq!["無码"@, "無修正"@, "uncensored"@, "无码"@]
}

/// Whether a text, lower-cased, contains one of the lower-cased keywords.
pub open spec fn mentions_uncensored(t: Seq<char>) -> bool {
    exists|k: int|
        0 <= k < uncensored_keywords().len() && contains(
            lowercase(t),
            lowercase(#[trigger] uncensored_keywords()[k]),
        )
}

/// Uncensored when already marked, or when a tag or the title says so.
pub open spec fn detected_uncensored(m: MetadataView) -> bool {
    m.uncensored || (exists|i: int| 0 <= i < m.tag.len() && mentions_uncensored(#[trigger] m.tag[i]))
        || mentions_uncensored(m.title)
}

fn strip_suffix_all_exec(s: &str, p: &str) -> (r: String)
    requires
        p@.len() > 0,
    ensures
        r@ == strip_suffix_all(s@, p@),
{
    let mut cur = copy_str(s);
    let n = p.unicode_len();
    while n <= cur.unicode_len() && str_ends_with(cur.as_str(), p)
        invariant
            n == p@.len(),
            n > 0,
            strip_suffix_all(s@, p@) == strip_suffix_all(cur@, p@),
        decreases cur@.len(),
    {
        let next = drop_last_n_str(cur.as_str(), n);
        cur = next;
    }
    cur
}

fn mentions_uncensored_exec(t: &str) -> (r: bool)
    ensures
        r == mentions_uncensored(t@),
{
    let l = to_lowercase(t);
    let keywords: Vec<&'static str> = vec!["無码", "無修正", "uncensored", "无码"];
    proof {
        assert(keywords@.map_values(|k: &str| k@) =~= uncensored_keywords());
    }
    let mut i: usize = 0;
    while i < keywords.len()
        invariant
            i <= keywords.len(),
            keywords@.map_values(|k: &str| k@) == uncensored_keywords(),
            l@ == lowercase(t@),
            forall|j: int| 0 <= j < i ==> !contains(l@, lowercase(#[trigger] uncensored_keywords()[j])),
        decreases keywords.len() - i,
    {
        let kl = to_lowercase(keywords[i]);
        proof {
            assert(keywords@[i as int]@ == uncensored_keywords()[i as int]);
        }
        if str_contains(l.as_str(), kl.as_str()) {
            return true;
        }
        i = i + 1;
    }
    false
}

/// The metadata after `finish`: the source, the page and the crop mode
/// recorded, then the year filled in, the runtime normalised and uncensored
/// releases detected.
pub open spec fn finished(m: MetadataView, source: Seq<char>, url: Seq<char>, imagecut: i32) -> MetadataView {
    let m = MetadataView { source, website: url, imagecut, ..m };
    let y = MetadataView { year: year_after_extract(m), ..m };
    let n = MetadataView { runtime: normalized_runtime(y.runtime), ..y };
    MetadataView { uncensored: detected_uncensored(n), ..n }
}

impl MovieMetadata {
    /// Whether the metadata has a title, a number and a cover.
    pub fn is_valid(&self) -> (r: bool)
        ensures
            r == valid_metadata(self@),
    {
        !self.title.as_str().is_empty() && !self.number.as_str().is_empty() && (
        !self.cover.as_str().is_empty() || !self.cover_small.as_str().is_empty())
    }

    /// Fills in the year from the release date when it is missing.
    pub fn extract_year(&mut self)
        ensures
            final(self)@ == (MetadataView { year: year_after_extract(old(self)@), ..old(self)@ }),
    {
        if self.year.as_str().is_empty() && !self.release.as_str().is_empty() {
            let first = match find_char(self.release.as_str(), '-') {
                Some(i) => take_chars_str(self.release.as_str(), i),
                None => copy_str(self.release.as_str()),
            };
            if is_four_bytes(first.as_str()) {
                self.year = first;
            }
        }
    }

    /// Removes surrounding space and trailing `min` / `mi` from the runtime.
    pub fn normalize_runtime(&mut self)
        ensures
            final(self)@ == (MetadataView { runtime: normalized_runtime(old(self)@.runtime), ..old(self)@ }),
    {
        if !self.runtime.as_str().is_empty() {
            proof {
                reveal_strlit("min");
                reveal_strlit("mi");
            }
            let t = trim_str(self.runtime.as_str());
            let a = strip_suffix_all_exec(t.as_str(), "min");
            let b = strip_suffix_all_exec(a.as_str(), "mi");
            self.runtime = trim_str(b.as_str());
        }
    }

    /// Marks the movie uncensored when a tag or the title says so.
    pub fn detect_uncensored(&mut self)
        ensures
            final(self)@ == (MetadataView { uncensored: detected_uncensored(old(self)@), ..old(self)@ }),
    {
        if self.uncensored {
            return;
        }
        let mut i: usize = 0;
        while i < self.tag.len()
            invariant
                i <= self.tag.len(),
                self@ == old(self)@,
                !self.uncensored,
                forall|j: int| 0 <= j < i ==> !mentions_uncensored(#[trigger] self@.tag[j]),
            decreases self.tag.len() - i,
        {
            proof {
                assert(self@.tag[i as int] == self.tag@[i as int]@);
            }
            if mentions_uncensored_exec(self.tag[i].as_str()) {
                self.uncensored = true;
                return;
            }
            i = i + 1;
        }
        if mentions_uncensored_exec(self.title.as_str()) {
            self.uncensored = true;
        }
    }

    /// What every scraper does to the metadata it parsed: records the source,
    /// the page and the crop mode, then fills in the year, normalises the
    /// runtime and detects uncensored releases.
    pub fn finish(&mut self, source: &str, url: &str, imagecut: i32)
        ensures
            final(self)@ == finished(old(self)@, source@, url@, imagecut),
    {
        self.source = copy_str(source);
        self.website = copy_str(url);
        self.imagecut = imagecut;
        self.extract_year();
        self.normalize_runtime();
        self.detect_uncensored();
    }
}

} // verus!
