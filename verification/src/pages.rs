//! Reading movie metadata out of the pages of each source.
//!
//! Each source's reader takes the page (its HTML text) and its URL, and
//! gives the metadata or the reason it could not; the clean-up every source
//! shares ([`MovieMetadata::finish`]) is applied by the caller afterwards.

use vstd::prelude::*;
use crate::dom::{
    all_texts, all_texts_of, css_attrs, css_neighbourhoods, neighbourhoods, neighbourhood_views,
    node_views, select_texts_raw, css_scoped_pairs, css_texts, first_attr_of, opt_texts,
    select_attr_by_exprs, select_attrs_raw, pair_views, scoped_text_pairs, first_attr, first_text, first_text_of, select_all_text,
    select_all_text_by_exprs, select_attr, select_text, select_text_by_exprs, strs,
};
use crate::metadata::{empty_metadata, finished, texts, utf8_len, MetadataView, MovieMetadata};
use crate::dom::{document_html, serialized_html};
use crate::json::{
    get as json_get_exec, get_i64, get_number_text, get_str, json_get, json_i64, json_number_text,
    json_str, json_parsed, parse_json_text, JsonValue,
};
use crate::rx::{
    all_opt_views, captured, captured_all, captures, captures_all, escape, get_group, group, opt_views,
    regex_escaped,
};
use crate::scrapers::{
    before_char, before_char_str, trim_decode, trimmed_decoded, words_joined, html_decoded, AvmooScraper, Fc2Scraper, ImdbScraper, JavdbScraper,
    JavlibraryScraper, TokyohotScraper, DmmScraper, TmdbScraper, MgstageScraper, R18DevScraper, cid_in_url,
    with_trailing_slash,
    Jav321Scraper,
};
use crate::text::{
    concat, concat3, contains, copy_str, str_contains, extend_chars, find_str, first_occurrence, last_index_of,
    rfind_char, skip_chars_str, squash_ws_str, starts_with, str_starts_with, take_chars_str, to_uppercase,
    decimal, decimal_str, str_eq, parse_u64, parse_unsigned, replace, replace_str, split_on, split_on_str, split_whitespace_str,
    trim, trim_str, unicode_upper, views_of, words, to_lowercase, unicode_lower, chars_of,
    char_is_numeric, numeric_char, all_ascii_digits, is_ascii_digit, char_is_ascii_digit, find_char,
    first_index_of, strip_leading_zeros, strip_leading_zeros_str,
};

verus! {

// ---------------------------------------------------------------------------
// Shared pieces
// ---------------------------------------------------------------------------

/// The first of the texts that is not empty (empty when none is).
pub open spec fn first_nonempty(v: Seq<Seq<char>>) -> Seq<char>
    decreases v.len(),
{
    if v.len() == 0 {
        Seq::empty()
    } else if v[0].len() > 0 {
        v[0]
    } else {
        first_nonempty(v.skip(1))
    }
}

/// An image address made absolute: kept when it starts with `http`,
/// given `https:` when it starts with `//`, else put after the base URL.
pub open spec fn absolute_url(base: Seq<char>, src: Seq<char>) -> Seq<char> {
    if starts_with(src, "http"@) {
        src
    } else if starts_with(src, "//"@) {
        "https:"@ + src
    } else {
        base + src
    }
}

fn absolute_url_exec(base: &str, src: &str) -> (r: String)
    ensures
        r@ == absolute_url(base@, src@),
{
    if str_starts_with(src, "http") {
        copy_str(src)
    } else if str_starts_with(src, "//") {
        concat("https:", src)
    } else {
        concat(base, src)
    }
}

/// The texts joined by `sep`.
pub open spec fn joined_by(v: Seq<Seq<char>>, sep: Seq<char>) -> Seq<char>
    decreases v.len(),
{
    if v.len() == 0 {
        Seq::empty()
    } else if v.len() == 1 {
        v[0]
    } else {
        joined_by(v.drop_last(), sep) + sep + v.last()
    }
}

fn join_exec(v: &Vec<String>, sep: &str) -> (r: String)
    ensures
        r@ == joined_by(views_of(v@), sep@),
{
    let mut out: Vec<char> = Vec::new();
    let mut i: usize = 0;
    while i < v.len()
        invariant
            i <= v.len(),
            out@ == joined_by(views_of(v@).take(i as int), sep@),
        decreases v.len() - i,
    {
        proof {
            assert(views_of(v@).take(i + 1).drop_last() =~= views_of(v@).take(i as int));
            assert(views_of(v@).take(i + 1).last() == v@[i as int]@);
        }
        let ghost before = out@;
        if i > 0 {
            extend_chars(&mut out, sep);
        }
        extend_chars(&mut out, v[i].as_str());
        proof {
            if i == 0 {
                assert(views_of(v@).take(1) =~= seq![v@[0]@]);
                assert(out@ =~= v@[0]@);
            } else {
                assert(out@ =~= before + sep@ + v@[i as int]@);
            }
        }
        i = i + 1;
    }
    assert(views_of(v@).take(v.len() as int) =~= views_of(v@));
    crate::text::string_from(&out)
}

/// What follows the first `/` from the end: the last segment of a path.
pub open spec fn last_segment(url: Seq<char>) -> Seq<char> {
    match last_index_of(url, '/') {
        Some(i) => url.skip(i + 1),
        None => url,
    }
}

fn last_segment_exec(url: &str) -> (r: String)
    ensures
        r@ == last_segment(url@),
{
    match rfind_char(url, '/') {
        Some(i) => {
            let from = skip_chars_str(url, i);
            let r = skip_chars_str(from.as_str(), 1);
            assert(r@ =~= url@.skip(i + 1));
            r
        },
        None => copy_str(url),
    }
}

/// The part of `text` after the first `label`, up to the next `label`.
pub open spec fn after_label(text: Seq<char>, label: Seq<char>) -> Option<Seq<char>> {
    match first_occurrence(text, label) {
        Some(i) => {
            let rest = text.skip(i + label.len());
            match first_occurrence(rest, label) {
                Some(j) => Some(rest.take(j)),
                None => Some(rest),
            }
        },
        None => None,
    }
}

fn after_label_from(text: &str, label: &str, i: usize) -> (r: String)
    requires
        i + label@.len() <= text@.len(),
    ensures
        r@ == ({
            let rest = text@.skip(i + label@.len());
            match first_occurrence(rest, label@) {
                Some(j) => rest.take(j),
                None => rest,
            }
        }),
{
    let from = skip_chars_str(text, i);
    let rest = skip_chars_str(from.as_str(), label.unicode_len());
    assert(rest@ =~= text@.skip(i + label@.len()));
    match find_str(rest.as_str(), label) {
        Some(j) => take_chars_str(rest.as_str(), j),
        None => rest,
    }
}

fn after_label_exec(text: &str, label: &str) -> (r: Option<String>)
    ensures
        match r {
            Some(s) => after_label(text@, label@) == Some(s@),
            None => after_label(text@, label@) is None,
        },
{
    match find_str(text, label) {
        Some(i) => Some(after_label_from(text, label, i)),
        None => None,
    }
}

// ---------------------------------------------------------------------------
// AVMOO
// ---------------------------------------------------------------------------

pub const AVMOO_TITLE: &'static str = "div.container h3, h3.title, div.movie h3";
pub const AVMOO_COVER: &'static str = "a.bigImage img, img.bigImage, div.screencap img, img#video_jacket_img";
pub const AVMOO_INFO: &'static str = "div.info p, div.row p";
pub const AVMOO_ACTORS: &'static str = "div.star-name a, div#avatar-waterfall a .photo-info span, .avatar-box span, span.star a";
pub const AVMOO_GENRES: &'static str = "span.genre a, p.header a.genre, div.genre a";
pub const AVMOO_RATING: &'static str = "span.score, div.rating, span.userrating";

/// The value after a label in the first info paragraph that holds it.
pub open spec fn info_in(paragraphs: Seq<Seq<char>>, label: Seq<char>) -> Seq<char>
    decreases paragraphs.len(),
{
    if paragraphs.len() == 0 {
        Seq::empty()
    } else {
        match after_label(paragraphs[0], label) {
            Some(v) => trim(v),
            None => info_in(paragraphs.skip(1), label),
        }
    }
}

/// The value after a label in the info panel of an AVMOO page.
pub open spec fn avmoo_info(doc: Seq<char>, label: Seq<char>) -> Seq<char> {
    match css_texts(doc, AVMOO_INFO@) {
        Some(ps) => info_in(ps, label),
        None => Seq::empty(),
    }
}

/// Names longer than one byte.
pub open spec fn longer_than_a_byte(v: Seq<Seq<char>>) -> Seq<Seq<char>> {
    v.filter(|a: Seq<char>| a.len() > 0 && utf8_len(a) > 1)
}

/// The metadata of an AVMOO page, or why there is none.
pub open spec fn avmoo_page(base: Seq<char>, doc: Seq<char>, url: Seq<char>) -> Result<
    MetadataView,
    Seq<char>,
> {
    let title0 = words_joined(first_text(doc, AVMOO_TITLE@));
    let number = unicode_upper(last_segment(url));
    let title = if number.len() > 0 && starts_with(title0, number) {
        trim(title0.skip(number.len() as int))
    } else {
        title0
    };
    let src = first_attr(doc, AVMOO_COVER@, "src"@);
    let cover = if src.len() > 0 {
        absolute_url(base, src)
    } else {
        Seq::empty()
    };
    let tags = all_texts(doc, AVMOO_GENRES@);
    let rating = first_text(doc, AVMOO_RATING@);
    let m = MetadataView {
        number,
        title,
        cover,
        release: first_nonempty(
            seq![
                avmoo_info(doc, "發行日期:"@),
                avmoo_info(doc, "Release Date:"@),
                avmoo_info(doc, "日期:"@),
            ],
        ),
        runtime: first_nonempty(
            seq![avmoo_info(doc, "長度:"@), avmoo_info(doc, "Runtime:"@), avmoo_info(doc, "時長:"@)],
        ),
        director: first_nonempty(seq![avmoo_info(doc, "導演:"@), avmoo_info(doc, "Director:"@)]),
        studio: first_nonempty(
            seq![avmoo_info(doc, "製作商:"@), avmoo_info(doc, "Studio:"@), avmoo_info(doc, "Maker:"@)],
        ),
        label: first_nonempty(
            seq![avmoo_info(doc, "發行商:"@), avmoo_info(doc, "Label:"@), avmoo_info(doc, "系列:"@)],
        ),
        series: first_nonempty(seq![avmoo_info(doc, "系列:"@), avmoo_info(doc, "Series:"@)]),
        actor: longer_than_a_byte(all_texts(doc, AVMOO_ACTORS@)),
        tag: tags,
        userrating: if rating.len() > 0 {
            trim(rating)
        } else {
            Seq::empty()
        },
        outline: if tags.len() > 0 {
            joined_by(tags, ", "@)
        } else {
            Seq::empty()
        },
        ..empty_metadata()
    };
    if title.len() == 0 {
        Err("Failed to extract title from AVMOO"@)
    } else if cover.len() == 0 {
        Err("Failed to extract cover image from AVMOO"@)
    } else {
        Ok(m)
    }
}

/// Which info-panel entry fills each field of an AVMOO page: the label is
/// the publisher entry (`發行商:`) when there is one, else `Label:`, else the
/// series entry (`系列:`); the series is `系列:`, else `Series:`; the studio
/// is the maker entry (`製作商:`), else `Studio:`, else `Maker:`; the director
/// is `導演:`, else `Director:`; the release date is `發行日期:`, else
/// `Release Date:`, else `日期:`; the runtime is `長度:`, else `Runtime:`, else
/// `時長:`.
pub proof fn lemma_avmoo_info_fields(base: Seq<char>, doc: Seq<char>, url: Seq<char>)
    requires
        avmoo_page(base, doc, url) is Ok,
    ensures
        ({
            let m = avmoo_page(base, doc, url)->Ok_0;
            let info = |l: Seq<char>| avmoo_info(doc, l);
            &&& info("發行商:"@).len() > 0 ==> m.label == info("發行商:"@)
            &&& info("發行商:"@).len() == 0 && info("Label:"@).len() > 0 ==> m.label == info("Label:"@)
            &&& info("發行商:"@).len() == 0 && info("Label:"@).len() == 0 ==> m.label == info("系列:"@)
            &&& info("系列:"@).len() > 0 ==> m.series == info("系列:"@)
            &&& info("系列:"@).len() == 0 ==> m.series == info("Series:"@)
            &&& info("製作商:"@).len() > 0 ==> m.studio == info("製作商:"@)
            &&& info("製作商:"@).len() == 0 && info("Studio:"@).len() > 0 ==> m.studio == info("Studio:"@)
            &&& info("製作商:"@).len() == 0 && info("Studio:"@).len() == 0 ==> m.studio == info("Maker:"@)
            &&& info("導演:"@).len() > 0 ==> m.director == info("導演:"@)
            &&& info("導演:"@).len() == 0 ==> m.director == info("Director:"@)
            &&& info("發行日期:"@).len() > 0 ==> m.release == info("發行日期:"@)
            &&& info("發行日期:"@).len() == 0 && info("Release Date:"@).len() > 0 ==> m.release == info(
                "Release Date:"@,
            )
            &&& info("發行日期:"@).len() == 0 && info("Release Date:"@).len() == 0 ==> m.release == info(
                "日期:"@,
            )
            &&& info("長度:"@).len() > 0 ==> m.runtime == info("長度:"@)
            &&& info("長度:"@).len() == 0 && info("Runtime:"@).len() > 0 ==> m.runtime == info("Runtime:"@)
            &&& info("長度:"@).len() == 0 && info("Runtime:"@).len() == 0 ==> m.runtime == info("時長:"@)
        }),
{
    reveal_with_fuel(first_nonempty, 4);
}

fn info_in_exec(paragraphs: &Vec<String>, label: &str) -> (r: String)
    ensures
        r@ == info_in(views_of(paragraphs@), label@),
{
    let mut i: usize = 0;
    assert(views_of(paragraphs@).skip(0) =~= views_of(paragraphs@));
    while i < paragraphs.len()
        invariant
            i <= paragraphs.len(),
            info_in(views_of(paragraphs@), label@) == info_in(views_of(paragraphs@).skip(i as int), label@),
        decreases paragraphs.len() - i,
    {
        proof {
            assert(views_of(paragraphs@).skip(i as int)[0] == paragraphs@[i as int]@);
            assert(views_of(paragraphs@).skip(i as int).skip(1) =~= views_of(paragraphs@).skip(i + 1));
        }
        match after_label_exec(paragraphs[i].as_str(), label) {
            Some(v) => {
                return trim_str(v.as_str());
            },
            None => {},
        }
        i = i + 1;
    }
    String::new()
}

fn keep_longer_than_a_byte(v: Vec<String>) -> (r: Vec<String>)
    ensures
        views_of(r@) == longer_than_a_byte(views_of(v@)),
{
    let mut out: Vec<String> = Vec::new();
    let mut i: usize = 0;
    while i < v.len()
        invariant
            i <= v.len(),
            views_of(out@) == longer_than_a_byte(views_of(v@).take(i as int)),
        decreases v.len() - i,
    {
        proof {
            assert(views_of(v@).take(i + 1) =~= views_of(v@).take(i as int).push(v@[i as int]@));
            views_of(v@).take(i as int).lemma_filter_push(
                v@[i as int]@,
                |a: Seq<char>| a.len() > 0 && utf8_len(a) > 1,
            );
        }
        if crate::metadata::utf8_len_exceeds(v[i].as_str(), 1) {
            let ghost before = out@;
            out.push(copy_str(v[i].as_str()));
            proof {
                assert(views_of(out@) =~= views_of(before).push(v@[i as int]@));
            }
        }
        i = i + 1;
    }
    assert(views_of(v@).take(v.len() as int) =~= views_of(v@));
    out
}

impl AvmooScraper {
    /// The value after a label in the page's info panel.
    pub fn extract_info_value(&self, doc: &str, label: &str) -> (r: String)
        ensures
            r@ == avmoo_info(doc@, label@),
    {
        let ps = crate::dom::select_texts_raw(doc, AVMOO_INFO);
        match ps {
            Some(v) => info_in_exec(&v, label),
            None => String::new(),
        }
    }

    fn info_of(&self, doc: &str, labels: &[&str]) -> (r: String)
        ensures
            r@ == first_nonempty(labels@.map_values(|l: &str| avmoo_info(doc@, l@))),
    {
        let ghost vals = labels@.map_values(|l: &str| avmoo_info(doc@, l@));
        let mut i: usize = 0;
        assert(vals.skip(0) =~= vals);
        while i < labels.len()
            invariant
                i <= labels.len(),
                vals == labels@.map_values(|l: &str| avmoo_info(doc@, l@)),
                first_nonempty(vals) == first_nonempty(vals.skip(i as int)),
            decreases labels.len() - i,
        {
            proof {
                assert(vals.skip(i as int)[0] == avmoo_info(doc@, labels@[i as int]@));
                assert(vals.skip(i as int).skip(1) =~= vals.skip(i + 1));
            }
            let v = self.extract_info_value(doc, labels[i]);
            if !v.as_str().is_empty() {
                return v;
            }
            i = i + 1;
        }
        String::new()
    }

    /// The metadata of an AVMOO page.
    pub fn parse_metadata(&self, doc: &str, url: &str) -> (r: Result<MovieMetadata, String>)
        ensures
            match r {
                Ok(m) => avmoo_page(self.base_url@, doc@, url@) == Ok::<MetadataView, Seq<char>>(m@),
                Err(e) => avmoo_page(self.base_url@, doc@, url@) == Err::<MetadataView, Seq<char>>(e@),
            },
    {
        let raw_title = select_text(doc, AVMOO_TITLE);
        let title0 = squash_ws_str(raw_title.as_str());
        let seg = last_segment_exec(url);
        let number = to_uppercase(seg.as_str());
        let title = if !number.as_str().is_empty() && str_starts_with(title0.as_str(), number.as_str()) {
            let rest = skip_chars_str(title0.as_str(), number.unicode_len());
            trim_str(rest.as_str())
        } else {
            title0
        };
        let src = select_attr(doc, AVMOO_COVER, "src");
        let cover = if !src.as_str().is_empty() {
            absolute_url_exec(self.base_url.as_str(), src.as_str())
        } else {
            String::new()
        };
        let release_labels: [&str; 3] = ["發行日期:", "Release Date:", "日期:"];
        let release = self.info_of(doc, &release_labels);
        let runtime_labels: [&str; 3] = ["長度:", "Runtime:", "時長:"];
        let runtime = self.info_of(doc, &runtime_labels);
        let director_labels: [&str; 2] = ["導演:", "Director:"];
        let director = self.info_of(doc, &director_labels);
        let studio_labels: [&str; 3] = ["製作商:", "Studio:", "Maker:"];
        let studio = self.info_of(doc, &studio_labels);
        let label_labels: [&str; 3] = ["發行商:", "Label:", "系列:"];
        let label = self.info_of(doc, &label_labels);
        let series_labels: [&str; 2] = ["系列:", "Series:"];
        let series = self.info_of(doc, &series_labels);
        let actor = keep_longer_than_a_byte(select_all_text(doc, AVMOO_ACTORS));
        let tag = select_all_text(doc, AVMOO_GENRES);
        let rating = select_text(doc, AVMOO_RATING);
        let userrating = if !rating.as_str().is_empty() {
            trim_str(rating.as_str())
        } else {
            String::new()
        };
        let outline = if tag.len() > 0 {
            join_exec(&tag, ", ")
        } else {
            String::new()
        };
        proof {
            assert(release_labels@.map_values(|l: &str| avmoo_info(doc@, l@)) =~= seq![
                avmoo_info(doc@, "發行日期:"@),
                avmoo_info(doc@, "Release Date:"@),
                avmoo_info(doc@, "日期:"@),
            ]);
            assert(runtime_labels@.map_values(|l: &str| avmoo_info(doc@, l@)) =~= seq![
                avmoo_info(doc@, "長度:"@),
                avmoo_info(doc@, "Runtime:"@),
                avmoo_info(doc@, "時長:"@),
            ]);
            assert(director_labels@.map_values(|l: &str| avmoo_info(doc@, l@)) =~= seq![
                avmoo_info(doc@, "導演:"@),
                avmoo_info(doc@, "Director:"@),
            ]);
            assert(studio_labels@.map_values(|l: &str| avmoo_info(doc@, l@)) =~= seq![
                avmoo_info(doc@, "製作商:"@),
                avmoo_info(doc@, "Studio:"@),
                avmoo_info(doc@, "Maker:"@),
            ]);
            assert(label_labels@.map_values(|l: &str| avmoo_info(doc@, l@)) =~= seq![
                avmoo_info(doc@, "發行商:"@),
                avmoo_info(doc@, "Label:"@),
                avmoo_info(doc@, "系列:"@),
            ]);
            assert(series_labels@.map_values(|l: &str| avmoo_info(doc@, l@)) =~= seq![
                avmoo_info(doc@, "系列:"@),
                avmoo_info(doc@, "Series:"@),
            ]);
        }
        if title.as_str().is_empty() {
            return Err(copy_str("Failed to extract title from AVMOO"));
        }
        if cover.as_str().is_empty() {
            return Err(copy_str("Failed to extract cover image from AVMOO"));
        }
        let mut m = MovieMetadata::default();
        m.number = number;
        m.title = title;
        m.cover = cover;
        m.release = release;
        m.runtime = runtime;
        m.director = director;
        m.studio = studio;
        m.label = label;
        m.series = series;
        m.actor = actor;
        m.tag = tag;
        m.userrating = userrating;
        m.outline = outline;
        Ok(m)
    }
}

// ---------------------------------------------------------------------------
// Jav321
// ---------------------------------------------------------------------------

pub const JAV321_ID: &'static str = "<b>品番</b>:\\s*([^<]+)<br>";
pub const JAV321_TITLE: &'static str = "<div class=\"panel-heading\"><h3>([^<]+)<small";
pub const JAV321_DATE: &'static str = "<b>[^<]*</b>:\\s*(\\d{4}-\\d{2}-\\d{2})<br>";
pub const JAV321_RUNTIME: &'static str = "<b>[^<]*</b>:\\s*(\\d{1,3})\\s*minutes?<br>";
pub const JAV321_MAKER: &'static str = "<b>メーカー</b>:[^>]*>([^<]+)</a>";
pub const JAV321_GENRE: &'static str = "<a href=\"/genre/[^\"]+\">([^<]+)</a>";
pub const JAV321_COVER: &'static str = "src=\"(https?://[^\"]+\\.jpg)\"[^>]*class=\"img-responsive\"";
pub const JAV321_SHOTS: &'static str = "(https://[^\"]*jav321\\.com/[^\"]*\\.jpg)";
pub const JAV321_ACTRESS: &'static str = "/mono/actjpgs/[^\"]*\">([^<]+)</a>";

/// Group 1 of the first match of the pattern, if there is one.
pub open spec fn first_group(pattern: Seq<char>, text: Seq<char>) -> Option<Seq<char>> {
    match captured(pattern, text) {
        Some(c) => group(c, 1),
        None => None,
    }
}

/// Group 1 of the first match, or the empty text.
pub open spec fn first_group_text(pattern: Seq<char>, text: Seq<char>) -> Seq<char> {
    match first_group(pattern, text) {
        Some(g) => g,
        None => Seq::empty(),
    }
}

/// Group 1 of each match that has it, in order.
pub open spec fn groups_one(ms: Seq<Seq<Option<Seq<char>>>>) -> Seq<Seq<char>>
    decreases ms.len(),
{
    if ms.len() == 0 {
        Seq::empty()
    } else {
        let rest = groups_one(ms.drop_last());
        match group(ms.last(), 1) {
            Some(g) => rest.push(g),
            None => rest,
        }
    }
}

/// Each text trimmed with its entities decoded, the empty ones left out.
pub open spec fn cleaned_nonempty(v: Seq<Seq<char>>) -> Seq<Seq<char>>
    decreases v.len(),
{
    if v.len() == 0 {
        Seq::empty()
    } else {
        let rest = cleaned_nonempty(v.drop_last());
        let t = trimmed_decoded(v.last());
        if t.len() > 0 {
            rest.push(t)
        } else {
            rest
        }
    }
}

/// The texts that do not contain `p`, in order.
pub open spec fn without_text(v: Seq<Seq<char>>, p: Seq<char>) -> Seq<Seq<char>>
    decreases v.len(),
{
    if v.len() == 0 {
        Seq::empty()
    } else {
        let rest = without_text(v.drop_last(), p);
        if contains(v.last(), p) {
            rest
        } else {
            rest.push(v.last())
        }
    }
}

/// Each text up to its first `c`.
pub open spec fn cut_each(v: Seq<Seq<char>>, c: char) -> Seq<Seq<char>> {
    v.map_values(|n: Seq<char>| before_char(n, c))
}

/// The metadata of a Jav321 detail page, read with patterns from the page's
/// HTML as the parser writes it back, or why there is none.
pub open spec fn jav321_page(doc: Seq<char>, url: Seq<char>) -> Result<MetadataView, Seq<char>> {
    let h = serialized_html(doc);
    let m = MetadataView {
        website: url,
        number: match first_group(JAV321_ID@, h) {
            Some(g) => unicode_upper(trim(g)),
            None => Seq::empty(),
        },
        title: trimmed_decoded(first_group_text(JAV321_TITLE@, h)),
        release: first_group_text(JAV321_DATE@, h),
        runtime: first_group_text(JAV321_RUNTIME@, h),
        studio: trimmed_decoded(first_group_text(JAV321_MAKER@, h)),
        tag: cleaned_nonempty(groups_one(captured_all(JAV321_GENRE@, h))),
        cover: first_group_text(JAV321_COVER@, h),
        extrafanart: without_text(groups_one(captured_all(JAV321_SHOTS@, h)), "img-responsive"@),
        actor: cleaned_nonempty(cut_each(groups_one(captured_all(JAV321_ACTRESS@, h)), '(')),
        ..empty_metadata()
    };
    if m.title.len() == 0 {
        Err("Missing required field: title"@)
    } else {
        Ok(m)
    }
}

fn first_group_exec(pattern: &str, text: &str) -> (r: Option<String>)
    ensures
        match r {
            Some(g) => first_group(pattern@, text@) == Some(g@),
            None => first_group(pattern@, text@) is None,
        },
{
    match captures(pattern, text) {
        Some(c) => get_group(&c, 1),
        None => None,
    }
}

fn first_group_text_exec(pattern: &str, text: &str) -> (r: String)
    ensures
        r@ == first_group_text(pattern@, text@),
{
    match first_group_exec(pattern, text) {
        Some(g) => g,
        None => String::new(),
    }
}

fn groups_one_exec(ms: &Vec<Vec<Option<String>>>) -> (r: Vec<String>)
    ensures
        views_of(r@) == groups_one(all_opt_views(ms@)),
{
    let mut out: Vec<String> = Vec::new();
    let mut i: usize = 0;
    while i < ms.len()
        invariant
            i <= ms.len(),
            views_of(out@) == groups_one(all_opt_views(ms@).take(i as int)),
        decreases ms.len() - i,
    {
        proof {
            assert(all_opt_views(ms@).take(i + 1).drop_last() =~= all_opt_views(ms@).take(i as int));
            assert(all_opt_views(ms@).take(i + 1).last() == opt_views(ms@[i as int]@));
        }
        match get_group(&ms[i], 1) {
            Some(g) => {
                let ghost before = out@;
                out.push(g);
                proof {
                    assert(views_of(out@) =~= views_of(before).push(g@));
                }
            },
            None => {},
        }
        i = i + 1;
    }
    assert(all_opt_views(ms@).take(ms.len() as int) =~= all_opt_views(ms@));
    out
}

fn cleaned_nonempty_exec(v: &Vec<String>) -> (r: Vec<String>)
    ensures
        views_of(r@) == cleaned_nonempty(views_of(v@)),
{
    let mut out: Vec<String> = Vec::new();
    let mut i: usize = 0;
    while i < v.len()
        invariant
            i <= v.len(),
            views_of(out@) == cleaned_nonempty(views_of(v@).take(i as int)),
        decreases v.len() - i,
    {
        proof {
            assert(views_of(v@).take(i + 1).drop_last() =~= views_of(v@).take(i as int));
            assert(views_of(v@).take(i + 1).last() == v@[i as int]@);
        }
        let t = trim_decode(v[i].as_str());
        if !t.as_str().is_empty() {
            let ghost before = out@;
            out.push(t);
            proof {
                assert(views_of(out@) =~= views_of(before).push(t@));
            }
        }
        i = i + 1;
    }
    assert(views_of(v@).take(v.len() as int) =~= views_of(v@));
    out
}

fn without_text_exec(v: &Vec<String>, p: &str) -> (r: Vec<String>)
    ensures
        views_of(r@) == without_text(views_of(v@), p@),
{
    let mut out: Vec<String> = Vec::new();
    let mut i: usize = 0;
    while i < v.len()
        invariant
            i <= v.len(),
            views_of(out@) == without_text(views_of(v@).take(i as int), p@),
        decreases v.len() - i,
    {
        proof {
            assert(views_of(v@).take(i + 1).drop_last() =~= views_of(v@).take(i as int));
            assert(views_of(v@).take(i + 1).last() == v@[i as int]@);
        }
        if !str_contains(v[i].as_str(), p) {
            let ghost before = out@;
            out.push(copy_str(v[i].as_str()));
            proof {
                assert(views_of(out@) =~= views_of(before).push(v@[i as int]@));
            }
        }
        i = i + 1;
    }
    assert(views_of(v@).take(v.len() as int) =~= views_of(v@));
    out
}

fn cut_each_exec(v: &Vec<String>, c: char) -> (r: Vec<String>)
    ensures
        views_of(r@) == cut_each(views_of(v@), c),
{
    let mut out: Vec<String> = Vec::new();
    let mut i: usize = 0;
    while i < v.len()
        invariant
            i <= v.len(),
            out@.len() == i,
            forall|j: int| 0 <= j < i ==> #[trigger] out@[j]@ == before_char(v@[j]@, c),
        decreases v.len() - i,
    {
        out.push(before_char_str(v[i].as_str(), c));
        i = i + 1;
    }
    assert(views_of(out@) =~= cut_each(views_of(v@), c));
    out
}

impl Jav321Scraper {
    /// The metadata of a detail page.
    pub fn parse_detail_metadata(&self, doc: &str, url: &str) -> (r: Result<MovieMetadata, String>)
        ensures
            match r {
                Ok(m) => jav321_page(doc@, url@) == Ok::<MetadataView, Seq<char>>(m@),
                Err(e) => jav321_page(doc@, url@) == Err::<MetadataView, Seq<char>>(e@),
            },
    {
        let h = document_html(doc);
        let hs = h.as_str();
        let number = match first_group_exec(JAV321_ID, hs) {
            Some(g) => {
                let t = trim_str(g.as_str());
                to_uppercase(t.as_str())
            },
            None => String::new(),
        };
        let title = trim_decode(first_group_text_exec(JAV321_TITLE, hs).as_str());
        let release = first_group_text_exec(JAV321_DATE, hs);
        let runtime = first_group_text_exec(JAV321_RUNTIME, hs);
        let studio = trim_decode(first_group_text_exec(JAV321_MAKER, hs).as_str());
        let tag = cleaned_nonempty_exec(&groups_one_exec(&captures_all(JAV321_GENRE, hs)));
        let cover = first_group_text_exec(JAV321_COVER, hs);
        let extrafanart = without_text_exec(
            &groups_one_exec(&captures_all(JAV321_SHOTS, hs)),
            "img-responsive",
        );
        let names = cut_each_exec(&groups_one_exec(&captures_all(JAV321_ACTRESS, hs)), '(');
        let actor = cleaned_nonempty_exec(&names);
        if title.as_str().is_empty() {
            return Err(copy_str("Missing required field: title"));
        }
        let mut m = MovieMetadata::default();
        m.website = copy_str(url);
        m.number = number;
        m.title = title;
        m.release = release;
        m.runtime = runtime;
        m.studio = studio;
        m.tag = tag;
        m.cover = cover;
        m.extrafanart = extrafanart;
        m.actor = actor;
        Ok(m)
    }

    /// The metadata of a page: that of a detail page.
    pub fn parse_metadata(&self, doc: &str, url: &str) -> (r: Result<MovieMetadata, String>)
        ensures
            match r {
                Ok(m) => jav321_page(doc@, url@) == Ok::<MetadataView, Seq<char>>(m@),
                Err(e) => jav321_page(doc@, url@) == Err::<MetadataView, Seq<char>>(e@),
            },
    {
        self.parse_detail_metadata(doc, url)
    }
}

// ---------------------------------------------------------------------------
// IMDB
// ---------------------------------------------------------------------------

pub const IMDB_TITLE: &'static str = "h1[data-testid=\"hero-title-block__title\"]";
pub const IMDB_TITLE_2: &'static str = "h1[data-testid=\"hero__pageTitle\"]";
pub const IMDB_TITLE_3: &'static str = "h1.sc-afe43def-0";
pub const IMDB_TITLE_4: &'static str = "h1";
pub const IMDB_RELEASE_1: &'static str = "a[href*=\"releaseinfo\"] + div ul li a";
pub const IMDB_RELEASE_2: &'static str = "li[data-testid=\"title-details-releasedate\"] a";
pub const IMDB_RELEASE_3: &'static str = "a[href*=\"releaseinfo\"]";
pub const IMDB_COVER: &'static str = "meta[property=\"og:image\"]";
pub const IMDB_OUTLINE: &'static str = "meta[property=\"og:description\"]";
pub const IMDB_ACTOR_1: &'static str = "section[data-testid=\"title-cast\"] a[data-testid=\"title-cast-item__actor\"]";
pub const IMDB_ACTOR_2: &'static str = "div[data-testid=\"title-cast-item\"] a";
pub const IMDB_ACTOR_3: &'static str = "table.cast_list td:nth-child(2) a";
pub const IMDB_GENRE_1: &'static str = "div[data-testid=\"genres\"] a span";
pub const IMDB_GENRE_2: &'static str = "div[data-testid=\"genres\"] span";
pub const IMDB_GENRE_3: &'static str = "a[href*=\"/search/title/?genres=\"] span";
pub const IMDB_RUNTIME_1: &'static str = "li[data-testid=\"title-techspec_runtime\"] div";
pub const IMDB_RUNTIME_2: &'static str = "time[datetime]";
pub const IMDB_RATING_1: &'static str = "div[data-testid=\"hero-rating-bar__aggregate-rating__score\"] span";
pub const IMDB_RATING_2: &'static str = "span[class*=\"AggregateRating\"] span";
pub const IMDB_VOTES_1: &'static str = "div[data-testid=\"hero-rating-bar__aggregate-rating__score\"] ~ div";
pub const IMDB_VOTES_2: &'static str = "div[class*=\"TotalRating\"]";
pub const IMDB_DIRECTOR_1: &'static str = "li[data-testid=\"title-pc-principal-credit\"] a";
pub const IMDB_DIRECTOR_2: &'static str = "a[href*=\"/name/\"]";

/// The first text that starts with `p`.
pub open spec fn first_starting_with(v: Seq<Seq<char>>, p: Seq<char>) -> Option<Seq<char>>
    decreases v.len(),
{
    if v.len() == 0 {
        None
    } else if starts_with(v[0], p) {
        Some(v[0])
    } else {
        first_starting_with(v.skip(1), p)
    }
}

/// The title id in an IMDB address: its first `/`-separated part that starts
/// with `tt`.
pub open spec fn imdb_id(url: Seq<char>) -> Seq<char> {
    match first_starting_with(split_on(url, '/'), "tt"@) {
        Some(p) => p,
        None => Seq::empty(),
    }
}

/// A vote count as IMDB writes it: commas dropped, `K` and `M` written out
/// as zeros, and the first word read as a `u32`; 0 when that fails.
pub open spec fn imdb_votes(s: Seq<char>) -> u32 {
    let c = replace(replace(replace(s, ","@, ""@), "K"@, "000"@), "M"@, "000000"@);
    let w = words(c);
    if w.len() > 0 {
        match parse_unsigned(w[0], u32::MAX as nat) {
            Some(n) => n as u32,
            None => 0,
        }
    } else {
        0
    }
}

/// The rating as IMDB writes it (`7.5/10`): the part before the `/`, trimmed.
pub open spec fn imdb_rating(s: Seq<char>) -> Seq<char> {
    if s.len() > 0 {
        trim(before_char(s, '/'))
    } else {
        Seq::empty()
    }
}

/// The metadata of an IMDB title page.
pub open spec fn imdb_page(doc: Seq<char>, url: Seq<char>) -> MetadataView {
    let t1 = first_text(doc, IMDB_TITLE@);
    MetadataView {
        number: imdb_id(url),
        title: if t1.len() > 0 {
            t1
        } else {
            first_text_of(doc, seq![IMDB_TITLE_2@, IMDB_TITLE_3@, IMDB_TITLE_4@])
        },
        release: first_text_of(doc, seq![IMDB_RELEASE_1@, IMDB_RELEASE_2@, IMDB_RELEASE_3@]),
        cover: first_attr(doc, IMDB_COVER@, "content"@),
        outline: first_attr(doc, IMDB_OUTLINE@, "content"@),
        actor: all_texts_of(doc, seq![IMDB_ACTOR_1@, IMDB_ACTOR_2@, IMDB_ACTOR_3@]),
        tag: all_texts_of(doc, seq![IMDB_GENRE_1@, IMDB_GENRE_2@, IMDB_GENRE_3@]),
        runtime: first_text_of(doc, seq![IMDB_RUNTIME_1@, IMDB_RUNTIME_2@]),
        userrating: imdb_rating(first_text_of(doc, seq![IMDB_RATING_1@, IMDB_RATING_2@])),
        uservotes: imdb_votes(first_text_of(doc, seq![IMDB_VOTES_1@, IMDB_VOTES_2@])),
        director: first_text_of(doc, seq![IMDB_DIRECTOR_1@, IMDB_DIRECTOR_2@]),
        ..empty_metadata()
    }
}

fn imdb_id_exec(url: &str) -> (r: String)
    ensures
        r@ == imdb_id(url@),
{
    let parts = split_on_str(url, '/');
    let mut i: usize = 0;
    assert(views_of(parts@).skip(0) =~= views_of(parts@));
    while i < parts.len()
        invariant
            i <= parts.len(),
            views_of(parts@) == split_on(url@, '/'),
            first_starting_with(views_of(parts@), "tt"@) == first_starting_with(
                views_of(parts@).skip(i as int),
                "tt"@,
            ),
        decreases parts.len() - i,
    {
        proof {
            assert(views_of(parts@).skip(i as int)[0] == parts@[i as int]@);
            assert(views_of(parts@).skip(i as int).skip(1) =~= views_of(parts@).skip(i + 1));
        }
        if str_starts_with(parts[i].as_str(), "tt") {
            let r = copy_str(parts[i].as_str());
            assert(first_starting_with(views_of(parts@).skip(i as int), "tt"@) == Some(r@));
            return r;
        }
        i = i + 1;
    }
    String::new()
}

fn imdb_votes_exec(s: &str) -> (r: u32)
    ensures
        r == imdb_votes(s@),
{
    proof {
        reveal_strlit(",");
        reveal_strlit("K");
        reveal_strlit("M");
    }
    let a = replace_str(s, ",", "");
    let b = replace_str(a.as_str(), "K", "000");
    let c = replace_str(b.as_str(), "M", "000000");
    let w = split_whitespace_str(c.as_str());
    if w.len() > 0 {
        match parse_u64(w[0].as_str()) {
            Some(n) => {
                if n <= 4294967295u64 {
                    proof {
                        assert(parse_unsigned(w@[0]@, u32::MAX as nat) == Some(n as nat));
                    }
                    n as u32
                } else {
                    0
                }
            },
            None => 0,
        }
    } else {
        0
    }
}

impl ImdbScraper {
    /// The metadata of an IMDB title page; IMDB pages always give one.
    pub fn parse_metadata(&self, doc: &str, url: &str) -> (r: Result<MovieMetadata, String>)
        ensures
            r matches Ok(m) && m@ == imdb_page(doc@, url@),
    {
        let number = imdb_id_exec(url);
        let t1 = select_text(doc, IMDB_TITLE);
        let title = if !t1.as_str().is_empty() {
            t1
        } else {
            let sels: [&str; 3] = [IMDB_TITLE_2, IMDB_TITLE_3, IMDB_TITLE_4];
            assert(strs(sels@) =~= seq![IMDB_TITLE_2@, IMDB_TITLE_3@, IMDB_TITLE_4@]);
            select_text_by_exprs(doc, &sels)
        };
        let release_sels: [&str; 3] = [IMDB_RELEASE_1, IMDB_RELEASE_2, IMDB_RELEASE_3];
        let actor_sels: [&str; 3] = [IMDB_ACTOR_1, IMDB_ACTOR_2, IMDB_ACTOR_3];
        let genre_sels: [&str; 3] = [IMDB_GENRE_1, IMDB_GENRE_2, IMDB_GENRE_3];
        let runtime_sels: [&str; 2] = [IMDB_RUNTIME_1, IMDB_RUNTIME_2];
        let rating_sels: [&str; 2] = [IMDB_RATING_1, IMDB_RATING_2];
        let votes_sels: [&str; 2] = [IMDB_VOTES_1, IMDB_VOTES_2];
        let director_sels: [&str; 2] = [IMDB_DIRECTOR_1, IMDB_DIRECTOR_2];
        proof {
            assert(strs(release_sels@) =~= seq![IMDB_RELEASE_1@, IMDB_RELEASE_2@, IMDB_RELEASE_3@]);
            assert(strs(actor_sels@) =~= seq![IMDB_ACTOR_1@, IMDB_ACTOR_2@, IMDB_ACTOR_3@]);
            assert(strs(genre_sels@) =~= seq![IMDB_GENRE_1@, IMDB_GENRE_2@, IMDB_GENRE_3@]);
            assert(strs(runtime_sels@) =~= seq![IMDB_RUNTIME_1@, IMDB_RUNTIME_2@]);
            assert(strs(rating_sels@) =~= seq![IMDB_RATING_1@, IMDB_RATING_2@]);
            assert(strs(votes_sels@) =~= seq![IMDB_VOTES_1@, IMDB_VOTES_2@]);
            assert(strs(director_sels@) =~= seq![IMDB_DIRECTOR_1@, IMDB_DIRECTOR_2@]);
        }
        let release = select_text_by_exprs(doc, &release_sels);
        let cover = select_attr(doc, IMDB_COVER, "content");
        let outline = select_attr(doc, IMDB_OUTLINE, "content");
        let actor = select_all_text_by_exprs(doc, &actor_sels);
        let tag = select_all_text_by_exprs(doc, &genre_sels);
        let runtime = select_text_by_exprs(doc, &runtime_sels);
        let rating = select_text_by_exprs(doc, &rating_sels);
        let userrating = if !rating.as_str().is_empty() {
            let head = before_char_str(rating.as_str(), '/');
            trim_str(head.as_str())
        } else {
            String::new()
        };
        let votes = select_text_by_exprs(doc, &votes_sels);
        let uservotes = if !votes.as_str().is_empty() {
            imdb_votes_exec(votes.as_str())
        } else {
            0
        };
        let director = select_text_by_exprs(doc, &director_sels);
        let mut m = MovieMetadata::default();
        m.number = number;
        m.title = title;
        m.release = release;
        m.cover = cover;
        m.outline = outline;
        m.actor = actor;
        m.tag = tag;
        m.runtime = runtime;
        m.userrating = userrating;
        m.uservotes = uservotes;
        m.director = director;
        Ok(m)
    }
}

// ---------------------------------------------------------------------------
// FC2
// ---------------------------------------------------------------------------

pub const FC2_TITLE: &'static str = "h2.items_article_headerInfo, h3.items_article_headerInfo, div.items_article_MainitemsTitle h3";
pub const FC2_COVER: &'static str = "div.items_article_MainitemThumb img, img.items_article_MainitemThumb, meta[property='og:image']";
pub const FC2_OG_IMAGE: &'static str = "meta[property='og:image']";
pub const FC2_INFO: &'static str = "p.items_article_info, div.items_article_info";
pub const FC2_SELLER: &'static str = "a.items_article_SellerName, div.seller a";
pub const FC2_TAGS: &'static str = "a.tag, a.items_article_tag, div.tag a";
pub const FC2_OUTLINE: &'static str = "div.items_article_MainitemComment, div.description, p.items_comment";

/// The first whitespace-separated word, or the empty text.
pub open spec fn first_word(s: Seq<char>) -> Seq<char> {
    if words(s).len() > 0 {
        words(s)[0]
    } else {
        Seq::empty()
    }
}

fn first_word_exec(s: &str) -> (r: String)
    ensures
        r@ == first_word(s@),
{
    let w = split_whitespace_str(s);
    if w.len() > 0 {
        copy_str(w[0].as_str())
    } else {
        String::new()
    }
}

/// The first word after the first label that occurs, tried in order.
pub open spec fn word_after(text: Seq<char>, label1: Seq<char>, label2: Seq<char>) -> Seq<char> {
    match after_label(text, label1) {
        Some(d) => first_word(d),
        None => match after_label(text, label2) {
            Some(d) => first_word(d),
            None => Seq::empty(),
        },
    }
}

fn word_after_exec(text: &str, label1: &str, label2: &str) -> (r: String)
    ensures
        r@ == word_after(text@, label1@, label2@),
{
    match after_label_exec(text, label1) {
        Some(d) => first_word_exec(d.as_str()),
        None => match after_label_exec(text, label2) {
            Some(d) => first_word_exec(d.as_str()),
            None => String::new(),
        },
    }
}

/// The article id in an FC2 address: after `/article/`, up to the next `/`.
pub open spec fn fc2_number(url: Seq<char>) -> Seq<char> {
    match after_label(url, "/article/"@) {
        Some(p) => "FC2-PPV-"@ + before_char(p, '/'),
        None => Seq::empty(),
    }
}

/// The metadata of an FC2 article page, or why there is none.
pub open spec fn fc2_page(base: Seq<char>, doc: Seq<char>, url: Seq<char>) -> Result<MetadataView, Seq<char>> {
    let src = first_attr(doc, FC2_COVER@, "src"@);
    let info = first_text(doc, FC2_INFO@);
    let m = MetadataView {
        number: fc2_number(url),
        title: words_joined(first_text(doc, FC2_TITLE@)),
        cover: if src.len() == 0 {
            first_attr(doc, FC2_OG_IMAGE@, "content"@)
        } else {
            absolute_url(base, src)
        },
        release: word_after(info, "販売日:"@, "Sales Date:"@),
        runtime: word_after(info, "再生時間:"@, "Runtime:"@),
        studio: "FC2"@,
        label: "FC2-PPV"@,
        director: first_text(doc, FC2_SELLER@),
        tag: all_texts(doc, FC2_TAGS@),
        outline: words_joined(first_text(doc, FC2_OUTLINE@)),
        actor: seq!["Amateur"@],
        ..empty_metadata()
    };
    if m.title.len() == 0 {
        Err("Failed to extract title from FC2"@)
    } else {
        Ok(m)
    }
}

impl Fc2Scraper {
    /// The metadata of an FC2 article page.
    pub fn parse_metadata(&self, doc: &str, url: &str) -> (r: Result<MovieMetadata, String>)
        ensures
            match r {
                Ok(m) => fc2_page(self.base_url@, doc@, url@) == Ok::<MetadataView, Seq<char>>(m@),
                Err(e) => fc2_page(self.base_url@, doc@, url@) == Err::<MetadataView, Seq<char>>(e@),
            },
    {
        let number = match after_label_exec(url, "/article/") {
            Some(p) => {
                let id = before_char_str(p.as_str(), '/');
                concat("FC2-PPV-", id.as_str())
            },
            None => String::new(),
        };
        let raw_title = select_text(doc, FC2_TITLE);
        let title = squash_ws_str(raw_title.as_str());
        let src = select_attr(doc, FC2_COVER, "src");
        let cover = if src.as_str().is_empty() {
            select_attr(doc, FC2_OG_IMAGE, "content")
        } else {
            absolute_url_exec(self.base_url.as_str(), src.as_str())
        };
        let info = select_text(doc, FC2_INFO);
        let release = word_after_exec(info.as_str(), "販売日:", "Sales Date:");
        let runtime = word_after_exec(info.as_str(), "再生時間:", "Runtime:");
        let director = select_text(doc, FC2_SELLER);
        let tag = select_all_text(doc, FC2_TAGS);
        let raw_outline = select_text(doc, FC2_OUTLINE);
        let outline = squash_ws_str(raw_outline.as_str());
        if title.as_str().is_empty() {
            return Err(copy_str("Failed to extract title from FC2"));
        }
        let mut actor: Vec<String> = Vec::new();
        actor.push(copy_str("Amateur"));
        let mut m = MovieMetadata::default();
        m.number = number;
        m.title = title;
        m.cover = cover;
        m.release = release;
        m.runtime = runtime;
        m.studio = copy_str("FC2");
        m.label = copy_str("FC2-PPV");
        m.director = director;
        m.tag = tag;
        m.outline = outline;
        m.actor = actor;
        assert(m@.actor =~= seq!["Amateur"@]);
        Ok(m)
    }
}

// ---------------------------------------------------------------------------
// JavDB
// ---------------------------------------------------------------------------

pub const JAVDB_TITLE: &'static str = "<title>([^<]+)</title>";
pub const JAVDB_COVER_1: &'static str = "<img[^>]+class=\"video-cover\"[^>]+src=\"([^\"]+)\"";
pub const JAVDB_COVER_2: &'static str = "<img[^>]+src=\"([^\"]+)\"[^>]+class=\"video-cover\"";
pub const JAVDB_RELEASE: &'static str = "<span class=\"value\">(\\d{4}-\\d{2}-\\d{2})</span>";
pub const JAVDB_RUNTIME: &'static str = "<span class=\"value\">(\\d+)\\s*(?:分鍾|minute)";
pub const JAVDB_DIRECTOR: &'static str = "<a href=\"/directors/[^\"]*\">([^<]+)</a>";
pub const JAVDB_STUDIO: &'static str = "<a href=\"/makers/[^\"]*\">([^<]+)</a>";
pub const JAVDB_SERIES: &'static str = "<a href=\"[^\"]*/ series/[^\"]*\">([^<]+)</a>";
pub const JAVDB_TAGS: &'static str = "<a href=\"/tags/[^\"]*\">([^<]+)</a>";
pub const JAVDB_SHOTS: &'static str = "<a class=\"tile-item\" href=\"([^\"]+)\" data-fancybox=\"gallery\"";
pub const JAVDB_TRAILER: &'static str = "src=\"([^\"]+)\" type=\"video/mp4\"";
pub const JAVDB_ACTORS: &'static str = "<a href=\"/actors/[^\"]*\"><strong>([^<]+)</strong></a>";
pub const JAVDB_UID: &'static str = "<div class=\"uid\">([^<]+)</div>";
pub const JAVDB_HREF: &'static str = "<a[^>]+href=\"(/v/[^\"]+)\"[^>]*>";
pub const JAVDB_MOVIE_ID: &'static str = "\\d+(\\D+-\\d+)";

/// A captured text as JavDB pages need it: entities decoded, then its words
/// joined by single spaces.
pub open spec fn javdb_clean(s: Seq<char>) -> Seq<char> {
    words_joined(html_decoded(s))
}

/// Group 1 of the first match, cleaned.
pub open spec fn javdb_extract(pattern: Seq<char>, h: Seq<char>) -> Option<Seq<char>> {
    match first_group(pattern, h) {
        Some(g) => Some(javdb_clean(g)),
        None => None,
    }
}

/// The texts cleaned, the empty ones left out.
pub open spec fn javdb_cleaned_all(v: Seq<Seq<char>>) -> Seq<Seq<char>>
    decreases v.len(),
{
    if v.len() == 0 {
        Seq::empty()
    } else {
        let rest = javdb_cleaned_all(v.drop_last());
        let t = javdb_clean(v.last());
        if t.len() > 0 {
            rest.push(t)
        } else {
            rest
        }
    }
}

/// Group 1 of every match, cleaned, the empty ones left out.
pub open spec fn javdb_extract_all(pattern: Seq<char>, h: Seq<char>) -> Seq<Seq<char>> {
    javdb_cleaned_all(groups_one(captured_all(pattern, h)))
}

pub open spec fn or_empty(o: Option<Seq<char>>) -> Seq<char> {
    match o {
        Some(s) => s,
        None => Seq::empty(),
    }
}

/// `s` up to the first occurrence of `p`.
pub open spec fn before_text(s: Seq<char>, p: Seq<char>) -> Seq<char> {
    match first_occurrence(s, p) {
        Some(i) => s.take(i),
        None => s,
    }
}

/// The metadata of a JavDB detail page, or why there is none.
pub open spec fn javdb_page(doc: Seq<char>, url: Seq<char>) -> Result<MetadataView, Seq<char>> {
    let h = serialized_html(doc);
    let parts = match javdb_extract(JAVDB_TITLE@, h) {
        Some(t) => words(t),
        None => Seq::empty(),
    };
    let m = MetadataView {
        website: url,
        number: if parts.len() >= 2 {
            parts[0]
        } else {
            Seq::empty()
        },
        title: if parts.len() >= 2 {
            before_text(joined_by(parts.skip(1), " "@), " - JavDB"@)
        } else {
            Seq::empty()
        },
        cover: match javdb_extract(JAVDB_COVER_1@, h) {
            Some(c) => c,
            None => or_empty(javdb_extract(JAVDB_COVER_2@, h)),
        },
        release: or_empty(javdb_extract(JAVDB_RELEASE@, h)),
        runtime: or_empty(javdb_extract(JAVDB_RUNTIME@, h)),
        director: or_empty(javdb_extract(JAVDB_DIRECTOR@, h)),
        studio: or_empty(javdb_extract(JAVDB_STUDIO@, h)),
        series: or_empty(javdb_extract(JAVDB_SERIES@, h)),
        tag: javdb_extract_all(JAVDB_TAGS@, h),
        extrafanart: javdb_extract_all(JAVDB_SHOTS@, h),
        trailer: or_empty(javdb_extract(JAVDB_TRAILER@, h)),
        actor: javdb_extract_all(JAVDB_ACTORS@, h),
        ..empty_metadata()
    };
    if m.title.len() == 0 {
        Err("[JavDB] Failed to extract title from page"@)
    } else if m.cover.len() == 0 {
        Err("[JavDB] Failed to extract cover image from page"@)
    } else {
        Ok(m)
    }
}

/// The first position whose text, upper-cased, is `target`.
pub open spec fn first_upper_match(ids: Seq<Seq<char>>, target: Seq<char>) -> Option<int> {
    if exists|i: int| 0 <= i < ids.len() && #[trigger] unicode_upper(ids[i]) == target {
        Some(
            choose|i: int|
                0 <= i < ids.len() && unicode_upper(ids[i]) == target && forall|j: int|
                    0 <= j < i ==> unicode_upper(ids[j]) != target,
        )
    } else {
        None
    }
}

/// The id in a movie number without the digits that lead it (`0123ABC-456`
/// gives `ABC-456`).
pub open spec fn clean_movie_id(id: Seq<char>) -> Option<Seq<char>> {
    first_group(JAVDB_MOVIE_ID@, id)
}

/// The detail path of the `index`-th movie link of a search page.
pub open spec fn javdb_detail_path(h: Seq<char>, index: int) -> Result<Seq<char>, Seq<char>> {
    let ms = captured_all(JAVDB_HREF@, h);
    if 0 <= index < ms.len() && group(ms[index], 1) is Some {
        Ok(group(ms[index], 1)->0)
    } else {
        Err("[JavDB] Failed to extract detail URL at index "@ + decimal(index as nat))
    }
}

/// The ids on a search page, trimmed, in order.
pub open spec fn javdb_ids(h: Seq<char>) -> Seq<Seq<char>> {
    groups_one(captured_all(JAVDB_UID@, h)).map_values(|t: Seq<char>| trim(t))
}

/// The detail path a search page gives for a number: that of the result whose
/// id is the number (compared upper-cased), else of the one whose id is the
/// number without its leading digits, else of the first result.
pub open spec fn javdb_search_path(doc: Seq<char>, number: Seq<char>) -> Result<Seq<char>, Seq<char>> {
    let h = serialized_html(doc);
    let ids = javdb_ids(h);
    if ids.len() == 0 {
        Err("[JavDB] No search results found for: "@ + number)
    } else {
        match first_upper_match(ids, unicode_upper(number)) {
            Some(i) => javdb_detail_path(h, i),
            None => match clean_movie_id(number) {
                Some(c) => match first_upper_match(ids, unicode_upper(c)) {
                    Some(i) => javdb_detail_path(h, i),
                    None => javdb_detail_path(h, 0),
                },
                None => javdb_detail_path(h, 0),
            },
        }
    }
}

fn javdb_cleaned_all_exec(sc: &JavdbScraper, v: &Vec<String>) -> (r: Vec<String>)
    ensures
        views_of(r@) == javdb_cleaned_all(views_of(v@)),
{
    let mut out: Vec<String> = Vec::new();
    let mut i: usize = 0;
    while i < v.len()
        invariant
            i <= v.len(),
            views_of(out@) == javdb_cleaned_all(views_of(v@).take(i as int)),
        decreases v.len() - i,
    {
        proof {
            assert(views_of(v@).take(i + 1).drop_last() =~= views_of(v@).take(i as int));
            assert(views_of(v@).take(i + 1).last() == v@[i as int]@);
        }
        let d = sc.decode_html_entities(v[i].as_str());
        let t = sc.clean_text(d.as_str());
        if !t.as_str().is_empty() {
            let ghost before = out@;
            out.push(t);
            proof {
                assert(views_of(out@) =~= views_of(before).push(t@));
            }
        }
        i = i + 1;
    }
    assert(views_of(v@).take(v.len() as int) =~= views_of(v@));
    out
}

fn first_upper_match_exec(ids: &Vec<String>, target: &str) -> (r: Option<usize>)
    ensures
        match r {
            Some(i) => first_upper_match(views_of(ids@), target@) == Some(i as int),
            None => first_upper_match(views_of(ids@), target@) is None,
        },
{
    let ghost v = views_of(ids@);
    let mut i: usize = 0;
    while i < ids.len()
        invariant
            i <= ids.len(),
            v == views_of(ids@),
            forall|j: int| 0 <= j < i ==> #[trigger] unicode_upper(v[j]) != target@,
        decreases ids.len() - i,
    {
        let u = to_uppercase(ids[i].as_str());
        if str_eq(u.as_str(), target) {
            proof {
                assert(unicode_upper(v[i as int]) == target@);
                let k = choose|k: int|
                    0 <= k < v.len() && unicode_upper(v[k]) == target@ && forall|j: int|
                        0 <= j < k ==> unicode_upper(v[j]) != target@;
                if k < i {
                    assert(unicode_upper(v[k]) != target@);
                }
                if k > i {
                    assert(unicode_upper(v[i as int]) != target@);
                }
            }
            return Some(i);
        }
        i = i + 1;
    }
    None
}

impl JavdbScraper {
    fn extract_with_regex(&self, h: &str, pattern: &str) -> (r: Option<String>)
        ensures
            match r {
                Some(t) => javdb_extract(pattern@, h@) == Some(t@),
                None => javdb_extract(pattern@, h@) is None,
            },
    {
        match first_group_exec(pattern, h) {
            Some(g) => {
                let d = self.decode_html_entities(g.as_str());
                Some(self.clean_text(d.as_str()))
            },
            None => None,
        }
    }

    fn extract_or_empty(&self, h: &str, pattern: &str) -> (r: String)
        ensures
            r@ == or_empty(javdb_extract(pattern@, h@)),
    {
        match self.extract_with_regex(h, pattern) {
            Some(t) => t,
            None => String::new(),
        }
    }

    fn extract_all_with_regex(&self, h: &str, pattern: &str) -> (r: Vec<String>)
        ensures
            views_of(r@) == javdb_extract_all(pattern@, h@),
    {
        let groups = groups_one_exec(&captures_all(pattern, h));
        javdb_cleaned_all_exec(self, &groups)
    }

    /// The metadata of a JavDB detail page.
    pub fn parse_metadata(&self, doc: &str, url: &str) -> (r: Result<MovieMetadata, String>)
        ensures
            match r {
                Ok(m) => javdb_page(doc@, url@) == Ok::<MetadataView, Seq<char>>(m@),
                Err(e) => javdb_page(doc@, url@) == Err::<MetadataView, Seq<char>>(e@),
            },
    {
        let h = document_html(doc);
        let hs = h.as_str();
        let mut number = String::new();
        let mut title = String::new();
        match self.extract_with_regex(hs, JAVDB_TITLE) {
            Some(t) => {
                let parts = split_whitespace_str(t.as_str());
                if parts.len() >= 2 {
                    number = copy_str(parts[0].as_str());
                    let mut rest: Vec<String> = Vec::new();
                    let mut i: usize = 1;
                    while i < parts.len()
                        invariant
                            1 <= i <= parts.len(),
                            views_of(rest@) == views_of(parts@).subrange(1, i as int),
                        decreases parts.len() - i,
                    {
                        let ghost before = rest@;
                        rest.push(copy_str(parts[i].as_str()));
                        proof {
                            assert(views_of(rest@) =~= views_of(before).push(parts@[i as int]@));
                            assert(views_of(parts@).subrange(1, i + 1) =~= views_of(parts@).subrange(
                                1,
                                i as int,
                            ).push(parts@[i as int]@));
                        }
                        i = i + 1;
                    }
                    assert(views_of(rest@) =~= views_of(parts@).skip(1));
                    let full = join_exec(&rest, " ");
                    title = match find_str(full.as_str(), " - JavDB") {
                        Some(k) => take_chars_str(full.as_str(), k),
                        None => full,
                    };
                }
            },
            None => {},
        }
        let cover = match self.extract_with_regex(hs, JAVDB_COVER_1) {
            Some(c) => c,
            None => self.extract_or_empty(hs, JAVDB_COVER_2),
        };
        let release = self.extract_or_empty(hs, JAVDB_RELEASE);
        let runtime = self.extract_or_empty(hs, JAVDB_RUNTIME);
        let director = self.extract_or_empty(hs, JAVDB_DIRECTOR);
        let studio = self.extract_or_empty(hs, JAVDB_STUDIO);
        let series = self.extract_or_empty(hs, JAVDB_SERIES);
        let tag = self.extract_all_with_regex(hs, JAVDB_TAGS);
        let extrafanart = self.extract_all_with_regex(hs, JAVDB_SHOTS);
        let trailer = self.extract_or_empty(hs, JAVDB_TRAILER);
        let actor = self.extract_all_with_regex(hs, JAVDB_ACTORS);
        if title.as_str().is_empty() {
            return Err(copy_str("[JavDB] Failed to extract title from page"));
        }
        if cover.as_str().is_empty() {
            return Err(copy_str("[JavDB] Failed to extract cover image from page"));
        }
        let mut m = MovieMetadata::default();
        m.website = copy_str(url);
        m.number = number;
        m.title = title;
        m.cover = cover;
        m.release = release;
        m.runtime = runtime;
        m.director = director;
        m.studio = studio;
        m.series = series;
        m.tag = tag;
        m.extrafanart = extrafanart;
        m.trailer = trailer;
        m.actor = actor;
        Ok(m)
    }

    /// The path of the `index`-th movie link in a page's HTML.
    pub fn extract_detail_url_from_html(&self, h: &str, index: usize) -> (r: Result<String, String>)
        ensures
            match r {
                Ok(p) => javdb_detail_path(h@, index as int) == Ok::<Seq<char>, Seq<char>>(p@),
                Err(e) => javdb_detail_path(h@, index as int) == Err::<Seq<char>, Seq<char>>(e@),
            },
    {
        let ms = captures_all(JAVDB_HREF, h);
        if index < ms.len() {
            proof {
                assert(all_opt_views(ms@)[index as int] == opt_views(ms@[index as int]@));
            }
            match get_group(&ms[index], 1) {
                Some(p) => {
                    return Ok(p);
                },
                None => {},
            }
        }
        let n = decimal_str(index as u64);
        Err(concat("[JavDB] Failed to extract detail URL at index ", n.as_str()))
    }

    /// The id without its leading digits, if it has that shape.
    pub fn clean_movie_id(id: &str) -> (r: Option<String>)
        ensures
            match r {
                Some(c) => clean_movie_id(id@) == Some(c@),
                None => clean_movie_id(id@) is None,
            },
    {
        first_group_exec(JAVDB_MOVIE_ID, id)
    }

    /// The detail path that a search page gives for a number.
    pub fn parse_search_results(&self, doc: &str, number: &str) -> (r: Result<String, String>)
        ensures
            match r {
                Ok(p) => javdb_search_path(doc@, number@) == Ok::<Seq<char>, Seq<char>>(p@),
                Err(e) => javdb_search_path(doc@, number@) == Err::<Seq<char>, Seq<char>>(e@),
            },
    {
        let h = document_html(doc);
        let hs = h.as_str();
        let groups = groups_one_exec(&captures_all(JAVDB_UID, hs));
        let mut ids: Vec<String> = Vec::new();
        let mut i: usize = 0;
        while i < groups.len()
            invariant
                i <= groups.len(),
                ids@.len() == i,
                forall|j: int| 0 <= j < i ==> #[trigger] ids@[j]@ == trim(groups@[j]@),
            decreases groups.len() - i,
        {
            ids.push(trim_str(groups[i].as_str()));
            i = i + 1;
        }
        assert(views_of(ids@) =~= javdb_ids(h@));
        if ids.len() == 0 {
            return Err(concat("[JavDB] No search results found for: ", number));
        }
        let upper = to_uppercase(number);
        match first_upper_match_exec(&ids, upper.as_str()) {
            Some(k) => {
                return self.extract_detail_url_from_html(hs, k);
            },
            None => {},
        }
        match Self::clean_movie_id(number) {
            Some(c) => {
                let cu = to_uppercase(c.as_str());
                match first_upper_match_exec(&ids, cu.as_str()) {
                    Some(k) => {
                        return self.extract_detail_url_from_html(hs, k);
                    },
                    None => {},
                }
            },
            None => {},
        }
        self.extract_detail_url_from_html(hs, 0)
    }
}

// ---------------------------------------------------------------------------
// Label/value tables
// ---------------------------------------------------------------------------

pub open spec fn entry_views(v: Seq<(String, String)>) -> Seq<(Seq<char>, Seq<char>)> {
    v.map_values(|p: (String, String)| (p.0@, p.1@))
}

/// The value that the last entry with the key gives: the table is read into a
/// map, later rows overwriting earlier ones.
pub open spec fn last_value(e: Seq<(Seq<char>, Seq<char>)>, key: Seq<char>) -> Option<Seq<char>>
    decreases e.len(),
{
    if e.len() == 0 {
        None
    } else if e.last().0 == key {
        Some(e.last().1)
    } else {
        last_value(e.drop_last(), key)
    }
}

/// The value under the first key that has one.
pub open spec fn value_of(e: Seq<(Seq<char>, Seq<char>)>, keys: Seq<Seq<char>>) -> Seq<char>
    decreases keys.len(),
{
    if keys.len() == 0 {
        Seq::empty()
    } else {
        match last_value(e, keys[0]) {
            Some(v) => v,
            None => value_of(e, keys.skip(1)),
        }
    }
}

/// One entry per row: its first label cell and first value cell, trimmed,
/// when both are there and neither is empty.
pub open spec fn row_entries(rows: Seq<(Seq<Seq<char>>, Seq<Seq<char>>)>) -> Seq<(Seq<char>, Seq<char>)>
    decreases rows.len(),
{
    if rows.len() == 0 {
        Seq::empty()
    } else {
        let rest = row_entries(rows.drop_last());
        let (a, b) = rows.last();
        if a.len() > 0 && b.len() > 0 && trim(a[0]).len() > 0 && trim(b[0]).len() > 0 {
            rest.push((trim(a[0]), trim(b[0])))
        } else {
            rest
        }
    }
}

/// The first `n` label/value pairs, trimmed, those with an empty side left out.
pub open spec fn zip_entries(a: Seq<Seq<char>>, b: Seq<Seq<char>>, n: nat) -> Seq<(Seq<char>, Seq<char>)>
    decreases n,
{
    if n == 0 {
        Seq::empty()
    } else {
        let rest = zip_entries(a, b, (n - 1) as nat);
        let k = trim(a[n - 1]);
        let v = trim(b[n - 1]);
        if k.len() > 0 && v.len() > 0 {
            rest.push((k, v))
        } else {
            rest
        }
    }
}

pub open spec fn min_len(a: Seq<Seq<char>>, b: Seq<Seq<char>>) -> nat {
    if a.len() <= b.len() {
        a.len()
    } else {
        b.len()
    }
}

/// All label/value pairs of all lists, each list's labels paired in order
/// with its values.
pub open spec fn list_entries(lists: Seq<(Seq<Seq<char>>, Seq<Seq<char>>)>) -> Seq<(Seq<char>, Seq<char>)>
    decreases lists.len(),
{
    if lists.len() == 0 {
        Seq::empty()
    } else {
        let (a, b) = lists.last();
        list_entries(lists.drop_last()) + zip_entries(a, b, min_len(a, b))
    }
}

/// The table of a page: one entry per row.
pub open spec fn table_of(doc: Seq<char>, rows: Seq<char>, label: Seq<char>, value: Seq<char>) -> Seq<
    (Seq<char>, Seq<char>),
> {
    match css_scoped_pairs(doc, rows, label, value) {
        Some(r) => row_entries(r),
        None => Seq::empty(),
    }
}

/// The label/value pairs of a page's description lists.
pub open spec fn lists_of(doc: Seq<char>, lists: Seq<char>, label: Seq<char>, value: Seq<char>) -> Seq<
    (Seq<char>, Seq<char>),
> {
    match css_scoped_pairs(doc, lists, label, value) {
        Some(r) => list_entries(r),
        None => Seq::empty(),
    }
}

fn table_exec(doc: &str, rows: &str, label: &str, value: &str) -> (r: Vec<(String, String)>)
    ensures
        entry_views(r@) == table_of(doc@, rows@, label@, value@),
{
    let raw = match scoped_text_pairs(doc, rows, label, value) {
        Some(v) => v,
        None => {
            return Vec::new();
        },
    };
    let ghost rv = pair_views(raw@);
    let mut out: Vec<(String, String)> = Vec::new();
    let mut i: usize = 0;
    while i < raw.len()
        invariant
            i <= raw.len(),
            rv == pair_views(raw@),
            entry_views(out@) == row_entries(rv.take(i as int)),
        decreases raw.len() - i,
    {
        proof {
            assert(rv.take(i + 1).drop_last() =~= rv.take(i as int));
            assert(rv.take(i + 1).last() == rv[i as int]);
        }
        let a = &raw[i].0;
        let b = &raw[i].1;
        if a.len() > 0 && b.len() > 0 {
            let k = trim_str(a[0].as_str());
            let v = trim_str(b[0].as_str());
            if !k.as_str().is_empty() && !v.as_str().is_empty() {
                let ghost before = out@;
                out.push((k, v));
                proof {
                    assert(entry_views(out@) =~= entry_views(before).push((k@, v@)));
                }
            }
        }
        i = i + 1;
    }
    assert(rv.take(raw.len() as int) =~= rv);
    out
}

fn lists_exec(doc: &str, lists: &str, label: &str, value: &str) -> (r: Vec<(String, String)>)
    ensures
        entry_views(r@) == lists_of(doc@, lists@, label@, value@),
{
    let raw = match scoped_text_pairs(doc, lists, label, value) {
        Some(v) => v,
        None => {
            return Vec::new();
        },
    };
    let ghost rv = pair_views(raw@);
    let mut out: Vec<(String, String)> = Vec::new();
    let mut i: usize = 0;
    while i < raw.len()
        invariant
            i <= raw.len(),
            rv == pair_views(raw@),
            entry_views(out@) == list_entries(rv.take(i as int)),
        decreases raw.len() - i,
    {
        proof {
            assert(rv.take(i + 1).drop_last() =~= rv.take(i as int));
            assert(rv.take(i + 1).last() == rv[i as int]);
        }
        let a = &raw[i].0;
        let b = &raw[i].1;
        let ghost av = views_of(a@);
        let ghost bv = views_of(b@);
        let ghost base = entry_views(out@);
        let n: usize = if a.len() <= b.len() { a.len() } else { b.len() };
        let mut j: usize = 0;
        while j < n
            invariant
                j <= n,
                n <= a.len(),
                n <= b.len(),
                av == views_of(a@),
                bv == views_of(b@),
                entry_views(out@) == base + zip_entries(av, bv, j as nat),
            decreases n - j,
        {
            let k = trim_str(a[j].as_str());
            let v = trim_str(b[j].as_str());
            if !k.as_str().is_empty() && !v.as_str().is_empty() {
                let ghost before = out@;
                out.push((k, v));
                proof {
                    assert(entry_views(out@) =~= entry_views(before).push((k@, v@)));
                    assert(zip_entries(av, bv, (j + 1) as nat) == zip_entries(av, bv, j as nat).push(
                        (k@, v@),
                    ));
                    assert(entry_views(out@) =~= base + zip_entries(av, bv, (j + 1) as nat));
                }
            } else {
                assert(zip_entries(av, bv, (j + 1) as nat) == zip_entries(av, bv, j as nat));
            }
            j = j + 1;
        }
        proof {
            assert(n == min_len(av, bv));
        }
        i = i + 1;
    }
    assert(rv.take(raw.len() as int) =~= rv);
    out
}

/// The value that a table gives for a key.
pub fn info_get(entries: &Vec<(String, String)>, key: &str) -> (r: Option<String>)
    ensures
        match r {
            Some(v) => last_value(entry_views(entries@), key@) == Some(v@),
            None => last_value(entry_views(entries@), key@) is None,
        },
{
    let ghost e = entry_views(entries@);
    let mut i: usize = entries.len();
    assert(e.take(i as int) =~= e);
    while i > 0
        invariant
            i <= entries.len(),
            e == entry_views(entries@),
            last_value(e, key@) == last_value(e.take(i as int), key@),
        decreases i,
    {
        proof {
            assert(e.take(i as int).last() == e[i - 1]);
            assert(e.take(i as int).drop_last() =~= e.take(i - 1));
        }
        if str_eq(entries[i - 1].0.as_str(), key) {
            return Some(copy_str(entries[i - 1].1.as_str()));
        }
        i = i - 1;
    }
    None
}

/// The value under the first key that has one, or the empty text.
fn value_of_exec(entries: &Vec<(String, String)>, keys: &[&str]) -> (r: String)
    ensures
        r@ == value_of(entry_views(entries@), strs(keys@)),
{
    let ghost e = entry_views(entries@);
    let mut i: usize = 0;
    assert(strs(keys@).skip(0) =~= strs(keys@));
    while i < keys.len()
        invariant
            i <= keys.len(),
            e == entry_views(entries@),
            value_of(e, strs(keys@)) == value_of(e, strs(keys@).skip(i as int)),
        decreases keys.len() - i,
    {
        proof {
            assert(strs(keys@).skip(i as int)[0] == keys@[i as int]@);
            assert(strs(keys@).skip(i as int).skip(1) =~= strs(keys@).skip(i + 1));
        }
        match info_get(entries, keys[i]) {
            Some(v) => {
                return v;
            },
            None => {},
        }
        i = i + 1;
    }
    String::new()
}

// ---------------------------------------------------------------------------
// JAVLibrary
// ---------------------------------------------------------------------------

pub const JAVLIBRARY_ROWS: &'static str = "div#video_info tr, div.item tr";
pub const JAVLIBRARY_TITLE: &'static str = "h3.post-title.text";
pub const JAVLIBRARY_COVER: &'static str = "img#video_jacket_img";
pub const JAVLIBRARY_ACTORS: &'static str = "div#video_cast span.cast a, div.cast a";
pub const JAVLIBRARY_GENRES: &'static str = "div#video_genres span.genre a, div.genre a";

/// The info table of a JAVLibrary page.
pub open spec fn javlibrary_info(doc: Seq<char>) -> Seq<(Seq<char>, Seq<char>)> {
    table_of(doc, JAVLIBRARY_ROWS@, "td.header"@, "td.text"@)
}

/// The number in a JAVLibrary address (`?v=javXXXX`): the `v` parameter
/// without `jav`, upper-cased.
pub open spec fn javlibrary_url_number(url: Seq<char>) -> Seq<char> {
    match after_label(url, "v="@) {
        Some(p) => unicode_upper(replace(before_char(p, '&'), "jav"@, ""@)),
        None => Seq::empty(),
    }
}

/// The metadata of a JAVLibrary page, or why there is none.
pub open spec fn javlibrary_page(base: Seq<char>, doc: Seq<char>, url: Seq<char>) -> Result<
    MetadataView,
    Seq<char>,
> {
    let info = javlibrary_info(doc);
    let t1 = first_text(doc, JAVLIBRARY_TITLE@);
    let title0 = if t1.len() > 0 {
        t1
    } else {
        trim(before_char(first_text(doc, "title"@), '-'))
    };
    let src = first_attr(doc, JAVLIBRARY_COVER@, "src"@);
    let tags = all_texts(doc, JAVLIBRARY_GENRES@);
    let rating = first_attr(doc, "span.score"@, "title"@);
    let m = MetadataView {
        title: words_joined(title0),
        number: match last_value(info, "ID:"@) {
            Some(v) => v,
            None => match last_value(info, "品番:"@) {
                Some(v) => v,
                None => javlibrary_url_number(url),
            },
        },
        release: value_of(info, seq!["Release Date:"@, "発売日:"@]),
        runtime: value_of(info, seq!["Length:"@, "収録時間:"@]),
        director: value_of(info, seq!["Director:"@, "監督:"@]),
        studio: value_of(info, seq!["Maker:"@, "メーカー:"@]),
        label: value_of(info, seq!["Label:"@, "レーベル:"@]),
        series: value_of(info, seq!["Series:"@, "シリーズ:"@]),
        cover: if src.len() == 0 {
            Seq::empty()
        } else if starts_with(src, "http"@) {
            src
        } else {
            base + src
        },
        actor: all_texts(doc, JAVLIBRARY_ACTORS@),
        tag: tags,
        userrating: if rating.len() > 0 {
            trim(before_char(rating, '('))
        } else {
            Seq::empty()
        },
        outline: if tags.len() > 0 {
            joined_by(tags, ", "@)
        } else {
            Seq::empty()
        },
        ..empty_metadata()
    };
    if m.title.len() == 0 {
        Err("Failed to extract title from JAVLibrary"@)
    } else if m.cover.len() == 0 {
        Err("Failed to extract cover image from JAVLibrary"@)
    } else {
        Ok(m)
    }
}

impl JavlibraryScraper {
    /// The info table of a page, one label/value entry per row.
    pub fn parse_info_table(&self, doc: &str) -> (r: Vec<(String, String)>)
        ensures
            entry_views(r@) == javlibrary_info(doc@),
    {
        table_exec(doc, JAVLIBRARY_ROWS, "td.header", "td.text")
    }

    /// The metadata of a JAVLibrary page.
    pub fn parse_metadata(&self, doc: &str, url: &str) -> (r: Result<MovieMetadata, String>)
        ensures
            match r {
                Ok(m) => javlibrary_page(self.base_url@, doc@, url@) == Ok::<MetadataView, Seq<char>>(m@),
                Err(e) => javlibrary_page(self.base_url@, doc@, url@) == Err::<MetadataView, Seq<char>>(e@),
            },
    {
        let info = self.parse_info_table(doc);
        let t1 = select_text(doc, JAVLIBRARY_TITLE);
        let title0 = if !t1.as_str().is_empty() {
            t1
        } else {
            let page_title = select_text(doc, "title");
            let head = before_char_str(page_title.as_str(), '-');
            trim_str(head.as_str())
        };
        let title = squash_ws_str(title0.as_str());
        let number = match info_get(&info, "ID:") {
            Some(v) => v,
            None => match info_get(&info, "品番:") {
                Some(v) => v,
                None => match after_label_exec(url, "v=") {
                    Some(p) => {
                        proof {
                            reveal_strlit("jav");
                        }
                        let id = before_char_str(p.as_str(), '&');
                        let bare = replace_str(id.as_str(), "jav", "");
                        to_uppercase(bare.as_str())
                    },
                    None => String::new(),
                },
            },
        };
        let release_keys: [&str; 2] = ["Release Date:", "発売日:"];
        let runtime_keys: [&str; 2] = ["Length:", "収録時間:"];
        let director_keys: [&str; 2] = ["Director:", "監督:"];
        let studio_keys: [&str; 2] = ["Maker:", "メーカー:"];
        let label_keys: [&str; 2] = ["Label:", "レーベル:"];
        let series_keys: [&str; 2] = ["Series:", "シリーズ:"];
        proof {
            assert(strs(release_keys@) =~= seq!["Release Date:"@, "発売日:"@]);
            assert(strs(runtime_keys@) =~= seq!["Length:"@, "収録時間:"@]);
            assert(strs(director_keys@) =~= seq!["Director:"@, "監督:"@]);
            assert(strs(studio_keys@) =~= seq!["Maker:"@, "メーカー:"@]);
            assert(strs(label_keys@) =~= seq!["Label:"@, "レーベル:"@]);
            assert(strs(series_keys@) =~= seq!["Series:"@, "シリーズ:"@]);
        }
        let release = value_of_exec(&info, &release_keys);
        let runtime = value_of_exec(&info, &runtime_keys);
        let director = value_of_exec(&info, &director_keys);
        let studio = value_of_exec(&info, &studio_keys);
        let label = value_of_exec(&info, &label_keys);
        let series = value_of_exec(&info, &series_keys);
        let src = select_attr(doc, JAVLIBRARY_COVER, "src");
        let cover = if src.as_str().is_empty() {
            String::new()
        } else if str_starts_with(src.as_str(), "http") {
            src
        } else {
            concat(self.base_url.as_str(), src.as_str())
        };
        let actor = select_all_text(doc, JAVLIBRARY_ACTORS);
        let tag = select_all_text(doc, JAVLIBRARY_GENRES);
        let rating = select_attr(doc, "span.score", "title");
        let userrating = if !rating.as_str().is_empty() {
            let head = before_char_str(rating.as_str(), '(');
            trim_str(head.as_str())
        } else {
            String::new()
        };
        let outline = if tag.len() > 0 {
            join_exec(&tag, ", ")
        } else {
            String::new()
        };
        if title.as_str().is_empty() {
            return Err(copy_str("Failed to extract title from JAVLibrary"));
        }
        if cover.as_str().is_empty() {
            return Err(copy_str("Failed to extract cover image from JAVLibrary"));
        }
        let mut m = MovieMetadata::default();
        m.title = title;
        m.number = number;
        m.release = release;
        m.runtime = runtime;
        m.director = director;
        m.studio = studio;
        m.label = label;
        m.series = series;
        m.cover = cover;
        m.actor = actor;
        m.tag = tag;
        m.userrating = userrating;
        m.outline = outline;
        Ok(m)
    }
}

// ---------------------------------------------------------------------------
// Tokyo-Hot
// ---------------------------------------------------------------------------

pub const TOKYOHOT_TITLE: &'static str = "h2.title, div.title h2, div.detail h2";
pub const TOKYOHOT_COVER: &'static str = "img.package, div.package img, img.product-image, meta[property='og:image']";
pub const TOKYOHOT_OG_IMAGE: &'static str = "meta[property='og:image']";
pub const TOKYOHOT_LISTS: &'static str = "dl.info, dl.detail";
pub const TOKYOHOT_ACTORS: &'static str = "a.actress, div.cast a, dl.cast dd a, span.actress a";
pub const TOKYOHOT_GENRES: &'static str = "a.genre, div.genre a, a.category";
pub const TOKYOHOT_OUTLINE: &'static str = "div.description, p.description, div.summary, div.comment";

/// The label/value pairs of a Tokyo-Hot page's description lists.
pub open spec fn tokyohot_info(doc: Seq<char>) -> Seq<(Seq<char>, Seq<char>)> {
    lists_of(doc, TOKYOHOT_LISTS@, "dt"@, "dd"@)
}

/// The number in a Tokyo-Hot address (`?q=n0001`): `Tokyo-Hot N0001`.
pub open spec fn tokyohot_url_number(url: Seq<char>) -> Seq<char> {
    match after_label(url, "?q="@) {
        Some(q) => "Tokyo-Hot "@ + unicode_upper(unicode_lower(before_char(q, '&'))),
        None => Seq::empty(),
    }
}

/// The metadata of a Tokyo-Hot page, or why there is none.
pub open spec fn tokyohot_page(base: Seq<char>, doc: Seq<char>, url: Seq<char>) -> Result<
    MetadataView,
    Seq<char>,
> {
    let info = tokyohot_info(doc);
    let src = first_attr(doc, TOKYOHOT_COVER@, "src"@);
    let m = MetadataView {
        number: tokyohot_url_number(url),
        title: words_joined(first_text(doc, TOKYOHOT_TITLE@)),
        cover: if src.len() == 0 {
            first_attr(doc, TOKYOHOT_OG_IMAGE@, "content"@)
        } else {
            absolute_url(base, src)
        },
        release: value_of(info, seq!["配信開始日:"@, "Release Date:"@, "配信日:"@]),
        runtime: value_of(info, seq!["収録時間:"@, "Runtime:"@, "再生時間:"@]),
        studio: "Tokyo-Hot"@,
        label: "Tokyo-Hot"@,
        director: value_of(info, seq!["監督:"@, "Director:"@]),
        series: value_of(info, seq!["シリーズ:"@, "Series:"@]),
        actor: longer_than_a_byte(all_texts(doc, TOKYOHOT_ACTORS@)),
        tag: all_texts(doc, TOKYOHOT_GENRES@).push("Uncensored"@),
        outline: words_joined(first_text(doc, TOKYOHOT_OUTLINE@)),
        ..empty_metadata()
    };
    if m.title.len() == 0 {
        Err("Failed to extract title from Tokyo-Hot"@)
    } else {
        Ok(m)
    }
}

impl TokyohotScraper {
    /// The label/value pairs of a page's description lists.
    pub fn extract_info_from_dl(&self, doc: &str) -> (r: Vec<(String, String)>)
        ensures
            entry_views(r@) == tokyohot_info(doc@),
    {
        lists_exec(doc, TOKYOHOT_LISTS, "dt", "dd")
    }

    /// The metadata of a Tokyo-Hot page.
    pub fn parse_metadata(&self, doc: &str, url: &str) -> (r: Result<MovieMetadata, String>)
        ensures
            match r {
                Ok(m) => tokyohot_page(self.base_url@, doc@, url@) == Ok::<MetadataView, Seq<char>>(m@),
                Err(e) => tokyohot_page(self.base_url@, doc@, url@) == Err::<MetadataView, Seq<char>>(e@),
            },
    {
        let number = match after_label_exec(url, "?q=") {
            Some(q) => {
                let id = before_char_str(q.as_str(), '&');
                let lower = to_lowercase(id.as_str());
                let upper = to_uppercase(lower.as_str());
                concat("Tokyo-Hot ", upper.as_str())
            },
            None => String::new(),
        };
        let raw_title = select_text(doc, TOKYOHOT_TITLE);
        let title = squash_ws_str(raw_title.as_str());
        let src = select_attr(doc, TOKYOHOT_COVER, "src");
        let cover = if src.as_str().is_empty() {
            select_attr(doc, TOKYOHOT_OG_IMAGE, "content")
        } else {
            absolute_url_exec(self.base_url.as_str(), src.as_str())
        };
        let info = self.extract_info_from_dl(doc);
        let release_keys: [&str; 3] = ["配信開始日:", "Release Date:", "配信日:"];
        let runtime_keys: [&str; 3] = ["収録時間:", "Runtime:", "再生時間:"];
        let director_keys: [&str; 2] = ["監督:", "Director:"];
        let series_keys: [&str; 2] = ["シリーズ:", "Series:"];
        proof {
            assert(strs(release_keys@) =~= seq!["配信開始日:"@, "Release Date:"@, "配信日:"@]);
            assert(strs(runtime_keys@) =~= seq!["収録時間:"@, "Runtime:"@, "再生時間:"@]);
            assert(strs(director_keys@) =~= seq!["監督:"@, "Director:"@]);
            assert(strs(series_keys@) =~= seq!["シリーズ:"@, "Series:"@]);
        }
        let release = value_of_exec(&info, &release_keys);
        let runtime = value_of_exec(&info, &runtime_keys);
        let director = value_of_exec(&info, &director_keys);
        let series = value_of_exec(&info, &series_keys);
        let actor = keep_longer_than_a_byte(select_all_text(doc, TOKYOHOT_ACTORS));
        let mut tag = select_all_text(doc, TOKYOHOT_GENRES);
        let raw_outline = select_text(doc, TOKYOHOT_OUTLINE);
        let outline = squash_ws_str(raw_outline.as_str());
        let ghost tags_before = tag@;
        tag.push(copy_str("Uncensored"));
        assert(views_of(tag@) =~= views_of(tags_before).push("Uncensored"@));
        if title.as_str().is_empty() {
            return Err(copy_str("Failed to extract title from Tokyo-Hot"));
        }
        let mut m = MovieMetadata::default();
        m.number = number;
        m.title = title;
        m.cover = cover;
        m.release = release;
        m.runtime = runtime;
        m.studio = copy_str("Tokyo-Hot");
        m.label = copy_str("Tokyo-Hot");
        m.director = director;
        m.series = series;
        m.actor = actor;
        m.tag = tag;
        m.outline = outline;
        Ok(m)
    }
}

// ---------------------------------------------------------------------------
// DMM
// ---------------------------------------------------------------------------

pub const DMM_ROWS: &'static str = "table.mg-b20 tr";
pub const DMM_TITLE: &'static str = "h1#title";
pub const DMM_COVER_1: &'static str = "div.img img";
pub const DMM_COVER_2: &'static str = "img#sample-video";
pub const DMM_COVER_3: &'static str = "div.preview-images img";
pub const DMM_ACTORS: &'static str = "span#performer a";
pub const DMM_GENRES: &'static str = "table.mg-b20 a[href*='/genre/']";
pub const DMM_OUTLINE_1: &'static str = "div.mg-b20.lh4 p";
pub const DMM_OUTLINE_2: &'static str = "p.mg-b20";
pub const DMM_OUTLINE_3: &'static str = "div.txt.txt-product";
pub const DMM_DVD_LINK: &'static str = "a[href*='/mono/dvd/-/detail/']";
pub const DMM_DIGITAL_LINK: &'static str = "a[href*='/digital/videoa/-/detail/']";

/// The info table of a DMM page.
pub open spec fn dmm_info(doc: Seq<char>) -> Seq<(Seq<char>, Seq<char>)> {
    table_of(doc, DMM_ROWS@, "td.nw"@, "td:not(.nw)"@)
}

/// The first position of a numeric character.
pub open spec fn first_numeric(s: Seq<char>) -> Option<int> {
    if exists|i: int| 0 <= i < s.len() && #[trigger] numeric_char(s[i]) {
        Some(
            choose|i: int|
                0 <= i < s.len() && numeric_char(s[i]) && forall|j: int| 0 <= j < i ==> !numeric_char(s[j]),
        )
    } else {
        None
    }
}

/// A number with a `-` put before its first numeric character when
/// something comes before it, the zeros that lead the digits dropped
/// (`SSIS00123` gives `SSIS-123`).
pub open spec fn hyphen_at_digits(n: Seq<char>) -> Seq<char> {
    match first_numeric(n) {
        Some(i) => if i > 0 {
            n.take(i) + "-"@ + strip_leading_zeros(n.skip(i))
        } else {
            n
        },
        None => n,
    }
}

/// The display number made from a content id: upper-cased, every `00` made
/// a `-`, then a `-` put before the first numeric character (`ssis00123`
/// gives `SSIS--123`).
pub open spec fn dmm_number(cid: Seq<char>) -> Seq<char> {
    hyphen_at_digits(replace(unicode_upper(cid), "00"@, "-"@))
}

/// The metadata of a DMM product page, or why there is none.
pub open spec fn dmm_page(base: Seq<char>, doc: Seq<char>, url: Seq<char>) -> Result<MetadataView, Seq<char>> {
    let info = dmm_info(doc);
    let src = first_attr_of(doc, seq![DMM_COVER_1@, DMM_COVER_2@, DMM_COVER_3@], "src"@);
    let outline = first_text_of(doc, seq![DMM_OUTLINE_1@, DMM_OUTLINE_2@, DMM_OUTLINE_3@]);
    let m = MetadataView {
        number: match cid_in_url(url) {
            Some(c) => dmm_number(c),
            None => Seq::empty(),
        },
        title: words_joined(first_text(doc, DMM_TITLE@)),
        cover: if src.len() > 0 {
            absolute_url(base, src)
        } else {
            Seq::empty()
        },
        release: value_of(info, seq!["発売日："@, "配信開始日："@]),
        runtime: value_of(info, seq!["収録時間："@]),
        director: value_of(info, seq!["監督："@]),
        studio: value_of(info, seq!["メーカー："@]),
        label: value_of(info, seq!["レーベル："@]),
        series: value_of(info, seq!["シリーズ："@]),
        actor: all_texts(doc, DMM_ACTORS@),
        tag: all_texts(doc, DMM_GENRES@),
        outline: if outline.len() > 0 {
            words_joined(outline)
        } else {
            Seq::empty()
        },
        ..empty_metadata()
    };
    if m.title.len() == 0 {
        Err("Failed to extract title from DMM"@)
    } else if m.cover.len() == 0 {
        Err("Failed to extract cover image from DMM"@)
    } else {
        Ok(m)
    }
}

/// The raw attribute of the first element the selector picks, if it has it.
pub open spec fn first_raw_attr(doc: Seq<char>, selector: Seq<char>, attr: Seq<char>) -> Option<Seq<char>> {
    match css_attrs(doc, selector, attr) {
        Some(v) => if v.len() > 0 {
            v[0]
        } else {
            None
        },
        None => None,
    }
}

/// The product page a DMM search page leads to: the first DVD link, else the
/// first digital-video link, made absolute.
pub open spec fn dmm_product_url(base: Seq<char>, doc: Seq<char>, content_id: Seq<char>) -> Result<
    Seq<char>,
    Seq<char>,
> {
    let full = |h: Seq<char>|
        if starts_with(h, "http"@) {
            h
        } else {
            base + h
        };
    match first_raw_attr(doc, DMM_DVD_LINK@, "href"@) {
        Some(h) => Ok(full(h)),
        None => match first_raw_attr(doc, DMM_DIGITAL_LINK@, "href"@) {
            Some(h) => Ok(full(h)),
            None => Err("No DMM product page found for: "@ + content_id),
        },
    }
}

fn first_raw_attr_exec(doc: &str, selector: &str, attr: &str) -> (r: Option<String>)
    ensures
        match r {
            Some(a) => first_raw_attr(doc@, selector@, attr@) == Some(a@),
            None => first_raw_attr(doc@, selector@, attr@) is None,
        },
{
    match select_attrs_raw(doc, selector, attr) {
        Some(v) => {
            if v.len() > 0 {
                proof {
                    assert(opt_texts(v@)[0] == match v@[0] {
                        Some(s) => Some(s@),
                        None => None::<Seq<char>>,
                    });
                }
                match &v[0] {
                    Some(a) => Some(copy_str(a.as_str())),
                    None => None,
                }
            } else {
                None
            }
        },
        None => None,
    }
}

fn first_numeric_exec(s: &str) -> (r: Option<usize>)
    ensures
        match r {
            Some(i) => first_numeric(s@) == Some(i as int),
            None => first_numeric(s@) is None,
        },
        r matches Some(i) ==> i < s@.len(),
{
    let v = chars_of(s);
    let mut i: usize = 0;
    while i < v.len()
        invariant
            i <= v.len(),
            v@ == s@,
            forall|j: int| 0 <= j < i ==> !#[trigger] numeric_char(s@[j]),
        decreases v.len() - i,
    {
        if char_is_numeric(v[i]) {
            proof {
                let k = choose|k: int|
                    0 <= k < s@.len() && numeric_char(s@[k]) && forall|j: int|
                        0 <= j < k ==> !numeric_char(s@[j]);
                if k < i {
                    assert(!numeric_char(s@[k]));
                }
                if k > i {
                    assert(numeric_char(s@[i as int]));
                }
            }
            return Some(i);
        }
        i = i + 1;
    }
    None
}

fn hyphen_at_digits_exec(n: String) -> (r: String)
    ensures
        r@ == hyphen_at_digits(n@),
{
    match first_numeric_exec(n.as_str()) {
        Some(i) => {
            if i > 0 {
                let prefix = take_chars_str(n.as_str(), i);
                let rest = skip_chars_str(n.as_str(), i);
                let digits = strip_leading_zeros_str(rest.as_str());
                concat3(prefix.as_str(), "-", digits.as_str())
            } else {
                n
            }
        },
        None => n,
    }
}

impl DmmScraper {
    /// The info table of a page, one label/value entry per row.
    pub fn parse_info_table(&self, doc: &str) -> (r: Vec<(String, String)>)
        ensures
            entry_views(r@) == dmm_info(doc@),
    {
        table_exec(doc, DMM_ROWS, "td.nw", "td:not(.nw)")
    }

    /// The display number made from a content id.
    pub fn number_from_cid(&self, cid: &str) -> (r: String)
        ensures
            r@ == dmm_number(cid@),
    {
        proof {
            reveal_strlit("00");
        }
        let upper = to_uppercase(cid);
        let n = replace_str(upper.as_str(), "00", "-");
        hyphen_at_digits_exec(n)
    }

    /// The metadata of a DMM product page.
    pub fn parse_metadata(&self, doc: &str, url: &str) -> (r: Result<MovieMetadata, String>)
        ensures
            match r {
                Ok(m) => dmm_page(self.base_url@, doc@, url@) == Ok::<MetadataView, Seq<char>>(m@),
                Err(e) => dmm_page(self.base_url@, doc@, url@) == Err::<MetadataView, Seq<char>>(e@),
            },
    {
        let info = self.parse_info_table(doc);
        let number = match self.extract_cid_from_url(url) {
            Some(c) => self.number_from_cid(c.as_str()),
            None => String::new(),
        };
        let raw_title = select_text(doc, DMM_TITLE);
        let title = squash_ws_str(raw_title.as_str());
        let cover_sels: [&str; 3] = [DMM_COVER_1, DMM_COVER_2, DMM_COVER_3];
        let outline_sels: [&str; 3] = [DMM_OUTLINE_1, DMM_OUTLINE_2, DMM_OUTLINE_3];
        let release_keys: [&str; 2] = ["発売日：", "配信開始日："];
        let runtime_keys: [&str; 1] = ["収録時間："];
        let director_keys: [&str; 1] = ["監督："];
        let studio_keys: [&str; 1] = ["メーカー："];
        let label_keys: [&str; 1] = ["レーベル："];
        let series_keys: [&str; 1] = ["シリーズ："];
        proof {
            assert(strs(cover_sels@) =~= seq![DMM_COVER_1@, DMM_COVER_2@, DMM_COVER_3@]);
            assert(strs(outline_sels@) =~= seq![DMM_OUTLINE_1@, DMM_OUTLINE_2@, DMM_OUTLINE_3@]);
            assert(strs(release_keys@) =~= seq!["発売日："@, "配信開始日："@]);
            assert(strs(runtime_keys@) =~= seq!["収録時間："@]);
            assert(strs(director_keys@) =~= seq!["監督："@]);
            assert(strs(studio_keys@) =~= seq!["メーカー："@]);
            assert(strs(label_keys@) =~= seq!["レーベル："@]);
            assert(strs(series_keys@) =~= seq!["シリーズ："@]);
        }
        let src = select_attr_by_exprs(doc, &cover_sels, "src");
        let cover = if !src.as_str().is_empty() {
            absolute_url_exec(self.base_url.as_str(), src.as_str())
        } else {
            String::new()
        };
        let release = value_of_exec(&info, &release_keys);
        let runtime = value_of_exec(&info, &runtime_keys);
        let director = value_of_exec(&info, &director_keys);
        let studio = value_of_exec(&info, &studio_keys);
        let label = value_of_exec(&info, &label_keys);
        let series = value_of_exec(&info, &series_keys);
        let actor = select_all_text(doc, DMM_ACTORS);
        let tag = select_all_text(doc, DMM_GENRES);
        let raw_outline = select_text_by_exprs(doc, &outline_sels);
        let outline = if !raw_outline.as_str().is_empty() {
            squash_ws_str(raw_outline.as_str())
        } else {
            String::new()
        };
        if title.as_str().is_empty() {
            return Err(copy_str("Failed to extract title from DMM"));
        }
        if cover.as_str().is_empty() {
            return Err(copy_str("Failed to extract cover image from DMM"));
        }
        let mut m = MovieMetadata::default();
        m.number = number;
        m.title = title;
        m.cover = cover;
        m.release = release;
        m.runtime = runtime;
        m.director = director;
        m.studio = studio;
        m.label = label;
        m.series = series;
        m.actor = actor;
        m.tag = tag;
        m.outline = outline;
        Ok(m)
    }

    /// The product page that a search page leads to (the part of the search
    /// for both formats that reads the page).
    pub fn search_dual_format(&self, doc: &str, content_id: &str) -> (r: Result<String, String>)
        ensures
            match r {
                Ok(u) => dmm_product_url(self.base_url@, doc@, content_id@) == Ok::<Seq<char>, Seq<char>>(u@),
                Err(e) => dmm_product_url(self.base_url@, doc@, content_id@) == Err::<Seq<char>, Seq<char>>(e@),
            },
    {
        let href = match first_raw_attr_exec(doc, DMM_DVD_LINK, "href") {
            Some(h) => h,
            None => match first_raw_attr_exec(doc, DMM_DIGITAL_LINK, "href") {
                Some(h) => h,
                None => {
                    return Err(concat("No DMM product page found for: ", content_id));
                },
            },
        };
        if str_starts_with(href.as_str(), "http") {
            Ok(href)
        } else {
            Ok(concat(self.base_url.as_str(), href.as_str()))
        }
    }
}

// ---------------------------------------------------------------------------
// TMDB
// ---------------------------------------------------------------------------

pub const TMDB_TITLE: &'static str = "meta[property=\"og:title\"]";
pub const TMDB_IMAGE: &'static str = "meta[property=\"og:image\"]";
pub const TMDB_DESCRIPTION: &'static str = "meta[property=\"og:description\"]";
pub const TMDB_DIRECTOR: &'static str = "li.profile a[href*='/person/']";

/// A number written in plain decimal digits (`85`, `85.5`) divided by ten,
/// as text (`8.5`, `8.55`); the empty text for any other text.
pub open spec fn tenth_text(s: Seq<char>) -> Seq<char> {
    let int_part = before_char(s, '.');
    let frac = match first_index_of(s, '.') {
        Some(i) => s.skip(i + 1),
        None => Seq::empty(),
    };
    if int_part.len() > 0 && all_ascii_digits(int_part) && all_ascii_digits(frac) {
        int_part.drop_last() + "."@ + seq![int_part.last()] + frac
    } else {
        Seq::empty()
    }
}

fn all_digits_exec(s: &str) -> (r: bool)
    ensures
        r == all_ascii_digits(s@),
{
    let v = chars_of(s);
    let mut i: usize = 0;
    while i < v.len()
        invariant
            i <= v.len(),
            v@ == s@,
            forall|j: int| 0 <= j < i ==> is_ascii_digit(#[trigger] s@[j]),
        decreases v.len() - i,
    {
        if !char_is_ascii_digit(v[i]) {
            return false;
        }
        i = i + 1;
    }
    true
}

fn tenth_text_exec(s: &str) -> (r: String)
    ensures
        r@ == tenth_text(s@),
{
    let int_part = before_char_str(s, '.');
    let frac = match find_char(s, '.') {
        Some(i) => {
            let from = skip_chars_str(s, i);
            let r = skip_chars_str(from.as_str(), 1);
            assert(r@ =~= s@.skip(i + 1));
            r
        },
        None => String::new(),
    };
    if !int_part.as_str().is_empty() && all_digits_exec(int_part.as_str()) && all_digits_exec(
        frac.as_str(),
    ) {
        let n = int_part.unicode_len();
        let head = take_chars_str(int_part.as_str(), n - 1);
        let last = skip_chars_str(int_part.as_str(), n - 1);
        assert(last@ =~= seq![int_part@.last()]);
        assert(head@ =~= int_part@.drop_last());
        let a = concat3(head.as_str(), ".", last.as_str());
        concat(a.as_str(), frac.as_str())
    } else {
        String::new()
    }
}

/// The metadata of a TMDB movie page; the user rating is the page's score
/// percentage divided by ten.
pub open spec fn tmdb_page(doc: Seq<char>, url: Seq<char>) -> MetadataView {
    let cover_path = first_attr(doc, TMDB_IMAGE@, "content"@);
    let rating = first_attr(doc, "div.user_score_chart"@, "data-percent"@);
    MetadataView {
        title: first_attr(doc, TMDB_TITLE@, "content"@),
        release: first_text(doc, "div span.release"@),
        cover: if cover_path.len() == 0 {
            Seq::empty()
        } else if starts_with(cover_path, "http"@) {
            cover_path
        } else {
            "https://www.themoviedb.org"@ + cover_path
        },
        outline: first_attr(doc, TMDB_DESCRIPTION@, "content"@),
        number: before_char(last_segment(url), '?'),
        runtime: first_text(doc, "span.runtime"@),
        director: first_text(doc, TMDB_DIRECTOR@),
        actor: all_texts(doc, "ol.people li p a"@),
        tag: all_texts(doc, "span.genres a"@),
        userrating: if rating.len() > 0 {
            tenth_text(rating)
        } else {
            Seq::empty()
        },
        ..empty_metadata()
    }
}

impl TmdbScraper {
    /// The metadata of a TMDB movie page; TMDB pages always give one.
    pub fn parse_metadata(&self, doc: &str, url: &str) -> (r: Result<MovieMetadata, String>)
        ensures
            r matches Ok(m) && m@ == tmdb_page(doc@, url@),
    {
        let title = select_attr(doc, TMDB_TITLE, "content");
        let release = select_text(doc, "div span.release");
        let cover_path = select_attr(doc, TMDB_IMAGE, "content");
        let cover = if cover_path.as_str().is_empty() {
            String::new()
        } else if str_starts_with(cover_path.as_str(), "http") {
            cover_path
        } else {
            concat("https://www.themoviedb.org", cover_path.as_str())
        };
        let outline = select_attr(doc, TMDB_DESCRIPTION, "content");
        let seg = last_segment_exec(url);
        let number = before_char_str(seg.as_str(), '?');
        let runtime = select_text(doc, "span.runtime");
        let director = select_text(doc, TMDB_DIRECTOR);
        let actor = select_all_text(doc, "ol.people li p a");
        let tag = select_all_text(doc, "span.genres a");
        let rating = select_attr(doc, "div.user_score_chart", "data-percent");
        let userrating = if !rating.as_str().is_empty() {
            tenth_text_exec(rating.as_str())
        } else {
            String::new()
        };
        let mut m = MovieMetadata::default();
        m.title = title;
        m.release = release;
        m.cover = cover;
        m.outline = outline;
        m.number = number;
        m.runtime = runtime;
        m.director = director;
        m.actor = actor;
        m.tag = tag;
        m.userrating = userrating;
        Ok(m)
    }
}

// ---------------------------------------------------------------------------
// MGStage
// ---------------------------------------------------------------------------

pub const MGSTAGE_LINK_TAIL: &'static str = "</th>\\s*<td[^>]*>\\s*<a[^>]*>([^<]+)</a>";
pub const MGSTAGE_GENRES: &'static str = "/search/csearch\\.php\\?genre\\[\\]=\\d+\"[^>]*>([^<]+)<";
pub const MGSTAGE_ACTRESSES: &'static str = "/search/csearch\\.php\\?actress\\[\\]=\\d+\"[^>]*>([^<]+)<";
pub const MGSTAGE_COVER_1: &'static str = "class=\"link_magnify\"[^>]*?href=\"([^\"]+\\.jpg)\"";
pub const MGSTAGE_COVER_2: &'static str = "href=\"([^\"]+\\.jpg)\"[^>]*?class=\"link_magnify\"";
pub const MGSTAGE_SHOTS: &'static str = "class=\"sample_image\"\\s+href=\"([^\"]+\\.jpg)\"";
pub const MGSTAGE_HREF: &'static str = "<a\\s+href=\"(/product/product_detail/[^\"]+)\"";

/// The texts of the text nodes among `nodes`, joined.
pub open spec fn joined_texts(nodes: Seq<Option<Seq<char>>>) -> Seq<char>
    decreases nodes.len(),
{
    if nodes.len() == 0 {
        Seq::empty()
    } else {
        joined_texts(nodes.drop_last()) + match nodes.last() {
            Some(t) => t,
            None => Seq::empty(),
        }
    }
}

/// The joined text nodes of the first `td` element among the nodes.
pub open spec fn first_td(nodes: Seq<(Option<Seq<char>>, Seq<Option<Seq<char>>>)>) -> Option<Seq<char>>
    decreases nodes.len(),
{
    if nodes.len() == 0 {
        None
    } else if nodes[0].0 == Some("td"@) {
        Some(joined_texts(nodes[0].1))
    } else {
        first_td(nodes.skip(1))
    }
}

/// The value that one `th` gives for a label: when its trimmed text is the
/// label, the cleaned text of the `td` beside it, if not empty.
pub open spec fn th_value(
    cell: (Seq<char>, Option<Seq<(Option<Seq<char>>, Seq<Option<Seq<char>>>)>>),
    label: Seq<char>,
) -> Option<Seq<char>> {
    if trim(cell.0) == label {
        match cell.1 {
            Some(nodes) => match first_td(nodes) {
                Some(v) => if trimmed_decoded(v).len() > 0 {
                    Some(trimmed_decoded(v))
                } else {
                    None
                },
                None => None,
            },
            None => None,
        }
    } else {
        None
    }
}

/// The first value that a `th` gives for the label.
pub open spec fn th_values(
    cells: Seq<(Seq<char>, Option<Seq<(Option<Seq<char>>, Seq<Option<Seq<char>>>)>>)>,
    label: Seq<char>,
) -> Option<Seq<char>>
    decreases cells.len(),
{
    if cells.len() == 0 {
        None
    } else {
        match th_value(cells[0], label) {
            Some(v) => Some(v),
            None => th_values(cells.skip(1), label),
        }
    }
}

/// The value in the cell beside the `th` whose text is the label.
pub open spec fn mgstage_value(doc: Seq<char>, label: Seq<char>) -> Option<Seq<char>> {
    match css_neighbourhoods(doc, "th"@) {
        Some(cells) => th_values(cells, label),
        None => None,
    }
}

/// The text of the link in the cell after the `th` that holds the label.
pub open spec fn mgstage_link(doc: Seq<char>, label: Seq<char>) -> Option<Seq<char>> {
    let pattern = "<th>"@ + regex_escaped(label) + MGSTAGE_LINK_TAIL@;
    match first_group(pattern, serialized_html(doc)) {
        Some(g) => if trimmed_decoded(g).len() > 0 {
            Some(trimmed_decoded(g))
        } else {
            None
        },
        None => None,
    }
}

/// The large cover: the first `link_magnify` link to a `.jpg`.
pub open spec fn mgstage_cover(h: Seq<char>) -> Option<Seq<char>> {
    match captured(MGSTAGE_COVER_1@, h) {
        Some(c) => group(c, 1),
        None => match captured(MGSTAGE_COVER_2@, h) {
            Some(c) => group(c, 1),
            None => None,
        },
    }
}

/// The metadata of an MGStage detail page, or why there is none.
pub open spec fn mgstage_page(doc: Seq<char>, url: Seq<char>) -> Result<MetadataView, Seq<char>> {
    let h = serialized_html(doc);
    let m = MetadataView {
        website: url,
        title: match css_texts(doc, "title"@) {
            Some(v) => if v.len() > 0 {
                trimmed_decoded(v[0])
            } else {
                Seq::empty()
            },
            None => Seq::empty(),
        },
        number: or_empty(mgstage_value(doc, "品番："@)),
        release: or_empty(mgstage_value(doc, "配信開始日："@)),
        runtime: match mgstage_value(doc, "収録時間："@) {
            Some(r) => trim(replace(r, "min"@, ""@)),
            None => Seq::empty(),
        },
        studio: or_empty(mgstage_link(doc, "メーカー："@)),
        label: or_empty(mgstage_link(doc, "レーベル："@)),
        series: or_empty(mgstage_link(doc, "シリーズ："@)),
        tag: cleaned_nonempty(groups_one(captured_all(MGSTAGE_GENRES@, h))),
        actor: cleaned_nonempty(groups_one(captured_all(MGSTAGE_ACTRESSES@, h))),
        cover: or_empty(mgstage_cover(h)),
        extrafanart: groups_one(captured_all(MGSTAGE_SHOTS@, h)),
        ..empty_metadata()
    };
    if m.title.len() == 0 {
        Err("Missing required field: title"@)
    } else {
        Ok(m)
    }
}

/// The first path that holds the number, compared lower-cased.
pub open spec fn first_holding(paths: Seq<Seq<char>>, lower: Seq<char>) -> Option<Seq<char>>
    decreases paths.len(),
{
    if paths.len() == 0 {
        None
    } else if contains(unicode_lower(paths[0]), lower) {
        Some(paths[0])
    } else {
        first_holding(paths.skip(1), lower)
    }
}

/// The detail page a search page gives for a number: the first result whose
/// path holds the number, else the first result, with a `/` at the end.
pub open spec fn mgstage_search_url(base: Seq<char>, doc: Seq<char>, number: Seq<char>) -> Result<
    Seq<char>,
    Seq<char>,
> {
    let paths = groups_one(captured_all(MGSTAGE_HREF@, serialized_html(doc)));
    if paths.len() == 0 {
        Err("No search results found for '"@ + number + "'"@)
    } else {
        match first_holding(paths, unicode_lower(number)) {
            Some(p) => Ok(with_trailing_slash(base, p)),
            None => Ok(with_trailing_slash(base, paths[0])),
        }
    }
}

fn joined_texts_exec(nodes: &Vec<Option<String>>) -> (r: String)
    ensures
        r@ == joined_texts(opt_texts(nodes@)),
{
    let ghost v = opt_texts(nodes@);
    let mut out: Vec<char> = Vec::new();
    let mut i: usize = 0;
    while i < nodes.len()
        invariant
            i <= nodes.len(),
            v == opt_texts(nodes@),
            out@ == joined_texts(v.take(i as int)),
        decreases nodes.len() - i,
    {
        proof {
            assert(v.take(i + 1).drop_last() =~= v.take(i as int));
            assert(v.take(i + 1).last() == v[i as int]);
        }
        let ghost before = out@;
        match &nodes[i] {
            Some(t) => {
                extend_chars(&mut out, t.as_str());
                assert(out@ =~= before + t@);
            },
            None => {
                assert(before =~= before + Seq::<char>::empty());
            },
        }
        i = i + 1;
    }
    assert(v.take(nodes.len() as int) =~= v);
    crate::text::string_from(&out)
}

fn first_td_exec(nodes: &Vec<(Option<String>, Vec<Option<String>>)>) -> (r: Option<String>)
    ensures
        match r {
            Some(t) => first_td(node_views(nodes@)) == Some(t@),
            None => first_td(node_views(nodes@)) is None,
        },
{
    let ghost v = node_views(nodes@);
    let mut i: usize = 0;
    assert(v.skip(0) =~= v);
    while i < nodes.len()
        invariant
            i <= nodes.len(),
            v == node_views(nodes@),
            first_td(v) == first_td(v.skip(i as int)),
        decreases nodes.len() - i,
    {
        proof {
            assert(v.skip(i as int)[0] == v[i as int]);
            assert(v.skip(i as int).skip(1) =~= v.skip(i + 1));
        }
        let is_td = match &nodes[i].0 {
            Some(name) => str_eq(name.as_str(), "td"),
            None => false,
        };
        if is_td {
            return Some(joined_texts_exec(&nodes[i].1));
        }
        i = i + 1;
    }
    None
}

fn th_value_exec(
    cell: &(String, Option<Vec<(Option<String>, Vec<Option<String>>)>>),
    label: &str,
) -> (r: Option<String>)
    ensures
        ({
            let cv = (
                cell.0@,
                match cell.1 {
                    Some(c) => Some(node_views(c@)),
                    None => None::<Seq<(Option<Seq<char>>, Seq<Option<Seq<char>>>)>>,
                },
            );
            match r {
                Some(t) => th_value(cv, label@) == Some(t@),
                None => th_value(cv, label@) is None,
            }
        }),
{
    let t = trim_str(cell.0.as_str());
    if !str_eq(t.as_str(), label) {
        return None;
    }
    match &cell.1 {
        Some(nodes) => match first_td_exec(nodes) {
            Some(v) => {
                let c = trim_decode(v.as_str());
                if !c.as_str().is_empty() {
                    Some(c)
                } else {
                    None
                }
            },
            None => None,
        },
        None => None,
    }
}

impl MgstageScraper {
    /// The value in the cell beside the `th` whose text is the label, if any.
    pub fn extract_table_value_opt(&self, doc: &str, label: &str) -> (r: Option<String>)
        ensures
            match r {
                Some(v) => mgstage_value(doc@, label@) == Some(v@),
                None => mgstage_value(doc@, label@) is None,
            },
    {
        let cells = match neighbourhoods(doc, "th") {
            Some(c) => c,
            None => {
                return None;
            },
        };
        let ghost v = neighbourhood_views(cells@);
        let mut i: usize = 0;
        assert(v.skip(0) =~= v);
        while i < cells.len()
            invariant
                i <= cells.len(),
                v == neighbourhood_views(cells@),
                css_neighbourhoods(doc@, "th"@) == Some(v),
                th_values(v, label@) == th_values(v.skip(i as int), label@),
            decreases cells.len() - i,
        {
            proof {
                assert(v.skip(i as int)[0] == v[i as int]);
                assert(v.skip(i as int).skip(1) =~= v.skip(i + 1));
            }
            match th_value_exec(&cells[i], label) {
                Some(t) => {
                    return Some(t);
                },
                None => {},
            }
            i = i + 1;
        }
        None
    }

    /// The value beside the label, or the empty text.
    pub fn extract_table_value(&self, doc: &str, label: &str) -> (r: String)
        ensures
            r@ == or_empty(mgstage_value(doc@, label@)),
    {
        match self.extract_table_value_opt(doc, label) {
            Some(v) => v,
            None => String::new(),
        }
    }

    /// The text of the link in the cell after the label's `th`, if any.
    pub fn extract_table_link(&self, doc: &str, label: &str) -> (r: Option<String>)
        ensures
            match r {
                Some(v) => mgstage_link(doc@, label@) == Some(v@),
                None => mgstage_link(doc@, label@) is None,
            },
    {
        let escaped = escape(label);
        let head = concat("<th>", escaped.as_str());
        let pattern = concat(head.as_str(), MGSTAGE_LINK_TAIL);
        let h = document_html(doc);
        match first_group_exec(pattern.as_str(), h.as_str()) {
            Some(g) => {
                let t = trim_decode(g.as_str());
                if !t.as_str().is_empty() {
                    Some(t)
                } else {
                    None
                }
            },
            None => None,
        }
    }

    /// The genres of a detail page.
    pub fn extract_genres(&self, doc: &str) -> (r: Vec<String>)
        ensures
            views_of(r@) == cleaned_nonempty(groups_one(captured_all(MGSTAGE_GENRES@, serialized_html(doc@)))),
    {
        let h = document_html(doc);
        cleaned_nonempty_exec(&groups_one_exec(&captures_all(MGSTAGE_GENRES, h.as_str())))
    }

    /// The actresses of a detail page.
    pub fn extract_actresses(&self, doc: &str) -> (r: Vec<String>)
        ensures
            views_of(r@) == cleaned_nonempty(
                groups_one(captured_all(MGSTAGE_ACTRESSES@, serialized_html(doc@))),
            ),
    {
        let h = document_html(doc);
        cleaned_nonempty_exec(&groups_one_exec(&captures_all(MGSTAGE_ACTRESSES, h.as_str())))
    }

    /// The large cover of a detail page.
    pub fn extract_cover_image(&self, doc: &str) -> (r: Option<String>)
        ensures
            match r {
                Some(c) => mgstage_cover(serialized_html(doc@)) == Some(c@),
                None => mgstage_cover(serialized_html(doc@)) is None,
            },
    {
        let h = document_html(doc);
        match captures(MGSTAGE_COVER_1, h.as_str()) {
            Some(c) => get_group(&c, 1),
            None => match captures(MGSTAGE_COVER_2, h.as_str()) {
                Some(c) => get_group(&c, 1),
                None => None,
            },
        }
    }

    /// The sample images of a detail page.
    pub fn extract_screenshots(&self, doc: &str) -> (r: Vec<String>)
        ensures
            views_of(r@) == groups_one(captured_all(MGSTAGE_SHOTS@, serialized_html(doc@))),
    {
        let h = document_html(doc);
        groups_one_exec(&captures_all(MGSTAGE_SHOTS, h.as_str()))
    }

    /// The metadata of a detail page.
    pub fn parse_detail_metadata(&self, doc: &str, url: &str) -> (r: Result<MovieMetadata, String>)
        ensures
            match r {
                Ok(m) => mgstage_page(doc@, url@) == Ok::<MetadataView, Seq<char>>(m@),
                Err(e) => mgstage_page(doc@, url@) == Err::<MetadataView, Seq<char>>(e@),
            },
    {
        let title = match select_texts_raw(doc, "title") {
            Some(v) => {
                if v.len() > 0 {
                    proof {
                        assert(views_of(v@)[0] == v@[0]@);
                    }
                    trim_decode(v[0].as_str())
                } else {
                    String::new()
                }
            },
            None => String::new(),
        };
        let number = self.extract_table_value(doc, "品番：");
        let release = self.extract_table_value(doc, "配信開始日：");
        let runtime = match self.extract_table_value_opt(doc, "収録時間：") {
            Some(r) => {
                proof {
                    reveal_strlit("min");
                }
                let bare = replace_str(r.as_str(), "min", "");
                trim_str(bare.as_str())
            },
            None => String::new(),
        };
        let studio = match self.extract_table_link(doc, "メーカー：") {
            Some(v) => v,
            None => String::new(),
        };
        let label = match self.extract_table_link(doc, "レーベル：") {
            Some(v) => v,
            None => String::new(),
        };
        let series = match self.extract_table_link(doc, "シリーズ：") {
            Some(v) => v,
            None => String::new(),
        };
        let tag = self.extract_genres(doc);
        let actor = self.extract_actresses(doc);
        let cover = match self.extract_cover_image(doc) {
            Some(c) => c,
            None => String::new(),
        };
        let extrafanart = self.extract_screenshots(doc);
        if title.as_str().is_empty() {
            return Err(copy_str("Missing required field: title"));
        }
        let mut m = MovieMetadata::default();
        m.website = copy_str(url);
        m.title = title;
        m.number = number;
        m.release = release;
        m.runtime = runtime;
        m.studio = studio;
        m.label = label;
        m.series = series;
        m.tag = tag;
        m.actor = actor;
        m.cover = cover;
        m.extrafanart = extrafanart;
        Ok(m)
    }

    /// The metadata of a page: that of a detail page.
    pub fn parse_metadata(&self, doc: &str, url: &str) -> (r: Result<MovieMetadata, String>)
        ensures
            match r {
                Ok(m) => mgstage_page(doc@, url@) == Ok::<MetadataView, Seq<char>>(m@),
                Err(e) => mgstage_page(doc@, url@) == Err::<MetadataView, Seq<char>>(e@),
            },
    {
        self.parse_detail_metadata(doc, url)
    }

    /// The detail page that a search page gives for a number.
    pub fn parse_search_results(&self, doc: &str, number: &str) -> (r: Result<String, String>)
        ensures
            match r {
                Ok(u) => mgstage_search_url(self.base_url@, doc@, number@) == Ok::<Seq<char>, Seq<char>>(u@),
                Err(e) => mgstage_search_url(self.base_url@, doc@, number@) == Err::<Seq<char>, Seq<char>>(
                    e@,
                ),
            },
    {
        let h = document_html(doc);
        let paths = groups_one_exec(&captures_all(MGSTAGE_HREF, h.as_str()));
        if paths.len() == 0 {
            return Err(concat3("No search results found for '", number, "'"));
        }
        let lower = to_lowercase(number);
        let ghost v = views_of(paths@);
        let mut i: usize = 0;
        assert(v.skip(0) =~= v);
        while i < paths.len()
            invariant
                i <= paths.len(),
                v == views_of(paths@),
                v == groups_one(captured_all(MGSTAGE_HREF@, serialized_html(doc@))),
                lower@ == unicode_lower(number@),
                first_holding(v, lower@) == first_holding(v.skip(i as int), lower@),
            decreases paths.len() - i,
        {
            proof {
                assert(v.skip(i as int)[0] == paths@[i as int]@);
                assert(v.skip(i as int).skip(1) =~= v.skip(i + 1));
            }
            let pl = to_lowercase(paths[i].as_str());
            if str_contains(pl.as_str(), lower.as_str()) {
                return Ok(self.normalize_url(paths[i].as_str()));
            }
            i = i + 1;
        }
        Ok(self.normalize_url(paths[0].as_str()))
    }
}

// ---------------------------------------------------------------------------
// R18.dev
// ---------------------------------------------------------------------------

/// The decimal text of an integer, with a `-` when it is negative.
pub open spec fn i64_text(n: i64) -> Seq<char> {
    if n < 0 {
        "-"@ + decimal((-n) as nat)
    } else {
        decimal(n as nat)
    }
}

fn i64_text_exec(n: i64) -> (r: String)
    ensures
        r@ == i64_text(n),
{
    if n < 0 {
        let m: u64 = (0i128 - n as i128) as u64;
        let d = decimal_str(m);
        concat("-", d.as_str())
    } else {
        decimal_str(n as u64)
    }
}

/// The `name` of each element that has a string one, in order.
pub open spec fn names_in(items: Seq<JsonValue>) -> Seq<Seq<char>>
    decreases items.len(),
{
    if items.len() == 0 {
        Seq::empty()
    } else {
        let rest = names_in(items.drop_last());
        match json_str(json_get(items.last(), "name"@)) {
            Some(n) => rest.push(n),
            None => rest,
        }
    }
}

/// The names in an array value; none for any other value.
pub open spec fn names_of(v: Option<JsonValue>) -> Seq<Seq<char>> {
    match v {
        Some(JsonValue::Array(items)) => names_in(items@),
        _ => Seq::empty(),
    }
}

/// The `name` of the first element of an array value.
pub open spec fn first_name(v: Option<JsonValue>) -> Option<Seq<char>> {
    match v {
        Some(JsonValue::Array(items)) => if items.len() > 0 {
            json_str(json_get(items@[0], "name"@))
        } else {
            None
        },
        _ => None,
    }
}

/// The `name` of an object member.
pub open spec fn name_of(v: Option<JsonValue>) -> Option<Seq<char>> {
    match v {
        Some(x) => json_str(json_get(x, "name"@)),
        None => None,
    }
}

/// The string at `a.b` below a value.
pub open spec fn str_at2(v: JsonValue, a: Seq<char>, b: Seq<char>) -> Option<Seq<char>> {
    match json_get(v, a) {
        Some(x) => json_str(json_get(x, b)),
        None => None,
    }
}

/// The metadata in an R18.dev movie document, or why there is none. The user
/// rating is the text of `rating.average`.
pub open spec fn r18dev_movie(json: JsonValue) -> Result<MetadataView, Seq<char>> {
    match json_get(json, "movie"@) {
        None => Err("No movie object in JSON"@),
        Some(movie) => {
            let m = MetadataView {
                number: match json_str(json_get(movie, "dvd_id"@)) {
                    Some(d) => unicode_upper(d),
                    None => match json_str(json_get(movie, "content_id"@)) {
                        Some(c) => hyphen_at_digits(unicode_upper(c)),
                        None => Seq::empty(),
                    },
                },
                title: or_empty(json_str(json_get(movie, "title"@))),
                cover: match json_get(movie, "images"@) {
                    Some(images) => match str_at2(images, "jacket_image"@, "large"@) {
                        Some(l) => l,
                        None => or_empty(str_at2(images, "jacket_image"@, "medium"@)),
                    },
                    None => Seq::empty(),
                },
                release: or_empty(json_str(json_get(movie, "release_date"@))),
                runtime: match json_i64(json_get(movie, "runtime_minutes"@)) {
                    Some(n) => i64_text(n) + "分"@,
                    None => Seq::empty(),
                },
                director: or_empty(first_name(json_get(movie, "directors"@))),
                studio: or_empty(name_of(json_get(movie, "maker"@))),
                label: or_empty(name_of(json_get(movie, "label"@))),
                series: or_empty(name_of(json_get(movie, "series"@))),
                actor: names_of(json_get(movie, "actresses"@)),
                tag: names_of(json_get(movie, "categories"@)),
                outline: or_empty(json_str(json_get(movie, "description"@))),
                userrating: match json_get(movie, "rating"@) {
                    Some(r) => or_empty(json_number_text(json_get(r, "average"@))),
                    None => Seq::empty(),
                },
                ..empty_metadata()
            };
            if m.title.len() == 0 {
                Err("Failed to extract title from R18Dev JSON"@)
            } else {
                Ok(m)
            }
        },
    }
}

fn names_of_exec(v: Option<&JsonValue>) -> (r: Vec<String>)
    ensures
        views_of(r@) == names_of(match v {
            Some(x) => Some(*x),
            None => None,
        }),
{
    let mut out: Vec<String> = Vec::new();
    match v {
        Some(JsonValue::Array(items)) => {
            let mut i: usize = 0;
            while i < items.len()
                invariant
                    i <= items.len(),
                    views_of(out@) == names_in(items@.take(i as int)),
                decreases items.len() - i,
            {
                proof {
                    assert(items@.take(i + 1).drop_last() =~= items@.take(i as int));
                    assert(items@.take(i + 1).last() == items@[i as int]);
                }
                match get_str(&items[i], "name") {
                    Some(n) => {
                        let ghost before = out@;
                        out.push(n);
                        proof {
                            assert(views_of(out@) =~= views_of(before).push(n@));
                        }
                    },
                    None => {},
                }
                i = i + 1;
            }
            assert(items@.take(items.len() as int) =~= items@);
            out
        },
        _ => {
            assert(views_of(out@) =~= Seq::<Seq<char>>::empty());
            out
        },
    }
}

fn name_of_exec(v: Option<&JsonValue>) -> (r: String)
    ensures
        r@ == or_empty(name_of(match v {
            Some(x) => Some(*x),
            None => None,
        })),
{
    match v {
        Some(x) => match get_str(x, "name") {
            Some(n) => n,
            None => String::new(),
        },
        None => String::new(),
    }
}

fn first_name_exec(v: Option<&JsonValue>) -> (r: String)
    ensures
        r@ == or_empty(first_name(match v {
            Some(x) => Some(*x),
            None => None,
        })),
{
    match v {
        Some(JsonValue::Array(items)) => {
            if items.len() > 0 {
                match get_str(&items[0], "name") {
                    Some(n) => n,
                    None => String::new(),
                }
            } else {
                String::new()
            }
        },
        _ => String::new(),
    }
}

fn str_at2_exec(v: &JsonValue, a: &str, b: &str) -> (r: Option<String>)
    ensures
        r matches Some(s) ==> str_at2(*v, a@, b@) == Some(s@),
        r is None ==> str_at2(*v, a@, b@) is None,
{
    match json_get_exec(v, a) {
        Some(x) => get_str(x, b),
        None => None,
    }
}

impl R18DevScraper {
    /// The metadata in a movie document.
    #[verifier::spinoff_prover]
    #[verifier::rlimit(40)]
    pub fn parse_json(&self, json: &JsonValue) -> (r: Result<MovieMetadata, String>)
        ensures
            match r {
                Ok(m) => r18dev_movie(*json) == Ok::<MetadataView, Seq<char>>(m@),
                Err(e) => r18dev_movie(*json) == Err::<MetadataView, Seq<char>>(e@),
            },
    {
        let movie = match json_get_exec(json, "movie") {
            Some(m) => m,
            None => {
                return Err(copy_str("No movie object in JSON"));
            },
        };
        let number = match get_str(movie, "dvd_id") {
            Some(d) => to_uppercase(d.as_str()),
            None => match get_str(movie, "content_id") {
                Some(c) => hyphen_at_digits_exec(to_uppercase(c.as_str())),
                None => String::new(),
            },
        };
        let title = match get_str(movie, "title") {
            Some(t) => t,
            None => String::new(),
        };
        let cover = match json_get_exec(movie, "images") {
            Some(images) => match str_at2_exec(images, "jacket_image", "large") {
                Some(l) => l,
                None => match str_at2_exec(images, "jacket_image", "medium") {
                    Some(m) => m,
                    None => String::new(),
                },
            },
            None => String::new(),
        };
        let release = match get_str(movie, "release_date") {
            Some(d) => d,
            None => String::new(),
        };
        let runtime = match get_i64(movie, "runtime_minutes") {
            Some(n) => {
                let t = i64_text_exec(n);
                concat(t.as_str(), "分")
            },
            None => String::new(),
        };
        let director = first_name_exec(json_get_exec(movie, "directors"));
        let studio = name_of_exec(json_get_exec(movie, "maker"));
        let label = name_of_exec(json_get_exec(movie, "label"));
        let series = name_of_exec(json_get_exec(movie, "series"));
        let actor = names_of_exec(json_get_exec(movie, "actresses"));
        let tag = names_of_exec(json_get_exec(movie, "categories"));
        let outline = match get_str(movie, "description") {
            Some(d) => d,
            None => String::new(),
        };
        let userrating = match json_get_exec(movie, "rating") {
            Some(r) => match get_number_text(r, "average") {
                Some(t) => t,
                None => String::new(),
            },
            None => String::new(),
        };
        if title.as_str().is_empty() {
            return Err(copy_str("Failed to extract title from R18Dev JSON"));
        }
        let mut m = MovieMetadata::default();
        m.number = number;
        m.title = title;
        m.cover = cover;
        m.release = release;
        m.runtime = runtime;
        m.director = director;
        m.studio = studio;
        m.label = label;
        m.series = series;
        m.actor = actor;
        m.tag = tag;
        m.outline = outline;
        m.userrating = userrating;
        Ok(m)
    }
}

// ---------------------------------------------------------------------------
// Addresses of the fetch flows
// ---------------------------------------------------------------------------

impl R18DevScraper {
    /// The JSON endpoint by DVD id: `<base>/dvd_id=<number>/json`.
    pub fn dvd_id_endpoint(&self, number: &str) -> (r: String)
        ensures
            r@ == self.base_url@ + "/dvd_id="@ + number@ + "/json"@,
    {
        let a = concat3(self.base_url.as_str(), "/dvd_id=", number);
        concat(a.as_str(), "/json")
    }

    /// The combined JSON endpoint, tried when the DVD id one fails: the
    /// number lower-cased without hyphens (`SSIS-123` gives `ssis123`).
    pub fn combined_endpoint(&self, number: &str) -> (r: String)
        ensures
            r@ == self.base_url@ + "/combined="@ + replace(unicode_lower(number@), "-"@, ""@)
                + "/json"@,
    {
        proof {
            reveal_strlit("-");
        }
        let lower = to_lowercase(number);
        let id = replace_str(lower.as_str(), "-", "");
        let a = concat3(self.base_url.as_str(), "/combined=", id.as_str());
        concat(a.as_str(), "/json")
    }
}

impl Jav321Scraper {
    /// The page tried first for a number: `<base>/video/<number lower-cased>`.
    pub fn video_url(&self, number: &str) -> (r: String)
        ensures
            r@ == self.base_url@ + "/video/"@ + unicode_lower(number@),
    {
        let lower = to_lowercase(number);
        concat3(self.base_url.as_str(), "/video/", lower.as_str())
    }
}


/// A result of metadata, by its view.
pub open spec fn metadata_result(r: Result<MovieMetadata, String>) -> Result<MetadataView, Seq<char>> {
    match r {
        Ok(m) => Ok(m@),
        Err(e) => Err(e@),
    }
}

/// The metadata a response text of the JSON API gives: the movie document's
/// metadata, or why there is none; `None` when the text is no JSON document.
pub open spec fn r18dev_response(text: Seq<char>) -> Option<Result<MetadataView, Seq<char>>> {
    match json_parsed(text) {
        Some(j) => Some(r18dev_movie(j)),
        None => None,
    }
}

/// What the lookup of a number gives from a parsed response: the movie's
/// metadata finished with the source `r18dev`, the DVD id endpoint as page
/// and crop mode 1, or the parse error.
pub open spec fn r18dev_found(scraper: R18DevScraper, number: Seq<char>, movie: Result<MetadataView, Seq<char>>) -> Result<MetadataView, Seq<char>> {
    match movie {
        Ok(v) => Ok(finished(v, "r18dev"@, scraper.base_url@ + "/dvd_id="@ + number + "/json"@, 1)),
        Err(e) => Err(e),
    }
}

/// The error when neither endpoint gives a JSON document.
pub open spec fn r18dev_both_failed(number: Seq<char>) -> Seq<char> {
    "R18Dev: Both endpoints failed for "@ + number
}

/// What the lookup does after the DVD id endpoint answered (or failed).
#[derive(Debug)]
pub enum R18DevNext {
    /// Fetch this address (the combined endpoint) next.
    Fetch(String),
    /// The lookup is over, with this result.
    Done(Result<MovieMetadata, String>),
}

impl R18DevScraper {
    /// The metadata in a response text of the JSON API: an error when the
    /// text is no JSON document, else what `parse_json` gives of it.
    pub fn parse_response(&self, text: &str) -> (r: Result<MovieMetadata, String>)
        ensures
            match r18dev_response(text@) {
                None => r is Err,
                Some(v) => metadata_result(r) == v,
            },
    {
        match parse_json_text(text) {
            Some(j) => self.parse_json(&j),
            None => Err(copy_str("Invalid JSON in R18Dev response")),
        }
    }

    /// The metadata of a parsed response, finished as every scraper finishes
    /// it, with the DVD id endpoint as page.
    fn finish_response(&self, number: &str, text: &str) -> (r: Option<Result<MovieMetadata, String>>)
        ensures
            match r18dev_response(text@) {
                None => r is None,
                Some(v) => r matches Some(x) && metadata_result(x) == r18dev_found(*self, number@, v),
            },
    {
        match parse_json_text(text) {
            None => None,
            Some(j) => match self.parse_json(&j) {
                Ok(m) => {
                    let mut m = m;
                    let url = self.dvd_id_endpoint(number);
                    m.finish("r18dev", url.as_str(), 1);
                    proof {
                        reveal_strlit("r18dev");
                    }
                    Some(Ok(m))
                },
                Err(e) => Some(Err(e)),
            },
        }
    }

    /// The step after the DVD id endpoint: `response` is its text, `None`
    /// when the request failed. A JSON document ends the lookup with its
    /// metadata; anything else sends it on to the combined endpoint.
    pub fn after_dvd_id_response(&self, number: &str, response: Option<&str>) -> (r: R18DevNext)
        ensures
            match response {
                Some(t) if r18dev_response(t@) is Some => r matches R18DevNext::Done(x)
                    && metadata_result(x) == r18dev_found(*self, number@, r18dev_response(t@)->0),
                _ => r matches R18DevNext::Fetch(u) && u@ == self.base_url@ + "/combined="@
                    + replace(unicode_lower(number@), "-"@, ""@) + "/json"@,
            },
    {
        match response {
            Some(t) => match self.finish_response(number, t) {
                Some(x) => R18DevNext::Done(x),
                None => R18DevNext::Fetch(self.combined_endpoint(number)),
            },
            None => R18DevNext::Fetch(self.combined_endpoint(number)),
        }
    }

    /// The step after the combined endpoint: its JSON document gives the
    /// metadata; no answer or no JSON ends the lookup with an error.
    pub fn after_combined_response(&self, number: &str, response: Option<&str>) -> (r: Result<MovieMetadata, String>)
        ensures
            match response {
                Some(t) if r18dev_response(t@) is Some => metadata_result(r) == r18dev_found(
                    *self,
                    number@,
                    r18dev_response(t@)->0,
                ),
                _ => r matches Err(e) && e@ == r18dev_both_failed(number@),
            },
    {
        let found = match response {
            Some(t) => self.finish_response(number, t),
            None => None,
        };
        match found {
            Some(x) => x,
            None => Err(concat("R18Dev: Both endpoints failed for ", number)),
        }
    }
}

} // verus!
