//! NFO (Kodi / Jellyfin movie description) documents.

use vstd::prelude::*;
use crate::number_parser::opt_view;
use crate::text::{
    chars_of, contains, decimal, decimal_str, extend_chars, occurs_at, parse_u64, parse_unsigned, str_eq,
    string_from,
};

verus! {

/// The fields of scraped metadata that an NFO document shows. A field that
/// the metadata lacks (or that holds a value of another kind) is `None`;
/// a list that it lacks is empty.
#[derive(Debug, Clone)]
pub struct NfoMetadata {
    pub title: Option<String>,
    /// The user rating written with one decimal.
    pub userrating: Option<String>,
    pub uservotes: Option<u64>,
    pub outline: Option<String>,
    pub runtime: Option<String>,
    pub release: Option<String>,
    pub year: Option<String>,
    pub director: Option<String>,
    pub studio: Option<String>,
    pub label: Option<String>,
    pub series: Option<String>,
    /// The entries of the tag list; `None` for an entry that is not text.
    pub tag: Vec<Option<String>>,
    /// The entries of the actor list; `None` for an entry that is not text.
    pub actor: Vec<Option<String>>,
    /// Actor name and photo URL, one pair per name.
    pub actor_photo: Vec<(String, String)>,
    pub cover: Option<String>,
    pub trailer: Option<String>,
    pub website: Option<String>,
    pub source: Option<String>,
}

/// The XML escape of one character.
pub open spec fn escape_char(c: char) -> Seq<char> {
    if c == '&' {
        "&amp;"@
    } else if c == '<' {
        "&lt;"@
    } else if c == '>' {
        "&gt;"@
    } else if c == '"' {
        "&quot;"@
    } else if c == '\'' {
        "&apos;"@
    } else {
        seq![c]
    }
}

/// `xml_escape`: `& < > " '` written as entities, every other character kept.
pub open spec fn xml_escaped(s: Seq<char>) -> Seq<char>
    decreases s.len(),
{
    if s.len() == 0 {
        Seq::empty()
    } else {
        xml_escaped(s.drop_last()) + escape_char(s.last())
    }
}

/// A character that XML markup is made of: `<`, `>`, `"` or `'`.
pub open spec fn is_markup(c: char) -> bool {
    c == '<' || c == '>' || c == '"' || c == '\''
}

/// Escaped text holds no markup character, whatever the text: a value can
/// never close its element or start another.
pub proof fn lemma_escaped_has_no_markup(s: Seq<char>)
    ensures
        forall|i: int| 0 <= i < xml_escaped(s).len() ==> !is_markup(#[trigger] xml_escaped(s)[i]),
    decreases s.len(),
{
    if s.len() > 0 {
        let a = xml_escaped(s.drop_last());
        let b = escape_char(s.last());
        lemma_escaped_has_no_markup(s.drop_last());
        reveal_strlit("&amp;");
        reveal_strlit("&lt;");
        reveal_strlit("&gt;");
        reveal_strlit("&quot;");
        reveal_strlit("&apos;");
        assert forall|j: int| 0 <= j < b.len() implies !is_markup(#[trigger] b[j]) by {}
        assert forall|i: int| 0 <= i < (a + b).len() implies !is_markup(#[trigger] (a + b)[i]) by {
            if i < a.len() {
                assert((a + b)[i] == a[i]);
            } else {
                assert((a + b)[i] == b[i - a.len()]);
            }
        }
    }
}

/// One element: the opening text, the escaped value, the closing text.
pub open spec fn line(open: Seq<char>, value: Seq<char>, close: Seq<char>) -> Seq<char> {
    open + xml_escaped(value) + close
}

/// A line for a field that is written whenever it is present.
pub open spec fn present_line(open: Seq<char>, v: Option<Seq<char>>, close: Seq<char>) -> Seq<char> {
    match v {
        Some(t) => line(open, t, close),
        None => Seq::empty(),
    }
}

/// A line for a field that is written when it is present and not empty.
pub open spec fn filled_line(open: Seq<char>, v: Option<Seq<char>>, close: Seq<char>) -> Seq<char> {
    match v {
        Some(t) => if t.len() > 0 { line(open, t, close) } else { Seq::empty() },
        None => Seq::empty(),
    }
}

pub open spec fn title_part(m: NfoMetadata) -> Seq<char> {
    present_line("  <title>"@, opt_view(m.title), "</title>\n"@)
        + present_line("  <originaltitle>"@, opt_view(m.title), "</originaltitle>\n"@)
}

pub open spec fn rating_part(m: NfoMetadata) -> Seq<char> {
    match m.userrating {
        Some(r) => "  <rating>"@ + r@ + "</rating>\n"@ + "  <criticrating>"@ + r@
            + "</criticrating>\n"@,
        None => Seq::empty(),
    }
}

pub open spec fn votes_part(m: NfoMetadata) -> Seq<char> {
    match m.uservotes {
        Some(n) => "  <votes>"@ + decimal(n as nat) + "</votes>\n"@,
        None => Seq::empty(),
    }
}

pub open spec fn outline_part(m: NfoMetadata) -> Seq<char> {
    present_line("  <outline>"@, opt_view(m.outline), "</outline>\n"@)
        + present_line("  <plot>"@, opt_view(m.outline), "</plot>\n"@)
}

/// The runtime is written when it reads as a `u32`.
pub open spec fn runtime_part(m: NfoMetadata) -> Seq<char> {
    match m.runtime {
        Some(t) => match parse_unsigned(t@, u32::MAX as nat) {
            Some(mins) => "  <runtime>"@ + decimal(mins) + "</runtime>\n"@,
            None => Seq::empty(),
        },
        None => Seq::empty(),
    }
}

pub open spec fn release_part(m: NfoMetadata) -> Seq<char> {
    present_line("  <releasedate>"@, opt_view(m.release), "</releasedate>\n"@)
        + present_line("  <premiered>"@, opt_view(m.release), "</premiered>\n"@)
}

pub open spec fn people_part(m: NfoMetadata) -> Seq<char> {
    present_line("  <year>"@, opt_view(m.year), "</year>\n"@)
        + filled_line("  <director>"@, opt_view(m.director), "</director>\n"@)
        + filled_line("  <studio>"@, opt_view(m.studio), "</studio>\n"@)
        + filled_line("  <maker>"@, opt_view(m.studio), "</maker>\n"@)
        + filled_line("  <label>"@, opt_view(m.label), "</label>\n"@)
        + filled_line("  <set>"@, opt_view(m.series), "</set>\n"@)
}

/// Each text tag that is not empty, as a `tag` and a `genre` element.
pub open spec fn tags_part(tags: Seq<Option<String>>) -> Seq<char>
    decreases tags.len(),
{
    if tags.len() == 0 {
        Seq::empty()
    } else {
        tags_part(tags.drop_last()) + filled_line("  <tag>"@, opt_view(tags.last()), "</tag>\n"@)
            + filled_line("  <genre>"@, opt_view(tags.last()), "</genre>\n"@)
    }
}

/// The photo URL listed for an actor.
pub open spec fn photo_of(photos: Seq<(String, String)>, name: Seq<char>) -> Option<Seq<char>>
    decreases photos.len(),
{
    if photos.len() == 0 {
        None
    } else if photos[0].0@ == name {
        Some(photos[0].1@)
    } else {
        photo_of(photos.skip(1), name)
    }
}

pub open spec fn actor_block(name: Seq<char>, photos: Seq<(String, String)>) -> Seq<char> {
    "  <actor>\n"@ + line("    <name>"@, name, "</name>\n"@) + present_line(
        "    <thumb>"@,
        photo_of(photos, name),
        "</thumb>\n"@,
    ) + "  </actor>\n"@
}

/// Each text actor that is not empty, as an `actor` element with its photo.
pub open spec fn actors_part(actors: Seq<Option<String>>, photos: Seq<(String, String)>) -> Seq<char>
    decreases actors.len(),
{
    if actors.len() == 0 {
        Seq::empty()
    } else {
        actors_part(actors.drop_last(), photos) + match actors.last() {
            Some(a) => if a@.len() > 0 { actor_block(a@, photos) } else { Seq::empty() },
            None => Seq::empty(),
        }
    }
}

pub open spec fn artwork_part(m: NfoMetadata) -> Seq<char> {
    filled_line("  <thumb>"@, opt_view(m.cover), "</thumb>\n"@) + match m.cover {
        Some(c) => if c@.len() > 0 {
            "  <fanart>\n"@ + line("    <thumb>"@, c@, "</thumb>\n"@) + "  </fanart>\n"@
        } else {
            Seq::empty()
        },
        None => Seq::empty(),
    } + filled_line("  <trailer>"@, opt_view(m.trailer), "</trailer>\n"@)
}

pub open spec fn tail_part(m: NfoMetadata, id: Seq<char>) -> Seq<char> {
    line("  <num>"@, id, "</num>\n"@) + line("  <id>"@, id, "</id>\n"@) + filled_line(
        "  <website>"@,
        opt_view(m.website),
        "</website>\n"@,
    ) + filled_line("  <source>"@, opt_view(m.source), "</source>\n"@) + "</movie>\n"@
}

/// `generate_nfo`: the whole document, field by field.
pub open spec fn nfo_text(m: NfoMetadata, id: Seq<char>) -> Seq<char> {
    "<?xml version=\"1.0\" encoding=\"UTF-8\" standalone=\"yes\"?>\n"@ + "<movie>\n"@
        + title_part(m) + line("  <sorttitle>"@, id, "</sorttitle>\n"@) + rating_part(m)
        + votes_part(m) + outline_part(m) + runtime_part(m) + release_part(m) + people_part(m)
        + tags_part(m.tag@) + actors_part(m.actor@, m.actor_photo@) + artwork_part(m)
        + tail_part(m, id)
}

/// The texts joined in order.
pub open spec fn concat_all(ps: Seq<Seq<char>>) -> Seq<char>
    decreases ps.len(),
{
    if ps.len() == 0 {
        Seq::empty()
    } else {
        concat_all(ps.drop_last()) + ps.last()
    }
}

proof fn lemma_concat_all_contains(ps: Seq<Seq<char>>, i: int)
    requires
        0 <= i < ps.len(),
    ensures
        contains(concat_all(ps), ps[i]),
    decreases ps.len(),
{
    let front = concat_all(ps.drop_last());
    let whole = concat_all(ps);
    if i == ps.len() - 1 {
        assert(whole.subrange(front.len() as int, (front.len() + ps[i].len()) as int) =~= ps[i]);
        assert(occurs_at(whole, ps[i], front.len() as int));
    } else {
        lemma_concat_all_contains(ps.drop_last(), i);
        assert(ps.drop_last()[i] == ps[i]);
        let k = choose|k: int| occurs_at(front, ps[i], k);
        assert(whole.subrange(k, k + ps[i].len()) =~= front.subrange(k, k + ps[i].len()));
        assert(occurs_at(whole, ps[i], k));
    }
}

/// The NFO document cut into its lines and blocks, in order.
pub open spec fn nfo_pieces(m: NfoMetadata, id: Seq<char>) -> Seq<Seq<char>> {
    seq![
        "<?xml version=\"1.0\" encoding=\"UTF-8\" standalone=\"yes\"?>\n"@ + "<movie>\n"@,
        present_line("  <title>"@, opt_view(m.title), "</title>\n"@),
        present_line("  <originaltitle>"@, opt_view(m.title), "</originaltitle>\n"@),
        line("  <sorttitle>"@, id, "</sorttitle>\n"@),
        rating_part(m) + votes_part(m),
        present_line("  <outline>"@, opt_view(m.outline), "</outline>\n"@),
        present_line("  <plot>"@, opt_view(m.outline), "</plot>\n"@),
        runtime_part(m),
        present_line("  <releasedate>"@, opt_view(m.release), "</releasedate>\n"@),
        present_line("  <premiered>"@, opt_view(m.release), "</premiered>\n"@),
        present_line("  <year>"@, opt_view(m.year), "</year>\n"@),
        filled_line("  <director>"@, opt_view(m.director), "</director>\n"@),
        filled_line("  <studio>"@, opt_view(m.studio), "</studio>\n"@),
        filled_line("  <maker>"@, opt_view(m.studio), "</maker>\n"@),
        filled_line("  <label>"@, opt_view(m.label), "</label>\n"@),
        filled_line("  <set>"@, opt_view(m.series), "</set>\n"@),
        tags_part(m.tag@) + actors_part(m.actor@, m.actor_photo@) + artwork_part(m),
        line("  <num>"@, id, "</num>\n"@),
        line("  <id>"@, id, "</id>\n"@),
        filled_line("  <website>"@, opt_view(m.website), "</website>\n"@),
        filled_line("  <source>"@, opt_view(m.source), "</source>\n"@),
        "</movie>\n"@,
    ]
}

#[verifier::spinoff_prover]
#[verifier::rlimit(100)]
proof fn lemma_nfo_pieces(m: NfoMetadata, id: Seq<char>)
    ensures
        nfo_text(m, id) == concat_all(nfo_pieces(m, id)),
{
    let ps = nfo_pieces(m, id);
    reveal_with_fuel(concat_all, 23);
    assert(nfo_text(m, id) =~= concat_all(ps));
}

/// Every text value is written into the NFO document as its XML escape,
/// inside its element: the title (as `title` and `originaltitle`), the
/// number (as `sorttitle`, `num` and `id`), the outline (as `outline` and
/// `plot`), the release date (as `releasedate` and `premiered`), the year,
/// and, when not empty, the director, studio (also as `maker`), label,
/// series (as `set`), website and source. So no value can put markup into
/// the document.
pub proof fn lemma_nfo_values_escaped(m: NfoMetadata, id: Seq<char>)
    ensures
        ({
            let doc = nfo_text(m, id);
            &&& m.title matches Some(t) ==> contains(doc, "  <title>"@ + xml_escaped(t@) + "</title>\n"@)
                && contains(doc, "  <originaltitle>"@ + xml_escaped(t@) + "</originaltitle>\n"@)
            &&& contains(doc, "  <sorttitle>"@ + xml_escaped(id) + "</sorttitle>\n"@)
            &&& contains(doc, "  <num>"@ + xml_escaped(id) + "</num>\n"@)
            &&& contains(doc, "  <id>"@ + xml_escaped(id) + "</id>\n"@)
            &&& m.outline matches Some(o) ==> contains(doc, "  <outline>"@ + xml_escaped(o@) + "</outline>\n"@)
                && contains(doc, "  <plot>"@ + xml_escaped(o@) + "</plot>\n"@)
            &&& m.release matches Some(r) ==> contains(
                doc,
                "  <releasedate>"@ + xml_escaped(r@) + "</releasedate>\n"@,
            ) && contains(doc, "  <premiered>"@ + xml_escaped(r@) + "</premiered>\n"@)
            &&& m.year matches Some(y) ==> contains(doc, "  <year>"@ + xml_escaped(y@) + "</year>\n"@)
            &&& m.director is Some && m.director->0@.len() > 0 ==> contains(
                doc,
                "  <director>"@ + xml_escaped(m.director->0@) + "</director>\n"@,
            )
            &&& m.studio is Some && m.studio->0@.len() > 0 ==> contains(
                doc,
                "  <studio>"@ + xml_escaped(m.studio->0@) + "</studio>\n"@,
            ) && contains(doc, "  <maker>"@ + xml_escaped(m.studio->0@) + "</maker>\n"@)
            &&& m.label is Some && m.label->0@.len() > 0 ==> contains(
                doc,
                "  <label>"@ + xml_escaped(m.label->0@) + "</label>\n"@,
            )
            &&& m.series is Some && m.series->0@.len() > 0 ==> contains(
                doc,
                "  <set>"@ + xml_escaped(m.series->0@) + "</set>\n"@,
            )
            &&& m.website is Some && m.website->0@.len() > 0 ==> contains(
                doc,
                "  <website>"@ + xml_escaped(m.website->0@) + "</website>\n"@,
            )
            &&& m.source is Some && m.source->0@.len() > 0 ==> contains(
                doc,
                "  <source>"@ + xml_escaped(m.source->0@) + "</source>\n"@,
            )
        }),
{
    let ps = nfo_pieces(m, id);
    lemma_nfo_pieces(m, id);
    lemma_concat_all_contains(ps, 1);
    lemma_concat_all_contains(ps, 2);
    lemma_concat_all_contains(ps, 3);
    lemma_concat_all_contains(ps, 5);
    lemma_concat_all_contains(ps, 6);
    lemma_concat_all_contains(ps, 8);
    lemma_concat_all_contains(ps, 9);
    lemma_concat_all_contains(ps, 10);
    lemma_concat_all_contains(ps, 11);
    lemma_concat_all_contains(ps, 12);
    lemma_concat_all_contains(ps, 13);
    lemma_concat_all_contains(ps, 14);
    lemma_concat_all_contains(ps, 15);
    lemma_concat_all_contains(ps, 17);
    lemma_concat_all_contains(ps, 18);
    lemma_concat_all_contains(ps, 19);
    lemma_concat_all_contains(ps, 20);
}

/// Appends the XML escape of `s` to `out`.
fn push_escaped(out: &mut Vec<char>, s: &str)
    ensures
        final(out)@ == old(out)@ + xml_escaped(s@),
{
    let v = chars_of(s);
    let mut i: usize = 0;
    while i < v.len()
        invariant
            i <= v.len(),
            v@ == s@,
            out@ == old(out)@ + xml_escaped(v@.take(i as int)),
        decreases v.len() - i,
    {
        let c = v[i];
        proof {
            assert(v@.take(i + 1).drop_last() =~= v@.take(i as int));
        }
        if c == '&' {
            extend_chars(out, "&amp;");
        } else if c == '<' {
            extend_chars(out, "&lt;");
        } else if c == '>' {
            extend_chars(out, "&gt;");
        } else if c == '"' {
            extend_chars(out, "&quot;");
        } else if c == '\'' {
            extend_chars(out, "&apos;");
        } else {
            out.push(c);
            proof {
                assert(seq![c] =~= Seq::empty().push(c));
            }
        }
        i = i + 1;
        proof {
            assert(out@ =~= old(out)@ + xml_escaped(v@.take(i as int)));
        }
    }
    assert(v@.take(v.len() as int) =~= v@);
}

/// Escapes `& < > " '` as XML entities.
pub fn xml_escape(s: &str) -> (r: String)
    ensures
        r@ == xml_escaped(s@),
{
    let mut out: Vec<char> = Vec::new();
    push_escaped(&mut out, s);
    assert(out@ =~= xml_escaped(s@));
    string_from(&out)
}

/// Appends `open`, the escaped `value` and `close`.
fn push_line(out: &mut Vec<char>, open: &str, value: &str, close: &str)
    ensures
        final(out)@ == old(out)@ + line(open@, value@, close@),
{
    extend_chars(out, open);
    push_escaped(out, value);
    extend_chars(out, close);
    assert(out@ =~= old(out)@ + line(open@, value@, close@));
}

fn push_present(out: &mut Vec<char>, open: &str, v: &Option<String>, close: &str)
    ensures
        final(out)@ == old(out)@ + present_line(open@, opt_view(*v), close@),
{
    match v {
        Some(t) => push_line(out, open, t.as_str(), close),
        None => {
            assert(out@ =~= old(out)@ + Seq::<char>::empty());
        },
    }
}

fn push_filled(out: &mut Vec<char>, open: &str, v: &Option<String>, close: &str)
    ensures
        final(out)@ == old(out)@ + filled_line(open@, opt_view(*v), close@),
{
    match v {
        Some(t) => {
            if t.as_str().is_empty() == false {
                push_line(out, open, t.as_str(), close);
            } else {
                assert(out@ =~= old(out)@ + Seq::<char>::empty());
            }
        },
        None => {
            assert(out@ =~= old(out)@ + Seq::<char>::empty());
        },
    }
}

/// The photo URL listed for an actor.
fn find_photo(photos: &Vec<(String, String)>, name: &str) -> (r: Option<String>)
    ensures
        opt_view(r) == photo_of(photos@, name@),
{
    let mut i: usize = 0;
    assert(photos@.skip(0) =~= photos@);
    while i < photos.len()
        invariant
            i <= photos.len(),
            photo_of(photos@, name@) == photo_of(photos@.skip(i as int), name@),
        decreases photos.len() - i,
    {
        proof {
            assert(photos@.skip(i as int).skip(1) =~= photos@.skip(i + 1));
            assert(photos@.skip(i as int)[0] == photos@[i as int]);
        }
        if str_eq(photos[i].0.as_str(), name) {
            return Some(photos[i].1.clone());
        }
        i = i + 1;
    }
    None
}

/// Appends the document part of the tags.
fn push_tags(out: &mut Vec<char>, tags: &Vec<Option<String>>)
    ensures
        final(out)@ == old(out)@ + tags_part(tags@),
{
    let mut i: usize = 0;
    while i < tags.len()
        invariant
            i <= tags.len(),
            out@ == old(out)@ + tags_part(tags@.take(i as int)),
        decreases tags.len() - i,
    {
        let ghost before = out@;
        proof {
            assert(tags@.take(i + 1).drop_last() =~= tags@.take(i as int));
        }
        push_filled(out, "  <tag>", &tags[i], "</tag>\n");
        push_filled(out, "  <genre>", &tags[i], "</genre>\n");
        i = i + 1;
        proof {
            assert(out@ =~= old(out)@ + tags_part(tags@.take(i as int)));
        }
    }
    assert(tags@.take(tags.len() as int) =~= tags@);
}

/// Appends the document part of the actors.
fn push_actors(out: &mut Vec<char>, actors: &Vec<Option<String>>, photos: &Vec<(String, String)>)
    ensures
        final(out)@ == old(out)@ + actors_part(actors@, photos@),
{
    let mut i: usize = 0;
    while i < actors.len()
        invariant
            i <= actors.len(),
            out@ == old(out)@ + actors_part(actors@.take(i as int), photos@),
        decreases actors.len() - i,
    {
        proof {
            assert(actors@.take(i + 1).drop_last() =~= actors@.take(i as int));
        }
        match &actors[i] {
            Some(a) => {
                if a.as_str().is_empty() == false {
                    extend_chars(out, "  <actor>\n");
                    push_line(out, "    <name>", a.as_str(), "</name>\n");
                    let photo = find_photo(photos, a.as_str());
                    push_present(out, "    <thumb>", &photo, "</thumb>\n");
                    extend_chars(out, "  </actor>\n");
                } else {
                    assert(out@ =~= out@ + Seq::<char>::empty());
                }
            },
            None => {
                assert(out@ =~= out@ + Seq::<char>::empty());
            },
        }
        i = i + 1;
        proof {
            assert(out@ =~= old(out)@ + actors_part(actors@.take(i as int), photos@));
        }
    }
    assert(actors@.take(actors.len() as int) =~= actors@);
}

fn push_head(out: &mut Vec<char>, m: &NfoMetadata, movie_id: &str)
    ensures
        final(out)@ == old(out)@ + title_part(*m) + line("  <sorttitle>"@, movie_id@, "</sorttitle>\n"@)
            + rating_part(*m) + votes_part(*m),
{
    push_present(out, "  <title>", &m.title, "</title>\n");
    push_present(out, "  <originaltitle>", &m.title, "</originaltitle>\n");
    push_line(out, "  <sorttitle>", movie_id, "</sorttitle>\n");
    let ghost p1 = out@;
    match &m.userrating {
        Some(r) => {
            extend_chars(out, "  <rating>");
            extend_chars(out, r.as_str());
            extend_chars(out, "</rating>\n");
            extend_chars(out, "  <criticrating>");
            extend_chars(out, r.as_str());
            extend_chars(out, "</criticrating>\n");
        },
        None => {},
    }
    assert(out@ =~= p1 + rating_part(*m));
    let ghost p2 = out@;
    match m.uservotes {
        Some(n) => {
            extend_chars(out, "  <votes>");
            let d = decimal_str(n);
            extend_chars(out, d.as_str());
            extend_chars(out, "</votes>\n");
        },
        None => {},
    }
    assert(out@ =~= p2 + votes_part(*m));
    assert(out@ =~= old(out)@ + title_part(*m) + line("  <sorttitle>"@, movie_id@, "</sorttitle>\n"@)
        + rating_part(*m) + votes_part(*m));
}

#[verifier::spinoff_prover]
#[verifier::rlimit(40)]
fn push_body(out: &mut Vec<char>, m: &NfoMetadata)
    ensures
        final(out)@ == old(out)@ + outline_part(*m) + runtime_part(*m) + release_part(*m)
            + people_part(*m),
{
    push_present(out, "  <outline>", &m.outline, "</outline>\n");
    push_present(out, "  <plot>", &m.outline, "</plot>\n");
    let ghost p1 = out@;
    match &m.runtime {
        Some(t) => {
            match parse_u64(t.as_str()) {
                Some(mins) => {
                    if mins <= 0xffff_ffff {
                        extend_chars(out, "  <runtime>");
                        let d = decimal_str(mins);
                        extend_chars(out, d.as_str());
                        extend_chars(out, "</runtime>\n");
                    }
                },
                None => {},
            }
        },
        None => {},
    }
    assert(out@ =~= p1 + runtime_part(*m));
    let ghost p2 = out@;
    push_present(out, "  <releasedate>", &m.release, "</releasedate>\n");
    push_present(out, "  <premiered>", &m.release, "</premiered>\n");
    push_present(out, "  <year>", &m.year, "</year>\n");
    push_filled(out, "  <director>", &m.director, "</director>\n");
    push_filled(out, "  <studio>", &m.studio, "</studio>\n");
    push_filled(out, "  <maker>", &m.studio, "</maker>\n");
    push_filled(out, "  <label>", &m.label, "</label>\n");
    push_filled(out, "  <set>", &m.series, "</set>\n");
    assert(out@ =~= p2 + release_part(*m) + people_part(*m));
    assert(out@ =~= old(out)@ + outline_part(*m) + runtime_part(*m) + release_part(*m)
        + people_part(*m));
}

fn push_artwork(out: &mut Vec<char>, m: &NfoMetadata)
    ensures
        final(out)@ == old(out)@ + artwork_part(*m),
{
    push_filled(out, "  <thumb>", &m.cover, "</thumb>\n");
    let ghost p1 = out@;
    match &m.cover {
        Some(c) => {
            if c.as_str().is_empty() == false {
                extend_chars(out, "  <fanart>\n");
                push_line(out, "    <thumb>", c.as_str(), "</thumb>\n");
                extend_chars(out, "  </fanart>\n");
            }
        },
        None => {},
    }
    let ghost p2 = out@;
    push_filled(out, "  <trailer>", &m.trailer, "</trailer>\n");
    assert(out@ =~= old(out)@ + artwork_part(*m));
}

fn push_tail(out: &mut Vec<char>, m: &NfoMetadata, movie_id: &str)
    ensures
        final(out)@ == old(out)@ + tail_part(*m, movie_id@),
{
    push_line(out, "  <num>", movie_id, "</num>\n");
    push_line(out, "  <id>", movie_id, "</id>\n");
    push_filled(out, "  <website>", &m.website, "</website>\n");
    push_filled(out, "  <source>", &m.source, "</source>\n");
    extend_chars(out, "</movie>\n");
    assert(out@ =~= old(out)@ + tail_part(*m, movie_id@));
}

/// The NFO document for a movie: its metadata, then its number as sort
/// title, `num` and `id`.
pub fn generate_nfo(metadata: &NfoMetadata, movie_id: &str) -> (r: String)
    ensures
        r@ == nfo_text(*metadata, movie_id@),
{
    let mut out: Vec<char> = Vec::new();
    extend_chars(&mut out, "<?xml version=\"1.0\" encoding=\"UTF-8\" standalone=\"yes\"?>\n");
    extend_chars(&mut out, "<movie>\n");
    push_head(&mut out, metadata, movie_id);
    push_body(&mut out, metadata);
    push_tags(&mut out, &metadata.tag);
    push_actors(&mut out, &metadata.actor, &metadata.actor_photo);
    push_artwork(&mut out, metadata);
    push_tail(&mut out, metadata, movie_id);
    assert(out@ =~= nfo_text(*metadata, movie_id@));
    string_from(&out)
}

} // verus!
