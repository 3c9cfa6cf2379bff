//! Processing modes, file attributes read from paths, and naming templates.

use vstd::prelude::*;
use crate::rx::{captured, captures, get_group, group};
use crate::text::{
    concat, contains, copy_str, ends_with, replace, replace_str, str_contains, str_ends_with,
    str_eq, to_lowercase, to_uppercase, trim, trim_str, unicode_lower, unicode_upper, occurs_at,
    is_ws, trim_start_by, trim_end_by, ws_pred,
};

verus! {

/// Main processing mode.
#[derive(Debug, Clone, Copy, PartialEq, Eq, Structural)]
pub enum ProcessingMode {
    /// Download metadata and images, organise files.
    Scraping,
    /// Move files without downloading metadata.
    Organizing,
    /// Scrape in place without moving files.
    Analysis,
}

/// How files are placed at their destination.
#[derive(Debug, Clone, Copy, PartialEq, Eq, Structural)]
pub enum LinkMode {
    /// Move the file.
    Move,
    /// Create a symbolic link.
    SoftLink,
    /// Create a hard link (a symbolic link where that fails).
    HardLink,
}

/// Attributes detected from a file path.
#[derive(Debug, Clone)]
pub struct FileAttributes {
    /// Part of a multi-part movie.
    pub multi_part: bool,
    /// Part suffix such as `-CD1`.
    pub part: String,
    /// Chinese subtitles.
    pub cn_sub: bool,
    /// Uncensored.
    pub uncensored: bool,
    /// Uncensored with Chinese subtitles.
    pub uncensored_cn: bool,
    /// 4K video.
    pub is_4k: bool,
    /// ISO image.
    pub is_iso: bool,
}

pub struct AttributesView {
    pub multi_part: bool,
    pub part: Seq<char>,
    pub cn_sub: bool,
    pub uncensored: bool,
    pub uncensored_cn: bool,
    pub is_4k: bool,
    pub is_iso: bool,
}

impl View for FileAttributes {
    type V = AttributesView;

    open spec fn view(&self) -> AttributesView {
        AttributesView {
            multi_part: self.multi_part,
            part: self.part@,
            cn_sub: self.cn_sub,
            uncensored: self.uncensored,
            uncensored_cn: self.uncensored_cn,
            is_4k: self.is_4k,
            is_iso: self.is_iso,
        }
    }
}

impl Default for FileAttributes {
    fn default() -> (r: Self)
        ensures
            !r.multi_part && r.part@.len() == 0 && !r.cn_sub && !r.uncensored && !r.uncensored_cn
                && !r.is_4k && !r.is_iso,
    {
        FileAttributes {
            multi_part: false,
            part: String::new(),
            cn_sub: false,
            uncensored: false,
            uncensored_cn: false,
            is_4k: false,
            is_iso: false,
        }
    }
}

/// The multi-part patterns, tried in order; group 1 holds the part.
pub open spec fn part_patterns() -> Seq<Seq<char>> {
    seq![
        r"[-_](CD\d+)"@,
        r"(?i)[-_](DISK\d+)"@,
        r"(?i)[-_](DISC\d+)"@,
        r"(?i)[-_](PART\d+)"@,
        r"(?i)[-_](PARTS\d+)"@,
        r"(?i)[-_](PT\d+)"@,
        r"-\d+[-_](\d{1,2})(?:[-_][CU])?\.[\w]+$"@,
    ]
}

fn part_pattern_list() -> (r: Vec<&'static str>)
    ensures
        r@.map_values(|x: &str| x@) == part_patterns(),
{
    let mut v: Vec<&'static str> = Vec::new();
    v.push(r"[-_](CD\d+)");
    v.push(r"(?i)[-_](DISK\d+)");
    v.push(r"(?i)[-_](DISC\d+)");
    v.push(r"(?i)[-_](PART\d+)");
    v.push(r"(?i)[-_](PARTS\d+)");
    v.push(r"(?i)[-_](PT\d+)");
    v.push(r"-\d+[-_](\d{1,2})(?:[-_][CU])?\.[\w]+$");
    assert(v@.map_values(|x: &str| x@) =~= part_patterns());
    v
}

/// The part suffix of the first pattern whose match has a group 1: `-`
/// followed by that group in uppercase.
pub open spec fn part_suffix(patterns: Seq<Seq<char>>, path: Seq<char>) -> Option<Seq<char>>
    decreases patterns.len(),
{
    if patterns.len() == 0 {
        None
    } else {
        match captured(patterns[0], path) {
            Some(c) => match group(c, 1) {
                Some(g) => Some("-"@ + unicode_upper(g)),
                None => part_suffix(patterns.skip(1), path),
            },
            None => part_suffix(patterns.skip(1), path),
        }
    }
}

/// The markers of Chinese subtitles, compared in lowercase.
pub open spec fn cn_markers() -> Seq<Seq<char>> {
    seq!["-C."@, "_C."@, "ch."@, "中文"@, "字幕"@]
}

pub open spec fn has_cn_marker(path: Seq<char>) -> bool {
    exists|i: int|
        0 <= i < cn_markers().len() && contains(unicode_lower(path), unicode_lower(#[trigger] cn_markers()[i]))
}

pub open spec fn uc_marker(path: Seq<char>) -> bool {
    contains(unicode_upper(path), "-UC."@) || contains(unicode_upper(path), "_UC."@)
}

/// `FileAttributes::from_path`.
pub open spec fn attributes_of(path: Seq<char>) -> AttributesView {
    let part = part_suffix(part_patterns(), path);
    let uc = uc_marker(path);
    AttributesView {
        multi_part: part is Some,
        part: match part {
            Some(p) => p,
            None => Seq::empty(),
        },
        cn_sub: has_cn_marker(path) || uc,
        uncensored: contains(unicode_upper(path), "-U."@) || contains(unicode_upper(path), "_U."@)
            || uc,
        uncensored_cn: uc,
        is_4k: contains(unicode_upper(path), "4K"@),
        is_iso: ends_with(unicode_lower(path), ".iso"@),
    }
}

fn part_suffix_exec(path: &str) -> (r: Option<String>)
    ensures
        r matches Some(s) ==> part_suffix(part_patterns(), path@) == Some(s@),
        r is None ==> part_suffix(part_patterns(), path@) is None,
{
    let list = part_pattern_list();
    let ghost pv = list@.map_values(|x: &str| x@);
    let mut i: usize = 0;
    assert(pv.skip(0) =~= pv);
    while i < list.len()
        invariant
            i <= list.len(),
            pv == list@.map_values(|x: &str| x@),
            pv == part_patterns(),
            part_suffix(part_patterns(), path@) == part_suffix(pv.skip(i as int), path@),
        decreases list.len() - i,
    {
        proof {
            assert(pv.skip(i as int)[0] == list@[i as int]@);
            assert(pv.skip(i as int).skip(1) =~= pv.skip(i + 1));
        }
        if let Some(caps) = captures(list[i], path) {
            if let Some(g) = get_group(&caps, 1) {
                let up = to_uppercase(g.as_str());
                return Some(concat("-", up.as_str()));
            }
        }
        i = i + 1;
    }
    None
}

fn has_cn_marker_exec(path: &str) -> (r: bool)
    ensures
        r == has_cn_marker(path@),
{
    let lower = to_lowercase(path);
    let mut markers: Vec<&'static str> = Vec::new();
    markers.push("-C.");
    markers.push("_C.");
    markers.push("ch.");
    markers.push("中文");
    markers.push("字幕");
    assert(markers@.map_values(|x: &str| x@) =~= cn_markers());
    let mut i: usize = 0;
    while i < markers.len()
        invariant
            i <= markers.len(),
            lower@ == unicode_lower(path@),
            markers@.map_values(|x: &str| x@) == cn_markers(),
            forall|j: int| 0 <= j < i ==> !contains(unicode_lower(path@), unicode_lower(#[trigger] cn_markers()[j])),
        decreases markers.len() - i,
    {
        let m = to_lowercase(markers[i]);
        proof {
            assert(cn_markers()[i as int] == markers@[i as int]@);
        }
        if str_contains(lower.as_str(), m.as_str()) {
            return true;
        }
        i = i + 1;
    }
    false
}

impl FileAttributes {
    /// Detects the part suffix, subtitle, uncensored, 4K and ISO attributes of a
    /// file path.
    pub fn from_path(path: &str) -> (r: Self)
        ensures
            r@ == attributes_of(path@),
    {
        let part = part_suffix_exec(path);
        let up = to_uppercase(path);
        let lower = to_lowercase(path);
        let uc = str_contains(up.as_str(), "-UC.") || str_contains(up.as_str(), "_UC.");
        let cn = has_cn_marker_exec(path);
        let u = str_contains(up.as_str(), "-U.") || str_contains(up.as_str(), "_U.");
        FileAttributes {
            multi_part: part.is_some(),
            part: match part {
                Some(p) => p,
                None => String::new(),
            },
            cn_sub: cn || uc,
            uncensored: u || uc,
            uncensored_cn: uc,
            is_4k: str_contains(up.as_str(), "4K"),
            is_iso: str_ends_with(lower.as_str(), ".iso"),
        }
    }

    /// The name suffix of the attributes: `-UC`, `-U`, `-C` or nothing.
    pub fn get_suffix(&self) -> (r: String)
        ensures
            r@ == suffix_of(self@),
    {
        if self.uncensored_cn {
            copy_str("-UC")
        } else if self.uncensored {
            copy_str("-U")
        } else if self.cn_sub {
            copy_str("-C")
        } else {
            String::new()
        }
    }
}

pub open spec fn suffix_of(a: AttributesView) -> Seq<char> {
    if a.uncensored_cn {
        "-UC"@
    } else if a.uncensored {
        "-U"@
    } else if a.cn_sub {
        "-C"@
    } else {
        Seq::empty()
    }
}

// ---------------------------------------------------------------------------
// Templates
// ---------------------------------------------------------------------------

/// A metadata value as templates read it.
#[derive(Debug, Clone)]
pub enum FieldValue {
    /// A string.
    Text(String),
    /// An array; each element is its string, or `None` when it is not one.
    List(Vec<Option<String>>),
    /// Any other value.
    Other,
}

/// Metadata fields by name, as templates read them.
#[derive(Debug, Clone)]
pub struct TemplateFields {
    pub entries: Vec<(String, FieldValue)>,
}

pub open spec fn field_text(v: FieldValue) -> Seq<char> {
    match v {
        FieldValue::Text(s) => s@,
        FieldValue::List(items) => if items.len() > 0 {
            match items@[0] {
                Some(s) => s@,
                None => Seq::empty(),
            }
        } else {
            Seq::empty()
        },
        FieldValue::Other => Seq::empty(),
    }
}

/// The text of the first entry named `key`: a string, the first element of a
/// non-empty array when it is a string, else empty.
pub open spec fn field_of(entries: Seq<(String, FieldValue)>, key: Seq<char>) -> Seq<char>
    decreases entries.len(),
{
    if entries.len() == 0 {
        Seq::empty()
    } else if entries[0].0@ == key {
        field_text(entries[0].1)
    } else {
        field_of(entries.skip(1), key)
    }
}

impl TemplateFields {
    /// The text of the field named `key`.
    pub fn get_field(&self, key: &str) -> (r: String)
        ensures
            r@ == field_of(self.entries@, key@),
    {
        let mut i: usize = 0;
        assert(self.entries@.skip(0) =~= self.entries@);
        while i < self.entries.len()
            invariant
                i <= self.entries.len(),
                field_of(self.entries@, key@) == field_of(self.entries@.skip(i as int), key@),
            decreases self.entries.len() - i,
        {
            proof {
                assert(self.entries@.skip(i as int)[0] == self.entries@[i as int]);
                assert(self.entries@.skip(i as int).skip(1) =~= self.entries@.skip(i + 1));
            }
            if str_eq(self.entries[i].0.as_str(), key) {
                return match &self.entries[i].1 {
                    FieldValue::Text(s) => copy_str(s.as_str()),
                    FieldValue::List(items) => {
                        if items.len() > 0 {
                            match &items[0] {
                                Some(s) => copy_str(s.as_str()),
                                None => String::new(),
                            }
                        } else {
                            String::new()
                        }
                    },
                    FieldValue::Other => String::new(),
                };
            }
            i = i + 1;
        }
        String::new()
    }
}

/// The variables a template may name, in the order they are substituted.
pub open spec fn template_variables() -> Seq<Seq<char>> {
    seq!["number"@, "title"@, "actor"@, "studio"@, "director"@, "series"@, "year"@, "label"@]
}

/// Each variable name replaced by its field, in order.
pub open spec fn substitute(t: Seq<char>, vars: Seq<Seq<char>>, entries: Seq<(String, FieldValue)>) -> Seq<char>
    decreases vars.len(),
{
    if vars.len() == 0 {
        t
    } else {
        replace(substitute(t, vars.drop_last(), entries), vars.last(), field_of(entries, vars.last()))
    }
}

/// `Template::render`: variables substituted, `+` operators and quotes
/// removed, trimmed; an empty or `/` result falls back to the number.
pub open spec fn rendered(template: Seq<char>, entries: Seq<(String, FieldValue)>) -> Seq<char> {
    let s = substitute(template, template_variables(), entries);
    let c = trim(
        replace(replace(replace(replace(s, " + "@, Seq::empty()), "+"@, Seq::empty()), "\""@, Seq::empty()), "'"@, Seq::empty()),
    );
    if c.len() == 0 || c == "/"@ {
        field_of(entries, "number"@)
    } else {
        c
    }
}

/// Text with no occurrence of `p` is left as it is by replacing `p`.
proof fn lemma_replace_absent(t: Seq<char>, p: Seq<char>, r: Seq<char>)
    requires
        p.len() > 0,
        !contains(t, p),
    ensures
        replace(t, p, r) == t,
    decreases t.len(),
{
    if t.len() >= p.len() {
        assert(!occurs_at(t, p, 0));
        let u = t.skip(1);
        assert(!contains(u, p)) by {
            if contains(u, p) {
                let i = choose|i: int| occurs_at(u, p, i);
                assert(u.subrange(i, i + p.len()) =~= t.subrange(i + 1, i + 1 + p.len()));
                assert(occurs_at(t, p, i + 1));
            }
        }
        lemma_replace_absent(u, p, r);
        assert(seq![t[0]] + u =~= t);
    }
}

/// A character of `p` that `t` lacks keeps `p` out of `t`.
proof fn lemma_absent_by_char(t: Seq<char>, p: Seq<char>, m: int)
    requires
        0 <= m < p.len(),
        forall|i: int| 0 <= i < t.len() ==> t[i] != p[m],
    ensures
        !contains(t, p),
{
    if contains(t, p) {
        let i = choose|i: int| occurs_at(t, p, i);
        assert(t.subrange(i, i + p.len())[m] == t[i + m]);
    }
}

/// A pattern longer than the text does not occur in it.
proof fn lemma_absent_longer(t: Seq<char>, p: Seq<char>)
    requires
        p.len() > t.len(),
    ensures
        !contains(t, p),
{
}

/// Replacing a text by itself gives the replacement.
proof fn lemma_replace_whole(p: Seq<char>, r: Seq<char>)
    requires
        p.len() > 0,
    ensures
        replace(p, p, r) == r,
{
    assert(p.subrange(0, p.len() as int) =~= p);
    assert(p.skip(p.len() as int) =~= Seq::<char>::empty());
    assert(replace(Seq::<char>::empty(), p, r) == Seq::<char>::empty());
    assert(r + Seq::<char>::empty() =~= r);
}

proof fn lemma_substitute_untouched(t: Seq<char>, vars: Seq<Seq<char>>, n: int, e: Seq<(String, FieldValue)>)
    requires
        0 <= n <= vars.len(),
        forall|j: int| 0 <= j < n ==> (#[trigger] vars[j]).len() > 0 && !contains(t, vars[j]),
    ensures
        substitute(t, vars.take(n), e) == t,
    decreases n,
{
    if n > 0 {
        lemma_substitute_untouched(t, vars, n - 1, e);
        assert(vars.take(n).drop_last() =~= vars.take(n - 1));
        assert(vars.take(n).last() == vars[n - 1]);
        lemma_replace_absent(t, vars[n - 1], field_of(e, vars[n - 1]));
    }
}

proof fn lemma_substitute_rest(t: Seq<char>, vars: Seq<Seq<char>>, n: int, e: Seq<(String, FieldValue)>, f: Seq<char>)
    requires
        0 <= n <= vars.len(),
        substitute(t, vars.take(n), e) == f,
        forall|j: int| n <= j < vars.len() ==> (#[trigger] vars[j]).len() > 0 && !contains(f, vars[j]),
    ensures
        substitute(t, vars, e) == f,
    decreases vars.len() - n,
{
    if n < vars.len() {
        assert(vars.take(n + 1).drop_last() =~= vars.take(n));
        assert(vars.take(n + 1).last() == vars[n]);
        lemma_replace_absent(f, vars[n], field_of(e, vars[n]));
        lemma_substitute_rest(t, vars, n + 1, e, f);
    } else {
        assert(vars.take(n) =~= vars);
    }
}

/// A field value that a template can hold as it is: not empty, not `/`, no
/// whitespace at either end, no `+` or quote, and no variable name inside.
pub open spec fn plain_value(f: Seq<char>) -> bool {
    &&& f.len() > 0
    &&& f != "/"@
    &&& !is_ws(f[0])
    &&& !is_ws(f.last())
    &&& forall|i: int| 0 <= i < f.len() ==> f[i] != '+' && f[i] != '"' && f[i] != '\''
    &&& !contains(f, "number"@) && !contains(f, "title"@) && !contains(f, "actor"@)
    &&& !contains(f, "studio"@) && !contains(f, "director"@) && !contains(f, "series"@)
    &&& !contains(f, "year"@) && !contains(f, "label"@)
}

proof fn lemma_render_variable_at(k: int, e: Seq<(String, FieldValue)>)
    requires
        0 <= k < template_variables().len(),
        forall|j: int| 0 <= j < k ==> !contains(template_variables()[k], #[trigger] template_variables()[j]),
        plain_value(field_of(e, template_variables()[k])),
    ensures
        rendered(template_variables()[k], e) == field_of(e, template_variables()[k]),
{
    reveal_strlit("number");
    reveal_strlit("title");
    reveal_strlit("actor");
    reveal_strlit("studio");
    reveal_strlit("director");
    reveal_strlit("series");
    reveal_strlit("year");
    reveal_strlit("label");
    reveal_strlit(" + ");
    reveal_strlit("+");
    reveal_strlit("\"");
    reveal_strlit("'");
    reveal_strlit("/");
    let vars = template_variables();
    let v = vars[k];
    let f = field_of(e, v);
    assert forall|j: int| 0 <= j < vars.len() implies (#[trigger] vars[j]).len() > 0 by {}
    lemma_substitute_untouched(v, vars, k, e);
    assert(vars.take(k + 1).drop_last() =~= vars.take(k));
    assert(vars.take(k + 1).last() == v);
    lemma_replace_whole(v, f);
    assert(substitute(v, vars.take(k + 1), e) == f);
    lemma_substitute_rest(v, vars, k + 1, e, f);
    let empty = Seq::<char>::empty();
    lemma_absent_by_char(f, " + "@, 1);
    lemma_replace_absent(f, " + "@, empty);
    lemma_absent_by_char(f, "+"@, 0);
    lemma_replace_absent(f, "+"@, empty);
    lemma_absent_by_char(f, "\""@, 0);
    lemma_replace_absent(f, "\""@, empty);
    lemma_absent_by_char(f, "'"@, 0);
    lemma_replace_absent(f, "'"@, empty);
    assert(trim_start_by(f, ws_pred()) == f);
    assert(trim_end_by(f, ws_pred()) == f);
    assert(trim(f) == f);
}

/// A template that is one of the variables `number`, `title`, `actor`,
/// `studio`, `director`, `series`, `year` or `label` renders as that field's
/// value, whenever the value is plain text (`plain_value`).
pub proof fn lemma_single_variable_renders_its_field(v: Seq<char>, e: Seq<(String, FieldValue)>)
    requires
        v == "number"@ || v == "title"@ || v == "actor"@ || v == "studio"@ || v == "director"@
            || v == "series"@ || v == "year"@ || v == "label"@,
        plain_value(field_of(e, v)),
    ensures
        rendered(v, e) == field_of(e, v),
{
    reveal_strlit("number");
    reveal_strlit("title");
    reveal_strlit("actor");
    reveal_strlit("studio");
    reveal_strlit("director");
    reveal_strlit("series");
    reveal_strlit("year");
    reveal_strlit("label");
    let vars = template_variables();
    let n = "number"@;
    let t = "title"@;
    let a = "actor"@;
    let s = "studio"@;
    let d = "director"@;
    let r = "series"@;
    let y = "year"@;
    let l = "label"@;
    if v == n {
        lemma_render_variable_at(0, e);
    } else if v == t {
        lemma_absent_longer(t, n);
        lemma_render_variable_at(1, e);
    } else if v == a {
        lemma_absent_longer(a, n);
        lemma_absent_by_char(a, t, 1);
        lemma_render_variable_at(2, e);
    } else if v == s {
        lemma_absent_by_char(s, n, 0);
        lemma_absent_by_char(s, t, 3);
        lemma_absent_by_char(s, a, 0);
        lemma_render_variable_at(3, e);
    } else if v == d {
        lemma_absent_by_char(d, n, 0);
        lemma_absent_by_char(d, t, 3);
        lemma_absent_by_char(d, a, 0);
        lemma_absent_by_char(d, s, 0);
        lemma_render_variable_at(4, e);
    } else if v == r {
        lemma_absent_by_char(r, n, 0);
        lemma_absent_by_char(r, t, 0);
        lemma_absent_by_char(r, a, 0);
        lemma_absent_by_char(r, s, 1);
        lemma_absent_longer(r, d);
        lemma_render_variable_at(5, e);
    } else if v == y {
        lemma_absent_longer(y, n);
        lemma_absent_longer(y, t);
        lemma_absent_longer(y, a);
        lemma_absent_longer(y, s);
        lemma_absent_longer(y, d);
        lemma_absent_longer(y, r);
        lemma_render_variable_at(6, e);
    } else {
        lemma_absent_longer(l, n);
        lemma_absent_by_char(l, t, 0);
        lemma_absent_by_char(l, a, 1);
        lemma_absent_longer(l, s);
        lemma_absent_longer(l, d);
        lemma_absent_longer(l, r);
        lemma_absent_by_char(l, y, 0);
        lemma_render_variable_at(7, e);
    }
}

/// A naming or location rule such as `actor/number`.
#[derive(Debug, Clone)]
pub struct Template {
    template: String,
}

impl Template {
    pub closed spec fn text(&self) -> Seq<char> {
        self.template@
    }

    /// A template with the given rule text.
    pub fn new(template: &str) -> (r: Self)
        ensures
            r.text() == template@,
    {
        Template { template: copy_str(template) }
    }

    /// Renders the template with metadata: the variables `number`, `title`,
    /// `actor`, `studio`, `director`, `series`, `year` and `label` are replaced by
    /// their values.
    pub fn render(&self, metadata: &TemplateFields) -> (r: String)
        ensures
            r@ == rendered(self.text(), metadata.entries@),
    {
        proof {
            reveal_strlit("number");
            reveal_strlit("title");
            reveal_strlit("actor");
            reveal_strlit("studio");
            reveal_strlit("director");
            reveal_strlit("series");
            reveal_strlit("year");
            reveal_strlit("label");
            reveal_strlit(" + ");
            reveal_strlit("+");
            reveal_strlit("\"");
            reveal_strlit("'");
            reveal_strlit("");
            assert(""@ =~= Seq::<char>::empty());
        }
        let mut vars: Vec<&'static str> = Vec::new();
        vars.push("number");
        vars.push("title");
        vars.push("actor");
        vars.push("studio");
        vars.push("director");
        vars.push("series");
        vars.push("year");
        vars.push("label");
        let ghost vv = vars@.map_values(|x: &str| x@);
        assert(vv =~= template_variables());
        let mut result = copy_str(self.template.as_str());
        let mut i: usize = 0;
        assert(template_variables().subrange(0, 0) =~= Seq::<Seq<char>>::empty());
        while i < vars.len()
            invariant
                i <= vars.len(),
                vv == vars@.map_values(|x: &str| x@),
                vv == template_variables(),
                forall|j: int| 0 <= j < vv.len() ==> #[trigger] vv[j].len() > 0,
                result@ == substitute(self.template@, template_variables().subrange(0, i as int), metadata.entries@),
            decreases vars.len() - i,
        {
            let value = metadata.get_field(vars[i]);
            proof {
                let sub = template_variables().subrange(0, i + 1);
                assert(sub.drop_last() =~= template_variables().subrange(0, i as int));
                assert(sub.last() == vars@[i as int]@);
                assert(vv[i as int] == vars@[i as int]@);
            }
            result = replace_str(result.as_str(), vars[i], value.as_str());
            i = i + 1;
        }
        assert(template_variables().subrange(0, 8) =~= template_variables());
        let a = replace_str(result.as_str(), " + ", "");
        let b = replace_str(a.as_str(), "+", "");
        let c = replace_str(b.as_str(), "\"", "");
        let d = replace_str(c.as_str(), "'", "");
        let e = trim_str(d.as_str());
        if e.unicode_len() == 0 || str_eq(e.as_str(), "/") {
            metadata.get_field("number")
        } else {
            e
        }
    }
}

/// Processing statistics.
#[derive(Debug, Clone, Default)]
pub struct ProcessingStats {
    /// Files processed.
    pub total_processed: usize,
    /// Files that succeeded.
    pub succeeded: usize,
    /// Files that failed.
    pub failed: usize,
    /// Files skipped.
    pub skipped: usize,
}

} // verus!
