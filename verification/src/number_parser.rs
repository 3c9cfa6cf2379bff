//! Movie number extraction from file names, with display and content IDs.
//!
//! A display ID is the human-readable form (`SSIS-123`); a content ID is the
//! lowercase, zero-padded form that catalogue APIs use (`ssis00123`). The
//! parser cleans a file name of site tags, quality markers and part markers,
//! then extracts the ID, its part number and its attributes.
//!
//! Patterns are matched with the `regex` crate (see `crate::rx`); every
//! contract here is stated over what those matches give.

use vstd::prelude::*;
use crate::paths::path_file_name;
use crate::rx::{
    captured, captures, find, found, get_group, get_group_text, group, group_text, is_match,
    rx_match, replace_all, replace_first, replaced_all, replaced_first,
};
use crate::text::{
    chars_of, concat, concat3, contains, copy_str, decimal, decimal_str, drop_last_n,
    drop_last_n_str, ends_with, find_char, first_index_of, has_char, last_index_of,
    numeric_only, numeric_only_str, parse_u64, parse_unsigned, replace, replace_char,
    replace_char_str, replace_str, rfind_char, skip_chars_str, split_on, split_on_str,
    split_whitespace_str, squash_ws, squash_ws_str, starts_with, string_from, str_contains, str_ends_with,
    str_eq, str_has_char, str_starts_with, strip_leading_zeros, strip_leading_zeros_str,
    substring, take_chars_str, to_lowercase, to_uppercase, trim, trim_str, unicode_lower,
    unicode_upper, views_of, words, zero_pad, zero_pad_str, zeros, lemma_leading_zeros,
    lemma_strip_zeros_split, lemma_decimal_of_digits, all_ascii_digits, digits_value, is_ascii_digit,
    lowercase, is_ascii_seq, ascii_lower, lower_char, is_ascii_char, is_ascii_upper, is_numeric,
    occurs_at, uppercase, ascii_upper, upper_char,
};

verus! {

// ---------------------------------------------------------------------------
// Types
// ---------------------------------------------------------------------------

pub open spec fn opt_view(o: Option<String>) -> Option<Seq<char>> {
    match o {
        Some(s) => Some(s@),
        None => None,
    }
}

pub open spec fn strings_view(v: Seq<String>) -> Seq<Seq<char>> {
    v.map_values(|s: String| s@)
}

/// The views of a list with one more string end with that string's view.
pub proof fn lemma_strings_view_push(a: Seq<String>, x: String)
    ensures
        strings_view(a.push(x)) == strings_view(a).push(x@),
{
    assert(strings_view(a.push(x)) =~= strings_view(a).push(x@));
}

/// Attributes detected from a file name.
#[derive(Debug, Clone, PartialEq)]
pub struct ParsedAttributes {
    /// Chinese subtitles (`-C`, `-CH`, ... suffix).
    pub cn_sub: bool,
    /// Uncensored (`-U` or `-UC` suffix).
    pub uncensored: bool,
    /// Site the number belongs to (`tokyo-hot`, `carib`, `1pon`, `fc2`, `heyzo`).
    pub special_site: Option<String>,
}

pub struct AttributesView {
    pub cn_sub: bool,
    pub uncensored: bool,
    pub special_site: Option<Seq<char>>,
}

impl View for ParsedAttributes {
    type V = AttributesView;

    open spec fn view(&self) -> AttributesView {
        AttributesView {
            cn_sub: self.cn_sub,
            uncensored: self.uncensored,
            special_site: opt_view(self.special_site),
        }
    }
}

pub open spec fn no_attributes() -> AttributesView {
    AttributesView { cn_sub: false, uncensored: false, special_site: None }
}

impl Default for ParsedAttributes {
    fn default() -> (r: Self)
        ensures
            r@ == no_attributes(),
    {
        ParsedAttributes { cn_sub: false, uncensored: false, special_site: None }
    }
}

/// A parsed movie number: display ID, content ID, part number, attributes.
#[derive(Debug, Clone, PartialEq)]
pub struct ParsedNumber {
    /// Display ID, e.g. `SSIS-123`.
    pub id: String,
    /// Content ID, e.g. `ssis00123`.
    pub content_id: String,
    /// Part number of a multi-part movie.
    pub part_number: Option<u8>,
    /// Detected attributes.
    pub attributes: ParsedAttributes,
}

pub struct NumberView {
    pub id: Seq<char>,
    pub content_id: Seq<char>,
    pub part_number: Option<u8>,
    pub attributes: AttributesView,
}

impl View for ParsedNumber {
    type V = NumberView;

    open spec fn view(&self) -> NumberView {
        NumberView {
            id: self.id@,
            content_id: self.content_id@,
            part_number: self.part_number,
            attributes: self.attributes@,
        }
    }
}

impl ParsedNumber {
    /// A parsed number from a display ID: its content ID derived, no part, no attributes.
    pub fn from_id(id: String) -> (r: Self)
        ensures
            r@.id == id@,
            r@.content_id == content_id_of(id@),
            r@.part_number is None,
            r@.attributes == no_attributes(),
    {
        let content_id = convert_to_content_id(id.as_str());
        ParsedNumber { id, content_id, part_number: None, attributes: ParsedAttributes::default() }
    }

    /// As `from_id`, with a part number.
    pub fn from_id_with_part(id: String, part: Option<u8>) -> (r: Self)
        ensures
            r@.id == id@,
            r@.content_id == content_id_of(id@),
            r@.part_number == part,
            r@.attributes == no_attributes(),
    {
        let content_id = convert_to_content_id(id.as_str());
        ParsedNumber { id, content_id, part_number: part, attributes: ParsedAttributes::default() }
    }

    /// The text form of a parsed number: its display ID.
    pub fn to_string(&self) -> (r: String)
        ensures
            r@ == self.id@,
    {
        copy_str(self.id.as_str())
    }
}

impl vstd::std_specs::convert::FromSpecImpl<ParsedNumber> for String {
    open spec fn obeys_from_spec() -> bool {
        true
    }

    open spec fn from_spec(v: ParsedNumber) -> String {
        v.id
    }
}

impl From<ParsedNumber> for String {
    fn from(parsed: ParsedNumber) -> (r: String) {
        parsed.id
    }
}

/// Parser configuration.
#[derive(Debug, Clone)]
pub struct ParserConfig {
    /// Patterns tried, in order, before the built-in rules.
    pub custom_regexs: Vec<String>,
    /// Strings removed from the file name before anything else.
    pub removal_strings: Vec<String>,
    /// Accept only IDs of conservative shapes.
    pub strict_mode: bool,
    /// Capture group of a custom pattern that holds the ID.
    pub regex_id_match: usize,
    /// Capture group of a custom pattern that holds the part number.
    pub regex_pt_match: usize,
    /// Comma-separated extra uncensored prefixes.
    pub uncensored_prefixes: String,
}

pub struct ConfigView {
    pub custom_regexs: Seq<Seq<char>>,
    pub removal_strings: Seq<Seq<char>>,
    pub strict_mode: bool,
    pub regex_id_match: usize,
    pub regex_pt_match: usize,
    pub uncensored_prefixes: Seq<char>,
}

impl View for ParserConfig {
    type V = ConfigView;

    open spec fn view(&self) -> ConfigView {
        ConfigView {
            custom_regexs: strings_view(self.custom_regexs@),
            removal_strings: strings_view(self.removal_strings@),
            strict_mode: self.strict_mode,
            regex_id_match: self.regex_id_match,
            regex_pt_match: self.regex_pt_match,
            uncensored_prefixes: self.uncensored_prefixes@,
        }
    }
}

/// The removal strings a configuration starts with.
pub open spec fn default_removal_strings() -> Seq<Seq<char>> {
    seq![
        "22-sht.me"@,
        "1080p"@,
        "720p"@,
        "480p"@,
        "h.264"@,
        "h.265"@,
        "hevc"@,
        "x264"@,
        "x265"@,
        "uncensored"@,
        "leaked"@,
        "hack"@,
    ]
}

pub open spec fn default_config() -> ConfigView {
    ConfigView {
        custom_regexs: Seq::empty(),
        removal_strings: default_removal_strings(),
        strict_mode: false,
        regex_id_match: 1,
        regex_pt_match: 2,
        uncensored_prefixes: Seq::empty(),
    }
}

/// The default removal strings.
pub fn get_default_removal_strings() -> (r: Vec<String>)
    ensures
        strings_view(r@) == default_removal_strings(),
{
    let mut v: Vec<String> = Vec::new();
    v.push(copy_str("22-sht.me"));
    v.push(copy_str("1080p"));
    v.push(copy_str("720p"));
    v.push(copy_str("480p"));
    v.push(copy_str("h.264"));
    v.push(copy_str("h.265"));
    v.push(copy_str("hevc"));
    v.push(copy_str("x264"));
    v.push(copy_str("x265"));
    v.push(copy_str("uncensored"));
    v.push(copy_str("leaked"));
    v.push(copy_str("hack"));
    assert(strings_view(v@) =~= default_removal_strings());
    v
}

impl Default for ParserConfig {
    fn default() -> (r: Self)
        ensures
            r@ == default_config(),
    {
        let r = ParserConfig {
            custom_regexs: Vec::new(),
            removal_strings: get_default_removal_strings(),
            strict_mode: false,
            regex_id_match: 1,
            regex_pt_match: 2,
            uncensored_prefixes: String::new(),
        };
        assert(strings_view(r.custom_regexs@) =~= Seq::<Seq<char>>::empty());
        r
    }
}

impl ParserConfig {
    /// The default configuration.
    pub fn new() -> (r: Self)
        ensures
            r@ == default_config(),
    {
        Self::default()
    }

    /// Adds a custom pattern at the end of the list.
    pub fn with_custom_regex(self, regex: &str) -> (r: Self)
        ensures
            r@ == (ConfigView { custom_regexs: self@.custom_regexs.push(regex@), ..self@ }),
    {
        let mut c = self;
        c.custom_regexs.push(copy_str(regex));
        proof {
            assert(strings_view(c.custom_regexs@) =~= self@.custom_regexs.push(regex@));
        }
        c
    }

    /// Adds custom patterns at the end of the list.
    pub fn with_custom_regexs(self, regexs: Vec<String>) -> (r: Self)
        ensures
            r@ == (ConfigView { custom_regexs: self@.custom_regexs + strings_view(regexs@), ..self@ }),
    {
        let mut c = self;
        let mut i: usize = 0;
        while i < regexs.len()
            invariant
                i <= regexs.len(),
                c@ == (ConfigView {
                    custom_regexs: self@.custom_regexs + strings_view(regexs@.subrange(0, i as int)),
                    ..self@
                }),
            decreases regexs.len() - i,
        {
            let ghost o = c.custom_regexs@;
            let x = copy_str(regexs[i].as_str());
            c.custom_regexs.push(x);
            proof {
                assert(regexs@.subrange(0, i + 1) =~= regexs@.subrange(0, i as int).push(regexs@[i as int]));
                lemma_strings_view_push(o, x);
                lemma_strings_view_push(regexs@.subrange(0, i as int), regexs@[i as int]);
            }
            i = i + 1;
        }
        assert(regexs@.subrange(0, regexs@.len() as int) =~= regexs@);
        c
    }

    /// Adds a removal string at the end of the list.
    pub fn with_removal_string(self, removal: &str) -> (r: Self)
        ensures
            r@ == (ConfigView { removal_strings: self@.removal_strings.push(removal@), ..self@ }),
    {
        let mut c = self;
        c.removal_strings.push(copy_str(removal));
        proof {
            assert(strings_view(c.removal_strings@) =~= self@.removal_strings.push(removal@));
        }
        c
    }

    /// Replaces the removal strings (defaults included).
    pub fn with_removal_strings(self, removals: Vec<String>) -> (r: Self)
        ensures
            r@ == (ConfigView { removal_strings: strings_view(removals@), ..self@ }),
    {
        let mut c = self;
        c.removal_strings = removals;
        c
    }

    /// Turns strict mode on or off.
    pub fn with_strict_mode(self, enabled: bool) -> (r: Self)
        ensures
            r@ == (ConfigView { strict_mode: enabled, ..self@ }),
    {
        let mut c = self;
        c.strict_mode = enabled;
        c
    }

    /// Sets the capture group that holds the ID.
    pub fn with_regex_id_match(self, index: usize) -> (r: Self)
        ensures
            r@ == (ConfigView { regex_id_match: index, ..self@ }),
    {
        let mut c = self;
        c.regex_id_match = index;
        c
    }

    /// Sets the capture group that holds the part number.
    pub fn with_regex_pt_match(self, index: usize) -> (r: Self)
        ensures
            r@ == (ConfigView { regex_pt_match: index, ..self@ }),
    {
        let mut c = self;
        c.regex_pt_match = index;
        c
    }

    /// Sets the comma-separated uncensored prefixes.
    pub fn with_uncensored_prefixes(self, prefixes: &str) -> (r: Self)
        ensures
            r@ == (ConfigView { uncensored_prefixes: prefixes@, ..self@ }),
    {
        let mut c = self;
        c.uncensored_prefixes = copy_str(prefixes);
        c
    }
}

// ---------------------------------------------------------------------------
// Display ID <-> content ID
// ---------------------------------------------------------------------------

pub const TOKYO_HOT_CONTENT: &'static str = r"^(cz|gedo|k|n|red|se)\d+$";
pub const T28_R18_LOOSE: &'static str = r"^(t-?28|r-?18)[-_]?(\d+)$";
pub const STANDARD_DISPLAY: &'static str = r"^([A-Za-z]+)[-_]?(\d+)([A-Za-z]*)$";
pub const LETTERS_DIGITS: &'static str = r"^([a-z]+)(\d+)$";
pub const T28_R18_CONTENT: &'static str = r"^(t28|r18)(\d+)$";
pub const STANDARD_CONTENT: &'static str = r"^([a-z]+)(\d+)([a-z]*)$";

/// `s` without `-` and `_`.
pub open spec fn no_separators(s: Seq<char>) -> Seq<char> {
    replace(replace(s, "-"@, Seq::empty()), "_"@, Seq::empty())
}

/// The content ID of a display ID (`convert_to_content_id`).
pub open spec fn content_id_of(display: Seq<char>) -> Seq<char> {
    let lower = lowercase(display);
    if starts_with(lower, "fc2"@) {
        no_separators(lower)
    } else if starts_with(lower, "heyzo"@) {
        "heyzo"@ + zero_pad(numeric_only(lower), 5)
    } else if rx_match(TOKYO_HOT_CONTENT@, lower) {
        lower
    } else if let Some(c) = captured(T28_R18_LOOSE@, lower) {
        replace(group_text(c, 1), "-"@, Seq::empty()) + zero_pad(group_text(c, 2), 5)
    } else if let Some(c) = captured(STANDARD_DISPLAY@, display) {
        unicode_lower(group_text(c, 1)) + zero_pad(group_text(c, 2), 5) + unicode_lower(
            group_text(c, 3),
        )
    } else {
        no_separators(lower)
    }
}

fn no_separators_str(s: &str) -> (r: String)
    ensures
        r@ == no_separators(s@),
{
    proof {
        reveal_strlit("-");
        reveal_strlit("_");
        reveal_strlit("");
        assert(""@ =~= Seq::<char>::empty());
    }
    let a = replace_str(s, "-", "");
    replace_str(a.as_str(), "_", "")
}

/// Converts a display ID to the content ID that catalogue APIs use:
/// lowercase, separators removed, digits zero-padded to five places.
pub fn convert_to_content_id(display_id: &str) -> (r: String)
    ensures
        r@ == content_id_of(display_id@),
{
    proof {
        reveal_strlit("-");
        reveal_strlit("");
        assert(""@ =~= Seq::<char>::empty());
    }
    let lower = to_lowercase(display_id);
    if str_starts_with(lower.as_str(), "fc2") {
        return no_separators_str(lower.as_str());
    }
    if str_starts_with(lower.as_str(), "heyzo") {
        let digits = numeric_only_str(lower.as_str());
        let padded = zero_pad_str(digits.as_str(), 5);
        return concat("heyzo", padded.as_str());
    }
    if is_match(TOKYO_HOT_CONTENT, lower.as_str()) {
        return lower;
    }
    if let Some(caps) = captures(T28_R18_LOOSE, lower.as_str()) {
        let prefix = replace_str(get_group_text(&caps, 1).as_str(), "-", "");
        let padded = zero_pad_str(get_group_text(&caps, 2).as_str(), 5);
        return concat(prefix.as_str(), padded.as_str());
    }
    if let Some(caps) = captures(STANDARD_DISPLAY, display_id) {
        let prefix = to_lowercase(get_group_text(&caps, 1).as_str());
        let padded = zero_pad_str(get_group_text(&caps, 2).as_str(), 5);
        let suffix = to_lowercase(get_group_text(&caps, 3).as_str());
        return concat3(prefix.as_str(), padded.as_str(), suffix.as_str());
    }
    no_separators_str(lower.as_str())
}

/// `s` without leading zeros, or `"0"` when nothing is left.
pub open spec fn trimmed_digits(s: Seq<char>) -> Seq<char> {
    if strip_leading_zeros(s).len() == 0 {
        "0"@
    } else {
        strip_leading_zeros(s)
    }
}

/// Digits without leading zeros, read as a number (0 where that fails), then
/// written with at least three digits.
pub open spec fn three_digits(s: Seq<char>) -> Seq<char> {
    let n = match parse_unsigned(strip_leading_zeros(s), u64::MAX as nat) {
        Some(n) => n,
        None => 0,
    };
    zero_pad(decimal(n), 3)
}

/// The digits of a display id survive the trip to a content id and back:
/// padding them to five places, then dropping the leading zeros and writing
/// the value with at least three digits, gives them again, when they are at
/// least three digits long and have no leading zero beyond a three-digit
/// number's (`123`, `001`, `12345`).
pub proof fn lemma_padded_digits_round_trip(d: Seq<char>)
    requires
        all_ascii_digits(d),
        d.len() >= 3,
        d.len() == 3 || d[0] != '0',
        digits_value(d) <= u64::MAX,
    ensures
        three_digits(zero_pad(d, 5)) == d,
{
    let p = zero_pad(d, 5);
    let k: nat = if d.len() < 5 { (5 - d.len()) as nat } else { 0 };
    assert(p =~= zeros(k) + d);
    lemma_leading_zeros(k, d);
    let t = strip_leading_zeros(d);
    assert(strip_leading_zeros(p) == t);
    lemma_strip_zeros_split(d);
    let j = (d.len() - t.len()) as nat;
    assert(d == zeros(j) + t);
    lemma_leading_zeros(j, t);
    assert(digits_value(d) == digits_value(t));
    if t.len() == 0 {
        assert(parse_unsigned(t, u64::MAX as nat) is None);
        assert(d.len() == 3) by {
            if d.len() != 3 {
                assert(d[0] == zeros(j)[0]);
            }
        }
        assert(decimal(0) =~= seq!['0']);
        assert(zero_pad(seq!['0'], 3) =~= d);
    } else {
        assert(all_ascii_digits(t)) by {
            assert forall|i: int| 0 <= i < t.len() implies is_ascii_digit(#[trigger] t[i]) by {
                assert(t[i] == d[j + i]);
            }
        }
        assert(t[0] != '+');
        assert(parse_unsigned(t, u64::MAX as nat) == Some(digits_value(t)));
        lemma_decimal_of_digits(t);
        if j > 0 {
            assert(d[0] == '0');
            assert(d.len() == 3);
            assert(t.len() < 3);
            assert(zero_pad(t, 3) =~= zeros(j) + t);
        } else {
            assert(zeros(0) + t =~= t);
            assert(t == d);
        }
    }
}

proof fn lemma_numeric_only_digits(n: Seq<char>)
    requires
        all_ascii_digits(n),
    ensures
        numeric_only(n) == n,
    decreases n.len(),
{
    reveal_with_fuel(Seq::filter, 1);
    if n.len() > 0 {
        let m = n.drop_last();
        assert(all_ascii_digits(m)) by {
            assert forall|i: int| 0 <= i < m.len() implies is_ascii_digit(#[trigger] m[i]) by {
                assert(m[i] == n[i]);
            }
        }
        lemma_numeric_only_digits(m);
        assert(is_ascii_digit(n[n.len() - 1]));
        assert(numeric_only(n) =~= numeric_only(m).push(n.last()));
        assert(m.push(n.last()) =~= n);
    } else {
        assert(numeric_only(n) =~= n);
    }
}

proof fn lemma_numeric_only_none(a: Seq<char>)
    requires
        forall|i: int| 0 <= i < a.len() ==> is_ascii_char(#[trigger] a[i]) && !is_ascii_digit(a[i]),
    ensures
        numeric_only(a) == Seq::<char>::empty(),
    decreases a.len(),
{
    reveal_with_fuel(Seq::filter, 1);
    if a.len() > 0 {
        let m = a.drop_last();
        assert forall|i: int| 0 <= i < m.len() implies is_ascii_char(#[trigger] m[i]) && !is_ascii_digit(m[i]) by {
            assert(m[i] == a[i]);
        }
        lemma_numeric_only_none(m);
        assert(is_ascii_char(a[a.len() - 1]) && !is_ascii_digit(a[a.len() - 1]));
    } else {
        assert(numeric_only(a) =~= Seq::<char>::empty());
    }
}

proof fn lemma_numeric_only_concat(a: Seq<char>, b: Seq<char>)
    ensures
        numeric_only(a + b) == numeric_only(a) + numeric_only(b),
    decreases b.len(),
{
    reveal_with_fuel(Seq::filter, 1);
    if b.len() == 0 {
        assert(a + b =~= a);
        assert(numeric_only(b) =~= Seq::<char>::empty());
        assert(numeric_only(a) + numeric_only(b) =~= numeric_only(a));
    } else {
        let c = b.drop_last();
        lemma_numeric_only_concat(a, c);
        assert((a + b).drop_last() =~= a + c);
        assert((a + b).last() == b.last());
        if is_numeric(b.last()) {
            assert(numeric_only(a) + numeric_only(b) =~= (numeric_only(a) + numeric_only(c)).push(b.last()));
        } else {
            assert(numeric_only(a) + numeric_only(b) =~= numeric_only(a) + numeric_only(c));
        }
    }
}

/// A digit string that does not start with `0` has no leading zeros to strip.
proof fn lemma_no_leading_zero(n: Seq<char>)
    requires
        n.len() > 0,
        n[0] != '0',
    ensures
        strip_leading_zeros(n) == n,
{
    lemma_strip_zeros_split(n);
    let j = (n.len() - strip_leading_zeros(n).len()) as nat;
    if j > 0 {
        assert(n[0] == zeros(j)[0]);
    }
    assert(zeros(0) + strip_leading_zeros(n) =~= strip_leading_zeros(n));
}

/// ASCII text whose letters are all lowercase is its own lowercase.
proof fn lemma_lowercase_of_lower(s: Seq<char>)
    requires
        forall|i: int| 0 <= i < s.len() ==> is_ascii_char(#[trigger] s[i]) && !is_ascii_upper(s[i]),
    ensures
        lowercase(s) == s,
{
    assert(is_ascii_seq(s));
    assert(ascii_lower(s) =~= s);
}

proof fn lemma_heyzo_content(n: Seq<char>)
    requires
        all_ascii_digits(n),
    ensures
        content_id_of("HEYZO-"@ + n) == "heyzo"@ + zero_pad(n, 5),
{
    reveal_strlit("HEYZO-");
    reveal_strlit("heyzo");
    reveal_strlit("fc2");
    let d = "HEYZO-"@ + n;
    let head = seq!['h', 'e', 'y', 'z', 'o', '-'];
    let lower = head + n;
    assert(is_ascii_seq(d)) by {
        assert forall|i: int| 0 <= i < d.len() implies is_ascii_char(#[trigger] d[i]) by {
            if i >= 6 {
                assert(d[i] == n[i - 6]);
            }
        }
    }
    assert(ascii_lower(d) =~= lower) by {
        assert forall|i: int| 0 <= i < d.len() implies #[trigger] lower_char(d[i]) == lower[i] by {
            if i >= 6 {
                assert(d[i] == n[i - 6]);
                assert(is_ascii_digit(n[i - 6]));
            }
        }
    }
    assert(lowercase(d) == lower);
    assert(!starts_with(lower, "fc2"@)) by {
        if starts_with(lower, "fc2"@) {
            assert(lower.subrange(0, 3)[0] == lower[0]);
        }
    }
    assert(lower.subrange(0, 5) =~= "heyzo"@);
    assert(numeric_only(lower) == n) by {
        lemma_numeric_only_concat(head, n);
        lemma_numeric_only_none(head);
        lemma_numeric_only_digits(n);
        assert(numeric_only(head) + n =~= n);
    }
}

/// The digits padded to five places: zeros in front of the digits.
proof fn lemma_pad_split(n: Seq<char>) -> (k: nat)
    requires
        all_ascii_digits(n),
    ensures
        zero_pad(n, 5) == zeros(k) + n,
        all_ascii_digits(zero_pad(n, 5)),
{
    let padded = zero_pad(n, 5);
    let k: nat = if n.len() < 5 { (5 - n.len()) as nat } else { 0 };
    assert(padded =~= zeros(k) + n);
    assert forall|i: int| 0 <= i < padded.len() implies is_ascii_digit(#[trigger] padded[i]) by {
        if i >= k {
            assert(padded[i] == n[i - k]);
        }
    }
    k
}

#[verifier::spinoff_prover]
#[verifier::rlimit(40)]
proof fn lemma_heyzo_display(n: Seq<char>)
    requires
        all_ascii_digits(n),
        n.len() > 0,
        n[0] != '0',
    ensures
        display_id_of("heyzo"@ + zero_pad(n, 5)) == "HEYZO-"@ + n,
{
    reveal_strlit("heyzo");
    reveal_strlit("fc2");
    let padded = zero_pad(n, 5);
    let content = "heyzo"@ + padded;
    let k = lemma_pad_split(n);
    assert forall|i: int| 0 <= i < content.len() implies is_ascii_char(#[trigger] content[i])
        && !is_ascii_upper(content[i]) by {
        if i >= 5 {
            assert(content[i] == padded[i - 5]);
        }
    }
    lemma_lowercase_of_lower(content);
    assert(!starts_with(content, "fc2"@)) by {
        if starts_with(content, "fc2"@) {
            assert(content.subrange(0, 3)[0] == content[0]);
        }
    }
    assert(content.subrange(0, 5) =~= "heyzo"@);
    assert(numeric_only(content) == padded) by {
        lemma_numeric_only_concat("heyzo"@, padded);
        assert forall|i: int| 0 <= i < ("heyzo"@).len() implies is_ascii_char(#[trigger] ("heyzo"@)[i])
            && !is_ascii_digit(("heyzo"@)[i]) by {}
        lemma_numeric_only_none("heyzo"@);
        lemma_numeric_only_digits(padded);
        assert(Seq::<char>::empty() + padded =~= padded);
    }
    lemma_leading_zeros(k, n);
    lemma_no_leading_zero(n);
    assert(trimmed_digits(padded) == n);
}

/// Removing a one-character pattern works piece by piece.
proof fn lemma_replace_one_concat(a: Seq<char>, b: Seq<char>, p: Seq<char>, r: Seq<char>)
    requires
        p.len() == 1,
    ensures
        replace(a + b, p, r) == replace(a, p, r) + replace(b, p, r),
    decreases a.len(),
{
    if a.len() == 0 {
        assert(a + b =~= b);
        assert(replace(a, p, r) =~= Seq::<char>::empty());
        assert(Seq::<char>::empty() + replace(b, p, r) =~= replace(b, p, r));
    } else {
        lemma_replace_one_concat(a.skip(1), b, p, r);
        assert((a + b).skip(1) =~= a.skip(1) + b);
        assert((a + b).subrange(0, 1) =~= a.subrange(0, 1));
        assert((a + b)[0] == a[0]);
        if a.subrange(0, 1) == p {
            assert(replace(a + b, p, r) == r + replace(a.skip(1) + b, p, r));
            assert(r + (replace(a.skip(1), p, r) + replace(b, p, r)) =~= (r + replace(a.skip(1), p, r))
                + replace(b, p, r));
        } else {
            assert(seq![a[0]] + (replace(a.skip(1), p, r) + replace(b, p, r)) =~= (seq![a[0]]
                + replace(a.skip(1), p, r)) + replace(b, p, r));
        }
    }
}

/// Text without the one character of a pattern is left as it is.
proof fn lemma_replace_one_absent(s: Seq<char>, p: Seq<char>, r: Seq<char>)
    requires
        p.len() == 1,
        forall|i: int| 0 <= i < s.len() ==> #[trigger] s[i] != p[0],
    ensures
        replace(s, p, r) == s,
    decreases s.len(),
{
    if s.len() > 0 {
        let t = s.skip(1);
        assert forall|i: int| 0 <= i < t.len() implies #[trigger] t[i] != p[0] by {
            assert(t[i] == s[i + 1]);
        }
        lemma_replace_one_absent(t, p, r);
        if s.subrange(0, 1) == p {
            assert(s.subrange(0, 1)[0] == s[0]);
        }
        assert(seq![s[0]] + t =~= s);
    }
}

proof fn lemma_fc2_ppv_content(n: Seq<char>)
    requires
        all_ascii_digits(n),
    ensures
        content_id_of("FC2-PPV-"@ + n) == seq!['f', 'c', '2', 'p', 'p', 'v'] + n,
{
    reveal_strlit("FC2-PPV-");
    reveal_strlit("fc2");
    reveal_strlit("-");
    reveal_strlit("_");
    let d = "FC2-PPV-"@ + n;
    let a = seq!['f', 'c', '2'];
    let m = seq!['-'];
    let b = seq!['p', 'p', 'v'];
    let lower = a + m + b + m + n;
    assert(is_ascii_seq(d)) by {
        assert forall|i: int| 0 <= i < d.len() implies is_ascii_char(#[trigger] d[i]) by {
            if i >= 8 {
                assert(d[i] == n[i - 8]);
            }
        }
    }
    assert(ascii_lower(d) =~= lower) by {
        assert forall|i: int| 0 <= i < d.len() implies #[trigger] lower_char(d[i]) == lower[i] by {
            if i >= 8 {
                assert(d[i] == n[i - 8]);
                assert(is_ascii_digit(n[i - 8]));
                assert(lower[i] == n[i - 8]);
            }
        }
    }
    assert(lowercase(d) == lower);
    assert(lower.subrange(0, 3) =~= "fc2"@);
    let e = Seq::<char>::empty();
    assert(replace(lower, "-"@, e) == a + b + n) by {
        lemma_replace_one_concat(a + m + b + m, n, "-"@, e);
        lemma_replace_one_concat(a + m + b, m, "-"@, e);
        lemma_replace_one_concat(a + m, b, "-"@, e);
        lemma_replace_one_concat(a, m, "-"@, e);
        lemma_replace_one_absent(a, "-"@, e);
        lemma_replace_one_absent(b, "-"@, e);
        assert forall|i: int| 0 <= i < n.len() implies #[trigger] n[i] != ("-"@)[0] by {
            assert(is_ascii_digit(n[i]));
        }
        lemma_replace_one_absent(n, "-"@, e);
        assert(m.subrange(0, 1) =~= "-"@);
        assert(m.skip(1) =~= e);
        assert(replace(e, "-"@, e) == e);
        assert(replace(m, "-"@, e) == e + replace(m.skip(1), "-"@, e));
        assert(replace(m, "-"@, e) =~= e);
        assert(a + e + b + e + n =~= a + b + n);
    }
    assert(replace(a + b + n, "_"@, e) == a + b + n) by {
        let t = a + b + n;
        assert forall|i: int| 0 <= i < t.len() implies #[trigger] t[i] != ("_"@)[0] by {
            if i >= 6 {
                assert(t[i] == n[i - 6]);
                assert(is_ascii_digit(n[i - 6]));
            }
        }
        lemma_replace_one_absent(t, "_"@, e);
    }
    assert(a + b + n =~= seq!['f', 'c', '2', 'p', 'p', 'v'] + n);
}

#[verifier::spinoff_prover]
#[verifier::rlimit(40)]
proof fn lemma_fc2_ppv_display(n: Seq<char>)
    requires
        all_ascii_digits(n),
    ensures
        display_id_of(seq!['f', 'c', '2', 'p', 'p', 'v'] + n) == "FC2-PPV-"@ + n,
{
    reveal_strlit("fc2");
    reveal_strlit("ppv");
    let content = seq!['f', 'c', '2', 'p', 'p', 'v'] + n;
    assert forall|i: int| 0 <= i < content.len() implies is_ascii_char(#[trigger] content[i])
        && !is_ascii_upper(content[i]) by {
        if i >= 6 {
            assert(content[i] == n[i - 6]);
            assert(is_ascii_digit(n[i - 6]));
        }
    }
    lemma_lowercase_of_lower(content);
    assert(content.subrange(0, 3) =~= "fc2"@);
    assert(occurs_at(content, "ppv"@, 3)) by {
        assert(content.subrange(3, 6) =~= "ppv"@);
    }
    let rest = seq!['p', 'p', 'v'];
    assert(content.skip(3) =~= rest + n);
    assert(numeric_only(rest + n) == n) by {
        lemma_numeric_only_concat(rest, n);
        lemma_numeric_only_none(rest);
        lemma_numeric_only_digits(n);
        assert(Seq::<char>::empty() + n =~= n);
    }
}

/// FC2 numbers survive the trip to a content id and back: `FC2-PPV-` and
/// digits give `fc2ppv` and the digits, which give `FC2-PPV-` and the
/// digits again.
pub proof fn lemma_fc2_round_trip(n: Seq<char>)
    requires
        all_ascii_digits(n),
    ensures
        display_id_of(content_id_of("FC2-PPV-"@ + n)) == "FC2-PPV-"@ + n,
{
    lemma_fc2_ppv_content(n);
    lemma_fc2_ppv_display(n);
}

/// The T28/R18 prefix of a content id in display form.
pub open spec fn t28_r18_display_prefix(p: Seq<char>) -> Seq<char> {
    if p == "t28"@ {
        "T28"@
    } else {
        "R18"@
    }
}

/// A T28/R18 content id is displayed as its prefix in upper case, a hyphen,
/// and its digits with at least three places: for `p` one of `t28`, `r18`
/// and digits `d`, when the T28/R18 content pattern reads `p + d` as prefix
/// `p` and digits `d` (and the letters-digits pattern reads no Tokyo-Hot
/// prefix), the display id of `p + d` is `T28-`/`R18-` and `d` padded.
#[verifier::spinoff_prover]
#[verifier::rlimit(40)]
pub proof fn lemma_t28_r18_display(p: Seq<char>, d: Seq<char>)
    requires
        p == "t28"@ || p == "r18"@,
        all_ascii_digits(d),
        captured(T28_R18_CONTENT@, p + d) == Some(seq![Some(p + d), Some(p), Some(d)]),
        captured(LETTERS_DIGITS@, p + d) matches Some(g) ==> !is_tokyo_hot_prefix(group_text(g, 1)),
    ensures
        display_id_of(p + d) == t28_r18_display_prefix(p) + "-"@ + three_digits(d),
{
    reveal_strlit("t28");
    reveal_strlit("r18");
    reveal_strlit("T28");
    reveal_strlit("R18");
    reveal_strlit("fc2");
    reveal_strlit("heyzo");
    let c = p + d;
    assert forall|i: int| 0 <= i < c.len() implies is_ascii_char(#[trigger] c[i]) && !is_ascii_upper(c[i]) by {
        if i >= 3 {
            assert(c[i] == d[i - 3]);
            assert(is_ascii_digit(d[i - 3]));
        }
    }
    lemma_lowercase_of_lower(c);
    assert(!starts_with(c, "fc2"@)) by {
        if starts_with(c, "fc2"@) {
            assert(c.subrange(0, 3)[0] == c[0]);
        }
    }
    assert(!starts_with(c, "heyzo"@)) by {
        if starts_with(c, "heyzo"@) {
            assert(c.subrange(0, 5)[0] == c[0]);
        }
    }
    let caps = seq![Some(c), Some(p), Some(d)];
    assert(group_text(caps, 1) == p);
    assert(group_text(caps, 2) == d);
    assert(is_ascii_seq(p));
    assert(ascii_upper(p) =~= t28_r18_display_prefix(p));
    assert(uppercase(p) == t28_r18_display_prefix(p));
}

/// T28/R18 numbers survive the trip to a content id and back: `T28-` (or
/// `R18-`) and digits of at least three places without extra leading zeros
/// give `t28` (`r18`) and the digits padded to five places, which display as
/// the number again. The patterns' readings of the two ids are what the law
/// assumes: the loose T28/R18 pattern reads the lower-case display id as
/// prefix and digits, the Tokyo-Hot content pattern does not match it, and
/// the content id is read as in `lemma_t28_r18_display`.
pub proof fn lemma_t28_r18_round_trip(p: Seq<char>, d: Seq<char>)
    requires
        p == "t28"@ || p == "r18"@,
        all_ascii_digits(d),
        d.len() >= 3,
        d.len() == 3 || d[0] != '0',
        digits_value(d) <= u64::MAX,
        !rx_match(TOKYO_HOT_CONTENT@, p + "-"@ + d),
        captured(T28_R18_LOOSE@, p + "-"@ + d) == Some(seq![Some(p + "-"@ + d), Some(p), Some(d)]),
        captured(T28_R18_CONTENT@, p + zero_pad(d, 5)) == Some(
            seq![Some(p + zero_pad(d, 5)), Some(p), Some(zero_pad(d, 5))],
        ),
        captured(LETTERS_DIGITS@, p + zero_pad(d, 5)) matches Some(g) ==> !is_tokyo_hot_prefix(
            group_text(g, 1),
        ),
    ensures
        display_id_of(content_id_of(t28_r18_display_prefix(p) + "-"@ + d)) == t28_r18_display_prefix(p)
            + "-"@ + d,
{
    reveal_strlit("t28");
    reveal_strlit("r18");
    reveal_strlit("T28");
    reveal_strlit("R18");
    reveal_strlit("-");
    reveal_strlit("fc2");
    reveal_strlit("heyzo");
    reveal_strlit("");
    let x = t28_r18_display_prefix(p) + "-"@ + d;
    let lower = p + "-"@ + d;
    assert(is_ascii_seq(x)) by {
        assert forall|i: int| 0 <= i < x.len() implies is_ascii_char(#[trigger] x[i]) by {
            if i >= 4 {
                assert(x[i] == d[i - 4]);
            }
        }
    }
    assert(ascii_lower(x) =~= lower) by {
        assert forall|i: int| 0 <= i < x.len() implies #[trigger] lower_char(x[i]) == lower[i] by {
            if i >= 4 {
                assert(x[i] == d[i - 4]);
                assert(is_ascii_digit(d[i - 4]));
            }
        }
    }
    assert(lowercase(x) == lower);
    assert(!starts_with(lower, "fc2"@)) by {
        if starts_with(lower, "fc2"@) {
            assert(lower.subrange(0, 3)[0] == lower[0]);
        }
    }
    assert(!starts_with(lower, "heyzo"@)) by {
        if starts_with(lower, "heyzo"@) {
            assert(lower.subrange(0, 5)[0] == lower[0]);
        }
    }
    let caps = seq![Some(lower), Some(p), Some(d)];
    assert(group_text(caps, 1) == p);
    assert(group_text(caps, 2) == d);
    assert(replace(p, "-"@, Seq::<char>::empty()) == p) by {
        lemma_replace_one_absent(p, "-"@, Seq::<char>::empty());
    }
    let padded = zero_pad(d, 5);
    assert(content_id_of(x) == p + padded);
    let k = lemma_pad_split(d);
    lemma_t28_r18_display(p, padded);
    lemma_padded_digits_round_trip(d);
}

/// HEYZO numbers survive the trip to a content id and back: `HEYZO-` and
/// digits not starting with `0` give `heyzo` and the digits padded to five
/// places, which give `HEYZO-` and the digits again.
pub proof fn lemma_heyzo_round_trip(n: Seq<char>)
    requires
        all_ascii_digits(n),
        n.len() > 0,
        n[0] != '0',
    ensures
        display_id_of(content_id_of("HEYZO-"@ + n)) == "HEYZO-"@ + n,
{
    lemma_heyzo_content(n);
    lemma_heyzo_display(n);
}


pub open spec fn is_tokyo_hot_prefix(p: Seq<char>) -> bool {
    p == "cz"@ || p == "gedo"@ || p == "k"@ || p == "n"@ || p == "red"@ || p == "se"@
}

/// The display ID of a content ID (`convert_to_display_id`).
pub open spec fn display_id_of(content: Seq<char>) -> Seq<char> {
    let lower = lowercase(content);
    if starts_with(lower, "fc2"@) {
        let digits = numeric_only(lower.skip(3));
        if contains(lower, "ppv"@) {
            "FC2-PPV-"@ + digits
        } else {
            "FC2-"@ + digits
        }
    } else if starts_with(lower, "heyzo"@) {
        "HEYZO-"@ + trimmed_digits(numeric_only(lower))
    } else if captured(LETTERS_DIGITS@, lower) is Some && is_tokyo_hot_prefix(
        group_text(captured(LETTERS_DIGITS@, lower)->0, 1),
    ) {
        let c = captured(LETTERS_DIGITS@, lower)->0;
        group_text(c, 1) + trimmed_digits(group_text(c, 2))
    } else if let Some(c) = captured(T28_R18_CONTENT@, lower) {
        uppercase(group_text(c, 1)) + "-"@ + three_digits(group_text(c, 2))
    } else if let Some(c) = captured(STANDARD_CONTENT@, lower) {
        unicode_upper(group_text(c, 1)) + "-"@ + three_digits(group_text(c, 2)) + unicode_upper(
            group_text(c, 3),
        )
    } else {
        unicode_upper(content)
    }
}

fn trimmed_digits_str(s: &str) -> (r: String)
    ensures
        r@ == trimmed_digits(s@),
{
    let t = strip_leading_zeros_str(s);
    if t.unicode_len() == 0 {
        copy_str("0")
    } else {
        t
    }
}

fn three_digits_str(s: &str) -> (r: String)
    ensures
        r@ == three_digits(s@),
{
    let t = strip_leading_zeros_str(s);
    let n: u64 = match parse_u64(t.as_str()) {
        Some(n) => n,
        None => 0,
    };
    let d = decimal_str(n);
    zero_pad_str(d.as_str(), 3)
}

fn is_tokyo_hot_prefix_str(p: &str) -> (r: bool)
    ensures
        r == is_tokyo_hot_prefix(p@),
{
    str_eq(p, "cz") || str_eq(p, "gedo") || str_eq(p, "k") || str_eq(p, "n") || str_eq(p, "red")
        || str_eq(p, "se")
}

/// Converts a content ID back to a display ID: uppercase, hyphen between
/// prefix and digits, leading zeros dropped but at least three digits kept.
pub fn convert_to_display_id(content_id: &str) -> (r: String)
    ensures
        r@ == display_id_of(content_id@),
{
    let lower = to_lowercase(content_id);
    if str_starts_with(lower.as_str(), "fc2") {
        let n = lower.unicode_len();
        proof {
            reveal_strlit("fc2");
        }
        let after = substring(lower.as_str(), 3, n);
        assert(after@ == lower@.skip(3));
        let digits = numeric_only_str(after.as_str());
        if str_contains(lower.as_str(), "ppv") {
            return concat("FC2-PPV-", digits.as_str());
        } else {
            return concat("FC2-", digits.as_str());
        }
    }
    if str_starts_with(lower.as_str(), "heyzo") {
        let digits = numeric_only_str(lower.as_str());
        let t = trimmed_digits_str(digits.as_str());
        return concat("HEYZO-", t.as_str());
    }
    if let Some(caps) = captures(LETTERS_DIGITS, lower.as_str()) {
        let prefix = get_group_text(&caps, 1);
        if is_tokyo_hot_prefix_str(prefix.as_str()) {
            let t = trimmed_digits_str(get_group_text(&caps, 2).as_str());
            return concat(prefix.as_str(), t.as_str());
        }
    }
    if let Some(caps) = captures(T28_R18_CONTENT, lower.as_str()) {
        let prefix = to_uppercase(get_group_text(&caps, 1).as_str());
        let digits = three_digits_str(get_group_text(&caps, 2).as_str());
        return concat3(prefix.as_str(), "-", digits.as_str());
    }
    if let Some(caps) = captures(STANDARD_CONTENT, lower.as_str()) {
        let prefix = to_uppercase(get_group_text(&caps, 1).as_str());
        let digits = three_digits_str(get_group_text(&caps, 2).as_str());
        let suffix = to_uppercase(get_group_text(&caps, 3).as_str());
        let head = concat3(prefix.as_str(), "-", digits.as_str());
        return concat(head.as_str(), suffix.as_str());
    }
    to_uppercase(content_id)
}

// ---------------------------------------------------------------------------
// Hyphens and part suffixes
// ---------------------------------------------------------------------------

pub const TOKYO_HOT_ID: &'static str = r"^(?i)(cz|gedo|k|n|red|se)\d{2,4}$";
pub const LETTERS_DIGITS_REST: &'static str = r"^([A-Za-z]+)(\d+)(.*)$";

/// `insert_hyphens`: a hyphen between a leading run of letters and the digits
/// after it, unless the ID already has a hyphen or is a Tokyo-Hot ID.
pub open spec fn with_hyphen(s: Seq<char>) -> Seq<char> {
    if has_char(s, '-') {
        s
    } else if rx_match(TOKYO_HOT_ID@, s) {
        s
    } else if let Some(c) = captured(LETTERS_DIGITS_REST@, s) {
        group_text(c, 1) + "-"@ + group_text(c, 2) + group_text(c, 3)
    } else {
        s
    }
}

/// Inserts a hyphen between the letters and the digits of an ID such as
/// `SSIS123` (giving `SSIS-123`).
pub fn insert_hyphens(s: &str) -> (r: String)
    ensures
        r@ == with_hyphen(s@),
{
    if str_has_char(s, '-') {
        return copy_str(s);
    }
    if is_match(TOKYO_HOT_ID, s) {
        return copy_str(s);
    }
    if let Some(caps) = captures(LETTERS_DIGITS_REST, s) {
        let head = concat3(get_group_text(&caps, 1).as_str(), "-", get_group_text(&caps, 2).as_str());
        return concat(head.as_str(), get_group_text(&caps, 3).as_str());
    }
    copy_str(s)
}

pub const PART_SEPARATED_UPPER: &'static str = r"^(.+?)[-_]([ABD-TV-Y])$";
pub const PART_ATTACHED_UPPER: &'static str = r"^(.+\d)([A-TV-Y])$";
pub const PART_SEPARATED_LOWER: &'static str = r"^(.+?)[-_]([abd-tv-y])$";
pub const PART_ATTACHED_LOWER: &'static str = r"^(.+\d)([a-tv-y])$";

/// The part number of a one-letter suffix counted from `base` (`A` or `a` is 1).
pub open spec fn letter_part(letter: Seq<char>, base: char) -> Option<u8> {
    if letter.len() == 1 && (base as u32) <= (letter[0] as u32) < (base as u32) + 26 {
        Some(((letter[0] as u32) - (base as u32) + 1) as u8)
    } else {
        None
    }
}

fn letter_part_exec(letter: &str, base: char) -> (r: Option<u8>)
    requires
        base == 'A' || base == 'a',
    ensures
        r == letter_part(letter@, base),
{
    let v = chars_of(letter);
    if v.len() == 1 {
        let cu: u32 = v[0] as u32;
        let bu: u32 = base as u32;
        if bu <= cu && cu < bu + 26 {
            let n: u32 = cu - bu + 1;
            return Some(n as u8);
        }
    }
    None
}

/// One step of `extract_part_from_suffix`: the base ID and part number that
/// `pattern` gives, if it matches with a letter in range.
pub open spec fn part_by(pattern: Seq<char>, id: Seq<char>, base: char) -> Option<(Seq<char>, u8)> {
    match captured(pattern, id) {
        Some(c) => match letter_part(group_text(c, 2), base) {
            Some(n) => Some((group_text(c, 1), n)),
            None => None,
        },
        None => None,
    }
}

/// `extract_part_from_suffix`: a trailing part letter (separated `A`, `B`,
/// `D`..`T`, `V`..`Y`; attached after a digit also `C`) removed and turned into
/// a part number, upper case tried before lower case.
pub open spec fn split_part(id: Seq<char>) -> (Seq<char>, Option<u8>) {
    if let Some((b, n)) = part_by(PART_SEPARATED_UPPER@, id, 'A') {
        (b, Some(n))
    } else if let Some((b, n)) = part_by(PART_ATTACHED_UPPER@, id, 'A') {
        (b, Some(n))
    } else if let Some((b, n)) = part_by(PART_SEPARATED_LOWER@, id, 'a') {
        (b, Some(n))
    } else if let Some((b, n)) = part_by(PART_ATTACHED_LOWER@, id, 'a') {
        (b, Some(n))
    } else {
        (id, None)
    }
}

fn part_by_exec(pattern: &str, id: &str, base: char) -> (r: Option<(String, u8)>)
    requires
        base == 'A' || base == 'a',
    ensures
        r matches Some(p) ==> part_by(pattern@, id@, base) == Some((p.0@, p.1)),
        r is None ==> part_by(pattern@, id@, base) is None,
{
    match captures(pattern, id) {
        Some(caps) => {
            let letter = get_group_text(&caps, 2);
            match letter_part_exec(letter.as_str(), base) {
                Some(n) => Some((get_group_text(&caps, 1), n)),
                None => None,
            }
        },
        None => None,
    }
}

/// Splits a trailing part letter off an ID: `SSIS-123-A` gives `SSIS-123` and
/// part 1. A separated `C` (Chinese subtitles), `U` (uncensored) and `Z` are
/// kept.
pub fn extract_part_from_suffix(id: &str) -> (r: (String, Option<u8>))
    ensures
        (r.0@, r.1) == split_part(id@),
{
    if let Some((b, n)) = part_by_exec(PART_SEPARATED_UPPER, id, 'A') {
        return (b, Some(n));
    }
    if let Some((b, n)) = part_by_exec(PART_ATTACHED_UPPER, id, 'A') {
        return (b, Some(n));
    }
    if let Some((b, n)) = part_by_exec(PART_SEPARATED_LOWER, id, 'a') {
        return (b, Some(n));
    }
    if let Some((b, n)) = part_by_exec(PART_ATTACHED_LOWER, id, 'a') {
        return (b, Some(n));
    }
    (copy_str(id), None)
}

} // verus!

verus! {

// ---------------------------------------------------------------------------
// Cleaning file names
// ---------------------------------------------------------------------------

pub const BRACKET_TAGS: &'static str = r"[\[【]([^\]】]+)[\]】]";
pub const WATERMARK_BRACKETED: &'static str = r"(?i)^[\[\【]?[a-z0-9]+\.(com|net|org|co|tv|in|me|cc)[\]\】]?[@_\-\s]+";
pub const WATERMARK_PLAIN: &'static str = r"(?i)^[a-z0-9]+\.(com|net|org|co|tv|in|me|cc)[@_\-\s]+";
pub const DOMAIN_UNDERSCORE: &'static str = r"^[\w.-]+\.(com|net|tv|la|me|cc|club|jp|xyz|biz|wiki|info|tw|us|de|cn|to)[-_]";
pub const DATE_PREFIX: &'static str = r"^\d{4,8}[-_]";
pub const TOKYO_HOT_PREFIX: &'static str = r"(?i)^tokyo[-_]?hot[-_]";
pub const PAREN_QUALITY: &'static str = r"(?i)^\(?(HD|FHD|4K|1080P|720P|480P|UHD)\)?[-_]?";
pub const T28_R18_PREFIX: &'static str = r"(?i)^(t-?28|r-?18)[-_]?(\d+)";
pub const EMAIL_PREFIX: &'static str = r"^[^@]+@[^@]+@";
pub const DOMAIN_DASH: &'static str = r"^[\w.-]+\.(com|net|tv|la|me|cc|club|jp|xyz|biz|wiki|info|tw|us|de)-";
pub const PART_MARKER: &'static str = r"(?i)[-_]?(cd|part|pt|disk|disc)[-_]?\d{1,3}(\.|$)";
pub const PART_NUMBER: &'static str = r"(?i)[-_](pt)?[-_]?([1-9]|1[0-9])(\.|$)";
pub const QUALITY_AFTER_DIGIT: &'static str = r"(?i)(\d)(\.?(?:FULLHD|1080P|720P|480P|H\.?265|H\.?264|X265|X264|HEVC|FHD|4K|UHD|HQ|HD))[\s\.]";
pub const QUALITY_AFTER_DASH: &'static str = r"(?i)(\d+)[-_](H\.?265|H\.?264|FULLHD|1080P|720P|480P|X265|X264|HEVC|FHD|4K|UHD|HD|HQ).*?(\.|$)";
pub const QUALITY_BEFORE_EXT: &'static str = r"(?i)[-_](FULLHD|1080P|720P|480P|FHD|4K|UHD|HQ)\.";
pub const CJK_TAIL: &'static str = r"[\s　]+[\p{Han}\p{Hiragana}\p{Katakana}].*$";
pub const REPEATED_SEPARATORS: &'static str = r"[-_]{2,}";

/// Every non-empty removal string taken out of `s`, in list order.
pub open spec fn remove_strings(s: Seq<char>, removals: Seq<Seq<char>>) -> Seq<char>
    decreases removals.len(),
{
    if removals.len() == 0 {
        s
    } else {
        let r = removals.last();
        let before = remove_strings(s, removals.drop_last());
        if r.len() > 0 {
            replace(before, r, Seq::empty())
        } else {
            before
        }
    }
}

fn remove_strings_exec(s: &str, removals: &Vec<String>) -> (r: String)
    ensures
        r@ == remove_strings(s@, strings_view(removals@)),
{
    proof {
        reveal_strlit("");
        assert(""@ =~= Seq::<char>::empty());
    }
    let mut cur = copy_str(s);
    let mut i: usize = 0;
    while i < removals.len()
        invariant
            i <= removals.len(),
            ""@ == Seq::<char>::empty(),
            cur@ == remove_strings(s@, strings_view(removals@.subrange(0, i as int))),
        decreases removals.len() - i,
    {
        let rem = &removals[i];
        proof {
            let sub = removals@.subrange(0, i + 1);
            assert(sub =~= removals@.subrange(0, i as int).push(removals@[i as int]));
            lemma_strings_view_push(removals@.subrange(0, i as int), removals@[i as int]);
            assert(strings_view(sub).drop_last() =~= strings_view(removals@.subrange(0, i as int)));
        }
        if rem.unicode_len() > 0 {
            cur = replace_str(cur.as_str(), rem.as_str(), "");
        }
        i = i + 1;
    }
    assert(removals@.subrange(0, removals@.len() as int) =~= removals@);
    cur
}

/// `T28123` style prefixes rewritten as `T28-123` (first match only, at the start).
pub open spec fn normalize_t28_r18(s: Seq<char>) -> Seq<char> {
    match captured(T28_R18_PREFIX@, s) {
        Some(c) => {
            let whole = group_text(c, 0);
            if starts_with(s, whole) {
                replace(unicode_upper(group_text(c, 1)), "-"@, Seq::empty()) + "-"@ + group_text(c, 2)
                    + s.skip(whole.len() as int)
            } else {
                s
            }
        },
        None => s,
    }
}

fn normalize_t28_r18_exec(s: &str) -> (r: String)
    ensures
        r@ == normalize_t28_r18(s@),
{
    proof {
        reveal_strlit("-");
        reveal_strlit("");
        assert(""@ =~= Seq::<char>::empty());
    }
    match captures(T28_R18_PREFIX, s) {
        Some(caps) => {
            let whole = get_group_text(&caps, 0);
            if str_starts_with(s, whole.as_str()) {
                let upper = to_uppercase(get_group_text(&caps, 1).as_str());
                let prefix = replace_str(upper.as_str(), "-", "");
                let head = concat3(prefix.as_str(), "-", get_group_text(&caps, 2).as_str());
                let rest = skip_chars_str(s, whole.unicode_len());
                concat(head.as_str(), rest.as_str())
            } else {
                copy_str(s)
            }
        },
        None => copy_str(s),
    }
}

/// The quality suffixes stripped from the end of a name, in the order tried.
pub open spec fn quality_suffixes() -> Seq<Seq<char>> {
    seq![
        "-1080P"@, "_1080P"@, ".1080P"@,
        "-720P"@, "_720P"@, ".720P"@,
        "-480P"@, "_480P"@, ".480P"@,
        "-FULLHD"@, "_FULLHD"@, ".FULLHD"@,
        "-FHD"@, "_FHD"@, ".FHD"@,
        "-4K"@, "_4K"@, ".4K"@,
        "-UHD"@, "_UHD"@, ".UHD"@,
        "-HQ"@, "_HQ"@, ".HQ"@,
        "-HD"@, "_HD"@, ".HD"@,
    ]
}

fn quality_suffix_list() -> (r: Vec<&'static str>)
    ensures
        r@.map_values(|x: &str| x@) == quality_suffixes(),
{
    let mut v: Vec<&'static str> = Vec::new();
    v.push("-1080P"); v.push("_1080P"); v.push(".1080P");
    v.push("-720P"); v.push("_720P"); v.push(".720P");
    v.push("-480P"); v.push("_480P"); v.push(".480P");
    v.push("-FULLHD"); v.push("_FULLHD"); v.push(".FULLHD");
    v.push("-FHD"); v.push("_FHD"); v.push(".FHD");
    v.push("-4K"); v.push("_4K"); v.push(".4K");
    v.push("-UHD"); v.push("_UHD"); v.push(".UHD");
    v.push("-HQ"); v.push("_HQ"); v.push(".HQ");
    v.push("-HD"); v.push("_HD"); v.push(".HD");
    assert(v@.map_values(|x: &str| x@) =~= quality_suffixes());
    v
}

/// The first listed suffix that the uppercase of `s` ends with, removed.
pub open spec fn strip_listed_suffix(s: Seq<char>, list: Seq<Seq<char>>) -> Seq<char>
    decreases list.len(),
{
    if list.len() == 0 {
        s
    } else if ends_with(unicode_upper(s), list[0]) {
        drop_last_n(s, list[0].len())
    } else {
        strip_listed_suffix(s, list.skip(1))
    }
}

/// A trailing `-HD` or `_HD` removed unless the name holds `HD-`.
pub open spec fn strip_trailing_hd(s: Seq<char>) -> Seq<char> {
    let up = unicode_upper(s);
    if (ends_with(up, "-HD"@) || ends_with(up, "_HD"@)) && !contains(up, "HD-"@) {
        drop_last_n(s, 3)
    } else {
        s
    }
}

/// `-HD.` and `_HD.` (either case) turned into `.` unless the name holds `HD-`.
pub open spec fn strip_hd_before_ext(s: Seq<char>) -> Seq<char> {
    let up = unicode_upper(s);
    if (contains(up, "-HD."@) || contains(up, "_HD."@)) && !contains(up, "HD-"@) {
        replace(replace(replace(replace(s, "-HD."@, "."@), "_HD."@, "."@), "-hd."@, "."@), "_hd."@, "."@)
    } else {
        s
    }
}

pub open spec fn is_trim_separator(c: char) -> bool {
    c == '-' || c == '_' || c == ' '
}

/// Site tags, watermarks, domain, date and `Tokyo-Hot` prefixes removed,
/// then a leading quality marker. A quality marker that a removed watermark
/// uncovered stays (`javbus.com@HD-IPX-456` keeps its `HD-`).
pub open spec fn strip_prefixes(s0: Seq<char>) -> Seq<char> {
    let s1 = replaced_all(BRACKET_TAGS@, s0, ""@);
    let s2 = replaced_first(WATERMARK_BRACKETED@, s1, ""@);
    let s3 = replaced_first(WATERMARK_PLAIN@, s2, ""@);
    let s4 = replaced_all(DOMAIN_UNDERSCORE@, s3, ""@);
    let s5 = replaced_all(DATE_PREFIX@, s4, ""@);
    let s6 = replaced_all(TOKYO_HOT_PREFIX@, s5, ""@);
    if s3 == s1 {
        replaced_all(PAREN_QUALITY@, s6, ""@)
    } else {
        s6
    }
}

/// T28/R18 normalised, e-mail and domain prefixes, part markers and quality
/// markers after digits removed.
pub open spec fn strip_markers(s7: Seq<char>) -> Seq<char> {
    let s8 = normalize_t28_r18(s7);
    let s9 = replaced_all(EMAIL_PREFIX@, s8, ""@);
    let s10 = replaced_all(DOMAIN_DASH@, s9, ""@);
    let s11 = replaced_all(PART_MARKER@, s10, "$2"@);
    let s12 = if (vstd::utf8::encode_utf8(s11).len() as usize) > 5 {
        replaced_all(PART_NUMBER@, s11, "$3"@)
    } else {
        s11
    };
    let s13 = replaced_all(QUALITY_AFTER_DIGIT@, s12, "$1 "@);
    replaced_all(QUALITY_AFTER_DASH@, s13, "$1$3"@)
}

/// Trailing quality suffixes, quality markers before the extension, CJK text
/// after whitespace and repeated separators removed.
pub open spec fn strip_tail(s14: Seq<char>) -> Seq<char> {
    let s15 = strip_listed_suffix(s14, quality_suffixes());
    let s16 = strip_trailing_hd(s15);
    let s17 = replaced_all(QUALITY_BEFORE_EXT@, s16, "."@);
    let s18 = strip_hd_before_ext(s17);
    let s19 = replaced_all(CJK_TAIL@, s18, ""@);
    replaced_all(REPEATED_SEPARATORS@, s19, "-"@)
}

/// `clean_filename`: removal strings, then the prefix, marker and tail steps,
/// then separators and spaces trimmed from both ends.
pub open spec fn cleaned_name(filename: Seq<char>, removals: Option<Seq<Seq<char>>>) -> Seq<char> {
    let s0 = match removals {
        Some(r) => remove_strings(filename, r),
        None => filename,
    };
    crate::text::trim_by(strip_tail(strip_markers(strip_prefixes(s0))), |c: char| is_trim_separator(c))
}

fn strip_prefixes_exec(s0: &str) -> (r: String)
    ensures
        r@ == strip_prefixes(s0@),
{
    let s1 = replace_all(BRACKET_TAGS, s0, "");
    let s2 = replace_first(WATERMARK_BRACKETED, s1.as_str(), "");
    let s3 = replace_first(WATERMARK_PLAIN, s2.as_str(), "");
    let s4 = replace_all(DOMAIN_UNDERSCORE, s3.as_str(), "");
    let s5 = replace_all(DATE_PREFIX, s4.as_str(), "");
    let s6 = replace_all(TOKYO_HOT_PREFIX, s5.as_str(), "");
    if str_eq(s3.as_str(), s1.as_str()) {
        replace_all(PAREN_QUALITY, s6.as_str(), "")
    } else {
        s6
    }
}

fn strip_markers_exec(s7: &str) -> (r: String)
    ensures
        r@ == strip_markers(s7@),
{
    let s8 = normalize_t28_r18_exec(s7);
    let s9 = replace_all(EMAIL_PREFIX, s8.as_str(), "");
    let s10 = replace_all(DOMAIN_DASH, s9.as_str(), "");
    let s11 = replace_all(PART_MARKER, s10.as_str(), "$2");
    let s12 = if s11.as_str().len() > 5 {
        replace_all(PART_NUMBER, s11.as_str(), "$3")
    } else {
        s11
    };
    let s13 = replace_all(QUALITY_AFTER_DIGIT, s12.as_str(), "$1 ");
    replace_all(QUALITY_AFTER_DASH, s13.as_str(), "$1$3")
}

fn strip_tail_exec(s14: &str) -> (r: String)
    ensures
        r@ == strip_tail(s14@),
{
    let s15 = strip_listed_suffix_exec(s14);
    let s16 = strip_trailing_hd_exec(s15.as_str());
    let s17 = replace_all(QUALITY_BEFORE_EXT, s16.as_str(), ".");
    let s18 = strip_hd_before_ext_exec(s17.as_str());
    let s19 = replace_all(CJK_TAIL, s18.as_str(), "");
    replace_all(REPEATED_SEPARATORS, s19.as_str(), "-")
}

fn strip_listed_suffix_exec(s: &str) -> (r: String)
    ensures
        r@ == strip_listed_suffix(s@, quality_suffixes()),
{
    let list = quality_suffix_list();
    let up = to_uppercase(s);
    let mut i: usize = 0;
    assert(quality_suffixes().skip(0) =~= quality_suffixes());
    while i < list.len()
        invariant
            i <= list.len(),
            up@ == unicode_upper(s@),
            list@.map_values(|x: &str| x@) == quality_suffixes(),
            strip_listed_suffix(s@, quality_suffixes()) == strip_listed_suffix(
                s@,
                quality_suffixes().skip(i as int),
            ),
        decreases list.len() - i,
    {
        let suffix = list[i];
        proof {
            assert(quality_suffixes().skip(i as int)[0] == suffix@);
            assert(quality_suffixes().skip(i as int).skip(1) =~= quality_suffixes().skip(i + 1));
        }
        if str_ends_with(up.as_str(), suffix) {
            return drop_last_n_str(s, suffix.unicode_len());
        }
        i = i + 1;
    }
    copy_str(s)
}

fn strip_trailing_hd_exec(s: &str) -> (r: String)
    ensures
        r@ == strip_trailing_hd(s@),
{
    let up = to_uppercase(s);
    if (str_ends_with(up.as_str(), "-HD") || str_ends_with(up.as_str(), "_HD")) && !str_contains(
        up.as_str(),
        "HD-",
    ) {
        drop_last_n_str(s, 3)
    } else {
        copy_str(s)
    }
}

fn strip_hd_before_ext_exec(s: &str) -> (r: String)
    ensures
        r@ == strip_hd_before_ext(s@),
{
    proof {
        reveal_strlit("-HD.");
        reveal_strlit("_HD.");
        reveal_strlit("-hd.");
        reveal_strlit("_hd.");
    }
    let up = to_uppercase(s);
    if (str_contains(up.as_str(), "-HD.") || str_contains(up.as_str(), "_HD.")) && !str_contains(
        up.as_str(),
        "HD-",
    ) {
        let a = replace_str(s, "-HD.", ".");
        let b = replace_str(a.as_str(), "_HD.", ".");
        let c = replace_str(b.as_str(), "-hd.", ".");
        replace_str(c.as_str(), "_hd.", ".")
    } else {
        copy_str(s)
    }
}

fn trim_separators(s: &str) -> (r: String)
    ensures
        r@ == crate::text::trim_by(s@, |c: char| is_trim_separator(c)),
{
    let v = chars_of(s);
    let mut set: Vec<char> = Vec::new();
    set.push('-');
    set.push('_');
    set.push(' ');
    let t = crate::text::trim_chars_vec(&v, &set, false);
    proof {
        let f = crate::text::trim_pred(false, set@);
        assert forall|c: char| #[trigger] f(c) == is_trim_separator(c) by {
            if is_trim_separator(c) {
                if c == '-' {
                    assert(set@[0] == c);
                } else if c == '_' {
                    assert(set@[1] == c);
                } else {
                    assert(set@[2] == c);
                }
            }
        }
        assert(f =~= (|c: char| is_trim_separator(c)));
    }
    string_from(&t)
}

/// Cleans a file name before number extraction: removal strings from the
/// configuration, site tags such as `[site.com]`, watermark and domain
/// prefixes, date prefixes, `Tokyo-Hot` and quality prefixes, part markers,
/// quality markers and trailing CJK descriptions. `t28123` becomes `T28-123`.
pub fn clean_filename(filename: &str, config: Option<&ParserConfig>) -> (r: String)
    ensures
        r@ == cleaned_name(
            filename@,
            match config {
                Some(c) => Some(c@.removal_strings),
                None => None,
            },
        ),
{
    let s0 = match config {
        Some(cfg) => remove_strings_exec(filename, &cfg.removal_strings),
        None => copy_str(filename),
    };
    let a = strip_prefixes_exec(s0.as_str());
    let b = strip_markers_exec(a.as_str());
    let c = strip_tail_exec(b.as_str());
    trim_separators(c.as_str())
}

} // verus!

verus! {

// ---------------------------------------------------------------------------
// Suffixes and strict mode
// ---------------------------------------------------------------------------

pub const SUFFIX_C: &'static str = r"(?i)(-|_)c$";
pub const SUFFIX_U: &'static str = r"(?i)(-|_)u$";
pub const SUFFIX_UC: &'static str = r"(?i)(-|_)uc$";
pub const SUFFIX_CH: &'static str = r"(?i)\d+ch$";
pub const ID_THEN_NAME: &'static str = r"(?i)^([A-Z]+-\d+)\s+[A-Z]+$";

/// `strip_suffix`: a `-C`, `-U` or `-UC` suffix removed, or the `ch` after a
/// chapter number; Tokyo-Hot IDs kept lowercase; otherwise whitespace
/// collapsed and a trailing single-word name after `ABC-123` dropped. `_`
/// becomes `-` and the result is uppercase (lowercase for Tokyo-Hot).
pub open spec fn stripped_suffix(s: Seq<char>) -> Seq<char> {
    if rx_match(SUFFIX_C@, s) {
        unicode_upper(replace_char(replaced_first(SUFFIX_C@, s, ""@), '_', '-'))
    } else if rx_match(SUFFIX_U@, s) {
        unicode_upper(replace_char(replaced_first(SUFFIX_U@, s, ""@), '_', '-'))
    } else if rx_match(SUFFIX_UC@, s) {
        unicode_upper(replace_char(replaced_first(SUFFIX_UC@, s, ""@), '_', '-'))
    } else if rx_match(SUFFIX_CH@, s) {
        unicode_upper(replace_char(drop_last_n(s, 2), '_', '-'))
    } else if rx_match(TOKYO_HOT_ID@, s) {
        unicode_lower(replace_char(s, '_', '-'))
    } else {
        let r = squash_ws(replace_char(s, '_', '-'));
        match captured(ID_THEN_NAME@, r) {
            Some(c) => unicode_upper(group_text(c, 1)),
            None => unicode_upper(r),
        }
    }
}

fn strip_pattern_then_upper(pattern: &str, s: &str) -> (r: String)
    ensures
        r@ == unicode_upper(replace_char(replaced_first(pattern@, s@, ""@), '_', '-')),
{
    let a = replace_first(pattern, s, "");
    let b = replace_char_str(a.as_str(), '_', '-');
    to_uppercase(b.as_str())
}

/// Removes an attribute suffix (`-C`, `-U`, `-UC`, `ch`) and normalises the
/// number: `_` becomes `-`, letters become uppercase.
pub fn strip_suffix(file_number: &str) -> (r: String)
    ensures
        r@ == stripped_suffix(file_number@),
{
    if is_match(SUFFIX_C, file_number) {
        return strip_pattern_then_upper(SUFFIX_C, file_number);
    }
    if is_match(SUFFIX_U, file_number) {
        return strip_pattern_then_upper(SUFFIX_U, file_number);
    }
    if is_match(SUFFIX_UC, file_number) {
        return strip_pattern_then_upper(SUFFIX_UC, file_number);
    }
    if is_match(SUFFIX_CH, file_number) {
        let a = drop_last_n_str(file_number, 2);
        let b = replace_char_str(a.as_str(), '_', '-');
        return to_uppercase(b.as_str());
    }
    if is_match(TOKYO_HOT_ID, file_number) {
        let b = replace_char_str(file_number, '_', '-');
        return to_lowercase(b.as_str());
    }
    let a = replace_char_str(file_number, '_', '-');
    let r = squash_ws_str(a.as_str());
    match captures(ID_THEN_NAME, r.as_str()) {
        Some(caps) => to_uppercase(get_group_text(&caps, 1).as_str()),
        None => to_uppercase(r.as_str()),
    }
}

pub const STANDARD_DVD: &'static str = r"(?i)[A-Z]{2,5}[-_]\d{2,5}";

/// Whether the name holds an ID of the standard DVD shape (2-5 letters, a
/// separator, 2-5 digits).
pub fn has_standard_dvd_format(filename: &str) -> (r: bool)
    ensures
        r == rx_match(STANDARD_DVD@, filename@),
{
    is_match(STANDARD_DVD, filename)
}

pub const STRICT_STANDARD: &'static str = r"^[A-Z]{2,5}-\d{2,5}[A-Z]?$";
pub const STRICT_T28_R18: &'static str = r"^(T28|R18)-\d{2,5}$";
pub const STRICT_TOKYO_HOT: &'static str = r"^(cz|gedo|k|n|red|se)\d{2,4}$";
pub const STRICT_NO_HYPHEN: &'static str = r"^[A-Z]{2,5}\d{2,5}[A-Z]?$";
pub const STRICT_NUMERIC: &'static str = r"^\d{5,}$";

/// The ID shapes strict mode accepts: standard (on the uppercase), T28/R18,
/// Tokyo-Hot, standard without hyphen, or five or more digits.
pub open spec fn strict_accepts(id: Seq<char>) -> bool {
    let up = unicode_upper(id);
    ||| rx_match(STRICT_STANDARD@, up)
    ||| rx_match(STRICT_T28_R18@, up)
    ||| rx_match(STRICT_TOKYO_HOT@, id)
    ||| rx_match(STRICT_NO_HYPHEN@, up)
    ||| rx_match(STRICT_NUMERIC@, id)
}

/// Whether strict mode accepts an extracted ID.
pub fn apply_strict_mode_filter(id: &str) -> (r: bool)
    ensures
        r == strict_accepts(id@),
{
    let up = to_uppercase(id);
    is_match(STRICT_STANDARD, up.as_str()) || is_match(STRICT_T28_R18, up.as_str()) || is_match(
        STRICT_TOKYO_HOT,
        id,
    ) || is_match(STRICT_NO_HYPHEN, up.as_str()) || is_match(STRICT_NUMERIC, id)
}

// ---------------------------------------------------------------------------
// Extraction
// ---------------------------------------------------------------------------

pub const CORE_ID_THEN_SEPARATOR: &'static str = r"^([A-Z]{2,5}[-_]\d{2,5})[-_]";
pub const CJK_ANYWHERE: &'static str = r"[\p{Han}\p{Hiragana}\p{Katakana}]";
pub const LOWERCASE_WORD_AFTER_SEPARATOR: &'static str = r"^[-_][a-z]{2,}";
pub const LETTER_WATERMARK: &'static str = r"(?i)^[-_][A-Z][-_][A-Z0-9]{2,}";
pub const DIGIT_THEN_WORDS: &'static str = r"(?i)(\d)[\s\.]+[a-z]{2,}.*$";

/// What `cleanup_extracted_id` keeps of an extracted ID: the core `ABC-123`
/// when the rest is CJK text or a description, else the ID without a trailing
/// English description after a digit, trimmed.
pub open spec fn cleaned_up_id(x: Seq<char>) -> Seq<char> {
    let core = match captured(CORE_ID_THEN_SEPARATOR@, unicode_upper(x)) {
        Some(c) => {
            let core = group_text(c, 1);
            let rest = if core.len() <= x.len() { x.skip(core.len() as int) } else { Seq::empty() };
            if rx_match(CJK_ANYWHERE@, rest) || rx_match(LOWERCASE_WORD_AFTER_SEPARATOR@, rest)
                || rx_match(LETTER_WATERMARK@, rest) {
                Some(core)
            } else {
                None
            }
        },
        None => None,
    };
    match core {
        Some(c) => c,
        None => trim(replaced_all(DIGIT_THEN_WORDS@, x, "$1"@)),
    }
}

/// Removes trailing Japanese text and English descriptions from an extracted
/// ID: `AVOP-212-kawaii_10周年` gives `AVOP-212`.
pub fn cleanup_extracted_id(extracted_id: String) -> (r: String)
    ensures
        r@ == cleaned_up_id(extracted_id@),
{
    let up = to_uppercase(extracted_id.as_str());
    if let Some(caps) = captures(CORE_ID_THEN_SEPARATOR, up.as_str()) {
        let core = get_group_text(&caps, 1);
        let rest = skip_chars_str(extracted_id.as_str(), core.unicode_len());
        if is_match(CJK_ANYWHERE, rest.as_str()) || is_match(
            LOWERCASE_WORD_AFTER_SEPARATOR,
            rest.as_str(),
        ) || is_match(LETTER_WATERMARK, rest.as_str()) {
            return core;
        }
    }
    let x = replace_all(DIGIT_THEN_WORDS, extracted_id.as_str(), "$1");
    trim_str(x.as_str())
}

pub const KATAKANA_RUN: &'static str = r"[\u30a0-\u30ff]+";
pub const SITE_AND_QUALITY: &'static str = r"(?i)^\w+\.(cc|com|net|me|club|jp|tv|xyz|biz|wiki|info|tw|us|de)@|^22-sht\.me|^(fhd|hd|sd|1080p|720p|4K)(-|_)|(-|_)(fhd|hd|sd|1080p|720p|4K|x264|x265|uncensored|hack|leak)";
pub const SITE_MARKERS: &'static str = r"(?i)^\w+\.(cc|com|net|me|club|jp|tv|xyz|biz|wiki|info|tw|us|de)@|^22-sht\.me|(-|_)(fhd|hd|sd|1080p|720p|4K|x264|x265|uncensored|hack|leak)";
pub const LEADING_QUALITY: &'static str = r"(?i)^(fhd|hd|sd|1080p|720p|4K)(-|_)";
pub const BRACKETED_DATE: &'static str = r"\[\d{4}-\d{1,2}-\d{1,2}\] - ";
pub const CD_MARKER: &'static str = r"(?i)[-_]cd\d{1,2}";
pub const WORD_RUN: &'static str = r"\w+";
pub const ID_RUN: &'static str = r"[\w\-_]+";
pub const WESTERN_DATE: &'static str = r"[a-zA-Z]+\.\d{2}\.\d{2}\.\d{2}";

/// The part of `s` before the first `.`, or `s` itself.
pub open spec fn before_first_dot(s: Seq<char>) -> Seq<char> {
    match first_index_of(s, '.') {
        Some(i) => s.take(i),
        None => s,
    }
}

/// The file name holds a subtitle-group marker, `SUB` (any case) or katakana.
pub open spec fn has_sub_marker(filepath: Seq<char>) -> bool {
    contains(filepath, "字幕组"@) || contains(unicode_upper(filepath), "SUB"@) || rx_match(
        KATAKANA_RUN@,
        filepath,
    )
}

/// The name prepared for extraction in the separator branch: site and
/// quality markers, bracketed dates and CD markers removed; FC2 names
/// normalised.
pub open spec fn separator_branch_name(site: Seq<char>, cleaned: Seq<char>) -> Seq<char> {
    let f1 = replaced_all(BRACKETED_DATE@, replaced_all(site, cleaned, ""@), ""@);
    let lc = unicode_lower(f1);
    let f2 = if contains(lc, "fc2"@) {
        unicode_upper(replace_char(replace(lc, "--"@, "-"@), '_', '-'))
    } else {
        f1
    };
    replaced_all(CD_MARKER@, f2, ""@)
}

/// The number the site rules give the cleaned name, or else the file name as
/// it was (a rule keyed on a prefix that cleaning removed, such as
/// `tokyo_hot_`, still applies).
pub open spec fn site_number_of(filepath: Seq<char>, cleaned: Seq<char>) -> Option<Seq<char>> {
    match number_by_rules(site_rules(), cleaned) {
        Some(n) => Some(n),
        None => number_by_rules(site_rules(), filepath),
    }
}

/// The site and quality markers removed before extraction: a leading
/// quality marker only when the file name itself opens with one, not when
/// cleaning uncovered it (`javbus.com@HD-IPX-456` keeps its `HD-`).
pub open spec fn site_pattern(filepath: Seq<char>) -> Seq<char> {
    if rx_match(LEADING_QUALITY@, filepath) {
        SITE_AND_QUALITY@
    } else {
        SITE_MARKERS@
    }
}

/// `extract_number_internal`: the raw ID of a file name (before part,
/// attribute and hyphen handling), or `None` for an empty name.
pub open spec fn raw_number(filepath: Seq<char>, cleaned: Seq<char>) -> Option<Seq<char>> {
    let site = site_pattern(filepath);
    let sub_name = replace(
        replace(replaced_all(site, cleaned, ""@), ".chs"@, Seq::empty()),
        ".cht"@,
        Seq::empty(),
    );
    if has_sub_marker(filepath) && has_char(sub_name, '.') {
        Some(cleaned_up_id(trim(before_first_dot(sub_name))))
    } else if has_char(cleaned, '-') || has_char(cleaned, '_') {
        let f = separator_branch_name(site, cleaned);
        let word = found(WORD_RUN@, before_first_dot(f));
        if !has_char(f, '-') && !has_char(f, '_') && has_char(f, '.') && word is Some {
            Some(cleaned_up_id(word->0))
        } else {
            let stem = before_first_dot(f);
            let run = match found(ID_RUN@, stem) {
                Some(m) => m,
                None => stem,
            };
            Some(cleaned_up_id(run))
        }
    } else if let Some(m) = found(WESTERN_DATE@, cleaned) {
        Some(cleaned_up_id(m))
    } else if let Some(i) = last_index_of(cleaned, '.') {
        Some(cleaned_up_id(replace_char(cleaned.take(i), '_', '-')))
    } else if cleaned.len() > 0 {
        Some(cleaned_up_id(replace_char(cleaned, '_', '-')))
    } else {
        None
    }
}

fn before_first_dot_exec(s: &str) -> (r: String)
    ensures
        r@ == before_first_dot(s@),
{
    match find_char(s, '.') {
        Some(i) => take_chars_str(s, i),
        None => copy_str(s),
    }
}

fn has_sub_marker_exec(filepath: &str) -> (r: bool)
    ensures
        r == has_sub_marker(filepath@),
{
    let up = to_uppercase(filepath);
    str_contains(filepath, "字幕组") || str_contains(up.as_str(), "SUB") || is_match(KATAKANA_RUN, filepath)
}

fn separator_branch_name_exec(site: &str, cleaned: &str) -> (r: String)
    ensures
        r@ == separator_branch_name(site@, cleaned@),
{
    proof {
        reveal_strlit("--");
    }
    let a = replace_all(site, cleaned, "");
    let f1 = replace_all(BRACKETED_DATE, a.as_str(), "");
    let lc = to_lowercase(f1.as_str());
    let f2 = if str_contains(lc.as_str(), "fc2") {
        let b = replace_str(lc.as_str(), "--", "-");
        let c = replace_char_str(b.as_str(), '_', '-');
        to_uppercase(c.as_str())
    } else {
        f1
    };
    replace_all(CD_MARKER, f2.as_str(), "")
}

/// Extracts the raw ID from a file name and its cleaned form.
pub fn extract_number_internal(filepath: &str, cleaned_filepath: &str) -> (r: Result<String, NumberError>)
    ensures
        r matches Ok(s) ==> raw_number(filepath@, cleaned_filepath@) == Some(s@),
        r is Err ==> raw_number(filepath@, cleaned_filepath@) is None && r == Err::<String, NumberError>(
            NumberError::NotFound,
        ),
{
    proof {
        reveal_strlit(".chs");
        reveal_strlit(".cht");
        reveal_strlit("");
        assert(""@ =~= Seq::<char>::empty());
    }
    let site: &str = if is_match(LEADING_QUALITY, filepath) {
        SITE_AND_QUALITY
    } else {
        SITE_MARKERS
    };
    let a = replace_all(site, cleaned_filepath, "");
    let b = replace_str(a.as_str(), ".chs", "");
    let sub_name = replace_str(b.as_str(), ".cht", "");
    if has_sub_marker_exec(filepath) && str_has_char(sub_name.as_str(), '.') {
        let before = before_first_dot_exec(sub_name.as_str());
        return Ok(cleanup_extracted_id(trim_str(before.as_str())));
    }
    if str_has_char(cleaned_filepath, '-') || str_has_char(cleaned_filepath, '_') {
        let f = separator_branch_name_exec(site, cleaned_filepath);
        let stem = before_first_dot_exec(f.as_str());
        let word = find(WORD_RUN, stem.as_str());
        if !str_has_char(f.as_str(), '-') && !str_has_char(f.as_str(), '_') && str_has_char(
            f.as_str(),
            '.',
        ) && word.is_some() {
            return Ok(cleanup_extracted_id(word.unwrap()));
        }
        let run = match find(ID_RUN, stem.as_str()) {
            Some(m) => m,
            None => stem,
        };
        return Ok(cleanup_extracted_id(run));
    }
    if let Some(m) = find(WESTERN_DATE, cleaned_filepath) {
        return Ok(cleanup_extracted_id(m));
    }
    if let Some(i) = rfind_char(cleaned_filepath, '.') {
        let before = take_chars_str(cleaned_filepath, i);
        return Ok(cleanup_extracted_id(replace_char_str(before.as_str(), '_', '-')));
    }
    if cleaned_filepath.unicode_len() > 0 {
        return Ok(cleanup_extracted_id(replace_char_str(cleaned_filepath, '_', '-')));
    }
    Err(NumberError::NotFound)
}

/// Why no number could be parsed.
#[derive(Debug, Clone, PartialEq)]
pub enum NumberError {
    /// The path has no file name.
    InvalidPath,
    /// Strict mode rejected the extracted ID.
    StrictMode(String),
    /// Nothing could be extracted.
    NotFound,
}

/// The message of an error.
pub open spec fn error_text(e: NumberError) -> Seq<char> {
    match e {
        NumberError::InvalidPath => "Invalid file path"@,
        NumberError::StrictMode(id) => "Strict mode: extracted ID '"@ + id@
            + "' does not match standard DVD format"@,
        NumberError::NotFound => "Could not extract number from filename"@,
    }
}

impl NumberError {
    /// The error's message.
    pub fn message(&self) -> (r: String)
        ensures
            r@ == error_text(*self),
    {
        match self {
            NumberError::InvalidPath => crate::text::copy_str("Invalid file path"),
            NumberError::StrictMode(id) => crate::text::concat3(
                "Strict mode: extracted ID '",
                id.as_str(),
                "' does not match standard DVD format",
            ),
            NumberError::NotFound => crate::text::copy_str("Could not extract number from filename"),
        }
    }
}

} // verus!

verus! {

// ---------------------------------------------------------------------------
// Special sites
// ---------------------------------------------------------------------------

/// The special-site extraction rules.
#[derive(Debug, Clone, Copy, PartialEq, Eq)]
pub enum SiteRule {
    TokyoHot,
    Carib,
    OnePondoMuraPaco,
    TenMusume,
    XArt,
    XxxAv,
    Heydouga,
    Heyzo,
    Mdbk,
    Mdtm,
    Caribpr,
}

pub const TOKYO_HOT_NUMBER: &'static str = r"(?i)(cz|gedo|k|n|red-|se)\d{2,6}";
pub const TOKYO_HOT_N_DIGITS: &'static str = r"(?i)n(\d{6})";
pub const SIX_THREE: &'static str = r"(?i)\d{6}(-|_)\d{3}";
pub const SIX_TWO: &'static str = r"(?i)\d{6}(-|_)\d{2}";
pub const XART_NUMBER: &'static str = r"(?i)x-art\.\d{2}\.\d{2}\.\d{2}";
pub const XXXAV_NUMBER: &'static str = r"(?i)xxx-av[^\d]*(\d{3,5})[^\d]*";
pub const HEYDOUGA_NUMBER: &'static str = r"(?i)(\d{4})[-_](\d{3,4})[^\d]*";
pub const HEYZO_NUMBER: &'static str = r"(?i)heyzo[^\d]*(\d{4})";
pub const MDBK_NUMBER: &'static str = r"(?i)mdbk(-|_)(\d{4})";
pub const MDTM_NUMBER: &'static str = r"(?i)mdtm(-|_)(\d{4})";

/// The number a rule extracts from a file name, if any.
pub open spec fn site_number(rule: SiteRule, f: Seq<char>) -> Option<Seq<char>> {
    match rule {
        SiteRule::TokyoHot => match found(TOKYO_HOT_NUMBER@, f) {
            Some(m) => Some(m),
            None => match captured(TOKYO_HOT_N_DIGITS@, f) {
                Some(c) => Some("n"@ + group_text(c, 1)),
                None => None,
            },
        },
        SiteRule::Carib | SiteRule::Caribpr => match found(SIX_THREE@, f) {
            Some(m) => Some(replace_char(m, '_', '-')),
            None => None,
        },
        SiteRule::OnePondoMuraPaco => match found(SIX_THREE@, f) {
            Some(m) => Some(replace_char(m, '-', '_')),
            None => None,
        },
        SiteRule::TenMusume => match found(SIX_TWO@, f) {
            Some(m) => Some(replace_char(m, '-', '_')),
            None => None,
        },
        SiteRule::XArt => found(XART_NUMBER@, f),
        SiteRule::XxxAv => match captured(XXXAV_NUMBER@, f) {
            Some(c) => Some("xxx-av-"@ + group_text(c, 1)),
            None => None,
        },
        SiteRule::Heydouga => match captured(HEYDOUGA_NUMBER@, f) {
            Some(c) => Some("heydouga-"@ + group_text(c, 1) + "-"@ + group_text(c, 2)),
            None => None,
        },
        SiteRule::Heyzo => match captured(HEYZO_NUMBER@, f) {
            Some(c) => Some("HEYZO-"@ + group_text(c, 1)),
            None => None,
        },
        SiteRule::Mdbk => found(MDBK_NUMBER@, f),
        SiteRule::Mdtm => found(MDTM_NUMBER@, f),
    }
}

/// Applies one special-site rule to a file name.
pub fn extract_site_number(rule: SiteRule, f: &str) -> (r: Option<String>)
    ensures
        r matches Some(s) ==> site_number(rule, f@) == Some(s@),
        r is None ==> site_number(rule, f@) is None,
{
    match rule {
        SiteRule::TokyoHot => {
            match find(TOKYO_HOT_NUMBER, f) {
                Some(m) => Some(m),
                None => match captures(TOKYO_HOT_N_DIGITS, f) {
                    Some(caps) => Some(concat("n", get_group_text(&caps, 1).as_str())),
                    None => None,
                },
            }
        },
        SiteRule::Carib | SiteRule::Caribpr => match find(SIX_THREE, f) {
            Some(m) => Some(replace_char_str(m.as_str(), '_', '-')),
            None => None,
        },
        SiteRule::OnePondoMuraPaco => match find(SIX_THREE, f) {
            Some(m) => Some(replace_char_str(m.as_str(), '-', '_')),
            None => None,
        },
        SiteRule::TenMusume => match find(SIX_TWO, f) {
            Some(m) => Some(replace_char_str(m.as_str(), '-', '_')),
            None => None,
        },
        SiteRule::XArt => find(XART_NUMBER, f),
        SiteRule::XxxAv => match captures(XXXAV_NUMBER, f) {
            Some(caps) => Some(concat("xxx-av-", get_group_text(&caps, 1).as_str())),
            None => None,
        },
        SiteRule::Heydouga => match captures(HEYDOUGA_NUMBER, f) {
            Some(caps) => {
                let head = concat3("heydouga-", get_group_text(&caps, 1).as_str(), "-");
                Some(concat(head.as_str(), get_group_text(&caps, 2).as_str()))
            },
            None => None,
        },
        SiteRule::Heyzo => match captures(HEYZO_NUMBER, f) {
            Some(caps) => Some(concat("HEYZO-", get_group_text(&caps, 1).as_str())),
            None => None,
        },
        SiteRule::Mdbk => find(MDBK_NUMBER, f),
        SiteRule::Mdtm => find(MDTM_NUMBER, f),
    }
}

/// The site patterns, each with its rule, in the order they are tried.
pub open spec fn site_rules() -> Seq<(Seq<char>, SiteRule)> {
    seq![
        ("(?i)tokyo.*hot"@, SiteRule::TokyoHot),
        ("(?i)carib"@, SiteRule::Carib),
        ("(?i)1pon|mura|paco"@, SiteRule::OnePondoMuraPaco),
        ("(?i)10mu"@, SiteRule::TenMusume),
        ("(?i)x-art"@, SiteRule::XArt),
        ("(?i)xxx-av"@, SiteRule::XxxAv),
        ("(?i)heydouga"@, SiteRule::Heydouga),
        ("(?i)heyzo"@, SiteRule::Heyzo),
        ("(?i)mdbk"@, SiteRule::Mdbk),
        ("(?i)mdtm"@, SiteRule::Mdtm),
        ("(?i)caribpr"@, SiteRule::Caribpr),
    ]
}

/// The special-site rules: the pattern that selects a rule, and the rule.
pub fn get_take_num_rules() -> (r: Vec<(&'static str, SiteRule)>)
    ensures
        r@.map_values(|p: (&str, SiteRule)| (p.0@, p.1)) == site_rules(),
{
    let mut v: Vec<(&'static str, SiteRule)> = Vec::new();
    v.push(("(?i)tokyo.*hot", SiteRule::TokyoHot));
    v.push(("(?i)carib", SiteRule::Carib));
    v.push(("(?i)1pon|mura|paco", SiteRule::OnePondoMuraPaco));
    v.push(("(?i)10mu", SiteRule::TenMusume));
    v.push(("(?i)x-art", SiteRule::XArt));
    v.push(("(?i)xxx-av", SiteRule::XxxAv));
    v.push(("(?i)heydouga", SiteRule::Heydouga));
    v.push(("(?i)heyzo", SiteRule::Heyzo));
    v.push(("(?i)mdbk", SiteRule::Mdbk));
    v.push(("(?i)mdtm", SiteRule::Mdtm));
    v.push(("(?i)caribpr", SiteRule::Caribpr));
    assert(v@.map_values(|p: (&str, SiteRule)| (p.0@, p.1)) =~= site_rules());
    v
}

/// The first number that a rule whose pattern matches yields, trying rules in order.
pub open spec fn number_by_rules(rules: Seq<(Seq<char>, SiteRule)>, f: Seq<char>) -> Option<Seq<char>>
    decreases rules.len(),
{
    if rules.len() == 0 {
        None
    } else if rx_match(rules[0].0, f) && site_number(rules[0].1, f) is Some {
        site_number(rules[0].1, f)
    } else {
        number_by_rules(rules.skip(1), f)
    }
}

/// Tries the special-site rules on a file name.
pub fn get_number_by_dict(filename: &str) -> (r: Option<String>)
    ensures
        r matches Some(s) ==> number_by_rules(site_rules(), filename@) == Some(s@),
        r is None ==> number_by_rules(site_rules(), filename@) is None,
{
    let rules = get_take_num_rules();
    let ghost rv = rules@.map_values(|p: (&str, SiteRule)| (p.0@, p.1));
    let mut i: usize = 0;
    assert(rv.skip(0) =~= rv);
    while i < rules.len()
        invariant
            i <= rules.len(),
            rv == rules@.map_values(|p: (&str, SiteRule)| (p.0@, p.1)),
            rv == site_rules(),
            number_by_rules(site_rules(), filename@) == number_by_rules(rv.skip(i as int), filename@),
        decreases rules.len() - i,
    {
        let (pattern, rule) = rules[i];
        proof {
            assert(rv.skip(i as int)[0] == (pattern@, rule));
            assert(rv.skip(i as int).skip(1) =~= rv.skip(i + 1));
        }
        if is_match(pattern, filename) {
            if let Some(number) = extract_site_number(rule, filename) {
                return Some(number);
            }
        }
        i = i + 1;
    }
    None
}

} // verus!

verus! {

// ---------------------------------------------------------------------------
// Parsing
// ---------------------------------------------------------------------------

/// What parsing a file name gives.
pub enum ParseOutcome {
    Parsed(NumberView),
    InvalidPath,
    Strict(Seq<char>),
    NotFound,
}

pub open spec fn error_outcome(e: NumberError) -> ParseOutcome {
    match e {
        NumberError::InvalidPath => ParseOutcome::InvalidPath,
        NumberError::StrictMode(id) => ParseOutcome::Strict(id@),
        NumberError::NotFound => ParseOutcome::NotFound,
    }
}

pub open spec fn result_outcome(r: Result<ParsedNumber, NumberError>) -> ParseOutcome {
    match r {
        Ok(p) => ParseOutcome::Parsed(p@),
        Err(e) => error_outcome(e),
    }
}

/// A part number read from text as `u8` (`None` where `str::parse` fails).
pub open spec fn part_from_text(s: Seq<char>) -> Option<u8> {
    match parse_unsigned(s, 255) {
        Some(n) => Some(n as u8),
        None => None,
    }
}

/// The number the first custom pattern that matches (with a non-empty ID)
/// gives: the ID from group `id_match` (group 0 when that group is absent),
/// the part number from group `pt_match`.
pub open spec fn custom_number(regexs: Seq<Seq<char>>, cleaned: Seq<char>, id_match: usize, pt_match: usize) -> Option<NumberView>
    decreases regexs.len(),
{
    if regexs.len() == 0 {
        None
    } else {
        let rest = custom_number(regexs.skip(1), cleaned, id_match, pt_match);
        match captured(regexs[0], cleaned) {
            Some(c) => {
                let id = match group(c, id_match as int) {
                    Some(g) => g,
                    None => group_text(c, 0),
                };
                if id.len() > 0 {
                    Some(NumberView {
                        id,
                        content_id: content_id_of(id),
                        part_number: match group(c, pt_match as int) {
                            Some(g) => part_from_text(g),
                            None => None,
                        },
                        attributes: no_attributes(),
                    })
                } else {
                    rest
                }
            },
            None => rest,
        }
    }
}

pub const SIX_THREE_PLAIN: &'static str = r"\d{6}[-_]\d{3}";

/// The site a special-site number belongs to.
pub open spec fn site_of(number: Seq<char>) -> Option<Seq<char>> {
    if starts_with(number, "n"@) || starts_with(number, "k"@) || contains(number, "tokyo"@) {
        Some("tokyo-hot"@)
    } else if rx_match(SIX_THREE_PLAIN@, number) {
        if has_char(number, '-') {
            Some("carib"@)
        } else {
            Some("1pon"@)
        }
    } else if contains(unicode_lower(number), "fc2"@) {
        Some("fc2"@)
    } else if starts_with(unicode_upper(number), "HEYZO"@) {
        Some("heyzo"@)
    } else {
        None
    }
}

pub const CN_SUB_LONG: &'static str = r"(?i)[-_](ch|chn|chs|cht|cn[-_]?sub)$";
pub const CN_SUB_SHORT: &'static str = r"(?i)[-_]c$";
pub const UNCENSORED_SUFFIX: &'static str = r"(?i)[-_]u(c)?$";

/// The number parsed from the raw ID of the general rules: part letter split
/// off, attributes read from the suffix, suffix stripped, hyphen inserted.
pub open spec fn number_from_raw(base_id: Seq<char>) -> NumberView {
    let (without_part, part) = split_part(base_id);
    let id = with_hyphen(stripped_suffix(without_part));
    NumberView {
        id,
        content_id: content_id_of(id),
        part_number: part,
        attributes: AttributesView {
            cn_sub: rx_match(CN_SUB_LONG@, without_part) || rx_match(CN_SUB_SHORT@, without_part),
            uncensored: rx_match(UNCENSORED_SUFFIX@, without_part),
            special_site: None,
        },
    }
}

/// `parse_number`: custom patterns first, then the special-site rules, then the
/// general rules (subject to strict mode, which is also on when the cleaned name
/// holds no standard DVD ID).
pub open spec fn parsed_number(file_path: Seq<char>, cfg: ConfigView) -> ParseOutcome {
    match path_file_name(file_path) {
        None => ParseOutcome::InvalidPath,
        Some(filepath) => {
            let cleaned = cleaned_name(filepath, Some(cfg.removal_strings));
            if let Some(n) = custom_number(cfg.custom_regexs, cleaned, cfg.regex_id_match, cfg.regex_pt_match) {
                ParseOutcome::Parsed(n)
            } else if let Some(number) = site_number_of(filepath, cleaned) {
                ParseOutcome::Parsed(NumberView {
                    id: number,
                    content_id: content_id_of(number),
                    part_number: None,
                    attributes: AttributesView {
                        cn_sub: false,
                        uncensored: false,
                        special_site: site_of(number),
                    },
                })
            } else {
                match raw_number(filepath, cleaned) {
                    None => ParseOutcome::NotFound,
                    Some(base_id) => {
                        if (cfg.strict_mode || !rx_match(STANDARD_DVD@, cleaned)) && !strict_accepts(base_id) {
                            ParseOutcome::Strict(base_id)
                        } else {
                            ParseOutcome::Parsed(number_from_raw(base_id))
                        }
                    },
                }
            }
        },
    }
}

fn part_from_text_exec(s: &str) -> (r: Option<u8>)
    ensures
        r == part_from_text(s@),
{
    match parse_u64(s) {
        Some(n) => {
            if n <= 255 {
                Some(n as u8)
            } else {
                None
            }
        },
        None => {
            proof {
                if parse_unsigned(s@, 255) is Some {
                    assert(parse_unsigned(s@, u64::MAX as nat) is Some);
                }
            }
            None
        },
    }
}

fn custom_number_exec(regexs: &Vec<String>, cleaned: &str, id_match: usize, pt_match: usize) -> (r: Option<ParsedNumber>)
    ensures
        r matches Some(p) ==> custom_number(strings_view(regexs@), cleaned@, id_match, pt_match) == Some(p@),
        r is None ==> custom_number(strings_view(regexs@), cleaned@, id_match, pt_match) is None,
{
    let mut i: usize = 0;
    assert(strings_view(regexs@).skip(0) =~= strings_view(regexs@));
    while i < regexs.len()
        invariant
            i <= regexs.len(),
            custom_number(strings_view(regexs@), cleaned@, id_match, pt_match) == custom_number(
                strings_view(regexs@).skip(i as int),
                cleaned@,
                id_match,
                pt_match,
            ),
        decreases regexs.len() - i,
    {
        proof {
            let sv = strings_view(regexs@);
            assert(sv.skip(i as int)[0] == regexs@[i as int]@);
            assert(sv.skip(i as int).skip(1) =~= sv.skip(i + 1));
        }
        if let Some(caps) = captures(regexs[i].as_str(), cleaned) {
            let id = match get_group(&caps, id_match) {
                Some(g) => g,
                None => get_group_text(&caps, 0),
            };
            let part = match get_group(&caps, pt_match) {
                Some(g) => part_from_text_exec(g.as_str()),
                None => None,
            };
            if id.unicode_len() > 0 {
                let content_id = convert_to_content_id(id.as_str());
                return Some(ParsedNumber { id, content_id, part_number: part, attributes: ParsedAttributes::default() });
            }
        }
        i = i + 1;
    }
    None
}

fn site_of_exec(number: &str) -> (r: Option<String>)
    ensures
        opt_view(r) == site_of(number@),
{
    if str_starts_with(number, "n") || str_starts_with(number, "k") || str_contains(number, "tokyo") {
        Some(copy_str("tokyo-hot"))
    } else if is_match(SIX_THREE_PLAIN, number) {
        if str_has_char(number, '-') {
            Some(copy_str("carib"))
        } else {
            Some(copy_str("1pon"))
        }
    } else if str_contains(to_lowercase(number).as_str(), "fc2") {
        Some(copy_str("fc2"))
    } else if str_starts_with(to_uppercase(number).as_str(), "HEYZO") {
        Some(copy_str("heyzo"))
    } else {
        None
    }
}

fn number_from_raw_exec(base_id: &str) -> (r: ParsedNumber)
    ensures
        r@ == number_from_raw(base_id@),
{
    let (without_part, part_number) = extract_part_from_suffix(base_id);
    let cn_sub = is_match(CN_SUB_LONG, without_part.as_str()) || is_match(CN_SUB_SHORT, without_part.as_str());
    let uncensored = is_match(UNCENSORED_SUFFIX, without_part.as_str());
    let clean_id = strip_suffix(without_part.as_str());
    let id = insert_hyphens(clean_id.as_str());
    let content_id = convert_to_content_id(id.as_str());
    ParsedNumber {
        id,
        content_id,
        part_number,
        attributes: ParsedAttributes { cn_sub, uncensored, special_site: None },
    }
}

fn parse_with_config(file_path: &str, config: &ParserConfig) -> (r: Result<ParsedNumber, NumberError>)
    ensures
        result_outcome(r) == parsed_number(file_path@, config@),
{
    let filepath = match crate::paths::file_name(file_path) {
        Some(f) => f,
        None => return Err(NumberError::InvalidPath),
    };
    let cleaned = clean_filename(filepath.as_str(), Some(config));
    if let Some(n) = custom_number_exec(&config.custom_regexs, cleaned.as_str(), config.regex_id_match, config.regex_pt_match) {
        return Ok(n);
    }
    let by_site = match get_number_by_dict(cleaned.as_str()) {
        Some(n) => Some(n),
        None => get_number_by_dict(filepath.as_str()),
    };
    if let Some(number) = by_site {
        let content_id = convert_to_content_id(number.as_str());
        let special_site = site_of_exec(number.as_str());
        return Ok(ParsedNumber {
            id: number,
            content_id,
            part_number: None,
            attributes: ParsedAttributes { cn_sub: false, uncensored: false, special_site },
        });
    }
    let base_id = match extract_number_internal(filepath.as_str(), cleaned.as_str()) {
        Ok(b) => b,
        Err(e) => return Err(e),
    };
    let strict = config.strict_mode || !has_standard_dvd_format(cleaned.as_str());
    if strict && !apply_strict_mode_filter(base_id.as_str()) {
        return Err(NumberError::StrictMode(base_id));
    }
    Ok(number_from_raw_exec(base_id.as_str()))
}

/// Parses the movie number of a file: display ID, content ID, part number and
/// attributes. Without a configuration the default one is used.
pub fn parse_number(file_path: &str, config: Option<&ParserConfig>) -> (r: Result<ParsedNumber, NumberError>)
    ensures
        result_outcome(r) == parsed_number(
            file_path@,
            match config {
                Some(c) => c@,
                None => default_config(),
            },
        ),
{
    match config {
        Some(c) => parse_with_config(file_path, c),
        None => {
            let d = ParserConfig::default();
            parse_with_config(file_path, &d)
        },
    }
}

/// The configuration `get_number` parses with: the default one, with the
/// whitespace-separated patterns as custom patterns when given.
pub open spec fn legacy_config(custom_regexs: Option<Seq<char>>) -> ConfigView {
    match custom_regexs {
        Some(r) => ConfigView { custom_regexs: words(r), ..default_config() },
        None => default_config(),
    }
}

/// The display ID that `parse_number` gives, or its error.
pub open spec fn number_id(o: ParseOutcome) -> Result<Seq<char>, ParseOutcome> {
    match o {
        ParseOutcome::Parsed(n) => Ok(n.id),
        other => Err(other),
    }
}

/// Extracts the display ID of a file's movie number. `custom_regexs` holds
/// whitespace-separated patterns tried first.
pub fn get_number(file_path: &str, custom_regexs: Option<&str>) -> (r: Result<String, NumberError>)
    ensures
        match r {
            Ok(s) => number_id(parsed_number(file_path@, legacy_config(opt_str_view(custom_regexs)))) == Ok::<
                Seq<char>,
                ParseOutcome,
            >(s@),
            Err(e) => number_id(parsed_number(file_path@, legacy_config(opt_str_view(custom_regexs)))) == Err::<
                Seq<char>,
                ParseOutcome,
            >(error_outcome(e)),
        },
{
    let parsed = match custom_regexs {
        Some(regexs) => {
            let mut cfg = ParserConfig::default();
            cfg.custom_regexs = split_whitespace_str(regexs);
            proof {
                assert(cfg@ == legacy_config(opt_str_view(custom_regexs)));
            }
            parse_with_config(file_path, &cfg)
        },
        None => {
            let d = ParserConfig::default();
            parse_with_config(file_path, &d)
        },
    };
    match parsed {
        Ok(p) => Ok(p.id),
        Err(e) => Err(e),
    }
}

/// The settings `get_number` parses with: none given, the defaults; custom
/// patterns given, the defaults with those patterns split at whitespace.
pub open spec fn settings_of(custom_regexs: Option<Seq<char>>) -> Option<ConfigView> {
    match custom_regexs {
        Some(r) => Some(ConfigView { custom_regexs: words(r), ..default_config() }),
        None => None,
    }
}

/// `get_number` is `parse_number` under the settings its patterns make,
/// keeping the ID: for a result `g` of `get_number(file_path, custom_regexs)`
/// and a result `p` of `parse_number(file_path, config)` where `config` holds
/// those settings, `g` is `Ok` exactly when `p` is, with `p`'s ID, and an
/// error of `g` is `p`'s error.
pub proof fn lemma_get_number_is_parse_number_id(
    file_path: Seq<char>,
    custom_regexs: Option<Seq<char>>,
    config: Option<ParserConfig>,
    g: Result<String, NumberError>,
    p: Result<ParsedNumber, NumberError>,
)
    requires
        match config {
            Some(c) => settings_of(custom_regexs) == Some(c@),
            None => settings_of(custom_regexs) is None,
        },
        match g {
            Ok(s) => number_id(parsed_number(file_path, legacy_config(custom_regexs))) == Ok::<
                Seq<char>,
                ParseOutcome,
            >(s@),
            Err(e) => number_id(parsed_number(file_path, legacy_config(custom_regexs))) == Err::<
                Seq<char>,
                ParseOutcome,
            >(error_outcome(e)),
        },
        result_outcome(p) == parsed_number(
            file_path,
            match config {
                Some(c) => c@,
                None => default_config(),
            },
        ),
    ensures
        g is Ok <==> p is Ok,
        g matches Ok(s) ==> s@ == p->Ok_0.id@,
        g matches Err(e) ==> p matches Err(e2) && error_outcome(e) == error_outcome(e2),
{
    assert(legacy_config(custom_regexs) == match config {
        Some(c) => c@,
        None => default_config(),
    });
    match p {
        Ok(q) => {},
        Err(e2) => {
            assert(!(error_outcome(e2) is Parsed)) by {
                match e2 {
                    NumberError::InvalidPath => {},
                    NumberError::StrictMode(_) => {},
                    NumberError::NotFound => {},
                }
            }
        },
    }
}

pub open spec fn opt_str_view(o: Option<&str>) -> Option<Seq<char>> {
    match o {
        Some(s) => Some(s@),
        None => None,
    }
}

} // verus!

verus! {

/// `get_number_legacy`: the earlier extraction, without part numbers and
/// attributes, returning the ID as found.
pub open spec fn legacy_number(file_path: Seq<char>, custom_regexs: Option<Seq<char>>) -> Result<Seq<char>, ParseOutcome> {
    match path_file_name(file_path) {
        None => Err(ParseOutcome::InvalidPath),
        Some(filepath) => {
            let cleaned = cleaned_name(filepath, None);
            let custom = match custom_regexs {
                Some(r) => first_found(words(r), cleaned),
                None => None,
            };
            let sub_name = replace(
                replace(replaced_all(SITE_AND_QUALITY@, cleaned, ""@), ".chs"@, Seq::empty()),
                ".cht"@,
                Seq::empty(),
            );
            if let Some(m) = custom {
                Ok(m)
            } else if let Some(n) = number_by_rules(site_rules(), cleaned) {
                Ok(n)
            } else if has_sub_marker(filepath) && has_char(sub_name, '.') {
                Ok(trim(before_first_dot(sub_name)))
            } else if has_char(cleaned, '-') || has_char(cleaned, '_') {
                let f = separator_branch_name(SITE_AND_QUALITY@, cleaned);
                let word = found(WORD_RUN@, before_first_dot(f));
                if !has_char(f, '-') && !has_char(f, '_') && has_char(f, '.') && word is Some {
                    Ok(word->0)
                } else {
                    let stem = before_first_dot(f);
                    Ok(stripped_suffix(match found(ID_RUN@, stem) {
                        Some(m) => m,
                        None => stem,
                    }))
                }
            } else if let Some(m) = found(WESTERN_DATE@, cleaned) {
                Ok(m)
            } else if let Some(i) = last_index_of(cleaned, '.') {
                Ok(replace_char(cleaned.take(i), '_', '-'))
            } else if cleaned.len() > 0 {
                Ok(replace_char(cleaned, '_', '-'))
            } else {
                Err(ParseOutcome::NotFound)
            }
        },
    }
}

/// The match of the first pattern that matches.
pub open spec fn first_found(patterns: Seq<Seq<char>>, text: Seq<char>) -> Option<Seq<char>>
    decreases patterns.len(),
{
    if patterns.len() == 0 {
        None
    } else if found(patterns[0], text) is Some {
        found(patterns[0], text)
    } else {
        first_found(patterns.skip(1), text)
    }
}

fn first_found_exec(patterns: &Vec<String>, text: &str) -> (r: Option<String>)
    ensures
        opt_view(r) == first_found(views_of(patterns@), text@),
{
    let mut i: usize = 0;
    assert(views_of(patterns@).skip(0) =~= views_of(patterns@));
    while i < patterns.len()
        invariant
            i <= patterns.len(),
            first_found(views_of(patterns@), text@) == first_found(views_of(patterns@).skip(i as int), text@),
        decreases patterns.len() - i,
    {
        proof {
            let pv = views_of(patterns@);
            assert(pv.skip(i as int)[0] == patterns@[i as int]@);
            assert(pv.skip(i as int).skip(1) =~= pv.skip(i + 1));
        }
        if let Some(m) = find(patterns[i].as_str(), text) {
            return Some(m);
        }
        i = i + 1;
    }
    None
}

/// The earlier extraction rules, kept for comparison: the ID as found, without
/// part numbers or attributes.
pub fn get_number_legacy(file_path: &str, custom_regexs: Option<&str>) -> (r: Result<String, NumberError>)
    ensures
        match r {
            Ok(s) => legacy_number(file_path@, opt_str_view(custom_regexs)) == Ok::<Seq<char>, ParseOutcome>(s@),
            Err(e) => legacy_number(file_path@, opt_str_view(custom_regexs)) == Err::<Seq<char>, ParseOutcome>(
                error_outcome(e),
            ),
        },
{
    proof {
        reveal_strlit(".chs");
        reveal_strlit(".cht");
        reveal_strlit("");
        assert(""@ =~= Seq::<char>::empty());
    }
    let filepath = match crate::paths::file_name(file_path) {
        Some(f) => f,
        None => return Err(NumberError::InvalidPath),
    };
    let cleaned = clean_filename(filepath.as_str(), None);
    if let Some(regexs) = custom_regexs {
        let list = split_whitespace_str(regexs);
        if let Some(m) = first_found_exec(&list, cleaned.as_str()) {
            return Ok(m);
        }
    }
    if let Some(number) = get_number_by_dict(cleaned.as_str()) {
        return Ok(number);
    }
    let a = replace_all(SITE_AND_QUALITY, cleaned.as_str(), "");
    let b = replace_str(a.as_str(), ".chs", "");
    let sub_name = replace_str(b.as_str(), ".cht", "");
    if has_sub_marker_exec(filepath.as_str()) && str_has_char(sub_name.as_str(), '.') {
        let before = before_first_dot_exec(sub_name.as_str());
        return Ok(trim_str(before.as_str()));
    }
    if str_has_char(cleaned.as_str(), '-') || str_has_char(cleaned.as_str(), '_') {
        let f = separator_branch_name_exec(SITE_AND_QUALITY, cleaned.as_str());
        let stem = before_first_dot_exec(f.as_str());
        let word = find(WORD_RUN, stem.as_str());
        if !str_has_char(f.as_str(), '-') && !str_has_char(f.as_str(), '_') && str_has_char(
            f.as_str(),
            '.',
        ) && word.is_some() {
            return Ok(word.unwrap());
        }
        let run = match find(ID_RUN, stem.as_str()) {
            Some(m) => m,
            None => stem,
        };
        return Ok(strip_suffix(run.as_str()));
    }
    if let Some(m) = find(WESTERN_DATE, cleaned.as_str()) {
        return Ok(m);
    }
    if let Some(i) = rfind_char(cleaned.as_str(), '.') {
        let before = take_chars_str(cleaned.as_str(), i);
        return Ok(replace_char_str(before.as_str(), '_', '-'));
    }
    if cleaned.unicode_len() > 0 {
        return Ok(replace_char_str(cleaned.as_str(), '_', '-'));
    }
    Err(NumberError::NotFound)
}

// ---------------------------------------------------------------------------
// Uncensored numbers
// ---------------------------------------------------------------------------

pub const UNCENSORED_BUILTIN: &'static str = r"(?i)^[\d-]{4,}$|\d{6}_\d{2,3}|(cz|gedo|k|n|red-|se)\d{2,4}|heyzo.+|xxx-av-.+|heydouga-.+|x-art\.\d{2}\.\d{2}\.\d{2}";

/// `|p.+` for each prefix after the first, in order.
pub open spec fn alternatives(rest: Seq<Seq<char>>) -> Seq<char>
    decreases rest.len(),
{
    if rest.len() == 0 {
        Seq::empty()
    } else {
        alternatives(rest.drop_last()) + "|"@ + rest.last() + ".+"@
    }
}

/// The non-empty comma-separated prefixes.
pub open spec fn prefix_list(prefixes: Seq<char>) -> Seq<Seq<char>> {
    split_on(prefixes, ',').filter(|p: Seq<char>| p.len() > 0)
}

/// The case-insensitive pattern built from prefixes: the first one, then
/// `|p.+` for each other one.
pub open spec fn prefix_pattern(list: Seq<Seq<char>>) -> Seq<char> {
    "(?i)"@ + list[0] + alternatives(list.skip(1))
}

/// `is_uncensored`: the built-in uncensored shapes, or the pattern built from
/// the configured prefixes.
pub open spec fn uncensored_number(number: Seq<char>, prefixes: Option<Seq<char>>) -> bool {
    if rx_match(UNCENSORED_BUILTIN@, number) {
        true
    } else {
        match prefixes {
            Some(p) => prefix_list(p).len() > 0 && rx_match(prefix_pattern(prefix_list(p)), number),
            None => false,
        }
    }
}

fn non_empty_strings(v: &Vec<String>) -> (r: Vec<String>)
    ensures
        views_of(r@) == views_of(v@).filter(|p: Seq<char>| p.len() > 0),
{
    let mut out: Vec<String> = Vec::new();
    let mut i: usize = 0;
    while i < v.len()
        invariant
            i <= v.len(),
            views_of(out@) == views_of(v@.subrange(0, i as int)).filter(|p: Seq<char>| p.len() > 0),
        decreases v.len() - i,
    {
        proof {
            let pre = views_of(v@.subrange(0, i + 1));
            assert(pre =~= views_of(v@.subrange(0, i as int)).push(v@[i as int]@));
            assert(pre.drop_last() =~= views_of(v@.subrange(0, i as int)));
            reveal_with_fuel(Seq::filter, 1);
        }
        if v[i].unicode_len() > 0 {
            let ghost o = out@;
            let x = copy_str(v[i].as_str());
            out.push(x);
            proof {
                assert(views_of(out@) =~= views_of(o).push(x@));
            }
        }
        i = i + 1;
    }
    assert(v@.subrange(0, v@.len() as int) =~= v@);
    out
}

fn prefix_pattern_exec(list: &Vec<String>) -> (r: String)
    requires
        list.len() > 0,
    ensures
        r@ == prefix_pattern(views_of(list@)),
{
    let mut pattern = concat("(?i)", list[0].as_str());
    let mut i: usize = 1;
    let ghost lv = views_of(list@);
    assert(lv.skip(1).subrange(0, 0) =~= Seq::<Seq<char>>::empty());
    while i < list.len()
        invariant
            1 <= i <= list.len(),
            lv == views_of(list@),
            pattern@ == "(?i)"@ + lv[0] + alternatives(lv.skip(1).subrange(0, i - 1)),
        decreases list.len() - i,
    {
        let piece = concat3("|", list[i].as_str(), ".+");
        pattern = concat(pattern.as_str(), piece.as_str());
        proof {
            let sub = lv.skip(1).subrange(0, i as int);
            assert(sub.drop_last() =~= lv.skip(1).subrange(0, i - 1));
            assert(sub.last() == list@[i as int]@);
        }
        i = i + 1;
    }
    assert(lv.skip(1).subrange(0, list.len() - 1) =~= lv.skip(1));
    pattern
}

/// Whether a movie number denotes an uncensored movie: built-in shapes
/// (`123456-789`, `HEYZO-1234`, `n1234`, ...) or one of the configured
/// comma-separated prefixes.
pub fn is_uncensored(number: &str, uncensored_prefixes: Option<&str>) -> (r: bool)
    ensures
        r == uncensored_number(number@, opt_str_view(uncensored_prefixes)),
{
    if is_match(UNCENSORED_BUILTIN, number) {
        return true;
    }
    match uncensored_prefixes {
        Some(prefixes) => {
            let pieces = split_on_str(prefixes, ',');
            let list = non_empty_strings(&pieces);
            if list.len() > 0 {
                let pattern = prefix_pattern_exec(&list);
                return is_match(pattern.as_str(), number);
            }
            false
        },
        None => false,
    }
}

} // verus!
