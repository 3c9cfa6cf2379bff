//! Naming rules for files that are moved, copied or linked into the library,
//! and the decisions taken before a file is moved or linked.

use vstd::prelude::*;
use crate::paths::{extension, file_stem, path_extension, path_file_stem};
use crate::processor::LinkMode;
use crate::workflow::{join_path, joined};
use crate::text::{
    chars_of, concat, copy_str, is_ws, lowercase, starts_with, str_starts_with, string_from,
    to_lowercase, trim_by, trim_end_by, trim_start_by, ws_pred,
};

verus! {

/// Characters that file systems refuse in a file name.
pub open spec fn is_invalid_name_char(c: char) -> bool {
    c == '<' || c == '>' || c == ':' || c == '"' || c == '/' || c == '\\' || c == '|' || c == '?'
        || c == '*'
}

/// Each refused character replaced by `_`.
pub open spec fn replace_invalid(s: Seq<char>) -> Seq<char> {
    Seq::new(s.len(), |i: int| if is_invalid_name_char(s[i]) { '_' } else { s[i] })
}

pub open spec fn dot_pred() -> spec_fn(char) -> bool {
    |c: char| c == '.'
}

/// The longest name that `sanitize_filename` keeps, in characters.
pub const MAX_NAME_CHARS: usize = 200;

/// `sanitize_filename`: refused characters replaced by `_`, surrounding
/// whitespace removed, then trailing dots removed, then cut to 200 characters.
pub open spec fn sanitized(s: Seq<char>) -> Seq<char> {
    let t = trim_end_by(trim_by(replace_invalid(s), ws_pred()), dot_pred());
    if t.len() > MAX_NAME_CHARS {
        t.take(MAX_NAME_CHARS as int)
    } else {
        t
    }
}

/// `get_video_extension`: the path's extension with a leading dot, or `.mp4`.
pub open spec fn video_extension(p: Seq<char>) -> Seq<char> {
    match path_extension(p) {
        Some(e) => "."@ + e,
        None => ".mp4"@,
    }
}

fn is_invalid_name_char_exec(c: char) -> (r: bool)
    ensures
        r == is_invalid_name_char(c),
{
    c == '<' || c == '>' || c == ':' || c == '"' || c == '/' || c == '\\' || c == '|' || c == '?'
        || c == '*'
}

proof fn lemma_trim_end_prefix(s: Seq<char>, f: spec_fn(char) -> bool, i: int)
    requires
        0 <= i <= s.len(),
        forall|j: int| i <= j < s.len() ==> f(s[j]),
        i == 0 || !f(s[i - 1]),
    ensures
        trim_end_by(s, f) == s.take(i),
    decreases s.len() - i,
{
    if i < s.len() {
        assert(s.drop_last().take(i) =~= s.take(i));
        lemma_trim_end_prefix(s.drop_last(), f, i);
    } else {
        assert(s.take(i) =~= s);
    }
}

proof fn lemma_trim_start_keeps_valid(s: Seq<char>, f: spec_fn(char) -> bool)
    requires
        forall|i: int| 0 <= i < s.len() ==> !is_invalid_name_char(#[trigger] s[i]),
    ensures
        forall|i: int|
            0 <= i < trim_start_by(s, f).len() ==> !is_invalid_name_char(#[trigger] trim_start_by(s, f)[i]),
    decreases s.len(),
{
    if s.len() > 0 && f(s[0]) {
        assert forall|i: int| 0 <= i < s.skip(1).len() implies !is_invalid_name_char(#[trigger] s.skip(1)[i]) by {
            assert(s.skip(1)[i] == s[i + 1]);
        }
        lemma_trim_start_keeps_valid(s.skip(1), f);
        assert(trim_start_by(s, f) == trim_start_by(s.skip(1), f));
    } else {
        assert(trim_start_by(s, f) == s);
    }
}

proof fn lemma_trim_end_keeps_valid(s: Seq<char>, f: spec_fn(char) -> bool)
    requires
        forall|i: int| 0 <= i < s.len() ==> !is_invalid_name_char(#[trigger] s[i]),
    ensures
        forall|i: int|
            0 <= i < trim_end_by(s, f).len() ==> !is_invalid_name_char(#[trigger] trim_end_by(s, f)[i]),
    decreases s.len(),
{
    if s.len() > 0 && f(s.last()) {
        assert forall|i: int| 0 <= i < s.drop_last().len() implies !is_invalid_name_char(
            #[trigger] s.drop_last()[i],
        ) by {
            assert(s.drop_last()[i] == s[i]);
        }
        lemma_trim_end_keeps_valid(s.drop_last(), f);
        assert(trim_end_by(s, f) == trim_end_by(s.drop_last(), f));
    } else {
        assert(trim_end_by(s, f) == s);
    }
}

/// A name made by `sanitize_filename` holds none of the characters that
/// file systems refuse, and is at most 200 characters long.
pub proof fn lemma_sanitized_name_is_safe(s: Seq<char>)
    ensures
        forall|i: int| 0 <= i < sanitized(s).len() ==> !is_invalid_name_char(#[trigger] sanitized(s)[i]),
        sanitized(s).len() <= MAX_NAME_CHARS,
{
    let r = replace_invalid(s);
    assert forall|i: int| 0 <= i < r.len() implies !is_invalid_name_char(#[trigger] r[i]) by {}
    lemma_trim_start_keeps_valid(r, ws_pred());
    let a = trim_start_by(r, ws_pred());
    lemma_trim_end_keeps_valid(a, ws_pred());
    let b = trim_end_by(a, ws_pred());
    assert(b == trim_by(r, ws_pred()));
    lemma_trim_end_keeps_valid(b, dot_pred());
    let t = trim_end_by(b, dot_pred());
    if t.len() > MAX_NAME_CHARS {
        assert forall|i: int| 0 <= i < t.take(MAX_NAME_CHARS as int).len() implies !is_invalid_name_char(
            #[trigger] t.take(MAX_NAME_CHARS as int)[i],
        ) by {
            assert(t.take(MAX_NAME_CHARS as int)[i] == t[i]);
        }
    }
}

/// The file's extension with a leading dot, `.mp4` when it has none.
pub fn get_video_extension(path: &str) -> (r: String)
    ensures
        r@ == video_extension(path@),
{
    match extension(path) {
        Some(e) => concat(".", e.as_str()),
        None => copy_str(".mp4"),
    }
}

/// A name that file systems accept: `< > : " / \ | ? *` become `_`,
/// whitespace around it and dots at its end are removed, and it is cut to
/// 200 characters.
pub fn sanitize_filename(name: &str) -> (r: String)
    ensures
        r@ == sanitized(name@),
{
    let v = chars_of(name);
    let mut mapped: Vec<char> = Vec::new();
    let mut i: usize = 0;
    while i < v.len()
        invariant
            i <= v.len(),
            v@ == name@,
            mapped@ == replace_invalid(v@).take(i as int),
        decreases v.len() - i,
    {
        let c = v[i];
        if is_invalid_name_char_exec(c) {
            mapped.push('_');
        } else {
            mapped.push(c);
        }
        assert(replace_invalid(v@).take(i + 1) =~= replace_invalid(v@).take(i as int).push(
            mapped@.last(),
        ));
        i = i + 1;
    }
    assert(mapped@ =~= replace_invalid(name@));
    let empty: Vec<char> = Vec::new();
    let trimmed = crate::text::trim_chars_vec(&mapped, &empty, true);
    proof {
        assert(crate::text::trim_pred(true, empty@) =~= ws_pred());
    }
    let mut end: usize = trimmed.len();
    while end > 0 && trimmed[end - 1] == '.'
        invariant
            end <= trimmed.len(),
            forall|j: int| end <= j < trimmed.len() ==> trimmed@[j] == '.',
        decreases end,
    {
        end = end - 1;
    }
    proof {
        lemma_trim_end_prefix(trimmed@, dot_pred(), end as int);
    }
    let keep: usize = if end > MAX_NAME_CHARS { MAX_NAME_CHARS } else { end };
    let out = crate::text::slice_chars(&trimmed, 0, keep);
    assert(out@ =~= sanitized(name@));
    string_from(&out)
}

// ---------------------------------------------------------------------------
// Moving and linking
// ---------------------------------------------------------------------------

/// What is known of a source file and its destination before it is moved or
/// linked.
#[derive(Debug, Clone, Copy, PartialEq, Eq)]
pub struct FileFacts {
    /// The source file exists.
    pub source_exists: bool,
    /// Source and destination resolve to the same file.
    pub same_file: bool,
    /// Something is at the destination (for a symbolic link, a dangling link counts).
    pub destination_exists: bool,
    /// The destination holds a file of the same size and modification time.
    pub identical: bool,
}

/// What to do with a file.
#[derive(Debug, Clone, PartialEq, Eq)]
pub enum FilePlan {
    /// Refuse, with this error, touching nothing.
    Refuse(String),
    /// Nothing: the destination already is the source.
    Nothing,
    /// Remove the source: the destination already holds the same file.
    RemoveSource,
    /// Remove what is at the destination, then move or link.
    ReplaceDestination,
    /// Move or link.
    Proceed,
}

/// The error when the source is missing, naming the operation.
pub open spec fn missing_source_error(mode: LinkMode, src: Seq<char>) -> Seq<char> {
    "Source file does not exist: "@ + src + "\nWill not proceed with "@ + (match mode {
        LinkMode::Move => "move"@,
        _ => "link"@,
    }) + " operation to avoid data loss"@
}

/// Whether `r` is the plan for a file: refuse without a source; nothing
/// when the destination is the source; when something is at the
/// destination, a move onto an identical file removes the source and
/// anything else replaces it; else proceed.
pub open spec fn is_file_plan(r: FilePlan, mode: LinkMode, src: Seq<char>, f: FileFacts) -> bool {
    if !f.source_exists {
        r matches FilePlan::Refuse(e) && e@ == missing_source_error(mode, src)
    } else if f.same_file {
        r == FilePlan::Nothing
    } else if f.destination_exists {
        if mode == LinkMode::Move && f.identical {
            r == FilePlan::RemoveSource
        } else {
            r == FilePlan::ReplaceDestination
        }
    } else {
        r == FilePlan::Proceed
    }
}

/// No data loss: something is removed only when the source exists and is
/// not the destination itself; the destination is replaced only when
/// something is there; the source is removed only by a move onto an
/// identical file.
pub proof fn lemma_plan_loses_no_data(r: FilePlan, mode: LinkMode, src: Seq<char>, f: FileFacts)
    requires
        is_file_plan(r, mode, src, f),
    ensures
        (r == FilePlan::ReplaceDestination || r == FilePlan::RemoveSource) ==> f.source_exists
            && !f.same_file && f.destination_exists,
        r == FilePlan::RemoveSource ==> mode == LinkMode::Move && f.identical,
        !f.source_exists ==> r is Refuse,
{
}

/// The plan before moving or linking `src` (the decisions of
/// `move_file`, `create_soft_link` and `create_hard_link`).
pub fn plan_file_operation(mode: LinkMode, src: &str, facts: FileFacts) -> (r: FilePlan)
    ensures
        is_file_plan(r, mode, src@, facts),
{
    if !facts.source_exists {
        let op = match mode {
            LinkMode::Move => "move",
            _ => "link",
        };
        let a = concat("Source file does not exist: ", src);
        let b = concat(a.as_str(), "\nWill not proceed with ");
        let c = concat(b.as_str(), op);
        return FilePlan::Refuse(concat(c.as_str(), " operation to avoid data loss"));
    }
    if facts.same_file {
        FilePlan::Nothing
    } else if facts.destination_exists {
        if mode == LinkMode::Move && facts.identical {
            FilePlan::RemoveSource
        } else {
            FilePlan::ReplaceDestination
        }
    } else {
        FilePlan::Proceed
    }
}

// ---------------------------------------------------------------------------
// Subtitles
// ---------------------------------------------------------------------------

/// The subtitle extensions, lower case.
pub open spec fn subtitle_exts() -> Seq<Seq<char>> {
    seq![
        "smi"@, "srt"@, "idx"@, "sub"@, "sup"@, "psb"@, "ssa"@, "ass"@, "usf"@, "xss"@, "ssf"@,
        "rt"@, "lrc"@, "sbv"@, "vtt"@, "ttml"@,
    ]
}

fn is_subtitle_ext(lower: &str) -> (r: bool)
    ensures
        r == subtitle_exts().contains(lower@),
{
    let exts: [&str; 16] = [
        "smi", "srt", "idx", "sub", "sup", "psb", "ssa", "ass", "usf", "xss", "ssf", "rt", "lrc",
        "sbv", "vtt", "ttml",
    ];
    assert(exts@.map_values(|e: &str| e@) =~= subtitle_exts());
    let mut i: usize = 0;
    while i < 16
        invariant
            i <= 16,
            exts@.map_values(|e: &str| e@) == subtitle_exts(),
            forall|j: int| 0 <= j < i ==> subtitle_exts()[j] != lower@,
        decreases 16 - i,
    {
        assert(exts@.map_values(|e: &str| e@)[i as int] == exts@[i as int]@);
        if crate::text::str_eq(exts[i], lower) {
            assert(subtitle_exts()[i as int] == lower@);
            return true;
        }
        i = i + 1;
    }
    false
}

/// Where a file in the movie's folder goes when it is one of its subtitles:
/// a file with a subtitle extension (in any case) whose stem starts with the
/// movie's stem goes to the destination folder, named after the movie's new
/// base name with its own extension.
pub open spec fn subtitle_destination_of(
    movie_stem: Seq<char>,
    entry: Seq<char>,
    dest_dir: Seq<char>,
    base: Seq<char>,
) -> Option<Seq<char>> {
    match path_extension(entry) {
        Some(ext) => if subtitle_exts().contains(lowercase(ext)) {
            match path_file_stem(entry) {
                Some(stem) => if starts_with(stem, movie_stem) {
                    Some(joined(dest_dir, base + "."@ + ext))
                } else {
                    None
                },
                None => None,
            }
        } else {
            None
        },
        None => None,
    }
}

/// The subtitle extensions are `smi`, `srt`, `idx`, `sub`, `sup`, `psb`,
/// `ssa`, `ass`, `usf`, `xss`, `ssf`, `rt`, `lrc`, `sbv`, `vtt` and `ttml`.
pub open spec fn listed_subtitle_ext(x: Seq<char>) -> bool {
    x == "smi"@ || x == "srt"@ || x == "idx"@ || x == "sub"@ || x == "sup"@ || x == "psb"@ || x == "ssa"@ || x == "ass"@ || x == "usf"@ || x == "xss"@ || x == "ssf"@ || x == "rt"@ || x == "lrc"@ || x == "sbv"@ || x == "vtt"@ || x == "ttml"@
}

proof fn lemma_subtitle_exts_are_listed(x: Seq<char>)
    ensures
        subtitle_exts().contains(x) <==> listed_subtitle_ext(x),
{
    if listed_subtitle_ext(x) {
        if x == "smi"@ {
            assert(subtitle_exts()[0] == x);
        } else if x == "srt"@ {
            assert(subtitle_exts()[1] == x);
        } else if x == "idx"@ {
            assert(subtitle_exts()[2] == x);
        } else if x == "sub"@ {
            assert(subtitle_exts()[3] == x);
        } else if x == "sup"@ {
            assert(subtitle_exts()[4] == x);
        } else if x == "psb"@ {
            assert(subtitle_exts()[5] == x);
        } else if x == "ssa"@ {
            assert(subtitle_exts()[6] == x);
        } else if x == "ass"@ {
            assert(subtitle_exts()[7] == x);
        } else if x == "usf"@ {
            assert(subtitle_exts()[8] == x);
        } else if x == "xss"@ {
            assert(subtitle_exts()[9] == x);
        } else if x == "ssf"@ {
            assert(subtitle_exts()[10] == x);
        } else if x == "rt"@ {
            assert(subtitle_exts()[11] == x);
        } else if x == "lrc"@ {
            assert(subtitle_exts()[12] == x);
        } else if x == "sbv"@ {
            assert(subtitle_exts()[13] == x);
        } else if x == "vtt"@ {
            assert(subtitle_exts()[14] == x);
        } else if x == "ttml"@ {
            assert(subtitle_exts()[15] == x);
        }
    }
    if subtitle_exts().contains(x) {
        let i = choose|i: int| 0 <= i < subtitle_exts().len() && subtitle_exts()[i] == x;
        assert(listed_subtitle_ext(subtitle_exts()[i]));
    }
}

/// A file of the movie's folder follows the movie exactly when its extension,
/// in lower case, is one of the subtitle extensions (`listed_subtitle_ext`)
/// and its stem starts with the movie's stem; it goes into the destination
/// folder as the new base name with its own extension.
pub proof fn lemma_subtitles_follow_the_movie(
    movie_stem: Seq<char>,
    entry: Seq<char>,
    dest_dir: Seq<char>,
    base: Seq<char>,
)
    ensures
        subtitle_destination_of(movie_stem, entry, dest_dir, base) is Some <==> (path_extension(entry)
            is Some && listed_subtitle_ext(lowercase(path_extension(entry)->0)) && path_file_stem(entry)
            is Some && starts_with(path_file_stem(entry)->0, movie_stem)),
        subtitle_destination_of(movie_stem, entry, dest_dir, base) matches Some(d) ==> d == joined(
            dest_dir,
            base + "."@ + path_extension(entry)->0,
        ),
{
    if path_extension(entry) is Some {
        lemma_subtitle_exts_are_listed(lowercase(path_extension(entry)->0));
    }
}

/// The destination of a subtitle of the movie (the selection of
/// `move_subtitles`), or `None` for any other file.
pub fn subtitle_destination(movie_stem: &str, entry: &str, dest_dir: &str, base: &str) -> (r: Option<String>)
    ensures
        match r {
            Some(d) => subtitle_destination_of(movie_stem@, entry@, dest_dir@, base@) == Some(d@),
            None => subtitle_destination_of(movie_stem@, entry@, dest_dir@, base@) is None,
        },
{
    let ext = match extension(entry) {
        Some(e) => e,
        None => {
            return None;
        },
    };
    let lower = to_lowercase(ext.as_str());
    if !is_subtitle_ext(lower.as_str()) {
        return None;
    }
    let stem = match file_stem(entry) {
        Some(s) => s,
        None => {
            return None;
        },
    };
    if !str_starts_with(stem.as_str(), movie_stem) {
        return None;
    }
    let name = crate::text::concat3(base, ".", ext.as_str());
    Some(join_path(dest_dir, name.as_str()))
}

} // verus!
