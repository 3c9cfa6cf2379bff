//! Which files of a directory tree are movies to process.
//!
//! Walking the tree and reading file metadata happen outside the library;
//! each file found is described by a [`ScanEntry`], and the rules below decide
//! which entries are kept and what is counted.

use vstd::prelude::*;
use crate::number_parser::{get_number, legacy_config, number_id, parsed_number};
use crate::rx::{compiles, is_match, regex_compiles, regex_is_match, rx_match};
use crate::text::{
    chars_of, concat, copy_str, split_on, split_on_str, str_eq, str_starts_with, starts_with,
    to_lowercase, trim, trim_str, unicode_lower, views_of,
};

verus! {

/// Scanner settings.
#[derive(Debug, Clone)]
pub struct ScannerConfig {
    /// Folder to scan.
    pub source_folder: String,
    /// Media file extensions with their dot (`.mp4`, ...).
    pub media_types: Vec<String>,
    /// Main mode (1 scraping, 2 organizing, 3 analysis).
    pub main_mode: i32,
    /// Link mode (0 move, 1 soft link, 2 hard link).
    pub link_mode: i32,
    /// Skip files whose NFO was modified within this many days.
    pub nfo_skip_days: i32,
    /// The list of files that failed before.
    pub failed_list_path: Option<String>,
    /// Ignore the failed list.
    pub ignore_failed_list: bool,
    /// Folder of processed movies (for the NFO check in link modes).
    pub success_folder: Option<String>,
    /// Folder names whose files are skipped.
    pub escape_folders: Vec<String>,
    /// Keep files with several hard links.
    pub scan_hardlink: bool,
    /// Regular expression that kept paths must match.
    pub cli_regex: Option<String>,
    /// Debug output.
    pub debug: bool,
}

/// The extensions scanned by default.
pub open spec fn default_media_types() -> Seq<Seq<char>> {
    seq![
        ".mp4"@, ".avi"@, ".rmvb"@, ".wmv"@, ".mov"@, ".mkv"@, ".flv"@, ".ts"@, ".webm"@, ".iso"@,
        ".mpg"@, ".m4v"@,
    ]
}

impl Default for ScannerConfig {
    fn default() -> (r: Self)
        ensures
            r.source_folder@ == "."@,
            views_of(r.media_types@) == default_media_types(),
            r.main_mode == 1,
            r.link_mode == 0,
            r.nfo_skip_days == 0,
            r.failed_list_path is None,
            !r.ignore_failed_list,
            r.success_folder is None,
            r.escape_folders@.len() == 0,
            !r.scan_hardlink,
            r.cli_regex is None,
            !r.debug,
    {
        let media_types: Vec<String> = vec![
            copy_str(".mp4"),
            copy_str(".avi"),
            copy_str(".rmvb"),
            copy_str(".wmv"),
            copy_str(".mov"),
            copy_str(".mkv"),
            copy_str(".flv"),
            copy_str(".ts"),
            copy_str(".webm"),
            copy_str(".iso"),
            copy_str(".mpg"),
            copy_str(".m4v"),
        ];
        assert(views_of(media_types@) =~= default_media_types());
        ScannerConfig {
            source_folder: copy_str("."),
            media_types,
            main_mode: 1,
            link_mode: 0,
            nfo_skip_days: 0,
            failed_list_path: None,
            ignore_failed_list: false,
            success_folder: None,
            escape_folders: Vec::new(),
            scan_hardlink: false,
            cli_regex: None,
            debug: false,
        }
    }
}

/// Counts of a scan.
#[derive(Debug, Default, Clone, Copy, PartialEq, Eq)]
pub struct ScanStats {
    /// Files kept.
    pub total_files: usize,
    /// Files skipped because they are in the failed list.
    pub skip_failed: usize,
    /// Files skipped because their NFO is recent.
    pub skip_nfo_days: usize,
    /// Files skipped because a recent NFO of the same number is in the
    /// success folder.
    pub skip_success_nfo: usize,
}

/// What the walk found out about one entry of the tree.
#[derive(Debug, Clone)]
pub struct ScanEntry {
    /// The path, as text.
    pub path: String,
    /// Whether it is a regular file.
    pub is_file: bool,
    /// The names of the folders that contain it.
    pub parent_components: Vec<String>,
    /// Its extension, when it has one.
    pub extension: Option<String>,
    /// Its file name, when it has one.
    pub file_name: Option<String>,
    /// Whether it is a symbolic link.
    pub is_symlink: bool,
    /// Whether it has more than one hard link.
    pub has_hardlinks: bool,
    /// Age in days of the `.nfo` file beside it, when that file exists and
    /// its age could be read.
    pub nfo_days: Option<i32>,
}

/// What becomes of one entry.
#[derive(Debug, Clone, Copy, PartialEq, Eq, Structural)]
pub enum EntryVerdict {
    /// Kept for processing.
    Keep,
    /// Not a movie file to consider (not a file, escaped folder, other
    /// extension, link, filtered out, trailer).
    Ignore,
    /// In the failed list.
    SkipFailed,
    /// Its NFO was modified recently.
    SkipNfoDays,
}

/// Trailers are recognised by `-trailer.` in the file name, in any case.
pub const TRAILER_PATTERN: &'static str = "(?i)-trailer\\.";

/// Whether the sequence holds an element equal to `x`.
pub open spec fn has_text(v: Seq<String>, x: Seq<char>) -> bool {
    exists|i: int| 0 <= i < v.len() && v[i]@ == x
}

/// The extension as compared with the media types: a dot, then the
/// extension in lower case; empty when there is none.
pub open spec fn dotted_ext(ext: Option<String>) -> Seq<char> {
    match ext {
        Some(e) => "."@ + unicode_lower(e@),
        None => Seq::empty(),
    }
}

/// Whether a folder of the entry's parent path is one of the escaped ones.
pub open spec fn in_escaped_folder(parents: Seq<String>, escape: Seq<String>) -> bool {
    exists|i: int| 0 <= i < parents.len() && has_text(escape, #[trigger] parents[i]@)
}

/// The scanning rule for one entry, in the order the checks are made.
pub open spec fn entry_verdict(c: ScannerConfig, e: ScanEntry, failed: Seq<String>) -> EntryVerdict {
    if !e.is_file {
        EntryVerdict::Ignore
    } else if c.main_mode != 3 && in_escaped_folder(e.parent_components@, c.escape_folders@) {
        EntryVerdict::Ignore
    } else if !has_text(c.media_types@, dotted_ext(e.extension)) {
        EntryVerdict::Ignore
    } else if has_text(failed, e.path@) {
        EntryVerdict::SkipFailed
    } else if c.main_mode != 3 && (e.is_symlink || (e.has_hardlinks && !c.scan_hardlink)) {
        EntryVerdict::Ignore
    } else if (match c.cli_regex {
        Some(p) => regex_compiles(p@) && !regex_is_match(p@, e.path@),
        None => false,
    }) {
        EntryVerdict::Ignore
    } else if (match e.file_name {
        Some(n) => rx_match(TRAILER_PATTERN@, n@),
        None => false,
    }) {
        EntryVerdict::Ignore
    } else if c.main_mode == 3 && c.nfo_skip_days > 0 && (match e.nfo_days {
        Some(d) => d <= c.nfo_skip_days,
        None => false,
    }) {
        EntryVerdict::SkipNfoDays
    } else {
        EntryVerdict::Keep
    }
}

/// Whether the failed list is read: in analysis mode or a link mode, unless
/// it is ignored.
pub open spec fn uses_failed_list(c: ScannerConfig) -> bool {
    c.failed_list_path is Some && (c.main_mode == 3 || c.link_mode > 0) && !c.ignore_failed_list
}

/// Whether kept files are checked against the success folder's NFOs.
pub open spec fn checks_success_nfo(c: ScannerConfig) -> bool {
    c.nfo_skip_days > 0 && c.link_mode > 0 && c.main_mode != 3 && c.success_folder is Some
}

/// The paths kept from a sequence of entries, in order.
pub open spec fn kept_paths(c: ScannerConfig, entries: Seq<ScanEntry>, failed: Seq<String>) -> Seq<Seq<char>>
    decreases entries.len(),
{
    if entries.len() == 0 {
        Seq::empty()
    } else {
        let rest = kept_paths(c, entries.drop_last(), failed);
        if entry_verdict(c, entries.last(), failed) == EntryVerdict::Keep {
            rest.push(entries.last().path@)
        } else {
            rest
        }
    }
}

/// How many entries get a verdict.
pub open spec fn count_verdict(
    c: ScannerConfig,
    entries: Seq<ScanEntry>,
    failed: Seq<String>,
    v: EntryVerdict,
) -> nat
    decreases entries.len(),
{
    if entries.len() == 0 {
        0
    } else {
        count_verdict(c, entries.drop_last(), failed, v) + if entry_verdict(
            c,
            entries.last(),
            failed,
        ) == v {
            1nat
        } else {
            0nat
        }
    }
}

/// The lines of the failed list, trimmed, without empty ones.
pub open spec fn failed_entries(lines: Seq<Seq<char>>) -> Seq<Seq<char>>
    decreases lines.len(),
{
    if lines.len() == 0 {
        Seq::empty()
    } else {
        let rest = failed_entries(lines.drop_last());
        let t = trim(lines.last());
        if t.len() > 0 {
            rest.push(t)
        } else {
            rest
        }
    }
}

/// The entries of a failed-list file: each line trimmed, empty lines left out.
pub fn parse_failed_list(content: &str) -> (r: Vec<String>)
    ensures
        views_of(r@) == failed_entries(split_on(content@, '\n')),
{
    let lines = split_on_str(content, '\n');
    let mut out: Vec<String> = Vec::new();
    let mut i: usize = 0;
    while i < lines.len()
        invariant
            i <= lines.len(),
            views_of(lines@) == split_on(content@, '\n'),
            views_of(out@) == failed_entries(views_of(lines@).take(i as int)),
        decreases lines.len() - i,
    {
        proof {
            assert(views_of(lines@).take(i + 1).drop_last() =~= views_of(lines@).take(i as int));
            assert(views_of(lines@).take(i + 1).last() == lines@[i as int]@);
        }
        let t = trim_str(lines[i].as_str());
        if !t.as_str().is_empty() {
            let ghost before = out@;
            out.push(t);
            proof {
                assert(views_of(out@) =~= views_of(before).push(t@));
            }
        }
        i = i + 1;
    }
    assert(views_of(lines@).take(lines.len() as int) =~= views_of(lines@));
    out
}

fn contains_text(v: &Vec<String>, x: &str) -> (r: bool)
    ensures
        r == has_text(v@, x@),
{
    let mut i: usize = 0;
    while i < v.len()
        invariant
            i <= v.len(),
            forall|j: int| 0 <= j < i ==> v@[j]@ != x@,
        decreases v.len() - i,
    {
        if str_eq(v[i].as_str(), x) {
            return true;
        }
        i = i + 1;
    }
    false
}

fn any_escaped(parents: &Vec<String>, escape: &Vec<String>) -> (r: bool)
    ensures
        r == in_escaped_folder(parents@, escape@),
{
    let mut i: usize = 0;
    while i < parents.len()
        invariant
            i <= parents.len(),
            forall|j: int| 0 <= j < i ==> !has_text(escape@, #[trigger] parents@[j]@),
        decreases parents.len() - i,
    {
        if contains_text(escape, parents[i].as_str()) {
            return true;
        }
        i = i + 1;
    }
    false
}

fn dotted_ext_exec(ext: &Option<String>) -> (r: String)
    ensures
        r@ == dotted_ext(*ext),
{
    match ext {
        Some(e) => {
            let l = to_lowercase(e.as_str());
            concat(".", l.as_str())
        },
        None => String::new(),
    }
}

/// Media types given with or without their dot, each with one.
pub open spec fn with_dot(t: Seq<char>) -> Seq<char> {
    if starts_with(t, "."@) {
        t
    } else {
        "."@ + t
    }
}

/// Each media type with a leading dot (`mp4` becomes `.mp4`).
pub fn normalize_media_types(media_types: &Vec<String>) -> (r: Vec<String>)
    ensures
        r@.len() == media_types@.len(),
        forall|i: int| 0 <= i < r@.len() ==> #[trigger] r@[i]@ == with_dot(media_types@[i]@),
{
    let mut out: Vec<String> = Vec::new();
    let mut i: usize = 0;
    while i < media_types.len()
        invariant
            i <= media_types.len(),
            out@.len() == i,
            forall|j: int| 0 <= j < i ==> #[trigger] out@[j]@ == with_dot(media_types@[j]@),
        decreases media_types.len() - i,
    {
        let t = media_types[i].as_str();
        if str_starts_with(t, ".") {
            out.push(copy_str(t));
        } else {
            out.push(concat(".", t));
        }
        i = i + 1;
    }
    out
}

/// A scanner over one configuration.
#[derive(Debug, Clone)]
pub struct Scanner {
    /// Its settings.
    pub config: ScannerConfig,
}

impl Scanner {
    /// A scanner with the given settings.
    pub fn new(config: ScannerConfig) -> (r: Self)
        ensures
            r.config == config,
    {
        Scanner { config }
    }

    /// Whether the failed list is read for this scan.
    pub fn reads_failed_list(&self) -> (r: bool)
        ensures
            r == uses_failed_list(self.config),
    {
        self.config.failed_list_path.is_some() && (self.config.main_mode == 3
            || self.config.link_mode > 0) && !self.config.ignore_failed_list
    }

    /// Whether kept files are then checked against the success folder.
    pub fn checks_success_folder(&self) -> (r: bool)
        ensures
            r == checks_success_nfo(self.config),
    {
        self.config.nfo_skip_days > 0 && self.config.link_mode > 0 && self.config.main_mode != 3
            && self.config.success_folder.is_some()
    }

    /// The verdict on one entry of the tree.
    pub fn check_entry(&self, e: &ScanEntry, failed: &Vec<String>) -> (r: EntryVerdict)
        ensures
            r == entry_verdict(self.config, *e, failed@),
    {
        let c = &self.config;
        if !e.is_file {
            return EntryVerdict::Ignore;
        }
        if c.main_mode != 3 && any_escaped(&e.parent_components, &c.escape_folders) {
            return EntryVerdict::Ignore;
        }
        let ext = dotted_ext_exec(&e.extension);
        if !contains_text(&c.media_types, ext.as_str()) {
            return EntryVerdict::Ignore;
        }
        if contains_text(failed, e.path.as_str()) {
            return EntryVerdict::SkipFailed;
        }
        if c.main_mode != 3 && (e.is_symlink || (e.has_hardlinks && !c.scan_hardlink)) {
            return EntryVerdict::Ignore;
        }
        match &c.cli_regex {
            Some(p) => {
                if compiles(p.as_str()) && !is_match(p.as_str(), e.path.as_str()) {
                    return EntryVerdict::Ignore;
                }
            },
            None => {},
        }
        match &e.file_name {
            Some(n) => {
                if is_match(TRAILER_PATTERN, n.as_str()) {
                    return EntryVerdict::Ignore;
                }
            },
            None => {},
        }
        if c.main_mode == 3 && c.nfo_skip_days > 0 {
            match e.nfo_days {
                Some(d) => {
                    if d <= c.nfo_skip_days {
                        return EntryVerdict::SkipNfoDays;
                    }
                },
                None => {},
            }
        }
        EntryVerdict::Keep
    }

    /// The paths kept from the entries of a walk, in order, with the counts
    /// of kept files, failed-list skips and NFO-age skips.
    pub fn scan_entries(&self, entries: &Vec<ScanEntry>, failed: &Vec<String>) -> (r: (
        Vec<String>,
        ScanStats,
    ))
        ensures
            views_of(r.0@) == kept_paths(self.config, entries@, failed@),
            r.1.total_files == r.0@.len(),
            r.1.skip_failed == count_verdict(self.config, entries@, failed@, EntryVerdict::SkipFailed),
            r.1.skip_nfo_days == count_verdict(
                self.config,
                entries@,
                failed@,
                EntryVerdict::SkipNfoDays,
            ),
            r.1.skip_success_nfo == 0,
    {
        let mut kept: Vec<String> = Vec::new();
        let mut skip_failed: usize = 0;
        let mut skip_nfo: usize = 0;
        let mut i: usize = 0;
        while i < entries.len()
            invariant
                i <= entries.len(),
                views_of(kept@) == kept_paths(self.config, entries@.take(i as int), failed@),
                skip_failed == count_verdict(
                    self.config,
                    entries@.take(i as int),
                    failed@,
                    EntryVerdict::SkipFailed,
                ),
                skip_nfo == count_verdict(
                    self.config,
                    entries@.take(i as int),
                    failed@,
                    EntryVerdict::SkipNfoDays,
                ),
                kept@.len() + skip_failed + skip_nfo <= i,
            decreases entries.len() - i,
        {
            proof {
                assert(entries@.take(i + 1).drop_last() =~= entries@.take(i as int));
                assert(entries@.take(i + 1).last() == entries@[i as int]);
            }
            let v = self.check_entry(&entries[i], failed);
            match v {
                EntryVerdict::Keep => {
                    let ghost before = kept@;
                    kept.push(copy_str(entries[i].path.as_str()));
                    proof {
                        assert(views_of(kept@) =~= views_of(before).push(entries@[i as int].path@));
                    }
                },
                EntryVerdict::SkipFailed => {
                    skip_failed = skip_failed + 1;
                },
                EntryVerdict::SkipNfoDays => {
                    skip_nfo = skip_nfo + 1;
                },
                EntryVerdict::Ignore => {},
            }
            i = i + 1;
        }
        assert(entries@.take(entries.len() as int) =~= entries@);
        let stats = ScanStats {
            total_files: kept.len(),
            skip_failed,
            skip_nfo_days: skip_nfo,
            skip_success_nfo: 0,
        };
        (kept, stats)
    }
}

/// The number that the legacy parser reads from a name, if any.
pub open spec fn number_in(name: Seq<char>) -> Option<Seq<char>> {
    match number_id(parsed_number(name, legacy_config(None))) {
        Ok(n) => Some(n),
        Err(_) => None,
    }
}

/// The lower-cased numbers of the recent NFOs of the success folder.
pub open spec fn recent_numbers(nfos: Seq<(String, i32)>, days: i32) -> Seq<Seq<char>>
    decreases nfos.len(),
{
    if nfos.len() == 0 {
        Seq::empty()
    } else {
        let rest = recent_numbers(nfos.drop_last(), days);
        let (stem, age) = nfos.last();
        if age <= days {
            match number_in(stem@) {
                Some(n) => rest.push(unicode_lower(n)),
                None => rest,
            }
        } else {
            rest
        }
    }
}

/// Whether a kept file is skipped by the success-folder check: its name has
/// a number that one of the recent NFOs also has.
pub open spec fn processed_recently(file_name: Option<Seq<char>>, recent: Seq<Seq<char>>) -> bool {
    match file_name {
        Some(n) => match number_in(n) {
            Some(num) => recent.contains(unicode_lower(num)),
            None => false,
        },
        None => false,
    }
}

fn number_in_exec(name: &str) -> (r: Option<String>)
    ensures
        r matches Some(n) ==> number_in(name@) == Some(n@),
        r is None ==> number_in(name@) is None,
{
    match get_number(name, None) {
        Ok(n) => Some(n),
        Err(_) => None,
    }
}

fn seq_contains_text(v: &Vec<String>, x: &str) -> (r: bool)
    ensures
        r == views_of(v@).contains(x@),
{
    let b = contains_text(v, x);
    proof {
        if b {
            let i = choose|i: int| 0 <= i < v@.len() && v@[i]@ == x@;
            assert(views_of(v@)[i] == x@);
        } else {
            if views_of(v@).contains(x@) {
                let i = choose|i: int| 0 <= i < views_of(v@).len() && views_of(v@)[i] == x@;
                assert(v@[i]@ == x@);
            }
        }
    }
    b
}

impl Scanner {
    /// The lower-cased numbers of the success folder's NFOs (stem and age in
    /// days) that were modified within the configured number of days.
    pub fn recent_success_numbers(&self, nfos: &Vec<(String, i32)>) -> (r: Vec<String>)
        ensures
            views_of(r@) == recent_numbers(nfos@, self.config.nfo_skip_days),
    {
        let mut out: Vec<String> = Vec::new();
        let mut i: usize = 0;
        while i < nfos.len()
            invariant
                i <= nfos.len(),
                views_of(out@) == recent_numbers(nfos@.take(i as int), self.config.nfo_skip_days),
            decreases nfos.len() - i,
        {
            proof {
                assert(nfos@.take(i + 1).drop_last() =~= nfos@.take(i as int));
                assert(nfos@.take(i + 1).last() == nfos@[i as int]);
            }
            if nfos[i].1 <= self.config.nfo_skip_days {
                match number_in_exec(nfos[i].0.as_str()) {
                    Some(n) => {
                        let l = to_lowercase(n.as_str());
                        let ghost before = out@;
                        out.push(l);
                        proof {
                            assert(views_of(out@) =~= views_of(before).push(l@));
                        }
                    },
                    None => {},
                }
            }
            i = i + 1;
        }
        assert(nfos@.take(nfos.len() as int) =~= nfos@);
        out
    }

    /// The kept files (path and file name) whose number was not processed
    /// recently, in order; `stats` counts the others.
    pub fn filter_by_success_nfo(
        &self,
        results: &Vec<(String, Option<String>)>,
        recent: &Vec<String>,
        stats: &mut ScanStats,
    ) -> (r: Vec<String>)
        requires
            old(stats).skip_success_nfo + results.len() <= usize::MAX,
        ensures
            views_of(r@) == unprocessed(results@, views_of(recent@)),
            final(stats).skip_success_nfo == old(stats).skip_success_nfo + results@.len() - r@.len(),
            final(stats).total_files == old(stats).total_files,
            final(stats).skip_failed == old(stats).skip_failed,
            final(stats).skip_nfo_days == old(stats).skip_nfo_days,
    {
        let mut out: Vec<String> = Vec::new();
        let mut i: usize = 0;
        while i < results.len()
            invariant
                i <= results.len(),
                stats.total_files == old(stats).total_files,
                stats.skip_failed == old(stats).skip_failed,
                stats.skip_nfo_days == old(stats).skip_nfo_days,
                stats.skip_success_nfo == old(stats).skip_success_nfo + i - out@.len(),
                out@.len() <= i,
                old(stats).skip_success_nfo + results.len() <= usize::MAX,
                views_of(out@) == unprocessed(results@.take(i as int), views_of(recent@)),
            decreases results.len() - i,
        {
            proof {
                assert(results@.take(i + 1).drop_last() =~= results@.take(i as int));
                assert(results@.take(i + 1).last() == results@[i as int]);
            }
            let skip = match &results[i].1 {
                Some(name) => match number_in_exec(name.as_str()) {
                    Some(num) => {
                        let l = to_lowercase(num.as_str());
                        seq_contains_text(recent, l.as_str())
                    },
                    None => false,
                },
                None => false,
            };
            if skip {
                stats.skip_success_nfo = stats.skip_success_nfo + 1;
            } else {
                let ghost before = out@;
                out.push(copy_str(results[i].0.as_str()));
                proof {
                    assert(views_of(out@) =~= views_of(before).push(results@[i as int].0@));
                }
            }
            i = i + 1;
        }
        assert(results@.take(results.len() as int) =~= results@);
        out
    }
}

/// The paths of the results that were not processed recently, in order.
pub open spec fn unprocessed(results: Seq<(String, Option<String>)>, recent: Seq<Seq<char>>) -> Seq<Seq<char>>
    decreases results.len(),
{
    if results.len() == 0 {
        Seq::empty()
    } else {
        let rest = unprocessed(results.drop_last(), recent);
        if processed_recently(crate::number_parser::opt_view(results.last().1), recent) {
            rest
        } else {
            rest.push(results.last().0@)
        }
    }
}

} // verus!
