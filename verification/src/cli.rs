//! Decisions of the command line tool: modes, presets and the default
//! registry order.

use vstd::prelude::*;
use crate::processor::{LinkMode, ProcessingMode};
use crate::registry::{format_of, names, ScraperRegistry};
use crate::scraper::IdFormat;
use crate::text::{copy_str, str_eq, views_of};

verus! {

/// The processing mode a number selects: 1 scraping, 2 organizing, 3 analysis.
pub open spec fn mode_of(n: u8) -> Option<ProcessingMode> {
    if n == 1 {
        Some(ProcessingMode::Scraping)
    } else if n == 2 {
        Some(ProcessingMode::Organizing)
    } else if n == 3 {
        Some(ProcessingMode::Analysis)
    } else {
        None
    }
}

/// The link mode a number selects: 0 move, 1 soft link, 2 hard link.
pub open spec fn link_mode_of(n: u8) -> Option<LinkMode> {
    if n == 0 {
        Some(LinkMode::Move)
    } else if n == 1 {
        Some(LinkMode::SoftLink)
    } else if n == 2 {
        Some(LinkMode::HardLink)
    } else {
        None
    }
}

/// The processing mode of a command line number (`None` for an invalid one).
pub fn processing_mode(n: u8) -> (r: Option<ProcessingMode>)
    ensures
        r == mode_of(n),
{
    match n {
        1 => Some(ProcessingMode::Scraping),
        2 => Some(ProcessingMode::Organizing),
        3 => Some(ProcessingMode::Analysis),
        _ => None,
    }
}

/// The link mode of a command line number (`None` for an invalid one).
pub fn link_mode(n: u8) -> (r: Option<LinkMode>)
    ensures
        r == link_mode_of(n),
{
    match n {
        0 => Some(LinkMode::Move),
        1 => Some(LinkMode::SoftLink),
        2 => Some(LinkMode::HardLink),
        _ => None,
    }
}

/// The location and naming rules of a preset, or `None` for an unknown name.
pub open spec fn preset_of(name: Seq<char>) -> Option<(Seq<char>, Seq<char>)> {
    if name == "jav"@ {
        Some(("actor/year"@, "number-title"@))
    } else if name == "jav-simple"@ {
        Some(("actor"@, "number-title"@))
    } else if name == "studio"@ {
        Some(("studio/actor"@, "number-title"@))
    } else if name == "simple"@ {
        Some(("number"@, "number"@))
    } else {
        None
    }
}

/// The location and naming rules of a named preset (`jav`, `jav-simple`,
/// `studio`, `simple`), or `None` when the name is unknown and the rules
/// given on the command line apply.
pub fn preset_rules(name: &str) -> (r: Option<(String, String)>)
    ensures
        match r {
            Some(p) => preset_of(name@) == Some((p.0@, p.1@)),
            None => preset_of(name@) is None,
        },
{
    if str_eq(name, "jav") {
        Some((copy_str("actor/year"), copy_str("number-title")))
    } else if str_eq(name, "jav-simple") {
        Some((copy_str("actor"), copy_str("number-title")))
    } else if str_eq(name, "studio") {
        Some((copy_str("studio/actor"), copy_str("number-title")))
    } else if str_eq(name, "simple") {
        Some((copy_str("number"), copy_str("number")))
    } else {
        None
    }
}

/// The sources the tool registers, in priority order, with the number form
/// each prefers.
pub open spec fn tool_sources() -> Seq<(Seq<char>, IdFormat)> {
    seq![
        ("dmm"@, IdFormat::Content),
        ("r18dev"@, IdFormat::Display),
        ("javdb"@, IdFormat::Display),
        ("mgstage"@, IdFormat::Display),
        ("javlibrary"@, IdFormat::Content),
        ("javbus"@, IdFormat::Display),
        ("avmoo"@, IdFormat::Display),
        ("jav321"@, IdFormat::Display),
        ("fc2"@, IdFormat::Display),
        ("tokyohot"@, IdFormat::Display),
        ("tmdb"@, IdFormat::Display),
        ("imdb"@, IdFormat::Display),
    ]
}

/// The names of the tool's sources, in priority order.
pub open spec fn tool_names() -> Seq<Seq<char>> {
    tool_sources().map_values(|p: (Seq<char>, IdFormat)| p.0)
}

/// No source name occurs twice in the tool's list.
proof fn lemma_tool_names_distinct()
    ensures
        tool_names().no_duplicates(),
{
    reveal_strlit("dmm");
    reveal_strlit("r18dev");
    reveal_strlit("javdb");
    reveal_strlit("mgstage");
    reveal_strlit("javlibrary");
    reveal_strlit("javbus");
    reveal_strlit("avmoo");
    reveal_strlit("jav321");
    reveal_strlit("fc2");
    reveal_strlit("tokyohot");
    reveal_strlit("tmdb");
    reveal_strlit("imdb");
    let t = tool_names();
    assert(t =~= seq![
        "dmm"@, "r18dev"@, "javdb"@, "mgstage"@, "javlibrary"@, "javbus"@, "avmoo"@, "jav321"@,
        "fc2"@, "tokyohot"@, "tmdb"@, "imdb"@,
    ]);
    assert forall|i: int, j: int| 0 <= i < t.len() && 0 <= j < t.len() && i != j implies t[i] != t[j] by {
        if t[i] == t[j] {
            assert(t[i].len() == t[j].len());
            assert(t[i][0] == t[j][0]);
            assert(t[i][3] == t[j][3]);
        }
    }
}

/// The tool's sources as a list of names and number forms.
fn tool_source_list() -> (r: Vec<(&'static str, IdFormat)>)
    ensures
        r@.map_values(|p: (&str, IdFormat)| (p.0@, p.1)) == tool_sources(),
{
    let v: Vec<(&'static str, IdFormat)> = vec![
        ("dmm", IdFormat::Content),
        ("r18dev", IdFormat::Display),
        ("javdb", IdFormat::Display),
        ("mgstage", IdFormat::Display),
        ("javlibrary", IdFormat::Content),
        ("javbus", IdFormat::Display),
        ("avmoo", IdFormat::Display),
        ("jav321", IdFormat::Display),
        ("fc2", IdFormat::Display),
        ("tokyohot", IdFormat::Display),
        ("tmdb", IdFormat::Display),
        ("imdb", IdFormat::Display),
    ];
    assert(v@.map_values(|p: (&str, IdFormat)| (p.0@, p.1)) =~= tool_sources());
    v
}

/// The registry of the command line tool: exactly its sources, each with its
/// number form, searched by default in priority order.
pub fn default_registry() -> (r: ScraperRegistry)
    ensures
        r.wf(),
        views_of(r.default_sources@) == tool_names(),
        forall|n: Seq<char>| #[trigger] names(r.scrapers@).contains(n) <==> tool_names().contains(n),
        forall|i: int|
            0 <= i < tool_sources().len() ==> #[trigger] format_of(r.scrapers@, tool_sources()[i].0)
                == Some(tool_sources()[i].1),
{
    let list = tool_source_list();
    let ghost ts = tool_sources();
    proof {
        lemma_tool_names_distinct();
    }
    let mut r = ScraperRegistry::new();
    assert(views_of(r.default_sources@) =~= tool_names().take(0));
    let mut i: usize = 0;
    while i < list.len()
        invariant
            i <= list.len(),
            list@.map_values(|p: (&str, IdFormat)| (p.0@, p.1)) == ts,
            ts == tool_sources(),
            tool_names().no_duplicates(),
            r.wf(),
            views_of(r.default_sources@) == tool_names().take(i as int),
            forall|n: Seq<char>| #[trigger] names(r.scrapers@).contains(n) <==> tool_names().take(i as int).contains(n),
            forall|j: int| 0 <= j < i ==> #[trigger] format_of(r.scrapers@, ts[j].0) == Some(ts[j].1),
        decreases list.len() - i,
    {
        let (name, format) = list[i];
        proof {
            assert(ts[i as int] == (name@, format));
            assert(tool_names()[i as int] == name@);
            assert(tool_names().take(i + 1) =~= tool_names().take(i as int).push(name@));
            assert(!tool_names().take(i as int).contains(name@)) by {
                if tool_names().take(i as int).contains(name@) {
                    let k = choose|k: int| 0 <= k < i && #[trigger] tool_names().take(i as int)[k] == name@;
                    assert(tool_names()[k] == tool_names()[i as int]);
                }
            }
        }
        let ghost before = r.scrapers@;
        r.register(name, format);
        proof {
            assert forall|j: int| 0 <= j < i + 1 implies #[trigger] format_of(r.scrapers@, ts[j].0) == Some(ts[j].1) by {
                if j < i {
                    assert(tool_names()[j] == ts[j].0);
                    assert(ts[j].0 != name@);
                    assert(format_of(before, ts[j].0) == Some(ts[j].1));
                }
            }
            assert forall|n: Seq<char>| #[trigger] names(r.scrapers@).contains(n) <==> tool_names().take(i + 1).contains(n) by {
                if tool_names().take(i as int).contains(n) {
                    let k = choose|k: int| 0 <= k < i && #[trigger] tool_names().take(i as int)[k] == n;
                    assert(tool_names().take(i + 1)[k] == n);
                }
                if tool_names().take(i + 1).contains(n) && n != name@ {
                    let k = choose|k: int| 0 <= k < i + 1 && #[trigger] tool_names().take(i + 1)[k] == n;
                    assert(tool_names().take(i as int)[k] == n);
                }
                assert(tool_names().take(i + 1)[i as int] == name@);
            }
        }
        i = i + 1;
    }
    assert(tool_names().take(i as int) =~= tool_names());
    r
}

} // verus!
