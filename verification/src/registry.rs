//! The registry of metadata sources: which sources are known, in which order
//! they are tried, and which form of the number each one is given.
//!
//! The scrapers themselves run outside the library; the registry knows each
//! by its name and the number form it prefers.

use vstd::prelude::*;
use crate::scraper::IdFormat;
use crate::metadata::{valid_metadata, MovieMetadata};
use crate::text::{contains, copy_str, lowercase, str_contains, str_eq, to_lowercase, views_of};

verus! {

/// Known sources and their default order.
#[derive(Debug, Clone)]
pub struct ScraperRegistry {
    /// Each registered source with the number form it prefers, one entry per name.
    pub scrapers: Vec<(String, IdFormat)>,
    /// The sources tried when none are given, in order.
    pub default_sources: Vec<String>,
}

/// The names of a list of sources.
pub open spec fn names(v: Seq<(String, IdFormat)>) -> Seq<Seq<char>> {
    v.map_values(|p: (String, IdFormat)| p.0@)
}

/// The number form registered for a name (the last entry of that name).
pub open spec fn format_of(v: Seq<(String, IdFormat)>, name: Seq<char>) -> Option<IdFormat>
    decreases v.len(),
{
    if v.len() == 0 {
        None
    } else if v.last().0@ == name {
        Some(v.last().1)
    } else {
        format_of(v.drop_last(), name)
    }
}

/// The first registered name that the text contains.
pub open spec fn first_contained(v: Seq<(String, IdFormat)>, text: Seq<char>) -> Option<Seq<char>>
    decreases v.len(),
{
    if v.len() == 0 {
        None
    } else if contains(text, v[0].0@) {
        Some(v[0].0@)
    } else {
        first_contained(v.skip(1), text)
    }
}

/// The source of a few well-known domains (empty for others).
pub open spec fn known_domain_source(l: Seq<char>) -> Seq<char> {
    if contains(l, "themoviedb.org"@) {
        "tmdb"@
    } else if contains(l, "imdb.com"@) {
        "imdb"@
    } else if contains(l, "javlibrary.com"@) {
        "javlibrary"@
    } else if contains(l, "javbus.com"@) || contains(l, "javsee.com"@) {
        "javbus"@
    } else if contains(l, "avmoo.com"@) || contains(l, "avso.pw"@) {
        "avmoo"@
    } else if contains(l, "fc2.com"@) || contains(l, "fc2club"@) {
        "fc2"@
    } else if contains(l, "tokyo-hot.com"@) {
        "tokyohot"@
    } else {
        Seq::empty()
    }
}

/// The source a URL belongs to.
pub open spec fn inferred_source(v: Seq<(String, IdFormat)>, url: Seq<char>) -> Option<Seq<char>> {
    let l = lowercase(url);
    match first_contained(v, l) {
        Some(s) => Some(s),
        None => if known_domain_source(l).len() > 0 {
            Some(known_domain_source(l))
        } else {
            None
        },
    }
}

/// The sources a search tries, in order.
pub open spec fn search_order(
    r: ScraperRegistry,
    sources: Option<Seq<Seq<char>>>,
    url: Option<Seq<char>>,
) -> Seq<Seq<char>> {
    match url {
        Some(u) => seq![
            match inferred_source(r.scrapers@, u) {
                Some(s) => s,
                None => "unknown"@,
            },
        ],
        None => match sources {
            Some(l) => l.filter(|s: Seq<char>| names(r.scrapers@).contains(s)),
            None => views_of(r.default_sources@),
        },
    }
}

/// Each source of `order` that is registered, with the number in the form
/// it prefers.
pub open spec fn attempts(
    v: Seq<(String, IdFormat)>,
    order: Seq<Seq<char>>,
    display: Seq<char>,
    content: Seq<char>,
) -> Seq<(Seq<char>, Seq<char>)>
    decreases order.len(),
{
    if order.len() == 0 {
        Seq::empty()
    } else {
        let rest = attempts(v, order.drop_last(), display, content);
        match format_of(v, order.last()) {
            Some(IdFormat::Display) => rest.push((order.last(), display)),
            Some(IdFormat::Content) => rest.push((order.last(), content)),
            None => rest,
        }
    }
}

pub open spec fn pair_views(v: Seq<(String, String)>) -> Seq<(Seq<char>, Seq<char>)> {
    v.map_values(|p: (String, String)| (p.0@, p.1@))
}

pub open spec fn opt_strings_view(o: Option<Vec<String>>) -> Option<Seq<Seq<char>>> {
    match o {
        Some(v) => Some(views_of(v@)),
        None => None,
    }
}

pub open spec fn opt_str_view(o: Option<&str>) -> Option<Seq<char>> {
    match o {
        Some(s) => Some(s@),
        None => None,
    }
}

proof fn lemma_format_of_found(v: Seq<(String, IdFormat)>, name: Seq<char>, i: int)
    requires
        names(v).no_duplicates(),
        0 <= i < v.len(),
        v[i].0@ == name,
    ensures
        format_of(v, name) == Some(v[i].1),
    decreases v.len(),
{
    if i < v.len() - 1 {
        assert(names(v)[i] == name);
        assert(names(v)[v.len() - 1] == v.last().0@);
        assert(v.last().0@ != name);
        assert(names(v.drop_last()) =~= names(v).drop_last());
        lemma_format_of_found(v.drop_last(), name, i);
    }
}

proof fn lemma_format_of_missing(v: Seq<(String, IdFormat)>, name: Seq<char>)
    requires
        !names(v).contains(name),
    ensures
        format_of(v, name) is None,
    decreases v.len(),
{
    if v.len() > 0 {
        assert(names(v)[v.len() - 1] == v.last().0@);
        assert(names(v.drop_last()) =~= names(v).drop_last());
        if names(v.drop_last()).contains(name) {
            let k = choose|k: int| 0 <= k < names(v.drop_last()).len() && names(v.drop_last())[k] == name;
            assert(names(v)[k] == name);
        }
        lemma_format_of_missing(v.drop_last(), name);
    }
}

proof fn lemma_format_of_update(v: Seq<(String, IdFormat)>, i: int, p: (String, IdFormat), n: Seq<char>)
    requires
        0 <= i < v.len(),
        v[i].0@ == p.0@,
    ensures
        format_of(v.update(i, p), n) == (if n == p.0@ {
            if i == v.len() - 1 || format_of(v.subrange(i + 1, v.len() as int), n) is None {
                Some(p.1)
            } else {
                format_of(v, n)
            }
        } else {
            format_of(v, n)
        }),
    decreases v.len(),
{
    let w = v.update(i, p);
    if i == v.len() - 1 {
        assert(w.drop_last() =~= v.drop_last());
    } else {
        assert(w.drop_last() =~= v.drop_last().update(i, p));
        lemma_format_of_update(v.drop_last(), i, p, n);
        assert(v.drop_last().subrange(i + 1, v.len() - 1) =~= v.subrange(i + 1, v.len() - 1));
        let tail = v.subrange(i + 1, v.len() as int);
        assert(tail.drop_last() =~= v.subrange(i + 1, v.len() - 1));
        assert(tail.last() == v.last());
    }
}

fn contains_name(v: &Vec<String>, x: &str) -> (r: bool)
    ensures
        r == views_of(v@).contains(x@),
{
    let mut i: usize = 0;
    while i < v.len()
        invariant
            i <= v.len(),
            forall|j: int| 0 <= j < i ==> v@[j]@ != x@,
        decreases v.len() - i,
    {
        if str_eq(v[i].as_str(), x) {
            proof {
                assert(views_of(v@)[i as int] == x@);
            }
            return true;
        }
        i = i + 1;
    }
    proof {
        if views_of(v@).contains(x@) {
            let k = choose|k: int| 0 <= k < views_of(v@).len() && views_of(v@)[k] == x@;
            assert(v@[k]@ == x@);
        }
    }
    false
}

fn copy_names(v: &Vec<String>) -> (r: Vec<String>)
    ensures
        views_of(r@) == views_of(v@),
{
    let mut out: Vec<String> = Vec::new();
    let mut i: usize = 0;
    while i < v.len()
        invariant
            i <= v.len(),
            views_of(out@) == views_of(v@).take(i as int),
        decreases v.len() - i,
    {
        let ghost before = out@;
        out.push(copy_str(v[i].as_str()));
        proof {
            assert(views_of(out@) =~= views_of(before).push(v@[i as int]@));
            assert(views_of(v@).take(i + 1) =~= views_of(v@).take(i as int).push(v@[i as int]@));
        }
        i = i + 1;
    }
    assert(views_of(v@).take(v.len() as int) =~= views_of(v@));
    out
}

fn known_domain(l: &str) -> (r: String)
    ensures
        r@ == known_domain_source(l@),
{
    if str_contains(l, "themoviedb.org") {
        copy_str("tmdb")
    } else if str_contains(l, "imdb.com") {
        copy_str("imdb")
    } else if str_contains(l, "javlibrary.com") {
        copy_str("javlibrary")
    } else if str_contains(l, "javbus.com") || str_contains(l, "javsee.com") {
        copy_str("javbus")
    } else if str_contains(l, "avmoo.com") || str_contains(l, "avso.pw") {
        copy_str("avmoo")
    } else if str_contains(l, "fc2.com") || str_contains(l, "fc2club") {
        copy_str("fc2")
    } else if str_contains(l, "tokyo-hot.com") {
        copy_str("tokyohot")
    } else {
        String::new()
    }
}

impl ScraperRegistry {
    /// Names are registered once.
    pub open spec fn wf(&self) -> bool {
        names(self.scrapers@).no_duplicates()
    }

    /// An empty registry.
    pub fn new() -> (r: Self)
        ensures
            r.scrapers@.len() == 0,
            r.default_sources@.len() == 0,
            r.wf(),
    {
        ScraperRegistry { scrapers: Vec::new(), default_sources: Vec::new() }
    }

    fn index_of(&self, name: &str) -> (r: Option<usize>)
        ensures
            r matches Some(i) ==> i < self.scrapers@.len() && self.scrapers@[i as int].0@ == name@,
            r is None ==> !names(self.scrapers@).contains(name@),
    {
        let mut i: usize = 0;
        while i < self.scrapers.len()
            invariant
                i <= self.scrapers.len(),
                forall|j: int| 0 <= j < i ==> self.scrapers@[j].0@ != name@,
            decreases self.scrapers.len() - i,
        {
            if str_eq(self.scrapers[i].0.as_str(), name) {
                return Some(i);
            }
            i = i + 1;
        }
        proof {
            if names(self.scrapers@).contains(name@) {
                let k = choose|k: int|
                    0 <= k < names(self.scrapers@).len() && names(self.scrapers@)[k] == name@;
                assert(self.scrapers@[k].0@ == name@);
            }
        }
        None
    }

    /// Whether a source of this name is registered.
    pub fn contains(&self, name: &str) -> (r: bool)
        ensures
            r == names(self.scrapers@).contains(name@),
    {
        match self.index_of(name) {
            Some(i) => {
                proof {
                    assert(names(self.scrapers@)[i as int] == name@);
                }
                true
            },
            None => false,
        }
    }

    /// The registered source of this name, with the number form it prefers.
    pub fn get(&self, name: &str) -> (r: Option<(String, IdFormat)>)
        requires
            self.wf(),
        ensures
            match r {
                Some(e) => e.0@ == name@ && format_of(self.scrapers@, name@) == Some(e.1),
                None => !names(self.scrapers@).contains(name@),
            },
    {
        match self.index_of(name) {
            Some(i) => {
                proof {
                    lemma_format_of_found(self.scrapers@, name@, i as int);
                }
                Some((copy_str(self.scrapers[i].0.as_str()), self.scrapers[i].1))
            },
            None => None,
        }
    }

    /// The names of the registered sources.
    pub fn available_sources(&self) -> (r: Vec<String>)
        ensures
            views_of(r@) == names(self.scrapers@),
    {
        let mut out: Vec<String> = Vec::new();
        let mut i: usize = 0;
        while i < self.scrapers.len()
            invariant
                i <= self.scrapers.len(),
                views_of(out@) == names(self.scrapers@).take(i as int),
            decreases self.scrapers.len() - i,
        {
            let ghost before = out@;
            out.push(copy_str(self.scrapers[i].0.as_str()));
            proof {
                assert(views_of(out@) =~= views_of(before).push(self.scrapers@[i as int].0@));
                assert(names(self.scrapers@).take(i + 1) =~= names(self.scrapers@).take(i as int).push(
                    self.scrapers@[i as int].0@,
                ));
            }
            i = i + 1;
        }
        assert(names(self.scrapers@).take(self.scrapers@.len() as int) =~= names(self.scrapers@));
        out
    }

    /// The number form a registered source prefers.
    pub fn preferred_format(&self, name: &str) -> (r: Option<IdFormat>)
        requires
            self.wf(),
        ensures
            r == format_of(self.scrapers@, name@),
    {
        match self.index_of(name) {
            Some(i) => {
                proof {
                    lemma_format_of_found(self.scrapers@, name@, i as int);
                }
                Some(self.scrapers[i].1)
            },
            None => {
                proof {
                    lemma_format_of_missing(self.scrapers@, name@);
                }
                None
            },
        }
    }

    /// Registers a source (replacing one of the same name) and appends it
    /// to the default order unless it is there already.
    pub fn register(&mut self, source: &str, format: IdFormat)
        requires
            old(self).wf(),
        ensures
            final(self).wf(),
            format_of(final(self).scrapers@, source@) == Some(format),
            forall|n: Seq<char>|
                n != source@ ==> #[trigger] format_of(final(self).scrapers@, n) == format_of(
                    old(self).scrapers@,
                    n,
                ),
            forall|n: Seq<char>|
                #[trigger] names(final(self).scrapers@).contains(n) == (names(
                    old(self).scrapers@,
                ).contains(n) || n == source@),
            views_of(final(self).default_sources@) == (if views_of(
                old(self).default_sources@,
            ).contains(source@) {
                views_of(old(self).default_sources@)
            } else {
                views_of(old(self).default_sources@).push(source@)
            }),
    {
        let found = self.index_of(source);
        let ghost before = self.scrapers@;
        match found {
            Some(i) => {
                let p = (copy_str(source), format);
                proof {
                    assert forall|n: Seq<char>| #[trigger] format_of(before.update(i as int, p), n) == (
                    if n == source@ {
                        Some(format)
                    } else {
                        format_of(before, n)
                    }) by {
                        lemma_format_of_update(before, i as int, p, n);
                        if n == source@ && i < before.len() - 1 {
                            let tail = before.subrange(i + 1, before.len() as int);
                            assert forall|k: int| 0 <= k < tail.len() implies tail[k].0@ != n by {
                                assert(names(before)[i + 1 + k] == tail[k].0@);
                                assert(names(before)[i as int] == n);
                            }
                            assert(!names(tail).contains(n)) by {
                                if names(tail).contains(n) {
                                    let k = choose|k: int| 0 <= k < names(tail).len() && names(tail)[k] == n;
                                    assert(tail[k].0@ == n);
                                }
                            }
                            lemma_format_of_missing(tail, n);
                        }
                    }
                    assert(names(before.update(i as int, p)) =~= names(before));
                    assert(names(before)[i as int] == source@);
                }
                self.scrapers.set(i, p);
            },
            None => {
                self.scrapers.push((copy_str(source), format));
                proof {
                    assert(names(self.scrapers@) =~= names(before).push(source@));
                    assert(self.scrapers@.drop_last() =~= before);
                    assert forall|n: Seq<char>| #[trigger] names(self.scrapers@).contains(n) == (names(
                        before,
                    ).contains(n) || n == source@) by {
                        if names(before).contains(n) {
                            let k = choose|k: int| 0 <= k < names(before).len() && names(before)[k] == n;
                            assert(names(self.scrapers@)[k] == n);
                        }
                        if n == source@ {
                            assert(names(self.scrapers@)[before.len() as int] == n);
                        }
                        if names(self.scrapers@).contains(n) && n != source@ {
                            let k = choose|k: int|
                                0 <= k < names(self.scrapers@).len() && names(self.scrapers@)[k] == n;
                            assert(k < before.len());
                            assert(names(before)[k] == n);
                        }
                    }
                }
            },
        }
        let listed = contains_name(&self.default_sources, source);
        if !listed {
            let ghost d = self.default_sources@;
            self.default_sources.push(copy_str(source));
            proof {
                assert(views_of(self.default_sources@) =~= views_of(d).push(source@));
            }
        }
    }

    /// The given sources that are registered, in order.
    pub fn validate_sources(&self, sources: Vec<String>) -> (r: Vec<String>)
        ensures
            views_of(r@) == views_of(sources@).filter(|s: Seq<char>| names(self.scrapers@).contains(s)),
    {
        let mut out: Vec<String> = Vec::new();
        let mut i: usize = 0;
        while i < sources.len()
            invariant
                i <= sources.len(),
                views_of(out@) == views_of(sources@).take(i as int).filter(
                    |s: Seq<char>| names(self.scrapers@).contains(s),
                ),
            decreases sources.len() - i,
        {
            proof {
                assert(views_of(sources@).take(i + 1) =~= views_of(sources@).take(i as int).push(
                    sources@[i as int]@,
                ));
                views_of(sources@).take(i as int).lemma_filter_push(
                    sources@[i as int]@,
                    |s: Seq<char>| names(self.scrapers@).contains(s),
                );
            }
            let keep = self.contains(sources[i].as_str());
            let ghost before = out@;
            if keep {
                out.push(copy_str(sources[i].as_str()));
                proof {
                    assert(views_of(out@) =~= views_of(before).push(sources@[i as int]@));
                }
            }
            i = i + 1;
        }
        assert(views_of(sources@).take(sources.len() as int) =~= views_of(sources@));
        out
    }

    /// Sets the default order to the given sources that are registered.
    pub fn set_default_sources(&mut self, sources: Vec<String>)
        ensures
            final(self).scrapers == old(self).scrapers,
            views_of(final(self).default_sources@) == views_of(sources@).filter(
                |s: Seq<char>| names(old(self).scrapers@).contains(s),
            ),
    {
        let v = self.validate_sources(sources);
        self.default_sources = v;
    }

    /// The source a URL belongs to: the first registered source whose name
    /// the lower-cased URL contains, else one of the well-known domains.
    pub fn infer_source_from_url(&self, url: &str) -> (r: Option<String>)
        ensures
            r matches Some(s) ==> inferred_source(self.scrapers@, url@) == Some(s@),
            r is None ==> inferred_source(self.scrapers@, url@) is None,
    {
        let l = to_lowercase(url);
        let mut i: usize = 0;
        assert(self.scrapers@.skip(0) =~= self.scrapers@);
        while i < self.scrapers.len()
            invariant
                i <= self.scrapers.len(),
                l@ == lowercase(url@),
                first_contained(self.scrapers@, l@) == first_contained(self.scrapers@.skip(i as int), l@),
            decreases self.scrapers.len() - i,
        {
            proof {
                assert(self.scrapers@.skip(i as int)[0] == self.scrapers@[i as int]);
                assert(self.scrapers@.skip(i as int).skip(1) =~= self.scrapers@.skip(i + 1));
            }
            if str_contains(l.as_str(), self.scrapers[i].0.as_str()) {
                return Some(copy_str(self.scrapers[i].0.as_str()));
            }
            i = i + 1;
        }
        let k = known_domain(l.as_str());
        if k.as_str().is_empty() {
            None
        } else {
            Some(k)
        }
    }

    /// The attempts of a search, in order: each source to try with the
    /// number in the form it prefers. With a URL given, the source inferred
    /// from it (`unknown` when none is); else the given sources that are
    /// registered; else the default order. Unregistered names are passed over.
    pub fn plan_search(
        &self,
        display_id: &str,
        content_id: &str,
        sources: Option<Vec<String>>,
        specified_url: Option<&str>,
    ) -> (r: Vec<(String, String)>)
        requires
            self.wf(),
        ensures
            pair_views(r@) == attempts(
                self.scrapers@,
                search_order(*self, opt_strings_view(sources), opt_str_view(specified_url)),
                display_id@,
                content_id@,
            ),
    {
        let ghost want = search_order(*self, opt_strings_view(sources), opt_str_view(specified_url));
        let order: Vec<String> = match specified_url {
            Some(u) => {
                let s = match self.infer_source_from_url(u) {
                    Some(s) => s,
                    None => copy_str("unknown"),
                };
                let v: Vec<String> = vec![s];
                proof {
                    assert(views_of(v@) =~= want);
                }
                v
            },
            None => match sources {
                Some(list) => self.validate_sources(list),
                None => copy_names(&self.default_sources),
            },
        };
        assert(views_of(order@) == want);
        let mut out: Vec<(String, String)> = Vec::new();
        let mut i: usize = 0;
        while i < order.len()
            invariant
                i <= order.len(),
                self.wf(),
                pair_views(out@) == attempts(
                    self.scrapers@,
                    views_of(order@).take(i as int),
                    display_id@,
                    content_id@,
                ),
            decreases order.len() - i,
        {
            proof {
                assert(views_of(order@).take(i + 1).drop_last() =~= views_of(order@).take(i as int));
                assert(views_of(order@).take(i + 1).last() == order@[i as int]@);
            }
            let ghost before = out@;
            match self.preferred_format(order[i].as_str()) {
                Some(f) => {
                    let id = match f {
                        IdFormat::Display => copy_str(display_id),
                        IdFormat::Content => copy_str(content_id),
                    };
                    out.push((copy_str(order[i].as_str()), id));
                    proof {
                        assert(pair_views(out@) =~= pair_views(before).push((order@[i as int]@, id@)));
                    }
                },
                None => {},
            }
            i = i + 1;
        }
        assert(views_of(order@).take(order.len() as int) =~= views_of(order@));
        out
    }
}


/// What a search does after one attempt of its plan.
#[derive(Debug)]
pub enum SearchStep {
    /// The search ends with this metadata.
    Found(MovieMetadata),
    /// The next attempt of the plan is tried (the search ends with nothing
    /// found after the last one).
    Next,
}

/// The step after an attempt: valid metadata ends the search with it; invalid
/// metadata or an error moves on to the next attempt.
pub fn search_step(outcome: Result<MovieMetadata, String>) -> (r: SearchStep)
    ensures
        match outcome {
            Ok(m) => if valid_metadata(m@) {
                r matches SearchStep::Found(f) && f == m
            } else {
                r is Next
            },
            Err(_) => r is Next,
        },
{
    match outcome {
        Ok(m) => {
            if m.is_valid() {
                SearchStep::Found(m)
            } else {
                SearchStep::Next
            }
        },
        Err(_) => SearchStep::Next,
    }
}

} // verus!
