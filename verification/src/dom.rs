//! Reading HTML documents through CSS selectors, with the `scraper` crate.
//!
//! What the crate computes is named, not restated: `css_texts` for the texts
//! of the elements a selector picks, `css_attrs` for an attribute of each,
//! and `serialized_html` for the document written back as HTML. The rules
//! that the sources apply on top of those (trimming, skipping empty texts,
//! trying several selectors in turn) are verified here.

use vstd::prelude::*;
use crate::text::{copy_str, trim, trim_str, views_of};

verus! {

/// The text of each element that the selector picks in the document, in the
/// order `Html::select` yields them (the order in which the parser created the
/// nodes); `None` when the selector does not parse.
pub uninterp spec fn css_texts(doc: Seq<char>, selector: Seq<char>) -> Option<Seq<Seq<char>>>;

/// The value of an attribute on each element that the selector picks, in the
/// order `Html::select` yields them (`None` for an element without it); `None` overall when
/// the selector does not parse.
pub uninterp spec fn css_attrs(doc: Seq<char>, selector: Seq<char>, attr: Seq<char>) -> Option<
    Seq<Option<Seq<char>>>,
>;

/// For each element the outer selector picks, in the order `Html::select`
/// yields them: the texts of
/// the elements inside it that the first inner selector picks, and those that
/// the second picks; `None` when a selector does not parse.
pub uninterp spec fn css_scoped_pairs(
    doc: Seq<char>,
    outer: Seq<char>,
    first: Seq<char>,
    second: Seq<char>,
) -> Option<Seq<(Seq<Seq<char>>, Seq<Seq<char>>)>>;

/// For each element the selector picks, in the order `Html::select` yields
/// them: its text, and the
/// child nodes of its parent (`None` when it has no parent), each given as its
/// element name when it is an element, with its own child nodes, each given
/// as its text when it is a text node; `None` when the selector does not parse.
pub uninterp spec fn css_neighbourhoods(doc: Seq<char>, selector: Seq<char>) -> Option<
    Seq<(Seq<char>, Option<Seq<(Option<Seq<char>>, Seq<Option<Seq<char>>>)>>)>,
>;

/// The document parsed and written back as HTML.
pub uninterp spec fn serialized_html(doc: Seq<char>) -> Seq<char>;

pub open spec fn opt_texts(v: Seq<Option<String>>) -> Seq<Option<Seq<char>>> {
    v.map_values(|o: Option<String>| match o {
        Some(s) => Some(s@),
        None => None,
    })
}

/// `Html::parse_document`, `Selector::parse` and `Html::select`, each
/// element's text nodes joined. Trusted: the result is `css_texts`.
#[verifier::external_body]
pub(crate) fn select_texts_raw(doc: &str, selector: &str) -> (r: Option<Vec<String>>)
    ensures
        match r {
            Some(v) => css_texts(doc@, selector@) == Some(views_of(v@)),
            None => css_texts(doc@, selector@) is None,
        },
{
    let html = scraper::Html::parse_document(doc);
    match scraper::Selector::parse(selector) {
        Ok(sel) => Some(html.select(&sel).map(|e| e.text().collect::<String>()).collect()),
        Err(_) => None,
    }
}

/// `Html::parse_document`, `Selector::parse`, `Html::select` and
/// `Element::attr` on each element. Trusted: the result is `css_attrs`.
#[verifier::external_body]
pub(crate) fn select_attrs_raw(doc: &str, selector: &str, attr: &str) -> (r: Option<Vec<Option<String>>>)
    ensures
        match r {
            Some(v) => css_attrs(doc@, selector@, attr@) == Some(opt_texts(v@)),
            None => css_attrs(doc@, selector@, attr@) is None,
        },
{
    let html = scraper::Html::parse_document(doc);
    match scraper::Selector::parse(selector) {
        Ok(sel) => Some(html.select(&sel).map(|e| e.value().attr(attr).map(|a| a.to_string())).collect()),
        Err(_) => None,
    }
}

pub open spec fn pair_views(v: Seq<(Vec<String>, Vec<String>)>) -> Seq<(Seq<Seq<char>>, Seq<Seq<char>>)> {
    v.map_values(|p: (Vec<String>, Vec<String>)| (views_of(p.0@), views_of(p.1@)))
}

/// `Html::parse_document`, `Selector::parse` of the three selectors, then for
/// each element that `Html::select` picks with the outer one, the texts of
/// `ElementRef::select` with each inner one. Trusted: the result is
/// `css_scoped_pairs`.
#[verifier::external_body]
pub(crate) fn scoped_text_pairs(doc: &str, outer: &str, first: &str, second: &str) -> (r: Option<
    Vec<(Vec<String>, Vec<String>)>,
>)
    ensures
        match r {
            Some(v) => css_scoped_pairs(doc@, outer@, first@, second@) == Some(pair_views(v@)),
            None => css_scoped_pairs(doc@, outer@, first@, second@) is None,
        },
{
    let html = scraper::Html::parse_document(doc);
    match (scraper::Selector::parse(outer), scraper::Selector::parse(first), scraper::Selector::parse(second)) {
        (Ok(o), Ok(a), Ok(b)) => Some(html.select(&o).map(|e| (
            e.select(&a).map(|x| x.text().collect::<String>()).collect(),
            e.select(&b).map(|x| x.text().collect::<String>()).collect(),
        )).collect()),
        _ => None,
    }
}

pub open spec fn node_views(v: Seq<(Option<String>, Vec<Option<String>>)>) -> Seq<
    (Option<Seq<char>>, Seq<Option<Seq<char>>>),
> {
    v.map_values(
        |n: (Option<String>, Vec<Option<String>>)|
            (
                match n.0 {
                    Some(s) => Some(s@),
                    None => None,
                },
                opt_texts(n.1@),
            ),
    )
}

pub open spec fn neighbourhood_views(
    v: Seq<(String, Option<Vec<(Option<String>, Vec<Option<String>>)>>)>,
) -> Seq<(Seq<char>, Option<Seq<(Option<Seq<char>>, Seq<Option<Seq<char>>>)>>)> {
    v.map_values(
        |e: (String, Option<Vec<(Option<String>, Vec<Option<String>>)>>)|
            (
                e.0@,
                match e.1 {
                    Some(c) => Some(node_views(c@)),
                    None => None,
                },
            ),
    )
}

/// `Html::parse_document`, `Selector::parse` and `Html::select`; for each
/// element its text, and `ElementRef::parent` with its `children`, each child
/// described by `Node::as_element` (its name) and its own children by
/// `Node::as_text`. Trusted: the result is `css_neighbourhoods`.
#[verifier::external_body]
pub(crate) fn neighbourhoods(doc: &str, selector: &str) -> (r: Option<
    Vec<(String, Option<Vec<(Option<String>, Vec<Option<String>>)>>)>,
>)
    ensures
        match r {
            Some(v) => css_neighbourhoods(doc@, selector@) == Some(neighbourhood_views(v@)),
            None => css_neighbourhoods(doc@, selector@) is None,
        },
{
    let html = scraper::Html::parse_document(doc);
    let sel = match scraper::Selector::parse(selector) { Ok(s) => s, Err(_) => return None };
    Some(html.select(&sel).map(|e| (
        e.text().collect::<String>(),
        e.parent().map(|p| p.children().map(|c| (
            c.value().as_element().map(|x| x.name().to_string()),
            c.children().map(|g| g.value().as_text().map(|t| t.text.to_string())).collect(),
        )).collect()),
    )).collect())
}

/// `Html::parse_document` then `Html::html`. Trusted: the result is
/// `serialized_html(doc)`.
#[verifier::external_body]
pub(crate) fn document_html(doc: &str) -> (r: String)
    ensures
        r@ == serialized_html(doc@),
{
    scraper::Html::parse_document(doc).html()
}

/// The trimmed text of the first element the selector picks; empty when the
/// selector is empty or does not parse, or picks nothing.
pub open spec fn first_text(doc: Seq<char>, selector: Seq<char>) -> Seq<char> {
    if selector.len() == 0 {
        Seq::empty()
    } else {
        match css_texts(doc, selector) {
            Some(v) => if v.len() > 0 {
                trim(v[0])
            } else {
                Seq::empty()
            },
            None => Seq::empty(),
        }
    }
}

/// The trimmed attribute of the first element the selector picks; empty
/// when that element lacks it or nothing is picked.
pub open spec fn first_attr(doc: Seq<char>, selector: Seq<char>, attr: Seq<char>) -> Seq<char> {
    if selector.len() == 0 {
        Seq::empty()
    } else {
        match css_attrs(doc, selector, attr) {
            Some(v) => if v.len() > 0 {
                match v[0] {
                    Some(a) => trim(a),
                    None => Seq::empty(),
                }
            } else {
                Seq::empty()
            },
            None => Seq::empty(),
        }
    }
}

/// The trimmed texts that are not empty, in order.
pub open spec fn nonempty_trimmed(v: Seq<Seq<char>>) -> Seq<Seq<char>>
    decreases v.len(),
{
    if v.len() == 0 {
        Seq::empty()
    } else {
        let rest = nonempty_trimmed(v.drop_last());
        let t = trim(v.last());
        if t.len() > 0 {
            rest.push(t)
        } else {
            rest
        }
    }
}

/// The trimmed attributes that are present and not empty, in order.
pub open spec fn present_trimmed(v: Seq<Option<Seq<char>>>) -> Seq<Seq<char>>
    decreases v.len(),
{
    if v.len() == 0 {
        Seq::empty()
    } else {
        let rest = present_trimmed(v.drop_last());
        match v.last() {
            Some(a) => if trim(a).len() > 0 {
                rest.push(trim(a))
            } else {
                rest
            },
            None => rest,
        }
    }
}

/// The trimmed, non-empty texts of all elements the selector picks.
pub open spec fn all_texts(doc: Seq<char>, selector: Seq<char>) -> Seq<Seq<char>> {
    if selector.len() == 0 {
        Seq::empty()
    } else {
        match css_texts(doc, selector) {
            Some(v) => nonempty_trimmed(v),
            None => Seq::empty(),
        }
    }
}

/// The trimmed, non-empty attribute values of all elements the selector picks.
pub open spec fn all_attrs(doc: Seq<char>, selector: Seq<char>, attr: Seq<char>) -> Seq<Seq<char>> {
    if selector.len() == 0 {
        Seq::empty()
    } else {
        match css_attrs(doc, selector, attr) {
            Some(v) => present_trimmed(v),
            None => Seq::empty(),
        }
    }
}

/// The first selector's text that is not empty.
pub open spec fn first_text_of(doc: Seq<char>, selectors: Seq<Seq<char>>) -> Seq<char>
    decreases selectors.len(),
{
    if selectors.len() == 0 {
        Seq::empty()
    } else if first_text(doc, selectors[0]).len() > 0 {
        first_text(doc, selectors[0])
    } else {
        first_text_of(doc, selectors.skip(1))
    }
}

/// The first selector's attribute that is not empty.
pub open spec fn first_attr_of(doc: Seq<char>, selectors: Seq<Seq<char>>, attr: Seq<char>) -> Seq<char>
    decreases selectors.len(),
{
    if selectors.len() == 0 {
        Seq::empty()
    } else if first_attr(doc, selectors[0], attr).len() > 0 {
        first_attr(doc, selectors[0], attr)
    } else {
        first_attr_of(doc, selectors.skip(1), attr)
    }
}

/// The first selector whose list of texts is not empty gives the list.
pub open spec fn all_texts_of(doc: Seq<char>, selectors: Seq<Seq<char>>) -> Seq<Seq<char>>
    decreases selectors.len(),
{
    if selectors.len() == 0 {
        Seq::empty()
    } else if all_texts(doc, selectors[0]).len() > 0 {
        all_texts(doc, selectors[0])
    } else {
        all_texts_of(doc, selectors.skip(1))
    }
}

pub open spec fn strs(v: Seq<&str>) -> Seq<Seq<char>> {
    v.map_values(|s: &str| s@)
}

/// The trimmed text of the first element the selector picks.
pub fn select_text(doc: &str, selector: &str) -> (r: String)
    ensures
        r@ == first_text(doc@, selector@),
{
    if selector.is_empty() {
        return String::new();
    }
    match select_texts_raw(doc, selector) {
        Some(v) => {
            if v.len() > 0 {
                proof {
                    assert(views_of(v@)[0] == v@[0]@);
                }
                trim_str(v[0].as_str())
            } else {
                String::new()
            }
        },
        None => String::new(),
    }
}

/// The trimmed attribute of the first element the selector picks.
pub fn select_attr(doc: &str, selector: &str, attr: &str) -> (r: String)
    ensures
        r@ == first_attr(doc@, selector@, attr@),
{
    if selector.is_empty() {
        return String::new();
    }
    match select_attrs_raw(doc, selector, attr) {
        Some(v) => {
            if v.len() > 0 {
                proof {
                    assert(opt_texts(v@)[0] == match v@[0] {
                        Some(s) => Some(s@),
                        None => None::<Seq<char>>,
                    });
                }
                match &v[0] {
                    Some(a) => trim_str(a.as_str()),
                    None => String::new(),
                }
            } else {
                String::new()
            }
        },
        None => String::new(),
    }
}

/// The trimmed, non-empty texts of all elements the selector picks.
pub fn select_all_text(doc: &str, selector: &str) -> (r: Vec<String>)
    ensures
        views_of(r@) == all_texts(doc@, selector@),
{
    if selector.is_empty() {
        return Vec::new();
    }
    let raw = match select_texts_raw(doc, selector) {
        Some(v) => v,
        None => {
            return Vec::new();
        },
    };
    let mut out: Vec<String> = Vec::new();
    let mut i: usize = 0;
    while i < raw.len()
        invariant
            i <= raw.len(),
            views_of(out@) == nonempty_trimmed(views_of(raw@).take(i as int)),
        decreases raw.len() - i,
    {
        proof {
            assert(views_of(raw@).take(i + 1).drop_last() =~= views_of(raw@).take(i as int));
            assert(views_of(raw@).take(i + 1).last() == raw@[i as int]@);
        }
        let t = trim_str(raw[i].as_str());
        if !t.as_str().is_empty() {
            let ghost before = out@;
            out.push(t);
            proof {
                assert(views_of(out@) =~= views_of(before).push(t@));
            }
        }
        i = i + 1;
    }
    assert(views_of(raw@).take(raw.len() as int) =~= views_of(raw@));
    out
}

/// The trimmed, non-empty values of an attribute on all elements the
/// selector picks.
pub fn select_all_attr(doc: &str, selector: &str, attr: &str) -> (r: Vec<String>)
    ensures
        views_of(r@) == all_attrs(doc@, selector@, attr@),
{
    if selector.is_empty() {
        return Vec::new();
    }
    let raw = match select_attrs_raw(doc, selector, attr) {
        Some(v) => v,
        None => {
            return Vec::new();
        },
    };
    let mut out: Vec<String> = Vec::new();
    let mut i: usize = 0;
    while i < raw.len()
        invariant
            i <= raw.len(),
            views_of(out@) == present_trimmed(opt_texts(raw@).take(i as int)),
        decreases raw.len() - i,
    {
        proof {
            assert(opt_texts(raw@).take(i + 1).drop_last() =~= opt_texts(raw@).take(i as int));
            assert(opt_texts(raw@).take(i + 1).last() == opt_texts(raw@)[i as int]);
        }
        match &raw[i] {
            Some(a) => {
                let t = trim_str(a.as_str());
                if !t.as_str().is_empty() {
                    let ghost before = out@;
                    out.push(t);
                    proof {
                        assert(views_of(out@) =~= views_of(before).push(t@));
                    }
                }
            },
            None => {},
        }
        i = i + 1;
    }
    assert(opt_texts(raw@).take(raw.len() as int) =~= opt_texts(raw@));
    out
}

/// The text of the first selector that gives one.
pub fn select_text_by_exprs(doc: &str, selectors: &[&str]) -> (r: String)
    ensures
        r@ == first_text_of(doc@, strs(selectors@)),
{
    let mut i: usize = 0;
    assert(strs(selectors@).skip(0) =~= strs(selectors@));
    while i < selectors.len()
        invariant
            i <= selectors.len(),
            first_text_of(doc@, strs(selectors@)) == first_text_of(doc@, strs(selectors@).skip(i as int)),
        decreases selectors.len() - i,
    {
        proof {
            assert(strs(selectors@).skip(i as int)[0] == selectors@[i as int]@);
            assert(strs(selectors@).skip(i as int).skip(1) =~= strs(selectors@).skip(i + 1));
        }
        let t = select_text(doc, selectors[i]);
        if !t.as_str().is_empty() {
            return t;
        }
        i = i + 1;
    }
    String::new()
}

/// The attribute of the first selector that gives one.
pub fn select_attr_by_exprs(doc: &str, selectors: &[&str], attr: &str) -> (r: String)
    ensures
        r@ == first_attr_of(doc@, strs(selectors@), attr@),
{
    let mut i: usize = 0;
    assert(strs(selectors@).skip(0) =~= strs(selectors@));
    while i < selectors.len()
        invariant
            i <= selectors.len(),
            first_attr_of(doc@, strs(selectors@), attr@) == first_attr_of(
                doc@,
                strs(selectors@).skip(i as int),
                attr@,
            ),
        decreases selectors.len() - i,
    {
        proof {
            assert(strs(selectors@).skip(i as int)[0] == selectors@[i as int]@);
            assert(strs(selectors@).skip(i as int).skip(1) =~= strs(selectors@).skip(i + 1));
        }
        let t = select_attr(doc, selectors[i], attr);
        if !t.as_str().is_empty() {
            return t;
        }
        i = i + 1;
    }
    String::new()
}

/// The texts of the first selector that gives any.
pub fn select_all_text_by_exprs(doc: &str, selectors: &[&str]) -> (r: Vec<String>)
    ensures
        views_of(r@) == all_texts_of(doc@, strs(selectors@)),
{
    let mut i: usize = 0;
    assert(strs(selectors@).skip(0) =~= strs(selectors@));
    while i < selectors.len()
        invariant
            i <= selectors.len(),
            all_texts_of(doc@, strs(selectors@)) == all_texts_of(doc@, strs(selectors@).skip(i as int)),
        decreases selectors.len() - i,
    {
        proof {
            assert(strs(selectors@).skip(i as int)[0] == selectors@[i as int]@);
            assert(strs(selectors@).skip(i as int).skip(1) =~= strs(selectors@).skip(i + 1));
        }
        let t = select_all_text(doc, selectors[i]);
        if t.len() > 0 {
            return t;
        }
        i = i + 1;
    }
    let none: Vec<String> = Vec::new();
    assert(views_of(none@) =~= Seq::<Seq<char>>::empty());
    none
}

} // verus!
