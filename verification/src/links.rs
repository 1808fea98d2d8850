//! The link extractor: turns the attribute data of the selected elements
//! into absolute candidate URLs, excluding the pagination control and
//! elements without a resolvable link.

use vstd::prelude::*;
use vstd::string::*;
use crate::config;

verus! {

/// What the extractor reads of one selected element: its identifier and its
/// link attribute, either of which may be absent.
#[derive(Debug, PartialEq, Eq)]
pub struct ElemInfo {
    pub id: Option<String>,
    pub href: Option<String>,
}

impl Clone for ElemInfo {
    fn clone(&self) -> (r: Self)
        ensures
            r@ == self@,
    {
        ElemInfo {
            id: match &self.id {
                Some(s) => Some(s.clone()),
                None => None,
            },
            href: match &self.href {
                Some(s) => Some(s.clone()),
                None => None,
            },
        }
    }
}

/// The mathematical image of an element's attribute data.
pub ghost struct ElemView {
    pub id: Option<Seq<char>>,
    pub href: Option<Seq<char>>,
}

impl View for ElemInfo {
    type V = ElemView;

    open spec fn view(&self) -> ElemView {
        ElemView {
            id: match self.id {
                Some(s) => Some(s@),
                None => None,
            },
            href: match self.href {
                Some(s) => Some(s@),
                None => None,
            },
        }
    }
}

/// The candidate URL one element contributes: none for the pagination
/// control or for an element without a link, else the link joined onto the
/// base URL.
pub open spec fn spec_extract_link(e: ElemView, base: Seq<char>) -> Option<Seq<char>> {
    if e.id == Some(config::spec_pagination_id()) {
        None
    } else {
        match e.href {
            Some(h) => Some(base + h),
            None => None,
        }
    }
}

/// The candidate URLs of a sequence of elements, in document order, without
/// deduplication.
pub open spec fn spec_extract_links(es: Seq<ElemView>, base: Seq<char>) -> Seq<Seq<char>>
    decreases es.len(),
{
    if es.len() == 0 {
        Seq::empty()
    } else {
        spec_extract_links(es.drop_last(), base) + (match spec_extract_link(es.last(), base) {
            Some(l) => seq![l],
            None => Seq::empty(),
        })
    }
}

/// The views of a sequence of elements.
pub open spec fn views_of(es: Seq<ElemInfo>) -> Seq<ElemView> {
    es.map_values(|e: ElemInfo| e@)
}

/// The element is neither the pagination control nor one with a resolvable
/// link: it is skipped and deserves a diagnostic.
pub open spec fn spec_missing_link(e: ElemView) -> bool {
    e.id != Some(config::spec_pagination_id()) && e.href is None
}

/// The outcome of resolving one element.
#[derive(Debug, PartialEq, Eq)]
pub enum LinkOutcome {
    /// A content thumbnail, with its absolute candidate URL.
    Link { url: String },
    /// The pagination control: excluded, it is not a content thumbnail.
    PaginationControl,
    /// No resolvable link attribute: skipped with a diagnostic.
    MissingLink,
}

/// Resolves one element: the pagination control is excluded, an element
/// without a link attribute is marked malformed, and any other element
/// yields its link joined onto the base URL.
pub fn extract_link(elem: &ElemInfo, base: &str) -> (r: LinkOutcome)
    ensures
        r is PaginationControl <==> elem@.id == Some(config::spec_pagination_id()),
        r is MissingLink <==> spec_missing_link(elem@),
        r is Link <==> spec_extract_link(elem@, base@) is Some,
        r matches LinkOutcome::Link { url } ==> spec_extract_link(elem@, base@) == Some(url@),
{
    let pid = String::from_str(config::pagination_id());
    let is_control = match &elem.id {
        Some(id) => *id == pid,
        None => false,
    };
    if is_control {
        LinkOutcome::PaginationControl
    } else {
        match &elem.href {
            Some(h) => LinkOutcome::Link { url: String::from_str(base).concat(h.as_str()) },
            None => LinkOutcome::MissingLink,
        }
    }
}

/// The elements skipped for want of a resolvable link, in document order.
pub open spec fn spec_malformed(es: Seq<ElemView>) -> Seq<ElemView>
    decreases es.len(),
{
    if es.len() == 0 {
        Seq::empty()
    } else {
        spec_malformed(es.drop_last()) + (if spec_missing_link(es.last()) {
            seq![es.last()]
        } else {
            Seq::empty()
        })
    }
}

/// What the extractor hands downstream: the candidate URLs, and the
/// elements that were skipped for want of a link, each of which deserves a
/// diagnostic.
#[derive(Debug, PartialEq, Eq)]
pub struct ExtractedLinks {
    /// The candidate URLs, in document order, without deduplication.
    pub links: Vec<String>,
    /// The elements with no resolvable link attribute, in document order.
    pub malformed: Vec<ElemInfo>,
}

/// Resolves every element, in document order: the candidate URLs of those
/// that contribute one, and the malformed elements beside them.
pub fn extract_links(elems: &Vec<ElemInfo>, base: &str) -> (r: ExtractedLinks)
    ensures
        r.links@.map_values(|s: String| s@) == spec_extract_links(views_of(elems@), base@),
        views_of(r.malformed@) == spec_malformed(views_of(elems@)),
{
    let mut links: Vec<String> = Vec::new();
    let mut malformed: Vec<ElemInfo> = Vec::new();
    let mut i: usize = 0;
    while i < elems.len()
        invariant
            i <= elems@.len(),
            links@.map_values(|s: String| s@) == spec_extract_links(
                views_of(elems@.subrange(0, i as int)),
                base@,
            ),
            views_of(malformed@) == spec_malformed(views_of(elems@.subrange(0, i as int))),
        decreases elems@.len() - i,
    {
        let ghost prev_links = links@.map_values(|s: String| s@);
        let ghost prev_malformed = views_of(malformed@);
        match extract_link(&elems[i], base) {
            LinkOutcome::Link { url } => {
                let ghost uv = url@;
                links.push(url);
                proof {
                    assert(links@.map_values(|s: String| s@) =~= prev_links + seq![uv]);
                }
            },
            LinkOutcome::PaginationControl => (),
            LinkOutcome::MissingLink => {
                malformed.push(elems[i].clone());
                proof {
                    assert(views_of(malformed@) =~= prev_malformed + seq![elems@[i as int]@]);
                }
            },
        }
        proof {
            let cur = views_of(elems@.subrange(0, i as int + 1));
            assert(cur.drop_last() =~= views_of(elems@.subrange(0, i as int)));
            assert(cur.last() == elems@[i as int]@);
        }
        i = i + 1;
    }
    proof {
        assert(elems@.subrange(0, elems@.len() as int) =~= elems@);
    }
    ExtractedLinks { links, malformed }
}

/// A document with no matching elements contributes no candidate links and
/// no diagnostics.
pub proof fn lemma_no_elements_no_links(es: Seq<ElemView>, base: Seq<char>)
    requires
        es.len() == 0,
    ensures
        spec_extract_links(es, base).len() == 0,
        spec_malformed(es).len() == 0,
{
}

/// The pagination control never contributes a candidate link.
pub proof fn lemma_pagination_link_is_none(e: ElemView, base: Seq<char>)
    requires
        e.id == Some(config::spec_pagination_id()),
    ensures
        spec_extract_link(e, base) is None,
{
}

/// The elements that are not the pagination control.
pub open spec fn drop_pagination(es: Seq<ElemView>) -> Seq<ElemView>
    decreases es.len(),
{
    if es.len() == 0 {
        Seq::empty()
    } else {
        drop_pagination(es.drop_last()) + (if es.last().id == Some(config::spec_pagination_id()) {
            Seq::empty()
        } else {
            seq![es.last()]
        })
    }
}

/// Removing the pagination control elements first does not change the
/// extracted links: the control contributes nothing to the output.
pub proof fn lemma_pagination_excluded(es: Seq<ElemView>, base: Seq<char>)
    ensures
        spec_extract_links(es, base) == spec_extract_links(drop_pagination(es), base),
    decreases es.len(),
{
    if es.len() > 0 {
        lemma_pagination_excluded(es.drop_last(), base);
        if es.last().id == Some(config::spec_pagination_id()) {
            assert(drop_pagination(es) =~= drop_pagination(es.drop_last()));
            assert(spec_extract_links(es, base) =~= spec_extract_links(es.drop_last(), base));
        } else {
            let x = drop_pagination(es.drop_last());
            let y = x + seq![es.last()];
            assert(drop_pagination(es) =~= y);
            assert(y.len() > 0);
            assert(y.drop_last() =~= x);
            assert(y.last() == es.last());
            assert(spec_extract_links(y, base) == spec_extract_links(x, base) + (
            match spec_extract_link(es.last(), base) {
                Some(l) => seq![l],
                None => Seq::<Seq<char>>::empty(),
            }));
        }
    }
}

} // verus!
