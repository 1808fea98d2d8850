//! The markup boundary: parsing the fetched page and selecting the
//! thumbnail elements is delegated to the scraper crate behind one trusted
//! wrapper; everything downstream works on the plain attribute data it
//! hands back.

use vstd::prelude::*;
use crate::links::ElemInfo;
use crate::links::ElemView;
use crate::links::views_of;

verus! {

/// The attribute data (identifier and the value of `attr`) of the elements
/// of the document parsed from `html` that match `selector`, in document
/// order. Names the combined result of scraper's `Html::parse_document` and
/// `Html::select`, a function of the three strings alone.
pub uninterp spec fn selected_elems(html: Seq<char>, selector: Seq<char>, attr: Seq<char>) -> Seq<
    ElemView,
>;

/// Whether scraper's `Selector::parse` accepts the selector text: a
/// function of the selector alone.
pub uninterp spec fn selector_ok(selector: Seq<char>) -> bool;

/// Relies on scraper's `Selector::parse` (pure; fails exactly on selector
/// text it cannot compile), `Html::parse_document` (pure and total: it
/// repairs rather than rejects malformed markup) and `Html::select` with
/// `Element::id` / `Element::attr` (pure; yields the matching elements in
/// document order). The result is a function of the three strings alone.
#[verifier::external_body]
pub(crate) fn select_elements(html: &str, selector: &str, attr: &str) -> (r: Result<
    Vec<ElemInfo>,
    String,
>)
    ensures
        r is Ok <==> selector_ok(selector@),
        r matches Ok(v) ==> views_of(v@) == selected_elems(html@, selector@, attr@),
{
    let sel = match scraper::Selector::parse(selector) {
        Ok(sel) => sel,
        Err(e) => return Err(format!("{}", e)),
    };
    let doc = scraper::Html::parse_document(html);
    Ok(doc.select(&sel).map(|el| ElemInfo {
        id: el.value().id().map(|s| s.to_string()),
        href: el.value().attr(attr).map(|s| s.to_string()),
    }).collect())
}

} // verus!
