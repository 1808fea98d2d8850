//! Compiled-in configuration: the page to scrape, the selector that marks
//! thumbnail elements, the pagination control to skip, and the size cap.

use vstd::prelude::*;

verus! {

/// Largest resource body, in bytes, that the pipeline will accept.
pub const MAX_RESOURCE_BYTES: u64 = 10_000_000;

/// The base URL of the page that is fetched, and that relative links are
/// joined against.
pub open spec fn spec_base_url() -> Seq<char> {
    "https://gbatemp.net/"@
}

pub fn base_url() -> (r: &'static str)
    ensures
        r@ == spec_base_url(),
{
    "https://gbatemp.net/"
}

/// The CSS selector that marks a thumbnail element on the page.
pub open spec fn spec_thumb_selector() -> Seq<char> {
    ".memethumb"@
}

pub fn thumb_selector() -> (r: &'static str)
    ensures
        r@ == spec_thumb_selector(),
{
    ".memethumb"
}

/// The element identifier of the "load more" pagination control, which is
/// never a content thumbnail.
pub open spec fn spec_pagination_id() -> Seq<char> {
    "mememorelink"@
}

pub fn pagination_id() -> (r: &'static str)
    ensures
        r@ == spec_pagination_id(),
{
    "mememorelink"
}

/// The attribute that holds an element's relative link.
pub open spec fn spec_href_attr() -> Seq<char> {
    "href"@
}

pub fn href_attr() -> (r: &'static str)
    ensures
        r@ == spec_href_attr(),
{
    "href"
}

/// The pattern that extracts an extension hint (a dot followed by word
/// characters) from a disposition-style header value.
pub open spec fn spec_extension_pattern() -> Seq<char> {
    "\\.(\\w+)"@
}

pub fn extension_pattern() -> (r: &'static str)
    ensures
        r@ == spec_extension_pattern(),
{
    "\\.(\\w+)"
}

} // verus!
