//! The orchestrator's decisions: what is fatal, which resources are ruled
//! out before their body is read, which payloads are accepted, and how the
//! output file of each accepted payload is named. Every per-resource
//! failure is a value of `SkipReason`, never an abort.

use vstd::prelude::*;
use vstd::string::*;
use crate::config;
use crate::html;
use crate::image;
use crate::links;
use crate::matcher;
use crate::numeric;

verus! {

/// Why one HTTP fetch failed, as reported by the embedding program.
#[derive(Debug, PartialEq, Eq)]
pub struct FetchError {
    pub message: String,
}

/// A failure that aborts the whole run.
#[derive(Debug, PartialEq, Eq)]
pub enum FatalError {
    /// The page itself could not be retrieved.
    PageUnreachable { cause: String },
    /// The fixed selector did not compile.
    BadSelector { cause: String },
    /// The fixed extension pattern did not compile.
    BadPattern { cause: String },
}

/// Why one candidate resource produced no output file; never fatal to the
/// run.
#[derive(Debug, PartialEq, Eq)]
pub enum SkipReason {
    /// The resource could not be fetched.
    FetchFailed { cause: String },
    /// The declared content length exceeds the configured maximum.
    DeclaredTooLarge { declared: u64 },
    /// The resource body could not be read.
    ReadFailed { cause: String },
    /// More bytes arrived than the configured maximum allows.
    BodyTooLarge,
    /// A nonzero declared length disagrees with the bytes received.
    SizeMismatch { declared: u64, actual: usize },
    /// The bytes match no known image signature.
    NotAnImage,
    /// The accepted payload could not be written out.
    WriteFailed { cause: String },
}

/// Builds the extension-hint matcher once at pipeline start; a pattern that
/// does not compile is fatal.
pub fn init_matcher() -> (r: Result<regex::Regex, FatalError>)
    ensures
        r is Ok <==> matcher::pattern_ok(config::spec_extension_pattern()),
        r matches Ok(re) ==> matcher::pattern_of(re) == config::spec_extension_pattern(),
        r matches Err(f) ==> f is BadPattern,
{
    match matcher::regex_compile(config::extension_pattern()) {
        Ok(re) => Ok(re),
        Err(cause) => Err(FatalError::BadPattern { cause }),
    }
}

/// Step one of a run: turns the outcome of the page fetch into the list of
/// candidate URLs, with the malformed elements beside it. A failed page
/// fetch is fatal, and so is a selector that does not compile; otherwise
/// the result is exactly what the link extractor derives from the page's
/// thumbnail elements.
pub fn collect_links(page_fetch: Result<String, FetchError>) -> (r: Result<
    links::ExtractedLinks,
    FatalError,
>)
    ensures
        page_fetch is Err ==> r is Err,
        r is Ok <==> page_fetch is Ok && html::selector_ok(config::spec_thumb_selector()),
        page_fetch matches Err(e) ==> r matches Err(f) && f matches FatalError::PageUnreachable {
            cause,
        } && cause@ == e.message@,
        page_fetch is Ok && !html::selector_ok(config::spec_thumb_selector()) ==> (r matches Err(f)
            && f is BadSelector),
        r matches Ok(out) ==> page_fetch matches Ok(page) && out.links@.map_values(|s: String| s@)
            == links::spec_extract_links(
            html::selected_elems(page@, config::spec_thumb_selector(), config::spec_href_attr()),
            config::spec_base_url(),
        ) && links::views_of(out.malformed@) == links::spec_malformed(
            html::selected_elems(page@, config::spec_thumb_selector(), config::spec_href_attr()),
        ),
{
    match page_fetch {
        Err(e) => Err(FatalError::PageUnreachable { cause: e.message }),
        Ok(page) => match html::select_elements(
            page.as_str(),
            config::thumb_selector(),
            config::href_attr(),
        ) {
            Err(cause) => Err(FatalError::BadSelector { cause }),
            Ok(elems) => Ok(links::extract_links(&elems, config::base_url())),
        },
    }
}

/// The declared length of a resource, read from the raw header value:
/// `None` when the header is absent or is not a plain decimal count.
pub open spec fn spec_content_length(raw: Option<Seq<char>>) -> Option<u64> {
    match raw {
        None => None,
        Some(s) => if 1 <= s.len() <= 19 && numeric::all_digits(s) {
            Some(numeric::spec_digits_value(s) as u64)
        } else {
            None
        },
    }
}

/// The declared metadata of one fetched resource.
#[derive(Debug, PartialEq, Eq)]
pub struct ResourceHeaders {
    /// The length header's value, read as a decimal byte count.
    pub declared_len: Option<u64>,
    /// The extension hint found in the disposition-style header: the first
    /// dot-led word of its value. Advisory only; the accepted extension
    /// comes from the validated image format.
    pub ext_hint: Option<String>,
}

/// Reads the declared metadata out of the two response header values,
/// resolving the hint with the matcher built by `init_matcher`.
pub fn read_headers(
    hint_matcher: &regex::Regex,
    content_length: &Option<String>,
    disposition: &Option<String>,
) -> (r: ResourceHeaders)
    ensures
        r.declared_len == spec_content_length(content_length.deep_view()),
        r.ext_hint.deep_view() == (match disposition.deep_view() {
            Some(d) => matcher::first_match_of(matcher::pattern_of(*hint_matcher), d),
            None => None::<Seq<char>>,
        }),
{
    let declared_len = match content_length {
        Some(s) => numeric::parse_u64(s.as_str()),
        None => None,
    };
    let ext_hint = match disposition {
        Some(d) => matcher::regex_find_first(hint_matcher, d.as_str()),
        None => None,
    };
    ResourceHeaders { declared_len, ext_hint }
}

/// The size check made before the body is read: a resource whose declared
/// length exceeds the configured maximum is skipped without reading its
/// body.
pub fn check_declared_length(declared: Option<u64>) -> (r: Result<(), SkipReason>)
    ensures
        r is Ok <==> (declared is None || (declared matches Some(d) && d
            <= config::MAX_RESOURCE_BYTES)),
        r matches Err(e) ==> declared matches Some(d) && d > config::MAX_RESOURCE_BYTES && e == (
        SkipReason::DeclaredTooLarge { declared: d }),
{
    match declared {
        Some(d) => {
            if d > config::MAX_RESOURCE_BYTES {
                Err(SkipReason::DeclaredTooLarge { declared: d })
            } else {
                Ok(())
            }
        },
        None => Ok(()),
    }
}

/// Whether the received byte count is consistent with the declared length.
/// An absent or zero declared length is unknown and gives no constraint.
pub open spec fn size_consistent(declared: Option<u64>, actual: nat) -> bool {
    match declared {
        None => true,
        Some(d) => d == 0 || d as nat == actual,
    }
}

/// A payload the pipeline accepted: its bytes carry a recognized image
/// signature and its extension is the one of that format.
#[derive(Debug, PartialEq, Eq)]
pub struct ValidatedImage {
    pub bytes: Vec<u8>,
    pub extension: String,
}

impl ValidatedImage {
    /// Well-formedness: the bytes are a recognized image within the size
    /// cap, and the extension is the recognized format's.
    pub open spec fn wf(self) -> bool {
        &&& image::spec_detect(self.bytes@) is Some
        &&& self.extension@ == image::spec_extension(image::spec_detect(self.bytes@)->Some_0)
        &&& self.bytes@.len() <= config::MAX_RESOURCE_BYTES
    }
}

/// Reconciles the received bytes against the declared length, then
/// validates the image structure: exactly the consistent payloads with a
/// recognized signature are accepted, and the accepted extension is the
/// recognized format's.
pub fn accept_resource(declared: Option<u64>, body: Vec<u8>) -> (r: Result<
    ValidatedImage,
    SkipReason,
>)
    requires
        body@.len() <= config::MAX_RESOURCE_BYTES,
    ensures
        r is Ok <==> size_consistent(declared, body@.len()) && image::spec_detect(body@) is Some,
        r matches Ok(img) ==> img.wf() && img.bytes@ == body@ && img.extension@
            == image::spec_extension(image::spec_detect(body@)->Some_0),
        !size_consistent(declared, body@.len()) ==> (declared matches Some(d) && r == Err::<
            ValidatedImage,
            SkipReason,
        >(SkipReason::SizeMismatch { declared: d, actual: body@.len() as usize })),
        size_consistent(declared, body@.len()) && image::spec_detect(body@) is None ==> r == Err::<
            ValidatedImage,
            SkipReason,
        >(SkipReason::NotAnImage),
        declared matches Some(d) && d > 0 && d as nat != body@.len() ==> !(r is Ok),
        image::spec_detect(body@) is None ==> !(r is Ok),
{
    let n = body.len();
    match declared {
        Some(d) => {
            if d > 0 && d != n as u64 {
                return Err(SkipReason::SizeMismatch { declared: d, actual: n });
            }
        },
        None => (),
    }
    match image::detect_image(&body) {
        Some(f) => {
            let extension = String::from_str(f.extension());
            Ok(ValidatedImage { bytes: body, extension })
        },
        None => Err(SkipReason::NotAnImage),
    }
}

/// The only state a run carries between accepted images: the index the next
/// output file is named with. Each run starts numbering from zero.
pub struct RunState {
    pub next_index: u64,
}

impl RunState {
    pub fn new() -> (r: RunState)
        ensures
            r.next_index == 0,
    {
        RunState { next_index: 0 }
    }

    /// Claims the index of one accepted image; indexes are assigned in
    /// acceptance order.
    pub fn claim_index(&mut self) -> (i: u64)
        requires
            old(self).next_index < u64::MAX,
        ensures
            i == old(self).next_index,
            final(self).next_index == old(self).next_index + 1,
    {
        let i = self.next_index;
        self.next_index = self.next_index + 1;
        i
    }
}

/// The output filename of the image accepted at `index`: the decimal index,
/// the fixed separator, and the extension.
pub fn output_filename(index: u64, extension: &str) -> (r: String)
    ensures
        r@ == numeric::spec_decimal(index as nat) + "."@ + extension@,
{
    let mut name = numeric::u64_to_decimal(index);
    name.append(".");
    name.append(extension);
    name
}

} // verus!
