//! Remote version detection by cache-validator tokens.
use vstd::prelude::*;
use crate::text::same_text;

verus! {

/// The token that stands for a probe whose response carried no validator.
pub open spec fn missing_etag() -> Seq<char> {
    "MISSING_ETAG"@
}

/// The version token of a probe: the validator header's value, or the sentinel
/// where the response had none.
pub fn probed_version(etag: Option<String>) -> (r: String)
    ensures
        match etag {
            Some(t) => r@ == t@,
            None => r@ == missing_etag(),
        },
{
    match etag {
        Some(t) => t,
        None => String::from_str("MISSING_ETAG"),
    }
}

/// Whether a freshly probed version token announces a new build: the tokens
/// are compared as plain strings.
pub fn update_available(known: &str, probed: &str) -> (r: bool)
    ensures
        r == (known@ != probed@),
{
    !same_text(known, probed)
}

/// The decision of a version check from the known token and the probe's header.
pub fn check(known: &str, etag: Option<String>) -> (r: bool)
    ensures
        match etag {
            Some(t) => r == (known@ != t@),
            None => r == (known@ != missing_etag()),
        },
{
    let probed = probed_version(etag);
    update_available(known, probed.as_str())
}

} // verus!
