//! The API document descriptor.
//!
//! The served OpenAPI document is generated by the unverified HTTP
//! layer; what is fixed about it — the title and version it must
//! carry — is recorded here so both the document and its tests draw
//! from one place.

use vstd::prelude::*;

verus! {

/// Descriptor of the service's API document.
pub struct ApiDoc;

impl ApiDoc {
    /// The document's title.
    pub fn title() -> (title: &'static str)
        ensures
            title@ == "Hack Club CDN"@,
    {
        "Hack Club CDN"
    }

    /// The document's version.
    pub fn version() -> (version: &'static str)
        ensures
            version@ == "1.0.0"@,
    {
        "1.0.0"
    }
}

} // verus!
