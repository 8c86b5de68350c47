//! Resource references: opaque handles to attachments owned by the external
//! resource store. The envelope model only establishes how such a handle
//! attaches to a request or response and that it carries a tag usable for
//! capability matching.

use vstd::prelude::*;

verus! {

/// A reference to an attachment (document, file, generated artifact).
///
/// The referenced data lives in the external resource store; an envelope
/// carries only this handle. The `tag` classifies the resource so that a
/// tool's `supported_resource_tags` can be matched against it.
#[derive(Clone, Debug)]
pub struct Resource {
    /// The store's key for the resource.
    pub id: String,

    /// The tag that classifies the resource.
    pub tag: String,
}

} // verus!
