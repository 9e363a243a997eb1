//! The data the gateway reads: pastes, their metadata, and the request
//! query carrying an optional view credential.

use vstd::prelude::*;

verus! {

/// Per-paste settings the gateway consults. An empty `title` means "use the
/// paste's identifier as its display title"; an empty `view_password` means
/// "no password set".
pub struct PasteMetadata {
    pub title: String,
    pub view_password: String,
}

/// A stored text document, keyed by its unique `url` identifier.
pub struct Paste {
    pub url: String,
    pub content: String,
    pub metadata: PasteMetadata,
}

/// Query parameters supplied with a paste request: the credential offered
/// against the paste's view password. Empty means no credential supplied.
pub struct PasteViewQuery {
    pub view_password: String,
}

/// The body of a request to the stateless render endpoint: raw markdown
/// text to be rendered without any paste lookup or access check.
pub struct RenderMarkdown {
    pub content: String,
}

/// The display title of a paste: its own title when one is set, otherwise
/// its identifier.
pub open spec fn spec_display_title(paste: Paste) -> Seq<char> {
    if paste.metadata.title@.len() == 0 {
        paste.url@
    } else {
        paste.metadata.title@
    }
}

/// Selects the title shown for a paste: the paste's own title when it is
/// non-empty, else the paste's identifier.
pub fn display_title(paste: &Paste) -> (title: String)
    ensures
        title@ == spec_display_title(*paste),
{
    if paste.metadata.title.as_str().is_empty() {
        paste.url.clone()
    } else {
        paste.metadata.title.clone()
    }
}

} // verus!
