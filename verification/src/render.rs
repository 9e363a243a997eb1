//! The markdown rendering boundary. Rendering itself is done by the
//! `sauropod` crate; the gateway treats it as a deterministic function of
//! the raw text and speaks of its result only through `rendered_of`.

use vstd::prelude::*;
use crate::model::RenderMarkdown;

verus! {

/// What the renderer produces for a given raw text when no plugins are
/// installed. The rewriting takes pages to state, but it depends on the
/// text alone, so contracts refer to it by this name.
pub uninterp spec fn rendered_of(content: Seq<char>) -> Seq<char>;

/// Relies on sauropod::markdown::parse_markdown: a chain of regular
/// expression rewrites around comrak's markdown-to-HTML conversion. It is
/// deterministic, and with an empty plugin list its result depends on the
/// input text alone; we call it with no plugins.
#[verifier::external_body]
fn parse_markdown_no_plugins(content: &String) -> (rendered: String)
    ensures
        rendered@ == rendered_of(content@),
{
    sauropod::markdown::parse_markdown(content.clone(), Vec::new())
}

/// Renders raw paste text to display-safe formatted output.
pub fn render_content(content: &String) -> (rendered: String)
    ensures
        rendered@ == rendered_of(content@),
{
    parse_markdown_no_plugins(content)
}

/// The stateless render endpoint: renders a request body's content with no
/// extension plugins. Always succeeds; usable as a live-preview primitive
/// with no access control and no persistence interaction.
pub fn render_markdown(req: RenderMarkdown) -> (result: Result<String, ()>)
    ensures
        result matches Ok(rendered) && rendered@ == rendered_of(req.content@),
{
    Ok(render_content(&req.content))
}

/// Rendering is a pure function: two renders of equal texts are equal.
pub proof fn lemma_render_deterministic(content1: Seq<char>, content2: Seq<char>)
    requires
        content1 == content2,
    ensures
        rendered_of(content1) == rendered_of(content2),
{
}

} // verus!
