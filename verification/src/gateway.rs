//! The gateway flows. Each inbound request runs one of three flows: view,
//! edit, or edit-config. The store lives outside this crate, so a flow is
//! written as transitions: the caller performs a store action (look the
//! paste up, increment its view counter, read its counter) and hands the
//! outcome to the next transition, which decides what follows. Everything
//! the flows decide — when a lookup or increment failure is terminal, when
//! a password challenge is shown, what a successful result carries — is
//! stated here and proved.

use vstd::prelude::*;
use crate::json::{metadata_json, spec_metadata_json};
use crate::model::{display_title, spec_display_title, Paste, PasteViewQuery};
use crate::policy::{access_allowed, evaluate, AccessDecision};
use crate::render::{render_content, rendered_of};

verus! {

/// The terminal outcome of the view flow.
pub enum ViewResult {
    /// The paste may be shown: its rendered content, its display title,
    /// and the view count as read after this request's own increment.
    Viewed { paste: Paste, rendered: String, title: String, views: i32 },
    /// A credential must be entered first; nothing is rendered and no
    /// count is reported.
    PasswordChallenge { paste: Paste },
    /// A store failure, surfaced with its textual description.
    Error { message: String },
}

/// What the view flow asks of its caller next.
pub enum ViewStep {
    /// Ask the store to increment this paste's view counter, then hand the
    /// outcome to `view_on_increment`.
    Increment { paste: Paste },
    /// Read this paste's view counter from the store, then hand the value
    /// to `view_on_views`.
    ReadViews { paste: Paste },
    /// The flow is finished.
    Done { result: ViewResult },
}

/// The step that follows a lookup outcome: a found paste moves on to the
/// view-count increment; a failure is terminal.
pub open spec fn spec_view_on_lookup(lookup: Result<Paste, String>) -> ViewStep {
    match lookup {
        Ok(paste) => ViewStep::Increment { paste },
        Err(message) => ViewStep::Done { result: ViewResult::Error { message } },
    }
}

/// Begins the view flow with the store's lookup outcome. On failure the
/// flow ends with the store's message and nothing further — in particular
/// no increment — is requested.
pub fn view_on_lookup(lookup: Result<Paste, String>) -> (step: ViewStep)
    ensures
        step == spec_view_on_lookup(lookup),
{
    match lookup {
        Ok(paste) => ViewStep::Increment { paste },
        Err(message) => ViewStep::Done { result: ViewResult::Error { message } },
    }
}

/// The step that follows the increment's outcome: a failure is terminal
/// even though access might have been allowed; otherwise the access policy
/// decides between reading the count back and challenging the requester.
pub open spec fn spec_view_on_increment(
    paste: Paste,
    increment: Result<(), String>,
    supplied: Seq<char>,
    feature_enabled: bool,
) -> ViewStep {
    match increment {
        Err(message) => ViewStep::Done { result: ViewResult::Error { message } },
        Ok(_) => if access_allowed(paste.metadata.view_password@, supplied, feature_enabled) {
            ViewStep::ReadViews { paste }
        } else {
            ViewStep::Done { result: ViewResult::PasswordChallenge { paste } }
        },
    }
}

/// Continues the view flow with the outcome of this request's view-count
/// increment.
pub fn view_on_increment(
    paste: Paste,
    increment: Result<(), String>,
    query: &PasteViewQuery,
    feature_enabled: bool,
) -> (step: ViewStep)
    ensures
        step == spec_view_on_increment(paste, increment, query.view_password@, feature_enabled),
{
    match increment {
        Err(message) => ViewStep::Done { result: ViewResult::Error { message } },
        Ok(_) => match evaluate(&paste.metadata, &query.view_password, feature_enabled) {
            AccessDecision::Allow => ViewStep::ReadViews { paste },
            AccessDecision::Challenge => ViewStep::Done {
                result: ViewResult::PasswordChallenge { paste },
            },
        },
    }
}

/// Finishes the view flow with the count read back from the store: the
/// result carries the rendered content, the display title, and exactly
/// that count.
pub fn view_on_views(paste: Paste, views: i32) -> (result: ViewResult)
    ensures
        result matches ViewResult::Viewed { paste: shown, rendered, title, views: count }
            && shown == paste
            && rendered@ == rendered_of(paste.content@)
            && title@ == spec_display_title(paste)
            && count == views,
{
    let rendered = render_content(&paste.content);
    let title = display_title(&paste);
    ViewResult::Viewed { paste, rendered, title, views }
}

/// The terminal outcome of the edit flow. The edit surface operates on
/// source text, so an allowed request carries the raw, unrendered paste.
pub enum EditResult {
    EditForm { paste: Paste },
    PasswordChallenge { paste: Paste },
    Error { message: String },
}

/// The whole edit flow over the lookup outcome: a failure is terminal, and
/// otherwise the access policy decides between the edit form and a
/// challenge. No view count is touched.
pub open spec fn spec_edit_flow(
    lookup: Result<Paste, String>,
    supplied: Seq<char>,
    feature_enabled: bool,
) -> EditResult {
    match lookup {
        Err(message) => EditResult::Error { message },
        Ok(paste) => if access_allowed(paste.metadata.view_password@, supplied, feature_enabled) {
            EditResult::EditForm { paste }
        } else {
            EditResult::PasswordChallenge { paste }
        },
    }
}

/// Runs the edit flow on the store's lookup outcome.
pub fn edit_flow(
    lookup: Result<Paste, String>,
    query: &PasteViewQuery,
    feature_enabled: bool,
) -> (result: EditResult)
    ensures
        result == spec_edit_flow(lookup, query.view_password@, feature_enabled),
{
    match lookup {
        Err(message) => EditResult::Error { message },
        Ok(paste) => match evaluate(&paste.metadata, &query.view_password, feature_enabled) {
            AccessDecision::Allow => EditResult::EditForm { paste },
            AccessDecision::Challenge => EditResult::PasswordChallenge { paste },
        },
    }
}

/// The terminal outcome of the edit-config flow. An allowed request
/// carries the paste together with its metadata in encoded string form for
/// the config editor.
pub enum ConfigResult {
    ConfigForm { paste: Paste, paste_metadata: String },
    PasswordChallenge { paste: Paste },
    Error { message: String },
}

/// Runs the edit-config flow on the store's lookup outcome: a failure is
/// terminal, the access policy decides between form and challenge, and an
/// allowed request carries the metadata's encoding. The encoding is total,
/// so no serialization failure can arise.
pub fn config_flow(
    lookup: Result<Paste, String>,
    query: &PasteViewQuery,
    feature_enabled: bool,
) -> (result: ConfigResult)
    ensures
        lookup matches Err(message) ==> result == (ConfigResult::Error { message }),
        lookup matches Ok(paste) ==> (if access_allowed(
            paste.metadata.view_password@,
            query.view_password@,
            feature_enabled,
        ) {
            result matches ConfigResult::ConfigForm { paste: shown, paste_metadata }
                && shown == paste
                && paste_metadata@ == spec_metadata_json(paste.metadata)
        } else {
            result == (ConfigResult::PasswordChallenge { paste })
        }),
{
    match lookup {
        Err(message) => ConfigResult::Error { message },
        Ok(paste) => match evaluate(&paste.metadata, &query.view_password, feature_enabled) {
            AccessDecision::Allow => {
                let paste_metadata = metadata_json(&paste.metadata);
                ConfigResult::ConfigForm { paste, paste_metadata }
            },
            AccessDecision::Challenge => ConfigResult::PasswordChallenge { paste },
        },
    }
}

/// If the store lookup fails, the view flow ends at once with the store's
/// message: no increment is requested.
pub proof fn lemma_no_increment_after_failed_lookup(lookup: Result<Paste, String>)
    requires
        lookup is Err,
    ensures
        !(spec_view_on_lookup(lookup) is Increment),
        spec_view_on_lookup(lookup) == (ViewStep::Done {
            result: ViewResult::Error { message: lookup->Err_0 },
        }),
{
}

/// A view request triggers at most one increment: the transition that
/// consumes the increment's outcome never asks for another.
pub proof fn lemma_single_increment(
    paste: Paste,
    increment: Result<(), String>,
    supplied: Seq<char>,
    feature_enabled: bool,
)
    ensures
        !(spec_view_on_increment(paste, increment, supplied, feature_enabled) is Increment),
{
}

/// A failed increment is terminal, even when access would otherwise have
/// been allowed: the flow ends with the store's message before any
/// rendering or count read.
pub proof fn lemma_increment_failure_is_terminal(
    paste: Paste,
    increment: Result<(), String>,
    supplied: Seq<char>,
    feature_enabled: bool,
)
    requires
        increment is Err,
        access_allowed(paste.metadata.view_password@, supplied, feature_enabled),
    ensures
        spec_view_on_increment(paste, increment, supplied, feature_enabled) == (ViewStep::Done {
            result: ViewResult::Error { message: increment->Err_0 },
        }),
{
}

/// The allowed view flow runs in a fixed order: a found paste first asks
/// for this request's one increment, and a successful increment under
/// allowed access asks for the count read whose value the final result
/// reports. Together with `lemma_single_increment`, the count a viewer
/// sees always includes the one increment their own request triggered.
pub proof fn lemma_allowed_view_flow_order(
    paste: Paste,
    supplied: Seq<char>,
    feature_enabled: bool,
)
    requires
        access_allowed(paste.metadata.view_password@, supplied, feature_enabled),
    ensures
        spec_view_on_lookup(Ok(paste)) == (ViewStep::Increment { paste }),
        spec_view_on_increment(paste, Ok(()), supplied, feature_enabled) == (ViewStep::ReadViews {
            paste,
        }),
{
}

/// The count a viewer sees is read only after this request's own increment
/// has succeeded: the read-views step arises from a successful increment
/// under allowed access, and the final result reports the value read.
pub proof fn lemma_views_read_after_increment(
    paste: Paste,
    increment: Result<(), String>,
    supplied: Seq<char>,
    feature_enabled: bool,
)
    requires
        spec_view_on_increment(paste, increment, supplied, feature_enabled) is ReadViews,
    ensures
        increment is Ok,
        access_allowed(paste.metadata.view_password@, supplied, feature_enabled),
{
}

} // verus!
