//! The access policy evaluator: a pure decision over a paste's password
//! metadata, the credential supplied with the request, and the process-wide
//! "view password" feature flag.

use vstd::prelude::*;
use crate::model::PasteMetadata;

verus! {

/// The evaluator's decision: the requester may proceed, or must first be
/// shown a password challenge.
#[derive(Clone, Copy, Debug, PartialEq, Eq, Structural)]
pub enum AccessDecision {
    Allow,
    Challenge,
}

/// When a request may proceed: always when the feature flag is off (the
/// global kill-switch), always when the paste has no password, and
/// otherwise exactly when the supplied credential equals the password.
/// An absent credential is carried as the empty string; against a
/// non-empty password it never compares equal.
pub open spec fn access_allowed(
    view_password: Seq<char>,
    supplied: Seq<char>,
    feature_enabled: bool,
) -> bool {
    !feature_enabled || view_password.len() == 0 || supplied == view_password
}

/// The decision that `access_allowed` dictates.
pub open spec fn spec_evaluate(
    view_password: Seq<char>,
    supplied: Seq<char>,
    feature_enabled: bool,
) -> AccessDecision {
    if access_allowed(view_password, supplied, feature_enabled) {
        AccessDecision::Allow
    } else {
        AccessDecision::Challenge
    }
}

/// Decides whether a requester may see a paste, given the paste's
/// metadata, the supplied credential (empty when none was supplied), and
/// the global feature flag. Pure: no side effects, never errors.
pub fn evaluate(
    metadata: &PasteMetadata,
    supplied: &String,
    feature_enabled: bool,
) -> (decision: AccessDecision)
    ensures
        decision == spec_evaluate(metadata.view_password@, supplied@, feature_enabled),
        decision == AccessDecision::Allow <==> access_allowed(
            metadata.view_password@,
            supplied@,
            feature_enabled,
        ),
{
    if !feature_enabled {
        AccessDecision::Allow
    } else if metadata.view_password.as_str().is_empty() {
        AccessDecision::Allow
    } else if *supplied == metadata.view_password {
        AccessDecision::Allow
    } else {
        AccessDecision::Challenge
    }
}

/// A paste with no password set is open to everyone: whatever the feature
/// flag and whatever credential is supplied, access is allowed.
pub proof fn lemma_empty_password_allows(
    view_password: Seq<char>,
    supplied: Seq<char>,
    feature_enabled: bool,
)
    requires
        view_password.len() == 0,
    ensures
        access_allowed(view_password, supplied, feature_enabled),
{
}

/// The feature flag is a global kill-switch: when it is off, access is
/// allowed regardless of the paste's password or the supplied credential.
pub proof fn lemma_feature_disabled_allows(
    view_password: Seq<char>,
    supplied: Seq<char>,
    feature_enabled: bool,
)
    requires
        !feature_enabled,
    ensures
        access_allowed(view_password, supplied, feature_enabled),
{
}

/// With the feature enabled and a password set, access is allowed exactly
/// when the supplied credential equals the password; anything else —
/// including the empty (absent) credential — is challenged.
pub proof fn lemma_enforced_password(
    view_password: Seq<char>,
    supplied: Seq<char>,
    feature_enabled: bool,
)
    requires
        feature_enabled,
        view_password.len() > 0,
    ensures
        access_allowed(view_password, supplied, feature_enabled) <==> supplied == view_password,
        supplied.len() == 0 ==> !access_allowed(view_password, supplied, feature_enabled),
{
}

} // verus!
