pub mod api;
pub mod catalog;
pub mod common;
pub mod org_context;
pub mod repo_context;
pub mod repositories_have_dependabot_config;
pub mod repositories_have_no_direct_collaborators;
pub mod repositories_have_security_policy;
pub mod repositories_pull_request_target_is_safe;
pub mod repositories_pull_requests_require_reviews;
pub mod repositories_release_branches_are_protected;
pub mod repositories_releases_are_immutable;
pub mod repositories_secret_push_protection_is_enabled;
pub mod repositories_secret_scanning_is_enabled;
pub mod repositories_webhooks_are_secure;
pub mod repositories_workflow_actions_are_pinned;
pub mod repositories_workflow_permissions_are_restricted;
pub mod secret_scanning;
pub mod signed_commits;
pub mod two_factor_required;
pub mod webhooks;
pub mod workflow_token;

use vstd::prelude::*;
use crate::checks::org_context::OrgContext;
use crate::checks::repo_context::RepoContext;

verus! {

/// What a check's description and remediation text may look at: the
/// organization, if any, and the repositories the check applied to.
pub struct StateCtx<'a> {
    pub org: Option<&'a OrgContext>,
    pub repos: &'a [&'a RepoContext],
}

} // verus!
