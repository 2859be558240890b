//! Repository webhooks use HTTPS and carry a secret.
use vstd::prelude::*;
use crate::checks::common::{evaluate_webhooks, webhooks_outcome};
use crate::checks::repo_context::RepoContext;
use crate::support::outcome::CheckOutcome;

verus! {

pub const LABEL: &'static str = "webhooks";
pub const HOW_TO_FIX: &'static str = "github → repository → settings → webhooks → edit each webhook → set \"Payload URL\" to an `https://` endpoint, set a \"Secret\", and verify signatures on the receiver.";
pub const WHY_ENABLE: &'static str = "plain-http hooks leak payloads (and any secrets inside them) to any network on the path, and a hook without a shared secret has no way to prove the request actually came from github.";

/// Skipped when the webhooks cannot be listed; passes without webhooks or
/// when every webhook is secure; fails with one finding per problem.
pub fn repo_check(ctx: &RepoContext) -> (o: CheckOutcome)
    ensures
        o@ == webhooks_outcome(ctx.webhooks),
{
    evaluate_webhooks(&ctx.webhooks)
}

} // verus!
