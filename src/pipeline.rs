//! One request's path through the engine: build the context, evaluate once,
//! assemble the response.

use vstd::prelude::*;
use vstd::multiset::Multiset;
use crate::artifacts::{starts_with, CedarService};
use crate::context::{build_failure, stage_prefix, BuildError, BuildStage, EvaluationContext};
use crate::engine::{authorization_of, is_authorized, texts};
use crate::request::AuthzRequest;
use crate::response::{assemble, AuthzResponse, Decision};

verus! {

/// What an evaluation yields: whether it allows, the determining policies and
/// the evaluation errors.
pub type Verdict = (bool, Set<Seq<char>>, Multiset<Seq<char>>);

/// The outcome of the whole pipeline for a request with these fields, against
/// the policy source `policies` and the schema source `schema`: the failing
/// build step, or the engine's verdict.
pub open spec fn pipeline_outcome(
    policies: Seq<char>,
    schema: Option<Seq<char>>,
    principal: Seq<char>,
    action: Seq<char>,
    resource: Seq<char>,
    entities: Seq<char>,
) -> Result<Verdict, BuildStage> {
    match build_failure(schema, principal, action, resource, entities) {
        Some(stage) => Err(stage),
        None => Ok(authorization_of(policies, schema, principal, action, resource, entities)),
    }
}

/// `pipeline_outcome` for a request against a service.
pub open spec fn service_outcome(service: &CedarService, req: &AuthzRequest) -> Result<
    Verdict,
    BuildStage,
> {
    pipeline_outcome(
        service.policy_source(),
        service.schema_source(),
        req.principal@,
        req.action@,
        req.resource@,
        req.entities@,
    )
}

/// The decision, reason set and error multiset that a response carries.
pub open spec fn reported(resp: &AuthzResponse) -> Verdict {
    (
        resp.decision@ == "Allow"@,
        texts(resp.diagnostics.reason@).to_set(),
        texts(resp.diagnostics.errors@).to_multiset(),
    )
}

/// The model of what `authorize` returned.
pub open spec fn result_outcome(r: Result<AuthzResponse, BuildError>) -> Result<Verdict, BuildStage> {
    match r {
        Ok(resp) => Ok(reported(&resp)),
        Err(e) => Err(e.kind()),
    }
}

/// The decision text of a successful response is `Allow` or `Deny`.
pub open spec fn well_formed_result(r: Result<AuthzResponse, BuildError>) -> bool {
    match r {
        Ok(resp) => resp.decision@ == "Allow"@ || resp.decision@ == "Deny"@,
        Err(e) => starts_with(e.text(), stage_prefix(e.kind())),
    }
}

impl CedarService {
    /// Calls the engine exactly once on a built context and assembles the
    /// response from its answer.
    pub fn invoke(&self, ctx: &EvaluationContext) -> (r: AuthzResponse)
        ensures
            reported(&r) == authorization_of(
                self.policy_source(),
                ctx.schema_source(),
                ctx.principal(),
                ctx.action(),
                ctx.resource(),
                ctx.entities(),
            ),
            r.decision@ == "Allow"@ || r.decision@ == "Deny"@,
    {
        let (decision, reason, errors) = is_authorized(self.policy_artifact(), ctx);
        proof {
            reveal_strlit("Allow");
            reveal_strlit("Deny");
            assert("Allow"@ != "Deny"@) by {
                assert("Allow"@.len() != "Deny"@.len());
            }
        }
        assemble(decision, reason, errors)
    }

    /// Decides one request: builds its context under the service's schema
    /// mode, evaluates it once and assembles the response. Evaluation errors
    /// travel in the diagnostics and never fail the call.
    pub fn authorize(&self, req: AuthzRequest) -> (r: Result<AuthzResponse, BuildError>)
        ensures
            result_outcome(r) == service_outcome(self, &req),
            well_formed_result(r),
    {
        match self.build(&req) {
            Ok(ctx) => Ok(self.invoke(&ctx)),
            Err(e) => Err(e),
        }
    }
}

/// The pipeline is deterministic: two requests with the same fields against
/// services loaded from the same policy and schema sources have the same
/// outcome, down to the decision, the determining policies and the errors.
pub proof fn lemma_pipeline_deterministic(
    s1: &CedarService,
    s2: &CedarService,
    q1: &AuthzRequest,
    q2: &AuthzRequest,
)
    requires
        s1.policy_source() == s2.policy_source(),
        s1.schema_source() == s2.schema_source(),
        q1.principal@ == q2.principal@,
        q1.action@ == q2.action@,
        q1.resource@ == q2.resource@,
        q1.entities@ == q2.entities@,
    ensures
        service_outcome(s1, q1) == service_outcome(s2, q2),
{
}

} // verus!
