//! The boundary with the Cedar policy engine: its types, named results of its
//! parsers and of its authorizer, and the wrappers that call it.

use vstd::prelude::*;
use vstd::multiset::Multiset;
use crate::artifacts::{schema_source, PolicyArtifact, SchemaArtifact};
use crate::context::{EvaluationContext, Identifier};
use crate::response::Decision;

verus! {

#[verifier::external_type_specification]
#[verifier::external_body]
pub struct ExPolicySet(cedar_policy::PolicySet);

#[verifier::external_type_specification]
#[verifier::external_body]
pub struct ExSchema(cedar_policy::Schema);

#[verifier::external_type_specification]
#[verifier::external_body]
pub struct ExEntities(cedar_policy::Entities);

#[verifier::external_type_specification]
#[verifier::external_body]
pub struct ExEntityUid(cedar_policy::EntityUid);

#[verifier::external_type_specification]
#[verifier::external_body]
pub struct ExRequest(cedar_policy::Request);

/// Whether Cedar accepts `src` as a policy set.
pub uninterp spec fn policy_set_parses(src: Seq<char>) -> bool;

/// Whether Cedar accepts `src` as a schema in the JSON schema format.
pub uninterp spec fn schema_parses(src: Seq<char>) -> bool;

/// Relies on `<cedar_policy::PolicySet as FromStr>::from_str`: parsing depends
/// on the source text alone; the error is rendered as text.
#[verifier::external_body]
pub(crate) fn parse_policy_set(src: &str) -> (r: Result<cedar_policy::PolicySet, String>)
    ensures
        r.is_ok() == policy_set_parses(src@),
{
    src.parse::<cedar_policy::PolicySet>().map_err(|e| e.to_string())
}

/// Relies on `cedar_policy::Schema::from_json_str`: parsing depends on the
/// source text alone; the error is rendered as text.
#[verifier::external_body]
pub(crate) fn parse_schema(src: &str) -> (r: Result<cedar_policy::Schema, String>)
    ensures
        r.is_ok() == schema_parses(src@),
{
    cedar_policy::Schema::from_json_str(src).map_err(|e| e.to_string())
}

/// Whether Cedar accepts `json` as an entity list, checked against the schema
/// with source text `schema` where there is one.
pub uninterp spec fn entities_accepted(json: Seq<char>, schema: Option<Seq<char>>) -> bool;

/// Whether Cedar accepts `s` as an entity identifier (`Type::"id"`).
pub uninterp spec fn uid_parses(s: Seq<char>) -> bool;

/// Whether Cedar accepts a request of these identifiers with an empty context,
/// validated against the schema with source text `schema` where there is one.
pub uninterp spec fn request_accepted(
    principal: Seq<char>,
    action: Seq<char>,
    resource: Seq<char>,
    schema: Option<Seq<char>>,
) -> bool;

/// What Cedar's authorizer answers for the policy set with source `policies`
/// and the request and entities built from the other arguments: whether it
/// allows, the identifiers of the policies that determined the decision, and
/// the rendered evaluation errors.
pub uninterp spec fn authorization_of(
    policies: Seq<char>,
    schema: Option<Seq<char>>,
    principal: Seq<char>,
    action: Seq<char>,
    resource: Seq<char>,
    entities: Seq<char>,
) -> (bool, Set<Seq<char>>, Multiset<Seq<char>>);

/// The views of a sequence of strings.
pub open spec fn texts(v: Seq<String>) -> Seq<Seq<char>> {
    v.map_values(|s: String| s@)
}

/// Relies on `cedar_policy::Entities::from_json_str`: acceptance depends on
/// the JSON text and the schema alone; the error is rendered as text.
#[verifier::external_body]
pub(crate) fn parse_entities(json: &str, schema: Option<&SchemaArtifact>) -> (r: Result<
    cedar_policy::Entities,
    String,
>)
    ensures
        r.is_ok() == entities_accepted(json@, schema_source(schema)),
{
    cedar_policy::Entities::from_json_str(json, schema.map(|s| &s.schema)).map_err(|e| e.to_string())
}

/// Relies on `<cedar_policy::EntityUid as FromStr>::from_str`: parsing depends
/// on the text alone; the error is rendered as text.
#[verifier::external_body]
pub(crate) fn parse_uid(s: &str) -> (r: Result<cedar_policy::EntityUid, String>)
    ensures
        r.is_ok() == uid_parses(s@),
{
    s.parse::<cedar_policy::EntityUid>().map_err(|e| e.to_string())
}

/// Relies on `cedar_policy::Request::new`, given an empty context
/// (`cedar_policy::Context::empty`): validation depends on the identifiers and
/// the schema alone; the error is rendered as text.
#[verifier::external_body]
pub(crate) fn new_request(
    principal: &Identifier,
    action: &Identifier,
    resource: &Identifier,
    schema: Option<&SchemaArtifact>,
) -> (r: Result<cedar_policy::Request, String>)
    ensures
        r.is_ok() == request_accepted(principal@, action@, resource@, schema_source(schema)),
{
    cedar_policy::Request::new(
        principal.uid.clone(),
        action.uid.clone(),
        resource.uid.clone(),
        cedar_policy::Context::empty(),
        schema.map(|s| &s.schema),
    ).map_err(|e| e.to_string())
}

/// Relies on `cedar_policy::Authorizer::is_authorized` and the accessors of
/// its response: the decision, the determining policy identifiers (a set, so
/// handed out in no fixed order) and the rendered errors (in no promised
/// order) depend on the policy set, the request and the entities alone.
#[verifier::external_body]
pub(crate) fn is_authorized(policies: &PolicyArtifact, ctx: &EvaluationContext) -> (r: (
    Decision,
    Vec<String>,
    Vec<String>,
))
    ensures
        (r.0 == Decision::Allow) == authorization_of(
            policies@,
            ctx.schema_source(),
            ctx.principal(),
            ctx.action(),
            ctx.resource(),
            ctx.entities(),
        ).0,
        texts(r.1@).to_set() == authorization_of(
            policies@,
            ctx.schema_source(),
            ctx.principal(),
            ctx.action(),
            ctx.resource(),
            ctx.entities(),
        ).1,
        texts(r.2@).to_multiset() == authorization_of(
            policies@,
            ctx.schema_source(),
            ctx.principal(),
            ctx.action(),
            ctx.resource(),
            ctx.entities(),
        ).2,
{
    let response = cedar_policy::Authorizer::new().is_authorized(&ctx.request, &policies.policies, &ctx.graph);
    let decision = match response.decision() {
        cedar_policy::Decision::Allow => Decision::Allow,
        cedar_policy::Decision::Deny => Decision::Deny,
    };
    let reason = response.diagnostics().reason().map(|id| id.to_string()).collect();
    let errors = response.diagnostics().errors().map(|e| e.to_string()).collect();
    (decision, reason, errors)
}

} // verus!
