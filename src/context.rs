//! Construction of the evaluation context: the entity graph, the three typed
//! identifiers and the Cedar request, all under one schema mode.

use vstd::prelude::*;
use crate::artifacts::{prefixed, schema_source, starts_with, CedarService, SchemaArtifact};
use crate::engine::{
    entities_accepted, new_request, parse_entities, parse_uid, request_accepted, uid_parses,
};
use crate::request::AuthzRequest;

verus! {

/// A parsed entity identifier, viewed as the text it was parsed from. Only
/// `identifier` builds one, from the text its view records.
pub struct Identifier {
    pub(crate) uid: cedar_policy::EntityUid,
    pub(crate) text: Ghost<Seq<char>>,
}

impl View for Identifier {
    type V = Seq<char>;

    closed spec fn view(&self) -> Seq<char> {
        self.text@
    }
}

/// Everything one evaluation needs besides the policies: the Cedar request
/// (with an empty context) and the entity graph, built under one schema mode.
/// Only `build_with` makes one, from the texts and the schema its spec
/// functions record.
pub struct EvaluationContext {
    pub(crate) request: cedar_policy::Request,
    pub(crate) graph: cedar_policy::Entities,
    pub(crate) ids: Ghost<(Seq<char>, Seq<char>, Seq<char>)>,
    pub(crate) entity_json: Ghost<Seq<char>>,
    pub(crate) schema: Ghost<Option<Seq<char>>>,
}

impl EvaluationContext {
    /// The principal's text.
    pub closed spec fn principal(&self) -> Seq<char> {
        self.ids@.0
    }

    /// The action's text.
    pub closed spec fn action(&self) -> Seq<char> {
        self.ids@.1
    }

    /// The resource's text.
    pub closed spec fn resource(&self) -> Seq<char> {
        self.ids@.2
    }

    /// The entity facts' JSON text.
    pub closed spec fn entities(&self) -> Seq<char> {
        self.entity_json@
    }

    /// The source text of the schema both parts were checked against, if any.
    pub closed spec fn schema_source(&self) -> Option<Seq<char>> {
        self.schema@
    }
}

/// The step of context construction that failed.
#[derive(PartialEq, Eq, Structural, Clone, Copy, Debug)]
pub enum BuildStage {
    Entities,
    Principal,
    Action,
    Resource,
    Request,
}

/// Why a decoded request could not be turned into an evaluation context.
pub enum BuildError {
    EntitiesInvalid(String),
    PrincipalInvalid(String),
    ActionInvalid(String),
    ResourceInvalid(String),
    RequestInvalid(String),
}

/// The text that opens the message of a failure at `stage`.
pub open spec fn stage_prefix(stage: BuildStage) -> Seq<char> {
    match stage {
        BuildStage::Entities => "Failed to parse entities: "@,
        BuildStage::Principal => "Failed to parse principal: "@,
        BuildStage::Action => "Failed to parse action: "@,
        BuildStage::Resource => "Failed to parse resource: "@,
        BuildStage::Request => "Failed to create request: "@,
    }
}

impl BuildError {
    /// The step that failed.
    pub open spec fn kind(&self) -> BuildStage {
        match self {
            BuildError::EntitiesInvalid(_) => BuildStage::Entities,
            BuildError::PrincipalInvalid(_) => BuildStage::Principal,
            BuildError::ActionInvalid(_) => BuildStage::Action,
            BuildError::ResourceInvalid(_) => BuildStage::Resource,
            BuildError::RequestInvalid(_) => BuildStage::Request,
        }
    }

    /// The message's text.
    pub open spec fn text(&self) -> Seq<char> {
        match self {
            BuildError::EntitiesInvalid(m) => m@,
            BuildError::PrincipalInvalid(m) => m@,
            BuildError::ActionInvalid(m) => m@,
            BuildError::ResourceInvalid(m) => m@,
            BuildError::RequestInvalid(m) => m@,
        }
    }

    /// The step that failed.
    pub fn stage(&self) -> (r: BuildStage)
        ensures
            r == self.kind(),
    {
        match self {
            BuildError::EntitiesInvalid(_) => BuildStage::Entities,
            BuildError::PrincipalInvalid(_) => BuildStage::Principal,
            BuildError::ActionInvalid(_) => BuildStage::Action,
            BuildError::ResourceInvalid(_) => BuildStage::Resource,
            BuildError::RequestInvalid(_) => BuildStage::Request,
        }
    }

    /// The human-readable message carried by the error.
    pub fn message(&self) -> (r: String)
        ensures
            r@ == self.text(),
    {
        match self {
            BuildError::EntitiesInvalid(m) => m.clone(),
            BuildError::PrincipalInvalid(m) => m.clone(),
            BuildError::ActionInvalid(m) => m.clone(),
            BuildError::ResourceInvalid(m) => m.clone(),
            BuildError::RequestInvalid(m) => m.clone(),
        }
    }
}

/// The first step that fails when building a context for a request with these
/// fields under the given schema mode, or `None` when every step succeeds.
/// Steps run in the order entities, principal, action, resource, request.
pub open spec fn build_failure(
    schema: Option<Seq<char>>,
    principal: Seq<char>,
    action: Seq<char>,
    resource: Seq<char>,
    entities: Seq<char>,
) -> Option<BuildStage> {
    if !entities_accepted(entities, schema) {
        Some(BuildStage::Entities)
    } else if !uid_parses(principal) {
        Some(BuildStage::Principal)
    } else if !uid_parses(action) {
        Some(BuildStage::Action)
    } else if !uid_parses(resource) {
        Some(BuildStage::Resource)
    } else if !request_accepted(principal, action, resource, schema) {
        Some(BuildStage::Request)
    } else {
        None
    }
}

/// `build_failure` for a request under a service's schema mode.
pub open spec fn request_failure(service: &CedarService, req: &AuthzRequest) -> Option<BuildStage> {
    build_failure(
        service.schema_source(),
        req.principal@,
        req.action@,
        req.resource@,
        req.entities@,
    )
}

/// Parses one identifier, keeping its text as its view.
fn identifier(text: &String) -> (r: Result<Identifier, String>)
    ensures
        r is Ok <==> uid_parses(text@),
        r is Ok ==> r->Ok_0@ == text@,
{
    match parse_uid(text.as_str()) {
        Ok(uid) => Ok(Identifier { uid, text: Ghost(text@) }),
        Err(e) => Err(e),
    }
}

/// Builds the evaluation context under one schema mode, fixed by `schema`
/// for every step.
fn build_with(schema: Option<&SchemaArtifact>, req: &AuthzRequest) -> (r: Result<
    EvaluationContext,
    BuildError,
>)
    ensures
        match r {
            Ok(ctx) => build_failure(
                schema_source(schema),
                req.principal@,
                req.action@,
                req.resource@,
                req.entities@,
            ) is None && ctx.principal() == req.principal@ && ctx.action() == req.action@
                && ctx.resource() == req.resource@ && ctx.entities() == req.entities@
                && ctx.schema_source() == schema_source(schema),
            Err(e) => build_failure(
                schema_source(schema),
                req.principal@,
                req.action@,
                req.resource@,
                req.entities@,
            ) == Some(e.kind()) && starts_with(e.text(), stage_prefix(e.kind())),
        },
{
    let graph = match parse_entities(req.entities.as_str(), schema) {
        Ok(g) => g,
        Err(e) => {
            return Err(BuildError::EntitiesInvalid(prefixed("Failed to parse entities: ", &e)));
        },
    };
    let principal = match identifier(&req.principal) {
        Ok(p) => p,
        Err(e) => {
            return Err(BuildError::PrincipalInvalid(prefixed("Failed to parse principal: ", &e)));
        },
    };
    let action = match identifier(&req.action) {
        Ok(a) => a,
        Err(e) => {
            return Err(BuildError::ActionInvalid(prefixed("Failed to parse action: ", &e)));
        },
    };
    let resource = match identifier(&req.resource) {
        Ok(r) => r,
        Err(e) => {
            return Err(BuildError::ResourceInvalid(prefixed("Failed to parse resource: ", &e)));
        },
    };
    let request = match new_request(&principal, &action, &resource, schema) {
        Ok(q) => q,
        Err(e) => {
            return Err(BuildError::RequestInvalid(prefixed("Failed to create request: ", &e)));
        },
    };
    Ok(EvaluationContext {
        request,
        graph,
        ids: Ghost((req.principal@, req.action@, req.resource@)),
        entity_json: Ghost(req.entities@),
        schema: Ghost(schema_source(schema)),
    })
}

impl CedarService {
    /// Turns a decoded request into an evaluation context under the service's
    /// schema mode. Exactly one failure is reported: the first step that
    /// fails, in the order entities, principal, action, resource, request.
    pub fn build(&self, req: &AuthzRequest) -> (r: Result<EvaluationContext, BuildError>)
        ensures
            match r {
                Ok(ctx) => request_failure(self, req) is None && ctx.principal() == req.principal@
                    && ctx.action() == req.action@ && ctx.resource() == req.resource@
                    && ctx.entities() == req.entities@ && ctx.schema_source()
                    == self.schema_source(),
                Err(e) => request_failure(self, req) == Some(e.kind()) && starts_with(
                    e.text(),
                    stage_prefix(e.kind()),
                ),
            },
    {
        let schema = self.schema_artifact();
        build_with(schema, req)
    }
}

} // verus!
