//! Policy and schema artifacts, loaded once at startup and then shared
//! read-only by every request.

use vstd::prelude::*;
use vstd::string::*;
use crate::engine::{parse_policy_set, parse_schema, policy_set_parses, schema_parses};

verus! {

/// A parsed policy set, viewed as the source text it was parsed from. Only
/// `CedarService::new` builds one, from the text its view records.
pub struct PolicyArtifact {
    pub(crate) policies: cedar_policy::PolicySet,
    pub(crate) source: Ghost<Seq<char>>,
}

impl View for PolicyArtifact {
    type V = Seq<char>;

    closed spec fn view(&self) -> Seq<char> {
        self.source@
    }
}

/// A parsed schema, viewed as the source text it was parsed from. Only
/// `CedarService::new` builds one, from the text its view records.
pub struct SchemaArtifact {
    pub(crate) schema: cedar_policy::Schema,
    pub(crate) source: Ghost<Seq<char>>,
}

impl View for SchemaArtifact {
    type V = Seq<char>;

    closed spec fn view(&self) -> Seq<char> {
        self.source@
    }
}

/// The source text of an optional schema; `None` is schema-less mode.
pub open spec fn schema_source(s: Option<&SchemaArtifact>) -> Option<Seq<char>> {
    match s {
        Some(a) => Some(a@),
        None => None,
    }
}

/// Why the service refused to start.
pub enum StartupError {
    PolicyUnreadable(String),
    PolicyInvalid(String),
    SchemaInvalid(String),
}

impl StartupError {
    /// The human-readable message carried by the error.
    pub fn message(&self) -> (r: String)
        ensures
            r@ == match self {
                StartupError::PolicyUnreadable(m) => m@,
                StartupError::PolicyInvalid(m) => m@,
                StartupError::SchemaInvalid(m) => m@,
            },
    {
        match self {
            StartupError::PolicyUnreadable(m) => m.clone(),
            StartupError::PolicyInvalid(m) => m.clone(),
            StartupError::SchemaInvalid(m) => m.clone(),
        }
    }
}

/// `p` is a prefix of `s`.
pub open spec fn starts_with(s: Seq<char>, p: Seq<char>) -> bool {
    p.len() <= s.len() && s.subrange(0, p.len() as int) =~= p
}

/// `prefix` followed by `detail`.
pub(crate) fn prefixed(prefix: &str, detail: &str) -> (r: String)
    ensures
        r@ == prefix@ + detail@,
{
    String::from_str(prefix).concat(detail)
}

/// Startup succeeds on these sources: the policy text was read and parses,
/// and the schema text, where one was read, parses.
pub open spec fn startup_ok(policy: Result<Seq<char>, Seq<char>>, schema: Option<Seq<char>>) -> bool {
    &&& policy is Ok
    &&& policy_set_parses(policy->Ok_0)
    &&& (schema matches Some(s) ==> schema_parses(s))
}

/// The process-wide state of the service: one policy set and, in schema mode,
/// one schema. Schema presence is fixed for the value's lifetime.
pub struct CedarService {
    pub(crate) policy: PolicyArtifact,
    pub(crate) schema: Option<SchemaArtifact>,
}

impl CedarService {
    /// The policy source text the service holds.
    pub closed spec fn policy_source(&self) -> Seq<char> {
        self.policy@
    }

    /// The schema source text the service holds, if any.
    pub closed spec fn schema_source(&self) -> Option<Seq<char>> {
        match self.schema {
            Some(a) => Some(a@),
            None => None,
        }
    }

    /// Builds the service from what was read at startup: the policy file's
    /// text or the message of the read failure, and the schema file's text
    /// if it could be read (`None` selects schema-less mode).
    pub fn new(policy_src: Result<String, String>, schema_src: Option<String>) -> (r: Result<
        CedarService,
        StartupError,
    >)
        ensures
            r is Ok <==> startup_ok(
                match policy_src { Ok(s) => Ok(s@), Err(e) => Err(e@) },
                match schema_src { Some(s) => Some(s@), None => None },
            ),
            r is Ok ==> r->Ok_0.policy_source() == policy_src->Ok_0@,
            r is Ok ==> r->Ok_0.schema_source() == match schema_src {
                Some(s) => Some(s@),
                None => None::<Seq<char>>,
            },
            (r is Err && r->Err_0 is PolicyUnreadable) <==> policy_src is Err,
            policy_src is Err ==> r->Err_0->PolicyUnreadable_0@ == "Failed to read policy file: "@ + policy_src->Err_0@,
            (r is Err && r->Err_0 is PolicyInvalid) <==> (policy_src is Ok && !policy_set_parses(
                policy_src->Ok_0@,
            )),
            (r is Err && r->Err_0 is PolicyInvalid) ==> starts_with(
                r->Err_0->PolicyInvalid_0@,
                "Failed to parse policies: "@,
            ),
            (r is Err && r->Err_0 is SchemaInvalid) <==> (policy_src is Ok && policy_set_parses(
                policy_src->Ok_0@,
            ) && schema_src is Some && !schema_parses(schema_src->Some_0@)),
            (r is Err && r->Err_0 is SchemaInvalid) ==> starts_with(
                r->Err_0->SchemaInvalid_0@,
                "Failed to parse schema: "@,
            ),
    {
        let text = match policy_src {
            Ok(t) => t,
            Err(e) => {
                return Err(StartupError::PolicyUnreadable(prefixed("Failed to read policy file: ", &e)));
            },
        };
        let policies = match parse_policy_set(&text) {
            Ok(p) => p,
            Err(e) => {
                return Err(StartupError::PolicyInvalid(prefixed("Failed to parse policies: ", &e)));
            },
        };
        let policy = PolicyArtifact { policies, source: Ghost(text@) };
        let schema = match schema_src {
            None => None,
            Some(s) => match parse_schema(&s) {
                Ok(parsed) => Some(SchemaArtifact { schema: parsed, source: Ghost(s@) }),
                Err(e) => {
                    return Err(StartupError::SchemaInvalid(prefixed("Failed to parse schema: ", &e)));
                },
            },
        };
        Ok(CedarService { policy, schema })
    }

    /// The policy artifact.
    pub(crate) fn policy_artifact(&self) -> (r: &PolicyArtifact)
        ensures
            r@ == self.policy_source(),
    {
        &self.policy
    }

    /// The schema artifact, resolved once for a whole request.
    pub(crate) fn schema_artifact(&self) -> (r: Option<&SchemaArtifact>)
        ensures
            schema_source(r) == self.schema_source(),
    {
        match &self.schema {
            Some(s) => Some(s),
            None => None,
        }
    }

    /// Whether the service runs in schema mode.
    pub fn has_schema(&self) -> (r: bool)
        ensures
            r == self.schema_source() is Some,
    {
        self.schema.is_some()
    }
}

} // verus!
