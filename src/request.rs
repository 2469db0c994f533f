//! The inbound authorization request and the checks made while decoding it.

use vstd::prelude::*;
use crate::artifacts::prefixed;

verus! {

/// One authorization request: three identifiers in Cedar's textual form and
/// the entity facts as JSON text.
pub struct AuthzRequest {
    pub principal: String,
    pub action: String,
    pub resource: String,
    pub entities: String,
}

/// Why a request body could not be decoded.
pub enum DecodeError {
    Malformed(String),
}

impl DecodeError {
    /// The human-readable message carried by the error.
    pub fn message(&self) -> (r: String)
        ensures
            r@ == match self {
                DecodeError::Malformed(m) => m@,
            },
    {
        match self {
            DecodeError::Malformed(m) => m.clone(),
        }
    }
}

/// The error for a required field that the body lacks.
fn missing(field: &str) -> (r: DecodeError)
    ensures
        r == DecodeError::Malformed(r->Malformed_0),
        r->Malformed_0@ == "missing field "@ + field@,
{
    DecodeError::Malformed(prefixed("missing field ", field))
}

impl AuthzRequest {
    /// Assembles a request from the fields found in a decoded body, checking
    /// that each of the four is present; the first missing one, in the order
    /// principal, action, resource, entities, is reported.
    pub fn from_fields(
        principal: Option<String>,
        action: Option<String>,
        resource: Option<String>,
        entities: Option<String>,
    ) -> (r: Result<AuthzRequest, DecodeError>)
        ensures
            r is Ok <==> (principal is Some && action is Some && resource is Some && entities is Some),
            r is Ok ==> r->Ok_0.principal == principal->Some_0 && r->Ok_0.action == action->Some_0
                && r->Ok_0.resource == resource->Some_0 && r->Ok_0.entities == entities->Some_0,
            r is Err ==> r->Err_0->Malformed_0@.len() > 0,
            principal is None ==> r->Err_0->Malformed_0@ == "missing field principal"@,
            principal is Some && action is None ==> r->Err_0->Malformed_0@ == "missing field action"@,
            principal is Some && action is Some && resource is None ==> r->Err_0->Malformed_0@
                == "missing field resource"@,
            principal is Some && action is Some && resource is Some && entities is None
                ==> r->Err_0->Malformed_0@ == "missing field entities"@,
    {
        let principal = match principal {
            Some(p) => p,
            None => {
                let err = missing("principal");
                proof {
                    reveal_strlit("missing field ");
                    reveal_strlit("principal");
                    reveal_strlit("missing field principal");
                    assert(err->Malformed_0@ =~= "missing field principal"@);
                }
                return Err(err);
            },
        };
        let action = match action {
            Some(a) => a,
            None => {
                let err = missing("action");
                proof {
                    reveal_strlit("missing field ");
                    reveal_strlit("action");
                    reveal_strlit("missing field action");
                    assert(err->Malformed_0@ =~= "missing field action"@);
                }
                return Err(err);
            },
        };
        let resource = match resource {
            Some(r) => r,
            None => {
                let err = missing("resource");
                proof {
                    reveal_strlit("missing field ");
                    reveal_strlit("resource");
                    reveal_strlit("missing field resource");
                    assert(err->Malformed_0@ =~= "missing field resource"@);
                }
                return Err(err);
            },
        };
        let entities = match entities {
            Some(e) => e,
            None => {
                let err = missing("entities");
                proof {
                    reveal_strlit("missing field ");
                    reveal_strlit("entities");
                    reveal_strlit("missing field entities");
                    assert(err->Malformed_0@ =~= "missing field entities"@);
                }
                return Err(err);
            },
        };
        Ok(AuthzRequest { principal, action, resource, entities })
    }
}

} // verus!
