//! Decisions, diagnostics, the response that carries them, and its JSON form.

use vstd::prelude::*;
use vstd::string::*;
use crate::engine::texts;

verus! {

/// The binary outcome of an evaluation.
#[derive(PartialEq, Eq, Structural, Clone, Copy, Debug)]
pub enum Decision {
    Allow,
    Deny,
}

/// The wire name of a decision.
pub open spec fn decision_text(d: Decision) -> Seq<char> {
    match d {
        Decision::Allow => "Allow"@,
        Decision::Deny => "Deny"@,
    }
}

impl Decision {
    /// The wire name of the decision: `Allow` or `Deny`.
    pub fn as_text(&self) -> (r: &'static str)
        ensures
            r@ == decision_text(*self),
    {
        match self {
            Decision::Allow => "Allow",
            Decision::Deny => "Deny",
        }
    }
}

/// Supplementary evaluation output: the policies that determined the decision
/// and the evaluation errors, each in the order the engine handed them out.
pub struct Diagnostics {
    pub reason: Vec<String>,
    pub errors: Vec<String>,
}

/// The answer to one authorization request.
pub struct AuthzResponse {
    pub decision: String,
    pub diagnostics: Diagnostics,
}

/// Builds the response for a decision and its diagnostics, keeping both
/// sequences as they are.
pub fn assemble(decision: Decision, reason: Vec<String>, errors: Vec<String>) -> (r: AuthzResponse)
    ensures
        r.decision@ == decision_text(decision),
        r.diagnostics.reason@ == reason@,
        r.diagnostics.errors@ == errors@,
{
    AuthzResponse {
        decision: String::from_str(decision.as_text()),
        diagnostics: Diagnostics { reason, errors },
    }
}

/// The lowercase hexadecimal digit of `n`, for `n < 16`.
pub open spec fn hex_digit(n: u32) -> char {
    "0123456789abcdef"@[n as int]
}

/// How a JSON string literal writes the character `c`: `"` and `\` behind a
/// backslash, the control characters below U+0020 as a short escape where JSON
/// has one and as `\u00XX` otherwise, every other character as it is.
pub open spec fn escaped_char(c: char) -> Seq<char> {
    if c == '"' {
        seq!['\\', '"']
    } else if c == '\\' {
        seq!['\\', '\\']
    } else if c == '\x08' {
        seq!['\\', 'b']
    } else if c == '\x0C' {
        seq!['\\', 'f']
    } else if c == '\n' {
        seq!['\\', 'n']
    } else if c == '\r' {
        seq!['\\', 'r']
    } else if c == '\t' {
        seq!['\\', 't']
    } else if (c as u32) < 32 {
        seq!['\\', 'u', '0', '0', hex_digit((c as u32) / 16), hex_digit((c as u32) % 16)]
    } else {
        seq![c]
    }
}

/// The characters of `s`, each written as `escaped_char` writes it.
pub open spec fn escaped(s: Seq<char>) -> Seq<char>
    decreases s.len(),
{
    if s.len() == 0 {
        Seq::empty()
    } else {
        escaped(s.drop_last()) + escaped_char(s.last())
    }
}

/// The JSON string literal for `s`.
pub open spec fn json_string(s: Seq<char>) -> Seq<char> {
    seq!['"'] + escaped(s) + seq!['"']
}

/// Relies on serde_json's rendering of a string value: between double quotes,
/// each character escaped as its `ESCAPE` table and `write_char_escape` do.
#[verifier::external_body]
fn json_quote(s: &str) -> (r: String)
    ensures
        r@ == json_string(s@),
{
    serde_json::Value::String(s.to_string()).to_string()
}

/// The JSON literal of `s`.
pub fn json_string_of(s: &str) -> (r: String)
    ensures
        r@ == json_string(s@),
{
    json_quote(s)
}

/// The elements of a JSON array of strings, separated by commas.
pub open spec fn json_items(xs: Seq<Seq<char>>) -> Seq<char>
    decreases xs.len(),
{
    if xs.len() == 0 {
        Seq::empty()
    } else if xs.len() == 1 {
        json_string(xs[0])
    } else {
        json_items(xs.drop_last()) + ","@ + json_string(xs.last())
    }
}

/// The JSON array of the strings `xs`, in order.
pub open spec fn json_array(xs: Seq<Seq<char>>) -> Seq<char> {
    "["@ + json_items(xs) + "]"@
}

/// The JSON text of a response.
pub open spec fn response_json(
    decision: Seq<char>,
    reason: Seq<Seq<char>>,
    errors: Seq<Seq<char>>,
) -> Seq<char> {
    "{\"decision\":"@ + json_string(decision) + ",\"diagnostics\":{\"reason\":"@ + json_array(
        reason,
    ) + ",\"errors\":"@ + json_array(errors) + "}}"@
}

/// Renders a JSON array of strings.
fn json_array_of(xs: &Vec<String>) -> (r: String)
    ensures
        r@ == json_array(texts(xs@)),
{
    let mut out = String::from_str("[");
    let mut i: usize = 0;
    while i < xs.len()
        invariant
            i <= xs.len(),
            out@ == "["@ + json_items(texts(xs@).take(i as int)),
        decreases xs.len() - i,
    {
        if i > 0 {
            out.append(",");
        }
        let q = json_string_of(xs[i].as_str());
        out.append(q.as_str());
        proof {
            let t = texts(xs@);
            assert(t.take(i + 1).drop_last() =~= t.take(i as int));
            if i == 0 {
                assert(t.take(i as int) =~= Seq::<Seq<char>>::empty());
            }
        }
        i += 1;
    }
    proof {
        assert(texts(xs@).take(i as int) =~= texts(xs@));
    }
    out.append("]");
    out
}

impl AuthzResponse {
    /// The JSON text the response serializes to.
    pub open spec fn json_spec(&self) -> Seq<char> {
        response_json(
            self.decision@,
            texts(self.diagnostics.reason@),
            texts(self.diagnostics.errors@),
        )
    }

    /// Serializes the response as
    /// `{"decision":…,"diagnostics":{"reason":[…],"errors":[…]}}`.
    pub fn to_json(&self) -> (r: String)
        ensures
            r@ == self.json_spec(),
    {
        let mut out = String::from_str("{\"decision\":");
        let d = json_string_of(self.decision.as_str());
        out.append(d.as_str());
        out.append(",\"diagnostics\":{\"reason\":");
        let reason = json_array_of(&self.diagnostics.reason);
        out.append(reason.as_str());
        out.append(",\"errors\":");
        let errors = json_array_of(&self.diagnostics.errors);
        out.append(errors.as_str());
        out.append("}}");
        out
    }
}

} // verus!
