//! The boundary of the evaluator: requests as callers write them, and the
//! decision that is handed back. Whatever goes wrong on the way to a decision
//! is a denial; it shows in the advisory reason only.

use crate::evaluator::{check_at, check_spec, full_budget, EvalContext, Verdict};
use crate::graph::{lookup, GraphModel, ObjectGraph};
use crate::reference::{parse_spec, ObjectRef, RefModel};
use crate::rules::{find_rules, RuleTable, RulesModel};
use vstd::prelude::*;
use vstd::string::*;

verus! {

/// An authorization question: may `user` exercise `relation` on `object`?
/// `user` and `object` are written `type:id`.
#[derive(Debug)]
pub struct AuthorizationRequest {
    pub user: String,
    pub relation: String,
    pub object: String,
}

/// The mathematical value of an [`AuthorizationRequest`].
pub struct RequestModel {
    pub user: Seq<char>,
    pub relation: Seq<char>,
    pub object: Seq<char>,
}

impl View for AuthorizationRequest {
    type V = RequestModel;

    open spec fn view(&self) -> RequestModel {
        RequestModel { user: self.user@, relation: self.relation@, object: self.object@ }
    }
}

/// The answer to an authorization question. Only `allowed` decides; `reason`
/// is for operators and auditors.
#[derive(Debug)]
pub struct AuthorizationResponse {
    pub allowed: bool,
    pub reason: Option<String>,
}

/// How a request ended. `Granted` alone allows.
#[derive(Clone, Copy, PartialEq, Eq, Structural, Debug)]
pub enum Outcome {
    /// A predicate of the rule list holds.
    Granted,
    /// No predicate of the rule list holds.
    NotGranted,
    /// The subject or the object is not of the form `type:id`.
    ParseError,
    /// The graph holds no such object.
    NotFound,
    /// No rule list is registered for the permission on objects of this type.
    UnknownPermission,
    /// No predicate holds, and an evaluation was cut off at the depth limit.
    RecursionLimitExceeded,
}

impl Outcome {
    /// The advisory text of an outcome.
    pub open spec fn reason_spec(self) -> Seq<char> {
        match self {
            Outcome::Granted => "granted"@,
            Outcome::NotGranted => "not granted"@,
            Outcome::ParseError => "malformed reference"@,
            Outcome::NotFound => "object not found"@,
            Outcome::UnknownPermission => "unknown permission"@,
            Outcome::RecursionLimitExceeded => "recursion limit exceeded"@,
        }
    }

    /// The advisory text of an outcome.
    pub fn reason(&self) -> (text: String)
        ensures
            text@ == self.reason_spec(),
    {
        match self {
            Outcome::Granted => String::from_str("granted"),
            Outcome::NotGranted => String::from_str("not granted"),
            Outcome::ParseError => String::from_str("malformed reference"),
            Outcome::NotFound => String::from_str("object not found"),
            Outcome::UnknownPermission => String::from_str("unknown permission"),
            Outcome::RecursionLimitExceeded => String::from_str("recursion limit exceeded"),
        }
    }

    /// The response that reports this outcome.
    pub fn response(&self) -> (r: AuthorizationResponse)
        ensures
            response_reports(r, *self),
    {
        AuthorizationResponse { allowed: matches!(self, Outcome::Granted), reason: Some(self.reason()) }
    }
}

/// Whether `r` reports the outcome `o`: it allows exactly where `o` grants,
/// and carries the advisory text of `o`.
pub open spec fn response_reports(r: AuthorizationResponse, o: Outcome) -> bool {
    &&& r.allowed == (o is Granted)
    &&& r.reason matches Some(text)
    &&& text@ == o.reason_spec()
}

/// How the question "does `subject` hold `permission` on `object`" ends. The
/// rule list of the pair of the object's type and the permission decides; a
/// pair without a list that requests may name is an unknown permission.
pub open spec fn outcome_spec(
    g: GraphModel,
    t: RulesModel,
    subject: RefModel,
    permission: Seq<char>,
    object: RefModel,
) -> Outcome {
    match find_rules(t, object.kind, permission) {
        None => Outcome::UnknownPermission,
        Some(rules) => if !rules.exported {
            Outcome::UnknownPermission
        } else if lookup(g, object) is None {
            Outcome::NotFound
        } else {
            match check_spec(g, t, subject.id, permission, object, full_budget()) {
                Verdict::Allowed => Outcome::Granted,
                Verdict::Denied => Outcome::NotGranted,
                Verdict::Exhausted => Outcome::RecursionLimitExceeded,
            }
        },
    }
}

/// How a request ends: a subject or an object that is not of the form
/// `type:id` is a parse error, every other request ends as its question does.
pub open spec fn request_outcome(g: GraphModel, t: RulesModel, request: RequestModel) -> Outcome {
    match (parse_spec(request.user), parse_spec(request.object)) {
        (Some(subject), Some(object)) => outcome_spec(g, t, subject, request.relation, object),
        _ => Outcome::ParseError,
    }
}

/// Whether the question "does `subject` hold `permission` on `object`" is
/// answered with yes.
pub open spec fn allowed_spec(
    g: GraphModel,
    t: RulesModel,
    subject: RefModel,
    permission: Seq<char>,
    object: RefModel,
) -> bool {
    outcome_spec(g, t, subject, permission, object) is Granted
}

/// Decides the question "does `subject` hold `permission` on `object`" and
/// says how it ended. Of the subject only the id is read.
pub fn decide(
    graph: &ObjectGraph,
    rules: &RuleTable,
    subject: &ObjectRef,
    permission: &str,
    object: &ObjectRef,
) -> (o: Outcome)
    ensures
        o == outcome_spec(graph@, rules@, subject@, permission@, object@),
{
    let permission = permission.to_string();
    match rules.find(&object.kind, &permission) {
        None => Outcome::UnknownPermission,
        Some(set) => {
            if !set.exported {
                Outcome::UnknownPermission
            } else if graph.find(object).is_none() {
                Outcome::NotFound
            } else {
                let ctx = EvalContext::root();
                match check_at(graph, rules, &subject.id, &permission, object, &ctx) {
                    Verdict::Allowed => Outcome::Granted,
                    Verdict::Denied => Outcome::NotGranted,
                    Verdict::Exhausted => Outcome::RecursionLimitExceeded,
                }
            }
        },
    }
}

/// Decides a request as it was written and says how it ended.
pub fn decide_request(graph: &ObjectGraph, rules: &RuleTable, request: &AuthorizationRequest) -> (o:
    Outcome)
    ensures
        o == request_outcome(graph@, rules@, request@),
{
    match ObjectRef::parse(request.user.as_str()) {
        None => Outcome::ParseError,
        Some(subject) => match ObjectRef::parse(request.object.as_str()) {
            None => Outcome::ParseError,
            Some(object) => decide(graph, rules, &subject, request.relation.as_str(), &object),
        },
    }
}

/// Answers the question "does `subject` hold `permission` on `object`".
pub fn check(
    graph: &ObjectGraph,
    rules: &RuleTable,
    subject: &ObjectRef,
    permission: &str,
    object: &ObjectRef,
) -> (r: AuthorizationResponse)
    ensures
        response_reports(r, outcome_spec(graph@, rules@, subject@, permission@, object@)),
{
    decide(graph, rules, subject, permission, object).response()
}

/// Answers a request as it was written. It never fails: a request that cannot
/// be read or resolved is denied.
pub fn check_request(graph: &ObjectGraph, rules: &RuleTable, request: &AuthorizationRequest) -> (r:
    AuthorizationResponse)
    ensures
        response_reports(r, request_outcome(graph@, rules@, request@)),
{
    decide_request(graph, rules, request).response()
}

} // verus!
