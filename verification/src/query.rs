//! Queries built on the evaluator: the objects of a type that a subject may
//! reach, and a read that hands out content only where a permission allows it.

use crate::decision::{allowed_spec, decide, Outcome};
use crate::graph::{lookup, GraphModel, ObjectGraph};
use crate::reference::{ObjectRef, RefModel};
use crate::rules::{RuleTable, RulesModel};
use crate::text::views;
use vstd::prelude::*;
use vstd::string::*;

verus! {

/// The objects of type `kind` among the first `n` entities on which `subject`
/// holds `permission`, in the order of the store.
pub open spec fn accessible_upto(
    g: GraphModel,
    t: RulesModel,
    subject: RefModel,
    permission: Seq<char>,
    kind: Seq<char>,
    n: int,
) -> Seq<RefModel>
    decreases n,
{
    if n <= 0 {
        Seq::empty()
    } else {
        let before = accessible_upto(g, t, subject, permission, kind, n - 1);
        let e = g[n - 1];
        if e.kind == kind && allowed_spec(g, t, subject, permission, e.key()) {
            before.push(e.key())
        } else {
            before
        }
    }
}

/// The objects of type `kind` on which `subject` holds `permission`.
pub open spec fn accessible_spec(
    g: GraphModel,
    t: RulesModel,
    subject: RefModel,
    permission: Seq<char>,
    kind: Seq<char>,
) -> Seq<RefModel> {
    accessible_upto(g, t, subject, permission, kind, g.len() as int)
}

/// What a filtered read hands out: the content of the object where `subject`
/// holds `permission` on it, and `sentinel` in its place wherever not, be it
/// that the permission is not granted or that the graph does not hold the
/// object.
pub open spec fn filtered_read_spec(
    g: GraphModel,
    t: RulesModel,
    subject: RefModel,
    permission: Seq<char>,
    object: RefModel,
    sentinel: Seq<char>,
) -> Seq<char> {
    match lookup(g, object) {
        Some(e) => if allowed_spec(g, t, subject, permission, object) {
            e.content
        } else {
            sentinel
        },
        None => sentinel,
    }
}

/// A filtered read hands out content to those only who hold the permission:
/// everybody else, whatever the reason of the denial, is handed the sentinel.
pub proof fn law_filtered_read_guards_content(
    g: GraphModel,
    t: RulesModel,
    subject: RefModel,
    permission: Seq<char>,
    object: RefModel,
    sentinel: Seq<char>,
)
    ensures
        !allowed_spec(g, t, subject, permission, object) ==> filtered_read_spec(
            g,
            t,
            subject,
            permission,
            object,
            sentinel,
        ) == sentinel,
        allowed_spec(g, t, subject, permission, object) ==> lookup(g, object) is Some
            && filtered_read_spec(g, t, subject, permission, object, sentinel) == lookup(
            g,
            object,
        )->0.content,
{
}

/// An object is listed exactly when it is one of the first `n` entities, has
/// the type asked for, and the subject holds the permission on it.
pub proof fn lemma_accessible_contains(
    g: GraphModel,
    t: RulesModel,
    subject: RefModel,
    permission: Seq<char>,
    kind: Seq<char>,
    n: int,
    r: RefModel,
)
    requires
        0 <= n <= g.len(),
    ensures
        accessible_upto(g, t, subject, permission, kind, n).contains(r) <==> exists|i: int|
            0 <= i < n && #[trigger] g[i].key() == r && r.kind == kind && allowed_spec(
                g,
                t,
                subject,
                permission,
                r,
            ),
    decreases n,
{
    if n > 0 {
        lemma_accessible_contains(g, t, subject, permission, kind, n - 1, r);
        let before = accessible_upto(g, t, subject, permission, kind, n - 1);
        let all = accessible_upto(g, t, subject, permission, kind, n);
        let e = g[n - 1];
        let taken = e.kind == kind && allowed_spec(g, t, subject, permission, e.key());
        if all.contains(r) {
            let k = choose|k: int| 0 <= k < all.len() && all[k] == r;
            if k < before.len() {
                assert(before[k] == r);
                assert(before.contains(r));
            } else {
                assert(g[n - 1].key() == r);
            }
        }
        if exists|i: int|
            0 <= i < n && #[trigger] g[i].key() == r && r.kind == kind && allowed_spec(
                g,
                t,
                subject,
                permission,
                r,
            ) {
            let i = choose|i: int|
                0 <= i < n && #[trigger] g[i].key() == r && r.kind == kind && allowed_spec(
                    g,
                    t,
                    subject,
                    permission,
                    r,
                );
            if i < n - 1 {
                assert(before.contains(r));
                let k = choose|k: int| 0 <= k < before.len() && before[k] == r;
                assert(all[k] == r);
            } else {
                assert(taken);
                assert(all[before.len() as int] == r);
            }
        }
    }
}

/// Lists the objects of type `kind` on which `subject` holds `permission`: one
/// check for each object of the store, no index is kept.
pub fn list_accessible(
    graph: &ObjectGraph,
    rules: &RuleTable,
    subject: &ObjectRef,
    permission: &str,
    kind: &str,
) -> (found: Vec<ObjectRef>)
    ensures
        views(found@) == accessible_spec(graph@, rules@, subject@, permission@, kind@),
{
    let kind = kind.to_string();
    let mut found: Vec<ObjectRef> = Vec::new();
    let mut i: usize = 0;
    assert(views(found@) =~= accessible_upto(graph@, rules@, subject@, permission@, kind@, 0));
    while i < graph.len()
        invariant
            i <= graph@.len(),
            views(found@) == accessible_upto(
                graph@,
                rules@,
                subject@,
                permission@,
                kind@,
                i as int,
            ),
        decreases graph@.len() - i,
    {
        let entity = graph.entity(i);
        if entity.kind == kind {
            let key = entity.key();
            match decide(graph, rules, subject, permission, &key) {
                Outcome::Granted => {
                    let ghost before = views(found@);
                    found.push(key);
                    assert(views(found@) =~= before.push(key@));
                },
                _ => {},
            }
        }
        i += 1;
    }
    found
}

/// Reads the content of `object` for `subject`: the content where `subject`
/// holds `permission`, and `sentinel` wherever not, also where the graph
/// holds no such object. It never fails and always hands out a text.
pub fn filtered_read(
    graph: &ObjectGraph,
    rules: &RuleTable,
    subject: &ObjectRef,
    permission: &str,
    object: &ObjectRef,
    sentinel: &str,
) -> (content: Option<String>)
    ensures
        content matches Some(text) && text@ == filtered_read_spec(
            graph@,
            rules@,
            subject@,
            permission@,
            object@,
            sentinel@,
        ),
{
    match graph.find(object) {
        None => Some(sentinel.to_string()),
        Some(entity) => match decide(graph, rules, subject, permission, object) {
            Outcome::Granted => Some(entity.content.clone()),
            _ => Some(sentinel.to_string()),
        },
    }
}

} // verus!
