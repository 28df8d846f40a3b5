//! What holds of the knowledge policy in every graph: who is allowed what,
//! said in terms of the relation lists themselves.

use crate::decision::allowed_spec;
use crate::demos::genai_rag::{
    document_ref, genai_rules, query_ref, user_ref, visible_documents, AIModel, Document,
    DocumentModel, GenAIRAGDemo, GenAIUser, KnowledgeBase, Organization, RAGQuery, RAGSession,
};
use crate::query::{accessible_spec, lemma_accessible_contains};
use crate::records::{
    lemma_last_stored_at, lemma_last_stored_none, lemma_lookup_stored, lemma_stored_entities,
    lemma_stored_extends, records_extend, stored_all, Identified, Record,
};
use crate::text::views;
use crate::evaluator::{check_spec, every_spec, full_budget, holds_spec};
use crate::graph::{lemma_position_from, lookup, position, EntityModel, GraphModel};
use crate::laws::{law_conjunction, law_every_reference, law_rule_list_is_disjunction};
use crate::monotonicity::{
    entity_extends, lemma_longer_lists_extend, graph_extends, guards_tighten, is_stricter, is_unconditional, law_larger_graph_allows_more,
    lemma_empty_relation, lemma_unconditional_tightens, table_tightens,
};
use crate::reference::RefModel;
use crate::rules::{
    both, every, find_rules, lemma_find_rules_at, lemma_find_rules_none, GuardModel,
};
use vstd::prelude::*;

verus! {

/// The reference of the knowledge base `id`.
pub open spec fn knowledge_base_ref(id: Seq<char>) -> RefModel {
    RefModel { kind: "knowledge_base"@, id: id }
}

/// The reference of the model `id`.
pub open spec fn model_ref(id: Seq<char>) -> RefModel {
    RefModel { kind: "ai_model"@, id: id }
}

/// The reference of the session `id`.
pub open spec fn session_ref(id: Seq<char>) -> RefModel {
    RefModel { kind: "rag_session"@, id: id }
}

/// The container of `e`, where `e` names one of the type `kind` and the graph
/// holds it.
pub open spec fn container_of(g: GraphModel, e: EntityModel, kind: Seq<char>) -> Option<EntityModel> {
    match e.container() {
        Some(c) => if c.kind == kind {
            lookup(g, c)
        } else {
            None
        },
        None => None,
    }
}

/// Whether `subject` is a member or an admin of the organization that holds
/// `e`.
pub open spec fn is_org_member(g: GraphModel, e: EntityModel, subject: Seq<char>) -> bool {
    container_of(g, e, "organization"@) matches Some(o) && (o.has_member("member"@, subject)
        || o.has_member("admin"@, subject))
}

/// Whether `subject` is an admin of the organization that holds `e`.
pub open spec fn is_org_admin(g: GraphModel, e: EntityModel, subject: Seq<char>) -> bool {
    container_of(g, e, "organization"@) matches Some(o) && o.has_member("admin"@, subject)
}

/// Who may view a knowledge base: its curators, contributors and readers, and
/// the members of its organization.
pub open spec fn views_knowledge_base(g: GraphModel, kb: EntityModel, subject: Seq<char>) -> bool {
    kb.has_member("curator"@, subject) || kb.has_member("contributor"@, subject) || kb.has_member(
        "reader"@,
        subject,
    ) || is_org_member(g, kb, subject)
}

/// Whether `kb` is a knowledge base that `subject` may view.
pub open spec fn views_base(g: GraphModel, kb: Option<EntityModel>, subject: Seq<char>) -> bool {
    kb matches Some(k) && views_knowledge_base(g, k, subject)
}

/// Whether `kb` is a knowledge base that `subject` curates or contributes to.
pub open spec fn contributes_to(kb: Option<EntityModel>, subject: Seq<char>) -> bool {
    kb matches Some(k) && (k.has_member("curator"@, subject) || k.has_member(
        "contributor"@,
        subject,
    ))
}

/// Whether `kb` is a knowledge base that `subject` curates.
pub open spec fn curates(kb: Option<EntityModel>, subject: Seq<char>) -> bool {
    kb matches Some(k) && k.has_member("curator"@, subject)
}

/// Whether `kb` is a knowledge base that `subject` curates or whose
/// organization `subject` administers.
pub open spec fn administers(g: GraphModel, kb: Option<EntityModel>, subject: Seq<char>) -> bool {
    kb matches Some(k) && (k.has_member("curator"@, subject) || is_org_admin(g, k, subject))
}

/// Whether a document names neither viewer nor editor.
pub open spec fn is_confidential(d: EntityModel) -> bool {
    d.relation_is_empty("viewer"@) && d.relation_is_empty("editor"@)
}

/// Who may view a document: its owner, editors and viewers; the curators of
/// its knowledge base; and, where the document names a viewer or an editor,
/// whoever may view its knowledge base.
pub open spec fn views_document(g: GraphModel, d: EntityModel, subject: Seq<char>) -> bool {
    ||| d.has_member("owner"@, subject)
    ||| d.has_member("editor"@, subject)
    ||| d.has_member("viewer"@, subject)
    ||| if is_confidential(d) {
        curates(container_of(g, d, "knowledge_base"@), subject)
    } else {
        views_base(g, container_of(g, d, "knowledge_base"@), subject)
    }
}

/// Who takes part in a session: its owner and its participants.
pub open spec fn joins_session(session: EntityModel, subject: Seq<char>) -> bool {
    session.has_member("owner"@, subject) || session.has_member("participant"@, subject)
}

/// Who may view a query: who put it, and who takes part in its session.
pub open spec fn views_query(g: GraphModel, q: EntityModel, subject: Seq<char>) -> bool {
    q.has_member("initiated_by"@, subject) || (container_of(g, q, "rag_session"@) matches Some(
        session,
    ) && joins_session(session, subject))
}

/// Whether `subject` may view every document that the query cites.
pub open spec fn views_cited_documents(g: GraphModel, q: EntityModel, subject: Seq<char>) -> bool {
    forall|i: int|
        0 <= i < q.references.len() && (#[trigger] q.references[i]).relation
            == "queried_documents"@ ==> q.references[i].target.kind == "document"@ && (lookup(
            g,
            q.references[i].target,
        ) matches Some(d) && views_document(g, d, subject))
}

/// The entities of the graph name containers of the type that the domain
/// gives them: documents and sessions a knowledge base, queries a session.
pub open spec fn well_shaped(g: GraphModel) -> bool {
    forall|i: int| 0 <= i < g.len() ==> has_expected_container(#[trigger] g[i])
}

/// Whether the container that `e` names, if any, is of the type that the
/// domain gives it.
pub open spec fn has_expected_container(e: EntityModel) -> bool {
    match e.container() {
        Some(c) => {
            &&& e.kind == "document"@ ==> c.kind == "knowledge_base"@
            &&& e.kind == "rag_session"@ ==> c.kind == "knowledge_base"@
            &&& e.kind == "rag_query"@ ==> c.kind == "rag_session"@
        },
        None => true,
    }
}

/// What is found under a key is an entity of the graph, stored under that
/// key.
pub proof fn lemma_lookup_is_entity(g: GraphModel, key: RefModel)
    requires
        lookup(g, key) is Some,
    ensures
        exists|i: int| 0 <= i < g.len() && #[trigger] g[i] == lookup(g, key)->0,
        lookup(g, key)->0.key() == key,
{
    lemma_position_from(g, key, 0);
    let i = position(g, key)->0;
    assert(g[i] == lookup(g, key)->0);
}

/// What is found in a well-shaped graph names a container of the expected
/// type.
pub proof fn lemma_shape_of_found(g: GraphModel, key: RefModel)
    requires
        well_shaped(g),
        lookup(g, key) is Some,
    ensures
        has_expected_container(lookup(g, key)->0),
        lookup(g, key)->0.key() == key,
{
    lemma_position_from(g, key, 0);
    let i = position(g, key)->0;
    assert(has_expected_container(g[i]));
}

/// The names of the policy differ from one another.
proof fn lemma_names()
    ensures
        "organization"@.len() == 12,
        "knowledge_base"@.len() == 14,
        "document"@.len() == 8,
        "ai_model"@.len() == 8,
        "rag_session"@.len() == 11,
        "rag_query"@.len() == 9,
        "member"@.len() == 6,
        "admin"@.len() == 5,
        "can_view"@.len() == 8,
        "can_contribute"@.len() == 14,
        "can_curate"@.len() == 10,
        "can_admin"@.len() == 9,
        "can_edit"@.len() == 8,
        "can_delete"@.len() == 10,
        "can_use_in_rag"@.len() == 14,
        "can_use"@.len() == 7,
        "can_configure"@.len() == 13,
        "can_query"@.len() == 9,
        "can_access_documents"@.len() == 20,
        "can_access_results"@.len() == 18,
        "can_view"@ != "can_edit"@,
        "can_curate"@ != "can_delete"@,
        "can_contribute"@ != "can_use_in_rag"@,
        "can_admin"@ != "can_query"@,
        "document"@ != "ai_model"@,
{
    reveal_strlit("organization");
    reveal_strlit("knowledge_base");
    reveal_strlit("document");
    reveal_strlit("ai_model");
    reveal_strlit("rag_session");
    reveal_strlit("rag_query");
    reveal_strlit("member");
    reveal_strlit("admin");
    reveal_strlit("can_view");
    reveal_strlit("can_contribute");
    reveal_strlit("can_curate");
    reveal_strlit("can_admin");
    reveal_strlit("can_edit");
    reveal_strlit("can_delete");
    reveal_strlit("can_use_in_rag");
    reveal_strlit("can_use");
    reveal_strlit("can_configure");
    reveal_strlit("can_query");
    reveal_strlit("can_access_documents");
    reveal_strlit("can_access_results");
    assert("can_view"@[4] != "can_edit"@[4]);
    assert("can_curate"@[4] != "can_delete"@[4]);
    assert("can_contribute"@[4] != "can_use_in_rag"@[4]);
    assert("can_admin"@[4] != "can_query"@[4]);
    assert("document"@[0] != "ai_model"@[0]);
}

/// Every rule list of the policy is the one that is found for its pair.
pub proof fn lemma_genai_table(i: int)
    requires
        0 <= i < genai_rules().len(),
    ensures
        find_rules(genai_rules(), genai_rules()[i].object_kind, genai_rules()[i].permission)
            == Some(genai_rules()[i]),
{
    let t = genai_rules();
    lemma_names();
    assert forall|j: int| 0 <= j < i implies !(#[trigger] t[j]).is_for(
        t[i].object_kind,
        t[i].permission,
    ) by {}
    lemma_find_rules_at(t, t[i].object_kind, t[i].permission, i);
}

/// The permissions that are registered for one type of object only are found
/// for that type and for no other.
pub proof fn lemma_single_rules(kind: Seq<char>)
    ensures
        find_rules(genai_rules(), kind, "member"@) == if kind == "organization"@ {
            Some(genai_rules()[0])
        } else {
            None
        },
        find_rules(genai_rules(), kind, "admin"@) == if kind == "organization"@ {
            Some(genai_rules()[1])
        } else {
            None
        },
        find_rules(genai_rules(), kind, "can_contribute"@) == if kind == "knowledge_base"@ {
            Some(genai_rules()[3])
        } else {
            None
        },
        find_rules(genai_rules(), kind, "can_curate"@) == if kind == "knowledge_base"@ {
            Some(genai_rules()[4])
        } else {
            None
        },
        find_rules(genai_rules(), kind, "can_use_in_rag"@) == if kind == "document"@ {
            Some(genai_rules()[9])
        } else {
            None
        },
{
    let t = genai_rules();
    lemma_names();
    assert forall|j: int| 0 <= j < t.len() && j != 0 implies (#[trigger] t[j]).permission
        != "member"@ by {}
    assert forall|j: int| 0 <= j < t.len() && j != 1 implies (#[trigger] t[j]).permission
        != "admin"@ by {}
    assert forall|j: int| 0 <= j < t.len() && j != 3 implies (#[trigger] t[j]).permission
        != "can_contribute"@ by {}
    assert forall|j: int| 0 <= j < t.len() && j != 4 implies (#[trigger] t[j]).permission
        != "can_curate"@ by {}
    assert forall|j: int| 0 <= j < t.len() && j != 9 implies (#[trigger] t[j]).permission
        != "can_use_in_rag"@ by {}
    if kind == "organization"@ {
        lemma_find_rules_at(t, kind, "member"@, 0);
        lemma_find_rules_at(t, kind, "admin"@, 1);
    } else {
        lemma_find_rules_none(t, kind, "member"@);
        lemma_find_rules_none(t, kind, "admin"@);
    }
    if kind == "knowledge_base"@ {
        lemma_find_rules_at(t, kind, "can_contribute"@, 3);
        lemma_find_rules_at(t, kind, "can_curate"@, 4);
    } else {
        lemma_find_rules_none(t, kind, "can_contribute"@);
        lemma_find_rules_none(t, kind, "can_curate"@);
    }
    if kind == "document"@ {
        lemma_find_rules_at(t, kind, "can_use_in_rag"@, 9);
    } else {
        lemma_find_rules_none(t, kind, "can_use_in_rag"@);
    }
}

/// What the delegation to the organization of `e` comes to.
pub proof fn lemma_organization_delegation(
    g: GraphModel,
    e: EntityModel,
    subject: Seq<char>,
    budget: nat,
)
    requires
        budget >= 1,
        e.container() is Some,
    ensures
        check_spec(g, genai_rules(), subject, "member"@, e.container()->0, budget) is Allowed
            <==> is_org_member(g, e, subject),
        check_spec(g, genai_rules(), subject, "admin"@, e.container()->0, budget) is Allowed
            <==> is_org_admin(g, e, subject),
{
    let t = genai_rules();
    let c = e.container()->0;
    let below = (budget - 1) as nat;
    lemma_single_rules(c.kind);
    if c.kind == "organization"@ && lookup(g, c) is Some {
        let o = lookup(g, c)->0;
        law_rule_list_is_disjunction(g, t, subject, o, t[0].predicates, 0, below);
        law_rule_list_is_disjunction(g, t, subject, o, t[1].predicates, 0, below);
        assert(holds_spec(g, t, subject, o, t[0].predicates[0], below) is Allowed
            <==> o.has_member("member"@, subject));
        assert(holds_spec(g, t, subject, o, t[0].predicates[1], below) is Allowed
            <==> o.has_member("admin"@, subject));
        assert(holds_spec(g, t, subject, o, t[1].predicates[0], below) is Allowed
            <==> o.has_member("admin"@, subject));
    }
}

/// What the checks on a knowledge base come to.
pub proof fn lemma_knowledge_base_checks(
    g: GraphModel,
    key: RefModel,
    subject: Seq<char>,
    budget: nat,
)
    requires
        budget >= 2,
        key.kind == "knowledge_base"@,
    ensures
        check_spec(g, genai_rules(), subject, "can_view"@, key, budget) is Allowed <==> views_base(
            g,
            lookup(g, key),
            subject,
        ),
        check_spec(g, genai_rules(), subject, "can_contribute"@, key, budget) is Allowed
            <==> contributes_to(lookup(g, key), subject),
        check_spec(g, genai_rules(), subject, "can_curate"@, key, budget) is Allowed <==> curates(
            lookup(g, key),
            subject,
        ),
        check_spec(g, genai_rules(), subject, "can_admin"@, key, budget) is Allowed
            <==> administers(g, lookup(g, key), subject),
{
    let t = genai_rules();
    let inner = (budget - 1) as nat;
    lemma_genai_table(2);
    lemma_genai_table(3);
    lemma_genai_table(4);
    lemma_genai_table(5);
    if lookup(g, key) is Some {
        let kb = lookup(g, key)->0;
        law_rule_list_is_disjunction(g, t, subject, kb, t[2].predicates, 0, inner);
        law_rule_list_is_disjunction(g, t, subject, kb, t[3].predicates, 0, inner);
        law_rule_list_is_disjunction(g, t, subject, kb, t[4].predicates, 0, inner);
        law_rule_list_is_disjunction(g, t, subject, kb, t[5].predicates, 0, inner);
        if kb.container() is Some {
            lemma_organization_delegation(g, kb, subject, inner);
        }
        assert forall|i: int| 2 <= i <= 5 implies (holds_spec(
            g,
            t,
            subject,
            kb,
            #[trigger] t[i].predicates[0],
            inner,
        ) is Allowed <==> kb.has_member("curator"@, subject)) by {}
        assert(holds_spec(g, t, subject, kb, t[2].predicates[1], inner) is Allowed
            <==> kb.has_member("contributor"@, subject));
        assert(holds_spec(g, t, subject, kb, t[2].predicates[2], inner) is Allowed
            <==> kb.has_member("reader"@, subject));
        assert(holds_spec(g, t, subject, kb, t[2].predicates[3], inner) is Allowed
            <==> is_org_member(g, kb, subject));
        assert(holds_spec(g, t, subject, kb, t[3].predicates[1], inner) is Allowed
            <==> kb.has_member("contributor"@, subject));
        assert(holds_spec(g, t, subject, kb, t[5].predicates[1], inner) is Allowed
            <==> is_org_admin(g, kb, subject));
    }
}

/// Who is allowed what on a knowledge base: its curators everything; its
/// contributors to view and to contribute; its readers and the members of its
/// organization to view; the admins of its organization to view and to
/// administer; nobody anything else.
pub proof fn law_knowledge_base_permissions(g: GraphModel, subject: RefModel, id: Seq<char>)
    requires
        lookup(g, knowledge_base_ref(id)) is Some,
    ensures
        ({
            let kb = lookup(g, knowledge_base_ref(id))->0;
            let s = subject.id;
            let t = genai_rules();
            let key = knowledge_base_ref(id);
            &&& allowed_spec(g, t, subject, "can_view"@, key) <==> views_knowledge_base(g, kb, s)
            &&& allowed_spec(g, t, subject, "can_contribute"@, key) <==> kb.has_member(
                "curator"@,
                s,
            ) || kb.has_member("contributor"@, s)
            &&& allowed_spec(g, t, subject, "can_curate"@, key) <==> kb.has_member("curator"@, s)
            &&& allowed_spec(g, t, subject, "can_admin"@, key) <==> kb.has_member("curator"@, s)
                || is_org_admin(g, kb, s)
        }),
{
    lemma_knowledge_base_checks(g, knowledge_base_ref(id), subject.id, full_budget());
    lemma_genai_table(2);
    lemma_genai_table(3);
    lemma_genai_table(4);
    lemma_genai_table(5);
}

/// What the delegation to the knowledge base of `e` comes to.
pub proof fn lemma_knowledge_base_delegation(
    g: GraphModel,
    e: EntityModel,
    subject: Seq<char>,
    budget: nat,
)
    requires
        budget >= 2,
        e.container() is Some,
    ensures
        check_spec(g, genai_rules(), subject, "can_contribute"@, e.container()->0, budget)
            is Allowed <==> contributes_to(container_of(g, e, "knowledge_base"@), subject),
        check_spec(g, genai_rules(), subject, "can_curate"@, e.container()->0, budget) is Allowed
            <==> curates(container_of(g, e, "knowledge_base"@), subject),
        e.container()->0.kind == "knowledge_base"@ ==> (check_spec(
            g,
            genai_rules(),
            subject,
            "can_view"@,
            e.container()->0,
            budget,
        ) is Allowed <==> views_base(g, container_of(g, e, "knowledge_base"@), subject)),
{
    let c = e.container()->0;
    lemma_single_rules(c.kind);
    if c.kind == "knowledge_base"@ {
        lemma_knowledge_base_checks(g, c, subject, budget);
    }
}

/// What the checks on a document come to.
pub proof fn lemma_document_checks(g: GraphModel, key: RefModel, subject: Seq<char>, budget: nat)
    requires
        budget >= 3,
        key.kind == "document"@,
        lookup(g, key) matches Some(d) && has_expected_container(d),
    ensures
        check_spec(g, genai_rules(), subject, "can_view"@, key, budget) is Allowed
            <==> views_document(g, lookup(g, key)->0, subject),
        check_spec(g, genai_rules(), subject, "can_use_in_rag"@, key, budget) is Allowed
            <==> views_document(g, lookup(g, key)->0, subject),
        check_spec(g, genai_rules(), subject, "can_edit"@, key, budget) is Allowed <==> ({
            let d = lookup(g, key)->0;
            ||| d.has_member("owner"@, subject)
            ||| d.has_member("editor"@, subject)
            ||| contributes_to(container_of(g, d, "knowledge_base"@), subject)
        }),
        check_spec(g, genai_rules(), subject, "can_delete"@, key, budget) is Allowed <==> ({
            let d = lookup(g, key)->0;
            ||| d.has_member("owner"@, subject)
            ||| curates(container_of(g, d, "knowledge_base"@), subject)
        }),
{
    let t = genai_rules();
    let d = lookup(g, key)->0;
    let inner = (budget - 1) as nat;
    lemma_lookup_is_entity(g, key);
    lemma_genai_table(6);
    lemma_genai_table(7);
    lemma_genai_table(8);
    lemma_genai_table(9);
    law_rule_list_is_disjunction(g, t, subject, d, t[6].predicates, 0, inner);
    law_rule_list_is_disjunction(g, t, subject, d, t[7].predicates, 0, inner);
    law_rule_list_is_disjunction(g, t, subject, d, t[8].predicates, 0, inner);
    law_rule_list_is_disjunction(g, t, subject, d, t[9].predicates, 0, inner);
    let guard = GuardModel { empty_relations: seq!["viewer"@, "editor"@] };
    assert(guard.holds(d) <==> is_confidential(d)) by {
        if is_confidential(d) {
            assert forall|i: int| 0 <= i < guard.empty_relations.len() implies d.relation_is_empty(
                #[trigger] guard.empty_relations[i],
            ) by {}
        } else {
            assert(guard.empty_relations[0] == "viewer"@);
            assert(guard.empty_relations[1] == "editor"@);
        }
    }
    if d.container() is Some {
        lemma_knowledge_base_delegation(g, d, subject, inner);
    }
    assert forall|i: int| 6 <= i <= 9 implies (holds_spec(
        g,
        t,
        subject,
        d,
        #[trigger] t[i].predicates[0],
        inner,
    ) is Allowed <==> d.has_member("owner"@, subject)) by {}
    let delegated = if is_confidential(d) {
        curates(container_of(g, d, "knowledge_base"@), subject)
    } else {
        views_base(g, container_of(g, d, "knowledge_base"@), subject)
    };
    assert forall|i: int| i == 6 || i == 9 implies (holds_spec(
        g,
        t,
        subject,
        d,
        #[trigger] t[i].predicates[1],
        inner,
    ) is Allowed <==> d.has_member("editor"@, subject)) && (holds_spec(
        g,
        t,
        subject,
        d,
        t[i].predicates[2],
        inner,
    ) is Allowed <==> d.has_member("viewer"@, subject)) && (holds_spec(
        g,
        t,
        subject,
        d,
        t[i].predicates[3],
        inner,
    ) is Allowed <==> delegated) by {}
    assert(holds_spec(g, t, subject, d, t[7].predicates[1], inner) is Allowed <==> d.has_member(
        "editor"@,
        subject,
    ));
    assert(holds_spec(g, t, subject, d, t[7].predicates[2], inner) is Allowed <==> contributes_to(
        container_of(g, d, "knowledge_base"@),
        subject,
    ));
    assert(holds_spec(g, t, subject, d, t[8].predicates[1], inner) is Allowed <==> curates(
        container_of(g, d, "knowledge_base"@),
        subject,
    ));
}

/// Who is allowed what on a document: its owner everything; its editors to
/// view and to edit; its viewers to view; the curators of its knowledge base
/// everything; the contributors of its knowledge base to edit; and whoever may
/// view its knowledge base to view it where it names a viewer or an editor.
pub proof fn law_document_permissions(g: GraphModel, subject: RefModel, id: Seq<char>)
    requires
        lookup(g, document_ref(id)) matches Some(d) && has_expected_container(d),
    ensures
        ({
            let d = lookup(g, document_ref(id))->0;
            let kb = container_of(g, d, "knowledge_base"@);
            let s = subject.id;
            let t = genai_rules();
            let key = document_ref(id);
            &&& allowed_spec(g, t, subject, "can_view"@, key) <==> views_document(g, d, s)
            &&& allowed_spec(g, t, subject, "can_use_in_rag"@, key) <==> views_document(g, d, s)
            &&& allowed_spec(g, t, subject, "can_edit"@, key) <==> d.has_member("owner"@, s)
                || d.has_member("editor"@, s) || contributes_to(kb, s)
            &&& allowed_spec(g, t, subject, "can_delete"@, key) <==> d.has_member("owner"@, s)
                || curates(kb, s)
        }),
{
    lemma_document_checks(g, document_ref(id), subject.id, full_budget());
    lemma_genai_table(6);
    lemma_genai_table(7);
    lemma_genai_table(8);
    lemma_genai_table(9);
}

/// The confidential default: a document that names neither viewer nor editor
/// is open to its owner and to the curators of its knowledge base, and to
/// nobody else, whoever may view the knowledge base.
pub proof fn law_confidential_document(g: GraphModel, subject: RefModel, id: Seq<char>)
    requires
        lookup(g, document_ref(id)) matches Some(d) && has_expected_container(d)
            && is_confidential(d),
    ensures
        allowed_spec(g, genai_rules(), subject, "can_view"@, document_ref(id)) <==> lookup(
            g,
            document_ref(id),
        )->0.has_member("owner"@, subject.id) || curates(
            container_of(g, lookup(g, document_ref(id))->0, "knowledge_base"@),
            subject.id,
        ),
{
    let d = lookup(g, document_ref(id))->0;
    law_document_permissions(g, subject, id);
    lemma_empty_relation(d, "viewer"@);
    lemma_empty_relation(d, "editor"@);
}

/// The owner of a document may view it.
pub proof fn law_owner_views_document(g: GraphModel, subject: RefModel, id: Seq<char>)
    requires
        lookup(g, document_ref(id)) matches Some(d) && d.has_member("owner"@, subject.id),
    ensures
        allowed_spec(g, genai_rules(), subject, "can_view"@, document_ref(id)),
{
    let t = genai_rules();
    let d = lookup(g, document_ref(id))->0;
    let inner = (full_budget() - 1) as nat;
    lemma_genai_table(6);
    law_rule_list_is_disjunction(g, t, subject.id, d, t[6].predicates, 0, inner);
    assert(holds_spec(g, t, subject.id, d, t[6].predicates[0], inner) is Allowed);
}

/// The list of the documents that a subject may view holds every document
/// that the subject owns.
pub proof fn law_owned_documents_are_listed(g: GraphModel, subject: RefModel, i: int)
    requires
        0 <= i < g.len(),
        g[i].kind == "document"@,
        g[i].has_member("owner"@, subject.id),
        lookup(g, g[i].key()) == Some(g[i]),
    ensures
        accessible_spec(g, genai_rules(), subject, "can_view"@, "document"@).contains(g[i].key()),
{
    law_owner_views_document(g, subject, g[i].id);
    lemma_accessible_contains(
        g,
        genai_rules(),
        subject,
        "can_view"@,
        "document"@,
        g.len() as int,
        g[i].key(),
    );
}

/// Who is allowed what on a model: its operators everything; its users and
/// the members of its organization to use it; the admins of its organization
/// to use and to configure it; nobody anything else.
pub proof fn law_model_permissions(g: GraphModel, subject: RefModel, id: Seq<char>)
    requires
        lookup(g, model_ref(id)) is Some,
    ensures
        ({
            let m = lookup(g, model_ref(id))->0;
            let s = subject.id;
            let t = genai_rules();
            let key = model_ref(id);
            &&& allowed_spec(g, t, subject, "can_use"@, key) <==> m.has_member("operator"@, s)
                || m.has_member("user"@, s) || is_org_member(g, m, s)
            &&& allowed_spec(g, t, subject, "can_configure"@, key) <==> m.has_member(
                "operator"@,
                s,
            ) || is_org_admin(g, m, s)
            &&& allowed_spec(g, t, subject, "can_admin"@, key) <==> m.has_member("operator"@, s)
        }),
{
    let t = genai_rules();
    let s = subject.id;
    let m = lookup(g, model_ref(id))->0;
    let inner = (full_budget() - 1) as nat;
    lemma_genai_table(10);
    lemma_genai_table(11);
    lemma_genai_table(12);
    law_rule_list_is_disjunction(g, t, s, m, t[10].predicates, 0, inner);
    law_rule_list_is_disjunction(g, t, s, m, t[11].predicates, 0, inner);
    law_rule_list_is_disjunction(g, t, s, m, t[12].predicates, 0, inner);
    if m.container() is Some {
        lemma_organization_delegation(g, m, s, inner);
    }
    assert forall|i: int| 10 <= i <= 12 implies (holds_spec(
        g,
        t,
        s,
        m,
        #[trigger] t[i].predicates[0],
        inner,
    ) is Allowed <==> m.has_member("operator"@, s)) by {}
    assert(holds_spec(g, t, s, m, t[10].predicates[1], inner) is Allowed <==> m.has_member(
        "user"@,
        s,
    ));
    assert(holds_spec(g, t, s, m, t[10].predicates[2], inner) is Allowed <==> is_org_member(
        g,
        m,
        s,
    ));
    assert(holds_spec(g, t, s, m, t[11].predicates[1], inner) is Allowed <==> is_org_admin(
        g,
        m,
        s,
    ));
}

/// What the checks on a session come to.
pub proof fn lemma_session_checks(g: GraphModel, key: RefModel, subject: Seq<char>, budget: nat)
    requires
        budget >= 3,
        key.kind == "rag_session"@,
        lookup(g, key) matches Some(session) && has_expected_container(session),
    ensures
        check_spec(g, genai_rules(), subject, "can_view"@, key, budget) is Allowed
            <==> joins_session(lookup(g, key)->0, subject),
        check_spec(g, genai_rules(), subject, "can_query"@, key, budget) is Allowed
            <==> joins_session(lookup(g, key)->0, subject),
        check_spec(g, genai_rules(), subject, "can_access_documents"@, key, budget) is Allowed
            <==> joins_session(lookup(g, key)->0, subject) && views_base(
            g,
            container_of(g, lookup(g, key)->0, "knowledge_base"@),
            subject,
        ),
{
    let t = genai_rules();
    let session = lookup(g, key)->0;
    let inner = (budget - 1) as nat;
    lemma_lookup_is_entity(g, key);
    lemma_genai_table(13);
    lemma_genai_table(14);
    lemma_genai_table(15);
    law_rule_list_is_disjunction(g, t, subject, session, t[13].predicates, 0, inner);
    law_rule_list_is_disjunction(g, t, subject, session, t[14].predicates, 0, inner);
    law_rule_list_is_disjunction(g, t, subject, session, t[15].predicates, 0, inner);
    if session.container() is Some {
        lemma_knowledge_base_delegation(g, session, subject, inner);
    }
    let owner = crate::rules::direct("owner"@);
    let participant = crate::rules::direct("participant"@);
    let kb_view = crate::rules::parent("can_view"@);
    assert(t[15].predicates[0] == both(owner, kb_view));
    assert(t[15].predicates[1] == both(participant, kb_view));
    law_conjunction(g, t, subject, session, owner, kb_view, inner);
    law_conjunction(g, t, subject, session, participant, kb_view, inner);
    assert(holds_spec(g, t, subject, session, owner, inner) is Allowed <==> session.has_member(
        "owner"@,
        subject,
    ));
    assert(holds_spec(g, t, subject, session, participant, inner) is Allowed
        <==> session.has_member("participant"@, subject));
    assert(holds_spec(g, t, subject, session, kb_view, inner) is Allowed <==> views_base(
        g,
        container_of(g, session, "knowledge_base"@),
        subject,
    ));
    assert forall|i: int| 13 <= i <= 14 implies (holds_spec(
        g,
        t,
        subject,
        session,
        #[trigger] t[i].predicates[0],
        inner,
    ) is Allowed <==> session.has_member("owner"@, subject)) && (holds_spec(
        g,
        t,
        subject,
        session,
        t[i].predicates[1],
        inner,
    ) is Allowed <==> session.has_member("participant"@, subject)) by {}
}

/// Who is allowed what on a session: its owner and its participants to view
/// it and to query it, and to access its documents where they may view its
/// knowledge base; nobody anything else.
pub proof fn law_session_permissions(g: GraphModel, subject: RefModel, id: Seq<char>)
    requires
        lookup(g, session_ref(id)) matches Some(session) && has_expected_container(session),
    ensures
        ({
            let session = lookup(g, session_ref(id))->0;
            let s = subject.id;
            let t = genai_rules();
            let key = session_ref(id);
            &&& allowed_spec(g, t, subject, "can_view"@, key) <==> joins_session(session, s)
            &&& allowed_spec(g, t, subject, "can_query"@, key) <==> joins_session(session, s)
            &&& allowed_spec(g, t, subject, "can_access_documents"@, key) <==> joins_session(
                session,
                s,
            ) && views_base(g, container_of(g, session, "knowledge_base"@), s)
        }),
{
    lemma_session_checks(g, session_ref(id), subject.id, full_budget());
    lemma_genai_table(13);
    lemma_genai_table(14);
    lemma_genai_table(15);
}

/// What the checks on a query come to.
pub proof fn lemma_query_checks(g: GraphModel, key: RefModel, subject: Seq<char>, budget: nat)
    requires
        budget >= 4,
        key.kind == "rag_query"@,
        well_shaped(g),
        lookup(g, key) is Some,
    ensures
        check_spec(g, genai_rules(), subject, "can_view"@, key, budget) is Allowed
            <==> views_query(g, lookup(g, key)->0, subject),
        check_spec(g, genai_rules(), subject, "can_access_results"@, key, budget) is Allowed
            <==> views_query(g, lookup(g, key)->0, subject) && views_cited_documents(
            g,
            lookup(g, key)->0,
            subject,
        ),
{
    let t = genai_rules();
    let q = lookup(g, key)->0;
    let inner = (budget - 1) as nat;
    lemma_lookup_is_entity(g, key);
    lemma_genai_table(16);
    lemma_genai_table(17);
    law_rule_list_is_disjunction(g, t, subject, q, t[16].predicates, 0, inner);
    law_rule_list_is_disjunction(g, t, subject, q, t[17].predicates, 0, inner);
    let initiated = crate::rules::direct("initiated_by"@);
    let session_view = crate::rules::parent("can_view"@);
    let citing = every("queried_documents"@, "can_use_in_rag"@);
    assert(t[16].predicates[0] == initiated);
    assert(t[16].predicates[1] == session_view);
    assert(t[17].predicates[0] == both(initiated, citing));
    assert(t[17].predicates[1] == both(session_view, citing));
    law_conjunction(g, t, subject, q, initiated, citing, inner);
    law_conjunction(g, t, subject, q, session_view, citing, inner);
    assert(holds_spec(g, t, subject, q, initiated, inner) is Allowed <==> q.has_member(
        "initiated_by"@,
        subject,
    ));
    // The session.
    let through_session = container_of(g, q, "rag_session"@) matches Some(session)
        && joins_session(session, subject);
    if q.container() is Some {
        let c = q.container()->0;
        lemma_shape_of_found(g, key);
        lemma_genai_table(13);
        assert(holds_spec(g, t, subject, q, session_view, inner) == check_spec(
            g,
            t,
            subject,
            "can_view"@,
            c,
            inner,
        ));
        if lookup(g, c) is Some {
            lemma_shape_of_found(g, c);
            lemma_session_checks(g, c, subject, inner);
        } else {
            assert(t[13].object_kind == c.kind);
            assert(check_spec(g, t, subject, "can_view"@, c, inner) is Denied);
        }
    } else {
        assert(holds_spec(g, t, subject, q, session_view, inner) is Denied);
    }
    assert(holds_spec(g, t, subject, q, session_view, inner) is Allowed <==> through_session);
    // The cited documents.
    let cited = every_spec(
        g,
        t,
        subject,
        q.references,
        "queried_documents"@,
        "can_use_in_rag"@,
        0,
        inner,
    );
    assert(holds_spec(g, t, subject, q, citing, inner) == cited);
    law_every_reference(g, t, subject, q.references, "queried_documents"@, "can_use_in_rag"@, 0, inner);
    assert forall|i: int|
        0 <= i < q.references.len() && (#[trigger] q.references[i]).relation
            == "queried_documents"@ implies (check_spec(
        g,
        t,
        subject,
        "can_use_in_rag"@,
        q.references[i].target,
        inner,
    ) is Allowed <==> q.references[i].target.kind == "document"@ && (lookup(
        g,
        q.references[i].target,
    ) matches Some(d) && views_document(g, d, subject))) by {
        let target = q.references[i].target;
        lemma_single_rules(target.kind);
        if target.kind == "document"@ && lookup(g, target) is Some {
            lemma_shape_of_found(g, target);
            lemma_document_checks(g, target, subject, inner);
        }
    }
    assert(cited is Allowed <==> views_cited_documents(g, q, subject));
}

/// Who is allowed what on a query: who put it and who takes part in its
/// session to view it, and to access its results where they may view every
/// document that it cites; nobody anything else.
pub proof fn law_query_permissions(g: GraphModel, subject: RefModel, id: Seq<char>)
    requires
        well_shaped(g),
        lookup(g, query_ref(id)) is Some,
    ensures
        ({
            let q = lookup(g, query_ref(id))->0;
            let s = subject.id;
            let t = genai_rules();
            let key = query_ref(id);
            &&& allowed_spec(g, t, subject, "can_view"@, key) <==> views_query(g, q, s)
            &&& allowed_spec(g, t, subject, "can_access_results"@, key) <==> views_query(g, q, s)
                && views_cited_documents(g, q, s)
        }),
{
    lemma_query_checks(g, query_ref(id), subject.id, full_budget());
    lemma_genai_table(16);
    lemma_genai_table(17);
}

/// One cited document that is closed to the subject closes the results of
/// the query.
pub proof fn law_query_results_need_every_document(
    g: GraphModel,
    subject: RefModel,
    id: Seq<char>,
    cited: int,
)
    requires
        well_shaped(g),
        lookup(g, query_ref(id)) matches Some(q) && 0 <= cited < q.references.len()
            && q.references[cited].relation == "queried_documents"@ && !allowed_spec(
            g,
            genai_rules(),
            subject,
            "can_use_in_rag"@,
            q.references[cited].target,
        ),
    ensures
        !allowed_spec(g, genai_rules(), subject, "can_access_results"@, query_ref(id)),
{
    let q = lookup(g, query_ref(id))->0;
    let target = q.references[cited].target;
    law_query_permissions(g, subject, id);
    lemma_single_rules(target.kind);
    if target.kind == "document"@ && lookup(g, target) is Some {
        lemma_shape_of_found(g, target);
        lemma_document_checks(g, target, subject.id, full_budget());
        lemma_genai_table(9);
    }
}

/// Whoever may curate an object may view it.
pub proof fn lemma_curate_is_stricter(h: GraphModel)
    ensures
        is_stricter(h, genai_rules(), "can_curate"@, "can_view"@),
{
    let t = genai_rules();
    assert forall|subject: Seq<char>, object: RefModel, budget: nat| #[trigger]
        check_spec(h, t, subject, "can_curate"@, object, budget) is Allowed implies check_spec(
        h,
        t,
        subject,
        "can_view"@,
        object,
        budget,
    ) is Allowed by {
        lemma_single_rules(object.kind);
        lemma_genai_table(2);
        let e = lookup(h, object)->0;
        let inner = (budget - 1) as nat;
        law_rule_list_is_disjunction(h, t, subject, e, t[4].predicates, 0, inner);
        let i = choose|i: int|
            0 <= i < t[4].predicates.len() && holds_spec(
                h,
                t,
                subject,
                e,
                #[trigger] t[4].predicates[i],
                inner,
            ) is Allowed;
        assert(t[4].predicates[i] == t[2].predicates[0]);
        law_rule_list_is_disjunction(h, t, subject, e, t[2].predicates, 0, inner);
    }
}

/// The one conditional delegation of the knowledge policy chooses curation
/// over viewing, so the policy tightens in every graph.
pub proof fn lemma_genai_rules_tighten(g: GraphModel, h: GraphModel)
    ensures
        table_tightens(g, h, genai_rules()),
{
    let t = genai_rules();
    lemma_curate_is_stricter(h);
    assert forall|i: int, j: int| 0 <= i < t.len() && 0 <= j < t[i].predicates.len() implies guards_tighten(
        g,
        h,
        t,
        #[trigger] t[i].predicates[j],
    ) by {
        reveal_with_fuel(is_unconditional, 3);
        if (i == 6 || i == 9) && j == 3 {
        } else {
            assert(is_unconditional(t[i].predicates[j]));
            lemma_unconditional_tightens(g, h, t, t[i].predicates[j]);
        }
    }
}

/// Monotonicity of grants in the knowledge domain: whatever is allowed stays
/// allowed when members are added to relation lists, also where a document
/// so comes to name a viewer or an editor.
pub proof fn law_genai_grants_are_monotone(
    g: GraphModel,
    h: GraphModel,
    subject: RefModel,
    permission: Seq<char>,
    object: RefModel,
)
    requires
        graph_extends(g, h),
        allowed_spec(g, genai_rules(), subject, permission, object),
    ensures
        allowed_spec(h, genai_rules(), subject, permission, object),
{
    lemma_genai_rules_tighten(g, h);
    law_larger_graph_allows_more(g, h, genai_rules(), subject, permission, object);
}

/// The graph that the records of the domain stand for is well shaped,
/// whatever the records hold.
pub proof fn lemma_records_are_well_shaped(demo: GenAIRAGDemo)
    ensures
        well_shaped(demo.graph_model()),
{
    lemma_names();
    let holds = |e: EntityModel| has_expected_container(e);
    let g0 = Seq::<EntityModel>::empty();
    let users = views(demo.users@);
    lemma_stored_entities::<GenAIUser>(g0, users, users.len() as int, holds);
    let g1 = stored_all::<GenAIUser>(g0, users);
    let organizations = views(demo.organizations@);
    lemma_stored_entities::<Organization>(g1, organizations, organizations.len() as int, holds);
    let g2 = stored_all::<Organization>(g1, organizations);
    let bases = views(demo.knowledge_bases@);
    lemma_stored_entities::<KnowledgeBase>(g2, bases, bases.len() as int, holds);
    let g3 = stored_all::<KnowledgeBase>(g2, bases);
    let documents = views(demo.documents@);
    lemma_stored_entities::<Document>(g3, documents, documents.len() as int, holds);
    let g4 = stored_all::<Document>(g3, documents);
    let models = views(demo.ai_models@);
    lemma_stored_entities::<AIModel>(g4, models, models.len() as int, holds);
    let g5 = stored_all::<AIModel>(g4, models);
    let sessions = views(demo.rag_sessions@);
    lemma_stored_entities::<RAGSession>(g5, sessions, sessions.len() as int, holds);
    let g6 = stored_all::<RAGSession>(g5, sessions);
    let queries = views(demo.rag_queries@);
    lemma_stored_entities::<RAGQuery>(g6, queries, queries.len() as int, holds);
    let g7 = stored_all::<RAGQuery>(g6, queries);
    assert(g7 == demo.graph_model());
    assert forall|i: int| 0 <= i < g7.len() implies has_expected_container(#[trigger] g7[i]) by {
        assert(holds(g7[i]));
    }
}

/// In a well-formed domain every document record is what the graph holds
/// under the document's reference.
pub proof fn lemma_document_is_found(demo: GenAIRAGDemo, i: int)
    requires
        demo.wf(),
        0 <= i < demo.documents@.len(),
    ensures
        lookup(demo.graph_model(), document_ref(demo.documents@[i].id@)) == Some(
            Document::entity_of(demo.documents@[i]@),
        ),
{
    lemma_names();
    let key = document_ref(demo.documents@[i].id@);
    let g0 = Seq::<EntityModel>::empty();
    let g1 = stored_all::<GenAIUser>(g0, views(demo.users@));
    let g2 = stored_all::<Organization>(g1, views(demo.organizations@));
    let g3 = stored_all::<KnowledgeBase>(g2, views(demo.knowledge_bases@));
    let documents = views(demo.documents@);
    let g4 = stored_all::<Document>(g3, documents);
    let models = views(demo.ai_models@);
    let g5 = stored_all::<AIModel>(g4, models);
    let sessions = views(demo.rag_sessions@);
    let g6 = stored_all::<RAGSession>(g5, sessions);
    let queries = views(demo.rag_queries@);
    let g7 = stored_all::<RAGQuery>(g6, queries);
    assert(g7 == demo.graph_model());
    // The document is the only record of its list under its id.
    assert(documents[i] == demo.documents@[i]@);
    assert forall|k: int| i < k < documents.len() implies Document::entity_of(
        #[trigger] documents[k],
    ).key() != key by {
        assert(Document::id_of(documents[i]) != Document::id_of(documents[k]));
    }
    lemma_last_stored_at::<Document>(documents, key, documents.len() as int, i);
    lemma_lookup_stored::<Document>(g3, documents, documents.len() as int, key);
    // The lists that are stored later hold objects of other types.
    lemma_last_stored_none::<AIModel>(models, key, models.len() as int);
    lemma_lookup_stored::<AIModel>(g4, models, models.len() as int, key);
    lemma_last_stored_none::<RAGSession>(sessions, key, sessions.len() as int);
    lemma_lookup_stored::<RAGSession>(g5, sessions, sessions.len() as int, key);
    lemma_last_stored_none::<RAGQuery>(queries, key, queries.len() as int);
    lemma_lookup_stored::<RAGQuery>(g6, queries, queries.len() as int, key);
}

/// A document that the user may view is among the visible ones.
pub proof fn lemma_visible_contains(
    documents: Seq<Document>,
    g: GraphModel,
    user_id: Seq<char>,
    n: int,
    i: int,
)
    requires
        0 <= i < n <= documents.len(),
        allowed_spec(g, genai_rules(), user_ref(user_id), "can_view"@, document_ref(documents[i].id@)),
    ensures
        visible_documents(documents, g, genai_rules(), user_id, n).contains(documents[i]),
    decreases n,
{
    let all = visible_documents(documents, g, genai_rules(), user_id, n);
    let before = visible_documents(documents, g, genai_rules(), user_id, n - 1);
    if i < n - 1 {
        lemma_visible_contains(documents, g, user_id, n - 1, i);
        let k = choose|k: int| 0 <= k < before.len() && before[k] == documents[i];
        assert(all[k] == documents[i]);
    } else {
        assert(all[before.len() as int] == documents[i]);
    }
}

/// In a well-formed domain the documents that a user may view hold every
/// document that the user owns.
pub proof fn law_owner_is_shown_own_documents(demo: GenAIRAGDemo, user_id: Seq<char>, i: int)
    requires
        demo.wf(),
        0 <= i < demo.documents@.len(),
        demo.documents@[i].owner_id@ == user_id,
    ensures
        visible_documents(
            demo.documents@,
            demo.graph_model(),
            genai_rules(),
            user_id,
            demo.documents@.len() as int,
        ).contains(demo.documents@[i]),
{
    let g = demo.graph_model();
    let d = Document::entity_of(demo.documents@[i]@);
    lemma_document_is_found(demo, i);
    assert(d.relations[0].name == "owner"@);
    assert(d.relations[0].members[0] == user_id);
    assert(d.relations[0].members.contains(user_id));
    assert(d.has_member("owner"@, user_id));
    law_owner_views_document(g, user_ref(user_id), demo.documents@[i].id@);
    lemma_visible_contains(demo.documents@, g, user_id, demo.documents@.len() as int, i);
}

/// The records of `b` are those of `a` with members added to their lists.
pub open spec fn domain_extends(a: GenAIRAGDemo, b: GenAIRAGDemo) -> bool {
    &&& records_extend::<GenAIUser>(views(a.users@), views(b.users@))
    &&& records_extend::<Organization>(views(a.organizations@), views(b.organizations@))
    &&& records_extend::<KnowledgeBase>(views(a.knowledge_bases@), views(b.knowledge_bases@))
    &&& records_extend::<Document>(views(a.documents@), views(b.documents@))
    &&& records_extend::<AIModel>(views(a.ai_models@), views(b.ai_models@))
    &&& records_extend::<RAGSession>(views(a.rag_sessions@), views(b.rag_sessions@))
    &&& records_extend::<RAGQuery>(views(a.rag_queries@), views(b.rag_queries@))
}

/// Records with members added stand for a graph with members added.
pub proof fn lemma_domain_graph_extends(a: GenAIRAGDemo, b: GenAIRAGDemo)
    requires
        domain_extends(a, b),
    ensures
        graph_extends(a.graph_model(), b.graph_model()),
{
    let e = Seq::<EntityModel>::empty();
    let (u, u2) = (views(a.users@), views(b.users@));
    lemma_stored_extends::<GenAIUser>(e, e, u, u2, u.len() as int);
    let (g1, h1) = (stored_all::<GenAIUser>(e, u), stored_all::<GenAIUser>(e, u2));
    let (o, o2) = (views(a.organizations@), views(b.organizations@));
    lemma_stored_extends::<Organization>(g1, h1, o, o2, o.len() as int);
    let (g2, h2) = (stored_all::<Organization>(g1, o), stored_all::<Organization>(h1, o2));
    let (k, k2) = (views(a.knowledge_bases@), views(b.knowledge_bases@));
    lemma_stored_extends::<KnowledgeBase>(g2, h2, k, k2, k.len() as int);
    let (g3, h3) = (stored_all::<KnowledgeBase>(g2, k), stored_all::<KnowledgeBase>(h2, k2));
    let (d, d2) = (views(a.documents@), views(b.documents@));
    lemma_stored_extends::<Document>(g3, h3, d, d2, d.len() as int);
    let (g4, h4) = (stored_all::<Document>(g3, d), stored_all::<Document>(h3, d2));
    let (m, m2) = (views(a.ai_models@), views(b.ai_models@));
    lemma_stored_extends::<AIModel>(g4, h4, m, m2, m.len() as int);
    let (g5, h5) = (stored_all::<AIModel>(g4, m), stored_all::<AIModel>(h4, m2));
    let (s, s2) = (views(a.rag_sessions@), views(b.rag_sessions@));
    lemma_stored_extends::<RAGSession>(g5, h5, s, s2, s.len() as int);
    let (g6, h6) = (stored_all::<RAGSession>(g5, s), stored_all::<RAGSession>(h5, s2));
    let (q, q2) = (views(a.rag_queries@), views(b.rag_queries@));
    lemma_stored_extends::<RAGQuery>(g6, h6, q, q2, q.len() as int);
}

/// Monotonicity of grants on the records of the knowledge domain: whatever
/// the records allow, they still allow after members were added to their
/// lists.
pub proof fn law_genai_record_grants_are_monotone(
    a: GenAIRAGDemo,
    b: GenAIRAGDemo,
    subject: RefModel,
    permission: Seq<char>,
    object: RefModel,
)
    requires
        domain_extends(a, b),
        allowed_spec(a.graph_model(), genai_rules(), subject, permission, object),
    ensures
        allowed_spec(b.graph_model(), genai_rules(), subject, permission, object),
{
    lemma_domain_graph_extends(a, b);
    law_genai_grants_are_monotone(a.graph_model(), b.graph_model(), subject, permission, object);
}

/// A document with one more viewer is the document with a member added.
pub proof fn lemma_new_viewer_extends(document: DocumentModel, user: Seq<char>)
    ensures
        entity_extends(
            Document::entity_of(document),
            Document::entity_of(DocumentModel { viewers: document.viewers.push(user), ..document }),
        ),
{
    let a = Document::entity_of(document);
    let b = Document::entity_of(DocumentModel { viewers: document.viewers.push(user), ..document });
    assert forall|i: int, u: Seq<char>|
        0 <= i < a.relations.len() && (#[trigger] a.relations[i]).members.contains(
            u,
        ) implies #[trigger] b.relations[i].members.contains(u) by {
        if i == 2 {
            let k = choose|k: int| 0 <= k < document.viewers.len() && document.viewers[k] == u;
            assert(document.viewers.push(user)[k] == u);
        }
    }
    lemma_longer_lists_extend(a, b);
}

} // verus!
