//! A knowledge hierarchy: organizations hold knowledge bases and AI models,
//! knowledge bases hold documents, sessions bring a knowledge base and a model
//! together, and queries cite the documents that they drew on.

use crate::clock::current_timestamp;
use crate::demos::genai_laws::law_owner_is_shown_own_documents;
pub use crate::decision::{AuthorizationRequest, AuthorizationResponse};
use crate::decision::{allowed_spec, check_request, decide, request_outcome, response_reports, Outcome};
use crate::graph::{Entity, EntityModel, GraphModel, Link, LinkModel, ObjectGraph, Relation, RelationModel};
use crate::query::{filtered_read, filtered_read_spec};
use crate::records::{ids_distinct, lemma_upsert_new, store_all, stored_all, upsert, upsert_spec, Identified, Record};
use crate::reference::{ObjectRef, RefModel};
use crate::rules::{
    both, conditional, delegated, direct, every, exported, parent, Guard, Predicate, PredicateModel,
    RuleSet, RuleTable, RulesModel,
};
use crate::text::{clone_strings, names1, names2, names3, names4, no_names, views};
pub use crate::tuples::OpenFGATuple;
use crate::tuples::{graph_tuples, materialize};
use vstd::prelude::*;
use vstd::string::*;

verus! {

/// A person known to the organization. The role describes the person; it
/// grants nothing.
#[derive(Debug, Clone)]
pub struct GenAIUser {
    pub id: String,
    pub name: String,
    pub email: String,
    pub role: String,
}

/// The mathematical value of a [`GenAIUser`].
pub struct GenAIUserModel {
    pub id: Seq<char>,
    pub name: Seq<char>,
    pub email: Seq<char>,
    pub role: Seq<char>,
}

impl View for GenAIUser {
    type V = GenAIUserModel;

    open spec fn view(&self) -> GenAIUserModel {
        GenAIUserModel { id: self.id@, name: self.name@, email: self.email@, role: self.role@ }
    }
}

impl Identified for GenAIUser {
    open spec fn id_of(m: GenAIUserModel) -> Seq<char> {
        m.id
    }

    fn id(&self) -> (id: &String) {
        &self.id
    }
}

impl Record for GenAIUser {
    open spec fn entity_of(m: GenAIUserModel) -> EntityModel {
        EntityModel {
            kind: "user"@,
            id: m.id,
            parents: Seq::empty(),
            relations: Seq::empty(),
            references: Seq::empty(),
            content: Seq::empty(),
        }
    }

    fn to_entity(&self) -> (e: Entity) {
        Entity::new("user", self.id.as_str())
    }
}

/// The root of the hierarchy.
#[derive(Debug, Clone)]
pub struct Organization {
    pub id: String,
    pub name: String,
    pub admins: Vec<String>,
    pub members: Vec<String>,
}

/// The mathematical value of an [`Organization`].
pub struct OrganizationModel {
    pub id: Seq<char>,
    pub name: Seq<char>,
    pub admins: Seq<Seq<char>>,
    pub members: Seq<Seq<char>>,
}

impl View for Organization {
    type V = OrganizationModel;

    open spec fn view(&self) -> OrganizationModel {
        OrganizationModel {
            id: self.id@,
            name: self.name@,
            admins: views(self.admins@),
            members: views(self.members@),
        }
    }
}

impl Identified for Organization {
    open spec fn id_of(m: OrganizationModel) -> Seq<char> {
        m.id
    }

    fn id(&self) -> (id: &String) {
        &self.id
    }
}

impl Record for Organization {
    open spec fn entity_of(m: OrganizationModel) -> EntityModel {
        EntityModel {
            kind: "organization"@,
            id: m.id,
            parents: Seq::empty(),
            relations: seq![
                RelationModel { name: "admin"@, members: m.admins },
                RelationModel { name: "member"@, members: m.members },
            ],
            references: Seq::empty(),
            content: Seq::empty(),
        }
    }

    fn to_entity(&self) -> (e: Entity) {
        let mut e = Entity::new("organization", self.id.as_str());
        e.add_relation(Relation::new("admin", clone_strings(&self.admins)));
        e.add_relation(Relation::new("member", clone_strings(&self.members)));
        assert(e@.relations =~= Self::entity_of(self@).relations);
        e
    }
}

/// A collection of documents inside an organization.
#[derive(Debug, Clone)]
pub struct KnowledgeBase {
    pub id: String,
    pub name: String,
    pub description: String,
    pub parent_org_id: String,
    pub curators: Vec<String>,
    pub contributors: Vec<String>,
    pub readers: Vec<String>,
}

/// The mathematical value of a [`KnowledgeBase`].
pub struct KnowledgeBaseModel {
    pub id: Seq<char>,
    pub name: Seq<char>,
    pub description: Seq<char>,
    pub parent_org_id: Seq<char>,
    pub curators: Seq<Seq<char>>,
    pub contributors: Seq<Seq<char>>,
    pub readers: Seq<Seq<char>>,
}

impl View for KnowledgeBase {
    type V = KnowledgeBaseModel;

    open spec fn view(&self) -> KnowledgeBaseModel {
        KnowledgeBaseModel {
            id: self.id@,
            name: self.name@,
            description: self.description@,
            parent_org_id: self.parent_org_id@,
            curators: views(self.curators@),
            contributors: views(self.contributors@),
            readers: views(self.readers@),
        }
    }
}

impl Identified for KnowledgeBase {
    open spec fn id_of(m: KnowledgeBaseModel) -> Seq<char> {
        m.id
    }

    fn id(&self) -> (id: &String) {
        &self.id
    }
}

impl Record for KnowledgeBase {
    open spec fn entity_of(m: KnowledgeBaseModel) -> EntityModel {
        EntityModel {
            kind: "knowledge_base"@,
            id: m.id,
            parents: seq![
                LinkModel {
                    relation: "parent_org"@,
                    target: RefModel { kind: "organization"@, id: m.parent_org_id },
                },
            ],
            relations: seq![
                RelationModel { name: "curator"@, members: m.curators },
                RelationModel { name: "contributor"@, members: m.contributors },
                RelationModel { name: "reader"@, members: m.readers },
            ],
            references: Seq::empty(),
            content: Seq::empty(),
        }
    }

    fn to_entity(&self) -> (e: Entity) {
        let mut e = Entity::new("knowledge_base", self.id.as_str());
        e.add_parent(Link::new("parent_org", "organization", self.parent_org_id.as_str()));
        e.add_relation(Relation::new("curator", clone_strings(&self.curators)));
        e.add_relation(Relation::new("contributor", clone_strings(&self.contributors)));
        e.add_relation(Relation::new("reader", clone_strings(&self.readers)));
        assert(e@.parents =~= Self::entity_of(self@).parents);
        assert(e@.relations =~= Self::entity_of(self@).relations);
        e
    }
}

/// A document of a knowledge base.
#[derive(Debug, Clone)]
pub struct Document {
    pub id: String,
    pub title: String,
    pub content: String,
    pub parent_kb_id: String,
    pub owner_id: String,
    pub editors: Vec<String>,
    pub viewers: Vec<String>,
    pub tags: Vec<String>,
    pub created_at: String,
    pub updated_at: String,
}

/// The mathematical value of a [`Document`].
pub struct DocumentModel {
    pub id: Seq<char>,
    pub title: Seq<char>,
    pub content: Seq<char>,
    pub parent_kb_id: Seq<char>,
    pub owner_id: Seq<char>,
    pub editors: Seq<Seq<char>>,
    pub viewers: Seq<Seq<char>>,
    pub tags: Seq<Seq<char>>,
    pub created_at: Seq<char>,
    pub updated_at: Seq<char>,
}

impl View for Document {
    type V = DocumentModel;

    open spec fn view(&self) -> DocumentModel {
        DocumentModel {
            id: self.id@,
            title: self.title@,
            content: self.content@,
            parent_kb_id: self.parent_kb_id@,
            owner_id: self.owner_id@,
            editors: views(self.editors@),
            viewers: views(self.viewers@),
            tags: views(self.tags@),
            created_at: self.created_at@,
            updated_at: self.updated_at@,
        }
    }
}

impl Identified for Document {
    open spec fn id_of(m: DocumentModel) -> Seq<char> {
        m.id
    }

    fn id(&self) -> (id: &String) {
        &self.id
    }
}

impl Record for Document {
    open spec fn entity_of(m: DocumentModel) -> EntityModel {
        EntityModel {
            kind: "document"@,
            id: m.id,
            parents: seq![
                LinkModel {
                    relation: "parent_kb"@,
                    target: RefModel { kind: "knowledge_base"@, id: m.parent_kb_id },
                },
            ],
            relations: seq![
                RelationModel { name: "owner"@, members: seq![m.owner_id] },
                RelationModel { name: "editor"@, members: m.editors },
                RelationModel { name: "viewer"@, members: m.viewers },
            ],
            references: Seq::empty(),
            content: m.content,
        }
    }

    fn to_entity(&self) -> (e: Entity) {
        let mut e = Entity::new("document", self.id.as_str());
        e.add_parent(Link::new("parent_kb", "knowledge_base", self.parent_kb_id.as_str()));
        e.add_relation(Relation::new("owner", names1(self.owner_id.as_str())));
        e.add_relation(Relation::new("editor", clone_strings(&self.editors)));
        e.add_relation(Relation::new("viewer", clone_strings(&self.viewers)));
        e.set_content(self.content.as_str());
        assert(e@.parents =~= Self::entity_of(self@).parents);
        assert(e@.relations =~= Self::entity_of(self@).relations);
        e
    }
}

/// One setting of a model: its name and its value.
#[derive(Debug, Clone)]
pub struct Setting {
    pub name: String,
    pub value: String,
}

/// The mathematical value of a [`Setting`].
pub struct SettingModel {
    pub name: Seq<char>,
    pub value: Seq<char>,
}

impl View for Setting {
    type V = SettingModel;

    open spec fn view(&self) -> SettingModel {
        SettingModel { name: self.name@, value: self.value@ }
    }
}

/// An AI model of an organization.
#[derive(Debug, Clone)]
pub struct AIModel {
    pub id: String,
    pub name: String,
    pub model_type: String,
    pub parent_org_id: String,
    pub operators: Vec<String>,
    pub users: Vec<String>,
    pub config: Vec<Setting>,
}

/// The mathematical value of an [`AIModel`].
pub struct AIModelModel {
    pub id: Seq<char>,
    pub name: Seq<char>,
    pub model_type: Seq<char>,
    pub parent_org_id: Seq<char>,
    pub operators: Seq<Seq<char>>,
    pub users: Seq<Seq<char>>,
    pub config: Seq<SettingModel>,
}

impl View for AIModel {
    type V = AIModelModel;

    open spec fn view(&self) -> AIModelModel {
        AIModelModel {
            id: self.id@,
            name: self.name@,
            model_type: self.model_type@,
            parent_org_id: self.parent_org_id@,
            operators: views(self.operators@),
            users: views(self.users@),
            config: views(self.config@),
        }
    }
}

impl Identified for AIModel {
    open spec fn id_of(m: AIModelModel) -> Seq<char> {
        m.id
    }

    fn id(&self) -> (id: &String) {
        &self.id
    }
}

impl Record for AIModel {
    open spec fn entity_of(m: AIModelModel) -> EntityModel {
        EntityModel {
            kind: "ai_model"@,
            id: m.id,
            parents: seq![
                LinkModel {
                    relation: "parent_org"@,
                    target: RefModel { kind: "organization"@, id: m.parent_org_id },
                },
            ],
            relations: seq![
                RelationModel { name: "operator"@, members: m.operators },
                RelationModel { name: "user"@, members: m.users },
            ],
            references: Seq::empty(),
            content: Seq::empty(),
        }
    }

    fn to_entity(&self) -> (e: Entity) {
        let mut e = Entity::new("ai_model", self.id.as_str());
        e.add_parent(Link::new("parent_org", "organization", self.parent_org_id.as_str()));
        e.add_relation(Relation::new("operator", clone_strings(&self.operators)));
        e.add_relation(Relation::new("user", clone_strings(&self.users)));
        assert(e@.parents =~= Self::entity_of(self@).parents);
        assert(e@.relations =~= Self::entity_of(self@).relations);
        e
    }
}

/// A session in which a model answers from a knowledge base.
#[derive(Debug, Clone)]
pub struct RAGSession {
    pub id: String,
    pub name: String,
    pub parent_kb_id: String,
    pub parent_model_id: String,
    pub owner_id: String,
    pub participants: Vec<String>,
    pub created_at: String,
    pub status: String,
}

/// The mathematical value of a [`RAGSession`].
pub struct RAGSessionModel {
    pub id: Seq<char>,
    pub name: Seq<char>,
    pub parent_kb_id: Seq<char>,
    pub parent_model_id: Seq<char>,
    pub owner_id: Seq<char>,
    pub participants: Seq<Seq<char>>,
    pub created_at: Seq<char>,
    pub status: Seq<char>,
}

impl View for RAGSession {
    type V = RAGSessionModel;

    open spec fn view(&self) -> RAGSessionModel {
        RAGSessionModel {
            id: self.id@,
            name: self.name@,
            parent_kb_id: self.parent_kb_id@,
            parent_model_id: self.parent_model_id@,
            owner_id: self.owner_id@,
            participants: views(self.participants@),
            created_at: self.created_at@,
            status: self.status@,
        }
    }
}

impl Identified for RAGSession {
    open spec fn id_of(m: RAGSessionModel) -> Seq<char> {
        m.id
    }

    fn id(&self) -> (id: &String) {
        &self.id
    }
}

impl Record for RAGSession {
    open spec fn entity_of(m: RAGSessionModel) -> EntityModel {
        EntityModel {
            kind: "rag_session"@,
            id: m.id,
            parents: seq![
                LinkModel {
                    relation: "parent_kb"@,
                    target: RefModel { kind: "knowledge_base"@, id: m.parent_kb_id },
                },
                LinkModel {
                    relation: "parent_model"@,
                    target: RefModel { kind: "ai_model"@, id: m.parent_model_id },
                },
            ],
            relations: seq![
                RelationModel { name: "owner"@, members: seq![m.owner_id] },
                RelationModel { name: "participant"@, members: m.participants },
            ],
            references: Seq::empty(),
            content: Seq::empty(),
        }
    }

    fn to_entity(&self) -> (e: Entity) {
        let mut e = Entity::new("rag_session", self.id.as_str());
        e.add_parent(Link::new("parent_kb", "knowledge_base", self.parent_kb_id.as_str()));
        e.add_parent(Link::new("parent_model", "ai_model", self.parent_model_id.as_str()));
        e.add_relation(Relation::new("owner", names1(self.owner_id.as_str())));
        e.add_relation(Relation::new("participant", clone_strings(&self.participants)));
        assert(e@.parents =~= Self::entity_of(self@).parents);
        assert(e@.relations =~= Self::entity_of(self@).relations);
        e
    }
}

/// A question put in a session, with the documents that the answer drew on.
/// The confidence is counted in hundredths.
#[derive(Debug, Clone)]
pub struct RAGQuery {
    pub id: String,
    pub parent_session_id: String,
    pub initiated_by: String,
    pub query_text: String,
    pub queried_documents: Vec<String>,
    pub response_text: String,
    pub timestamp: String,
    pub confidence_score: u32,
}

/// The mathematical value of a [`RAGQuery`].
pub struct RAGQueryModel {
    pub id: Seq<char>,
    pub parent_session_id: Seq<char>,
    pub initiated_by: Seq<char>,
    pub query_text: Seq<char>,
    pub queried_documents: Seq<Seq<char>>,
    pub response_text: Seq<char>,
    pub timestamp: Seq<char>,
    pub confidence_score: nat,
}

impl View for RAGQuery {
    type V = RAGQueryModel;

    open spec fn view(&self) -> RAGQueryModel {
        RAGQueryModel {
            id: self.id@,
            parent_session_id: self.parent_session_id@,
            initiated_by: self.initiated_by@,
            query_text: self.query_text@,
            queried_documents: views(self.queried_documents@),
            response_text: self.response_text@,
            timestamp: self.timestamp@,
            confidence_score: self.confidence_score as nat,
        }
    }
}

impl Identified for RAGQuery {
    open spec fn id_of(m: RAGQueryModel) -> Seq<char> {
        m.id
    }

    fn id(&self) -> (id: &String) {
        &self.id
    }
}

/// The edge from a query to one document that it cites.
pub open spec fn citation(document_id: Seq<char>) -> LinkModel {
    LinkModel {
        relation: "queried_documents"@,
        target: RefModel { kind: "document"@, id: document_id },
    }
}

impl Record for RAGQuery {
    open spec fn entity_of(m: RAGQueryModel) -> EntityModel {
        EntityModel {
            kind: "rag_query"@,
            id: m.id,
            parents: seq![
                LinkModel {
                    relation: "parent_session"@,
                    target: RefModel { kind: "rag_session"@, id: m.parent_session_id },
                },
            ],
            relations: seq![RelationModel { name: "initiated_by"@, members: seq![m.initiated_by] }],
            references: m.queried_documents.map_values(|d: Seq<char>| citation(d)),
            content: m.response_text,
        }
    }

    fn to_entity(&self) -> (e: Entity) {
        let mut e = Entity::new("rag_query", self.id.as_str());
        e.add_parent(Link::new("parent_session", "rag_session", self.parent_session_id.as_str()));
        e.add_relation(Relation::new("initiated_by", names1(self.initiated_by.as_str())));
        e.set_content(self.response_text.as_str());
        let mut i: usize = 0;
        assert(e@.references =~= self@.queried_documents.map_values(|d: Seq<char>| citation(d)).take(
            0,
        ));
        while i < self.queried_documents.len()
            invariant
                i <= self.queried_documents.len(),
                e@ == (EntityModel {
                    references: self@.queried_documents.map_values(|d: Seq<char>| citation(d)).take(
                        i as int,
                    ),
                    ..Self::entity_of(self@)
                }),
            decreases self.queried_documents.len() - i,
        {
            let ghost before = e@.references;
            assert(self@.queried_documents[i as int] == self.queried_documents[i as int]@);
            e.add_reference(Link::new("queried_documents", "document", self.queried_documents[i].as_str()));
            assert(e@.references =~= self@.queried_documents.map_values(
                |d: Seq<char>| citation(d),
            ).take(i as int + 1));
            i += 1;
        }
        assert(self@.queried_documents.map_values(|d: Seq<char>| citation(d)).take(i as int)
            =~= Self::entity_of(self@).references);
        e
    }
}

/// The knowledge domain: its records, and the tuples that were derived from
/// them when the demonstration data was loaded.
#[derive(Debug)]
pub struct GenAIRAGDemo {
    pub users: Vec<GenAIUser>,
    pub organizations: Vec<Organization>,
    pub knowledge_bases: Vec<KnowledgeBase>,
    pub documents: Vec<Document>,
    pub ai_models: Vec<AIModel>,
    pub rag_sessions: Vec<RAGSession>,
    pub rag_queries: Vec<RAGQuery>,
    pub tuples: Vec<OpenFGATuple>,
}

/// Who may see a document: its owner, editors and viewers; and through the
/// knowledge base its curators where the document names neither viewer nor
/// editor, and whoever may view the knowledge base where it names one.
pub open spec fn document_view_rules() -> Seq<PredicateModel> {
    seq![
        direct("owner"@),
        direct("editor"@),
        direct("viewer"@),
        conditional(seq!["viewer"@, "editor"@], "can_curate"@, "can_view"@),
    ]
}

/// Who takes part in a session: its owner and its participants.
pub open spec fn session_member_rules() -> Seq<PredicateModel> {
    seq![direct("owner"@), direct("participant"@)]
}

/// The policy of the knowledge domain.
///
/// The lists registered for organizations say who is a member or an admin of
/// an organization; they serve the delegation from knowledge bases and models.
pub open spec fn genai_rules() -> RulesModel {
    seq![
        delegated("organization"@, "member"@, seq![direct("member"@), direct("admin"@)]),
        delegated("organization"@, "admin"@, seq![direct("admin"@)]),
        exported(
            "knowledge_base"@,
            "can_view"@,
            seq![direct("curator"@), direct("contributor"@), direct("reader"@), parent("member"@)],
        ),
        exported(
            "knowledge_base"@,
            "can_contribute"@,
            seq![direct("curator"@), direct("contributor"@)],
        ),
        exported("knowledge_base"@, "can_curate"@, seq![direct("curator"@)]),
        exported("knowledge_base"@, "can_admin"@, seq![direct("curator"@), parent("admin"@)]),
        exported("document"@, "can_view"@, document_view_rules()),
        exported(
            "document"@,
            "can_edit"@,
            seq![direct("owner"@), direct("editor"@), parent("can_contribute"@)],
        ),
        exported("document"@, "can_delete"@, seq![direct("owner"@), parent("can_curate"@)]),
        exported("document"@, "can_use_in_rag"@, document_view_rules()),
        exported(
            "ai_model"@,
            "can_use"@,
            seq![direct("operator"@), direct("user"@), parent("member"@)],
        ),
        exported("ai_model"@, "can_configure"@, seq![direct("operator"@), parent("admin"@)]),
        exported("ai_model"@, "can_admin"@, seq![direct("operator"@)]),
        exported("rag_session"@, "can_view"@, session_member_rules()),
        exported("rag_session"@, "can_query"@, session_member_rules()),
        exported(
            "rag_session"@,
            "can_access_documents"@,
            seq![
                both(direct("owner"@), parent("can_view"@)),
                both(direct("participant"@), parent("can_view"@)),
            ],
        ),
        exported("rag_query"@, "can_view"@, seq![direct("initiated_by"@), parent("can_view"@)]),
        exported(
            "rag_query"@,
            "can_access_results"@,
            seq![
                both(direct("initiated_by"@), every("queried_documents"@, "can_use_in_rag"@)),
                both(parent("can_view"@), every("queried_documents"@, "can_use_in_rag"@)),
            ],
        ),
    ]
}

/// What a filtered read hands out in place of a response that the subject may
/// not see.
pub open spec fn denied_text() -> Seq<char> {
    "Access denied: Insufficient permissions to view query results"@
}

/// The reference of the user `id`.
pub open spec fn user_ref(id: Seq<char>) -> RefModel {
    RefModel { kind: "user"@, id: id }
}

/// The reference of the document `id`.
pub open spec fn document_ref(id: Seq<char>) -> RefModel {
    RefModel { kind: "document"@, id: id }
}

/// The reference of the query `id`.
pub open spec fn query_ref(id: Seq<char>) -> RefModel {
    RefModel { kind: "rag_query"@, id: id }
}

/// Those of the first `n` documents that the user `user_id` may view, in
/// their order.
pub open spec fn visible_documents(
    documents: Seq<Document>,
    g: GraphModel,
    t: RulesModel,
    user_id: Seq<char>,
    n: int,
) -> Seq<Document>
    decreases n,
{
    if n <= 0 {
        Seq::empty()
    } else {
        let before = visible_documents(documents, g, t, user_id, n - 1);
        if allowed_spec(g, t, user_ref(user_id), "can_view"@, document_ref(documents[n - 1].id@)) {
            before.push(documents[n - 1])
        } else {
            before
        }
    }
}

fn document_viewers() -> (predicates: Vec<Predicate>)
    ensures
        views(predicates@) == document_view_rules(),
{
    let guard = Guard::all_empty(names2("viewer", "editor"));
    let predicates = vec![
        Predicate::direct("owner"),
        Predicate::direct("editor"),
        Predicate::direct("viewer"),
        Predicate::conditional(guard, "can_curate", "can_view"),
    ];
    assert(views(predicates@) =~= document_view_rules());
    predicates
}

fn session_members() -> (predicates: Vec<Predicate>)
    ensures
        views(predicates@) == session_member_rules(),
{
    let predicates = vec![Predicate::direct("owner"), Predicate::direct("participant")];
    assert(views(predicates@) =~= session_member_rules());
    predicates
}

impl GenAIRAGDemo {
    /// The graph that the records stand for: the entity of each user,
    /// organization, knowledge base, document, model, session and query,
    /// stored in this order.
    pub open spec fn graph_model(&self) -> GraphModel {
        let g = stored_all::<GenAIUser>(Seq::empty(), views(self.users@));
        let g = stored_all::<Organization>(g, views(self.organizations@));
        let g = stored_all::<KnowledgeBase>(g, views(self.knowledge_bases@));
        let g = stored_all::<Document>(g, views(self.documents@));
        let g = stored_all::<AIModel>(g, views(self.ai_models@));
        let g = stored_all::<RAGSession>(g, views(self.rag_sessions@));
        stored_all::<RAGQuery>(g, views(self.rag_queries@))
    }

    /// Every list of records holds each id once: what `new`, `empty` and the
    /// `add_*` and `store_*` functions build is well formed.
    pub open spec fn wf(&self) -> bool {
        &&& ids_distinct::<GenAIUser>(views(self.users@))
        &&& ids_distinct::<Organization>(views(self.organizations@))
        &&& ids_distinct::<KnowledgeBase>(views(self.knowledge_bases@))
        &&& ids_distinct::<Document>(views(self.documents@))
        &&& ids_distinct::<AIModel>(views(self.ai_models@))
        &&& ids_distinct::<RAGSession>(views(self.rag_sessions@))
        &&& ids_distinct::<RAGQuery>(views(self.rag_queries@))
    }

    /// The domain without any record.
    pub fn empty() -> (demo: GenAIRAGDemo)
        ensures
            demo.users@.len() == 0,
            demo.organizations@.len() == 0,
            demo.knowledge_bases@.len() == 0,
            demo.documents@.len() == 0,
            demo.ai_models@.len() == 0,
            demo.rag_sessions@.len() == 0,
            demo.rag_queries@.len() == 0,
            demo.tuples@.len() == 0,
            demo.wf(),
    {
        GenAIRAGDemo {
            users: Vec::new(),
            organizations: Vec::new(),
            knowledge_bases: Vec::new(),
            documents: Vec::new(),
            ai_models: Vec::new(),
            rag_sessions: Vec::new(),
            rag_queries: Vec::new(),
            tuples: Vec::new(),
        }
    }

    /// The domain with the demonstration data: five users, one organization
    /// with one knowledge base of three documents and one model, one session
    /// with one query, and the tuples derived from them. The documents, the
    /// session and the query are stamped with the time of the loading.
    pub fn new() -> (demo: GenAIRAGDemo)
        ensures
            exists|stamps: Seq<Seq<char>>| #[trigger] holds_demo_data(demo, stamps),
            views(demo.tuples@) == graph_tuples(demo.graph_model()),
            demo.wf(),
    {
        let mut demo = GenAIRAGDemo::empty();
        demo.setup_demo_data();
        demo
    }

    /// Loads the demonstration data into the empty domain.
    fn setup_demo_data(&mut self)
        requires
            old(self).users@.len() == 0,
            old(self).organizations@.len() == 0,
            old(self).knowledge_bases@.len() == 0,
            old(self).documents@.len() == 0,
            old(self).ai_models@.len() == 0,
            old(self).rag_sessions@.len() == 0,
            old(self).rag_queries@.len() == 0,
            old(self).tuples@.len() == 0,
        ensures
            exists|stamps: Seq<Seq<char>>| #[trigger] holds_demo_data(*final(self), stamps),
            views(final(self).tuples@) == graph_tuples(final(self).graph_model()),
            final(self).wf(),
    {
        proof {
            reveal_strlit("alice");
            reveal_strlit("bob");
            reveal_strlit("charlie");
            reveal_strlit("diana");
            reveal_strlit("eve");
            reveal_strlit("doc1");
            reveal_strlit("doc2");
            reveal_strlit("doc3");
            assert("alice"@[0] != "diana"@[0]);
            assert("bob"@[0] != "eve"@[0]);
            assert("doc1"@[3] != "doc2"@[3]);
            assert("doc1"@[3] != "doc3"@[3]);
            assert("doc2"@[3] != "doc3"@[3]);
        }
        let ghost u0 = views(self.users@);
        assert(u0 =~= Seq::<GenAIUserModel>::empty());
        self.add_user("alice", "Alice Smith", "alice@company.com", "curator");
        proof {
            lemma_upsert_new::<GenAIUser>(u0, demo_users()[0]);
        }
        let ghost u1 = views(self.users@);
        self.add_user("bob", "Bob Johnson", "bob@company.com", "contributor");
        proof {
            lemma_upsert_new::<GenAIUser>(u1, demo_users()[1]);
        }
        let ghost u2 = views(self.users@);
        self.add_user("charlie", "Charlie Brown", "charlie@company.com", "reader");
        proof {
            lemma_upsert_new::<GenAIUser>(u2, demo_users()[2]);
        }
        let ghost u3 = views(self.users@);
        self.add_user("diana", "Diana Prince", "diana@company.com", "admin");
        proof {
            lemma_upsert_new::<GenAIUser>(u3, demo_users()[3]);
        }
        let ghost u4 = views(self.users@);
        self.add_user("eve", "Eve Adams", "eve@company.com", "model_operator");
        proof {
            lemma_upsert_new::<GenAIUser>(u4, demo_users()[4]);
        }
        assert(views(self.users@) =~= demo_users());

        let ghost o0 = views(self.organizations@);
        assert(o0 =~= Seq::<OrganizationModel>::empty());
        self.add_organization(
            "org1",
            "TechCorp AI Division",
            names1("diana"),
            names4("alice", "bob", "charlie", "eve"),
        );
        proof {
            lemma_upsert_new::<Organization>(o0, demo_organizations()[0]);
        }
        assert(views(self.organizations@) =~= demo_organizations());

        let ghost k0 = views(self.knowledge_bases@);
        assert(k0 =~= Seq::<KnowledgeBaseModel>::empty());
        self.add_knowledge_base(
            "kb1",
            "Technical Documentation",
            "Technical documentation and best practices",
            "org1",
            names1("alice"),
            names1("bob"),
            names1("charlie"),
        );
        proof {
            lemma_upsert_new::<KnowledgeBase>(k0, demo_knowledge_bases()[0]);
        }
        assert(views(self.knowledge_bases@) =~= demo_knowledge_bases());

        let stamp1 = current_timestamp();
        let stamp2 = current_timestamp();
        let stamp3 = current_timestamp();
        let stamp4 = current_timestamp();
        let stamp5 = current_timestamp();
        let ghost stamps = seq![stamp1@, stamp2@, stamp3@, stamp4@, stamp5@];
        let ghost d0 = views(self.documents@);
        assert(d0 =~= Seq::<DocumentModel>::empty());
        self.store_document(
            "doc1",
            "API Documentation",
            "Comprehensive API documentation for the system",
            "kb1",
            "alice",
            names1("bob"),
            names1("charlie"),
            names2("api", "documentation"),
            stamp1.as_str(),
        );
        proof {
            lemma_upsert_new::<Document>(d0, demo_documents(stamps)[0]);
        }
        let ghost d1 = views(self.documents@);
        self.store_document(
            "doc2",
            "Security Guidelines",
            "Security best practices and guidelines",
            "kb1",
            "alice",
            no_names(),
            names2("bob", "charlie"),
            names2("security", "guidelines"),
            stamp2.as_str(),
        );
        proof {
            lemma_upsert_new::<Document>(d1, demo_documents(stamps)[1]);
        }
        let ghost d2 = views(self.documents@);
        self.store_document(
            "doc3",
            "Internal Process",
            "Internal company processes - confidential",
            "kb1",
            "diana",
            no_names(),
            no_names(),
            names2("internal", "confidential"),
            stamp3.as_str(),
        );
        proof {
            lemma_upsert_new::<Document>(d2, demo_documents(stamps)[2]);
        }
        assert(views(self.documents@) =~= demo_documents(stamps));

        let ghost m0 = views(self.ai_models@);
        assert(m0 =~= Seq::<AIModelModel>::empty());
        self.add_ai_model(
            "model1",
            "RAG-GPT-4",
            "language_model",
            "org1",
            names1("eve"),
            names3("alice", "bob", "charlie"),
        );
        proof {
            lemma_upsert_new::<AIModel>(m0, demo_models()[0]);
        }
        assert(views(self.ai_models@) =~= demo_models());

        let ghost s0 = views(self.rag_sessions@);
        assert(s0 =~= Seq::<RAGSessionModel>::empty());
        self.store_rag_session(
            "session1",
            "API Help Session",
            "kb1",
            "model1",
            "bob",
            names1("charlie"),
            stamp4.as_str(),
        );
        proof {
            lemma_upsert_new::<RAGSession>(s0, demo_sessions(stamps)[0]);
        }
        assert(views(self.rag_sessions@) =~= demo_sessions(stamps));

        let ghost q0 = views(self.rag_queries@);
        assert(q0 =~= Seq::<RAGQueryModel>::empty());
        self.store_rag_query(
            "query1",
            "session1",
            "bob",
            "How do I authenticate with the API?",
            names1("doc1"),
            "To authenticate with the API, you need to use OAuth 2.0...",
            95,
            stamp5.as_str(),
        );
        proof {
            lemma_upsert_new::<RAGQuery>(q0, demo_queries(stamps)[0]);
        }
        assert(views(self.rag_queries@) =~= demo_queries(stamps));

        self.setup_authorization_tuples();
        assert(views(self.tuples@) =~= graph_tuples(self.graph_model()));
        assert(holds_demo_data(*self, stamps));
    }

    /// The policy of the domain as a rule table.
    pub fn rules() -> (table: RuleTable)
        ensures
            table@ == genai_rules(),
    {
        let member = vec![Predicate::direct("member"), Predicate::direct("admin")];
        assert(views(member@) =~= seq![direct("member"@), direct("admin"@)]);
        let admin = vec![Predicate::direct("admin")];
        assert(views(admin@) =~= seq![direct("admin"@)]);

        let view_kb = vec![
            Predicate::direct("curator"),
            Predicate::direct("contributor"),
            Predicate::direct("reader"),
            Predicate::parent("member"),
        ];
        assert(views(view_kb@) =~= seq![
            direct("curator"@),
            direct("contributor"@),
            direct("reader"@),
            parent("member"@),
        ]);
        let contribute = vec![Predicate::direct("curator"), Predicate::direct("contributor")];
        assert(views(contribute@) =~= seq![direct("curator"@), direct("contributor"@)]);
        let curate = vec![Predicate::direct("curator")];
        assert(views(curate@) =~= seq![direct("curator"@)]);
        let admin_kb = vec![Predicate::direct("curator"), Predicate::parent("admin")];
        assert(views(admin_kb@) =~= seq![direct("curator"@), parent("admin"@)]);

        let edit = vec![
            Predicate::direct("owner"),
            Predicate::direct("editor"),
            Predicate::parent("can_contribute"),
        ];
        assert(views(edit@) =~= seq![direct("owner"@), direct("editor"@), parent("can_contribute"@)]);
        let delete = vec![Predicate::direct("owner"), Predicate::parent("can_curate")];
        assert(views(delete@) =~= seq![direct("owner"@), parent("can_curate"@)]);

        let use_model = vec![
            Predicate::direct("operator"),
            Predicate::direct("user"),
            Predicate::parent("member"),
        ];
        assert(views(use_model@) =~= seq![direct("operator"@), direct("user"@), parent("member"@)]);
        let configure = vec![Predicate::direct("operator"), Predicate::parent("admin")];
        assert(views(configure@) =~= seq![direct("operator"@), parent("admin"@)]);
        let admin_model = vec![Predicate::direct("operator")];
        assert(views(admin_model@) =~= seq![direct("operator"@)]);

        let access_documents = vec![
            Predicate::both(Predicate::direct("owner"), Predicate::parent("can_view")),
            Predicate::both(Predicate::direct("participant"), Predicate::parent("can_view")),
        ];
        assert(views(access_documents@) =~= seq![
            both(direct("owner"@), parent("can_view"@)),
            both(direct("participant"@), parent("can_view"@)),
        ]);

        let view_query = vec![Predicate::direct("initiated_by"), Predicate::parent("can_view")];
        assert(views(view_query@) =~= seq![direct("initiated_by"@), parent("can_view"@)]);
        let access_results = vec![
            Predicate::both(
                Predicate::direct("initiated_by"),
                Predicate::every_reference("queried_documents", "can_use_in_rag"),
            ),
            Predicate::both(
                Predicate::parent("can_view"),
                Predicate::every_reference("queried_documents", "can_use_in_rag"),
            ),
        ];
        assert(views(access_results@) =~= seq![
            both(direct("initiated_by"@), every("queried_documents"@, "can_use_in_rag"@)),
            both(parent("can_view"@), every("queried_documents"@, "can_use_in_rag"@)),
        ]);
        let list = vec![
            RuleSet::delegated("organization", "member", member),
            RuleSet::delegated("organization", "admin", admin),
            RuleSet::exported("knowledge_base", "can_view", view_kb),
            RuleSet::exported("knowledge_base", "can_contribute", contribute),
            RuleSet::exported("knowledge_base", "can_curate", curate),
            RuleSet::exported("knowledge_base", "can_admin", admin_kb),
            RuleSet::exported("document", "can_view", document_viewers()),
            RuleSet::exported("document", "can_edit", edit),
            RuleSet::exported("document", "can_delete", delete),
            RuleSet::exported("document", "can_use_in_rag", document_viewers()),
            RuleSet::exported("ai_model", "can_use", use_model),
            RuleSet::exported("ai_model", "can_configure", configure),
            RuleSet::exported("ai_model", "can_admin", admin_model),
            RuleSet::exported("rag_session", "can_view", session_members()),
            RuleSet::exported("rag_session", "can_query", session_members()),
            RuleSet::exported("rag_session", "can_access_documents", access_documents),
            RuleSet::exported("rag_query", "can_view", view_query),
            RuleSet::exported("rag_query", "can_access_results", access_results),
        ];
        assert(views(list@) =~= genai_rules());
        RuleTable::from_list(list)
    }

    /// The graph that the records stand for.
    pub fn graph(&self) -> (g: ObjectGraph)
        ensures
            g@ == self.graph_model(),
            g.wf(),
    {
        let mut g = ObjectGraph::new();
        store_all(&mut g, &self.users);
        store_all(&mut g, &self.organizations);
        store_all(&mut g, &self.knowledge_bases);
        store_all(&mut g, &self.documents);
        store_all(&mut g, &self.ai_models);
        store_all(&mut g, &self.rag_sessions);
        store_all(&mut g, &self.rag_queries);
        g
    }

    /// Answers a request by the policy of the domain, on the records as they
    /// stand at the time of the call.
    pub fn check_authorization(&self, request: &AuthorizationRequest) -> (r: AuthorizationResponse)
        ensures
            response_reports(r, request_outcome(self.graph_model(), genai_rules(), request@)),
    {
        let graph = self.graph();
        let rules = Self::rules();
        check_request(&graph, &rules, request)
    }

    /// Stores a user under `id`.
    pub fn add_user(&mut self, id: &str, name: &str, email: &str, role: &str)
        ensures
            views(final(self).users@) == upsert_spec::<GenAIUser>(
                views(old(self).users@),
                GenAIUserModel { id: id@, name: name@, email: email@, role: role@ },
            ),
            *final(self) == (GenAIRAGDemo { users: final(self).users, ..*old(self) }),
            old(self).wf() ==> final(self).wf(),
    {
        upsert(
            &mut self.users,
            GenAIUser {
                id: id.to_string(),
                name: name.to_string(),
                email: email.to_string(),
                role: role.to_string(),
            },
        );
    }

    /// Stores an organization under `id`.
    pub fn add_organization(&mut self, id: &str, name: &str, admins: Vec<String>, members: Vec<String>)
        ensures
            views(final(self).organizations@) == upsert_spec::<Organization>(
                views(old(self).organizations@),
                OrganizationModel {
                    id: id@,
                    name: name@,
                    admins: views(admins@),
                    members: views(members@),
                },
            ),
            *final(self) == (GenAIRAGDemo { organizations: final(self).organizations, ..*old(self) }),
            old(self).wf() ==> final(self).wf(),
    {
        upsert(
            &mut self.organizations,
            Organization { id: id.to_string(), name: name.to_string(), admins, members },
        );
    }

    /// Stores a knowledge base under `id`.
    pub fn add_knowledge_base(
        &mut self,
        id: &str,
        name: &str,
        description: &str,
        parent_org_id: &str,
        curators: Vec<String>,
        contributors: Vec<String>,
        readers: Vec<String>,
    )
        ensures
            views(final(self).knowledge_bases@) == upsert_spec::<KnowledgeBase>(
                views(old(self).knowledge_bases@),
                KnowledgeBaseModel {
                    id: id@,
                    name: name@,
                    description: description@,
                    parent_org_id: parent_org_id@,
                    curators: views(curators@),
                    contributors: views(contributors@),
                    readers: views(readers@),
                },
            ),
            *final(self) == (GenAIRAGDemo {
                knowledge_bases: final(self).knowledge_bases,
                ..*old(self)
            }),
            old(self).wf() ==> final(self).wf(),
    {
        upsert(
            &mut self.knowledge_bases,
            KnowledgeBase {
                id: id.to_string(),
                name: name.to_string(),
                description: description.to_string(),
                parent_org_id: parent_org_id.to_string(),
                curators,
                contributors,
                readers,
            },
        );
    }

    /// Stores a document under `id`, created and updated at `timestamp`.
    pub fn store_document(
        &mut self,
        id: &str,
        title: &str,
        content: &str,
        parent_kb_id: &str,
        owner_id: &str,
        editors: Vec<String>,
        viewers: Vec<String>,
        tags: Vec<String>,
        timestamp: &str,
    )
        ensures
            views(final(self).documents@) == upsert_spec::<Document>(
                views(old(self).documents@),
                document_model(
                    id@,
                    title@,
                    content@,
                    parent_kb_id@,
                    owner_id@,
                    views(editors@),
                    views(viewers@),
                    views(tags@),
                    timestamp@,
                ),
            ),
            *final(self) == (GenAIRAGDemo { documents: final(self).documents, ..*old(self) }),
            old(self).wf() ==> final(self).wf(),
    {
        upsert(
            &mut self.documents,
            Document {
                id: id.to_string(),
                title: title.to_string(),
                content: content.to_string(),
                parent_kb_id: parent_kb_id.to_string(),
                owner_id: owner_id.to_string(),
                editors,
                viewers,
                tags,
                created_at: timestamp.to_string(),
                updated_at: timestamp.to_string(),
            },
        );
    }

    /// Stores a document under `id`, created and updated at the time of the
    /// call.
    pub fn add_document(
        &mut self,
        id: &str,
        title: &str,
        content: &str,
        parent_kb_id: &str,
        owner_id: &str,
        editors: Vec<String>,
        viewers: Vec<String>,
        tags: Vec<String>,
    )
        ensures
            exists|timestamp: Seq<char>|
                views(final(self).documents@) == upsert_spec::<Document>(
                    views(old(self).documents@),
                    #[trigger] document_model(
                        id@,
                        title@,
                        content@,
                        parent_kb_id@,
                        owner_id@,
                        views(editors@),
                        views(viewers@),
                        views(tags@),
                        timestamp,
                    ),
                ),
            *final(self) == (GenAIRAGDemo { documents: final(self).documents, ..*old(self) }),
            old(self).wf() ==> final(self).wf(),
    {
        let timestamp = current_timestamp();
        self.store_document(
            id,
            title,
            content,
            parent_kb_id,
            owner_id,
            editors,
            viewers,
            tags,
            timestamp.as_str(),
        );
        assert(views(self.documents@) == upsert_spec::<Document>(
            views(old(self).documents@),
            document_model(
                id@,
                title@,
                content@,
                parent_kb_id@,
                owner_id@,
                views(editors@),
                views(viewers@),
                views(tags@),
                timestamp@,
            ),
        ));
    }

    /// Stores an AI model under `id`, with the settings that every model
    /// starts from.
    pub fn add_ai_model(
        &mut self,
        id: &str,
        name: &str,
        model_type: &str,
        parent_org_id: &str,
        operators: Vec<String>,
        users: Vec<String>,
    )
        ensures
            views(final(self).ai_models@) == upsert_spec::<AIModel>(
                views(old(self).ai_models@),
                AIModelModel {
                    id: id@,
                    name: name@,
                    model_type: model_type@,
                    parent_org_id: parent_org_id@,
                    operators: views(operators@),
                    users: views(users@),
                    config: initial_settings(),
                },
            ),
            *final(self) == (GenAIRAGDemo { ai_models: final(self).ai_models, ..*old(self) }),
            old(self).wf() ==> final(self).wf(),
    {
        let config = vec![
            Setting { name: "max_tokens".to_string(), value: "4000".to_string() },
            Setting { name: "temperature".to_string(), value: "0.7".to_string() },
        ];
        assert(views(config@) =~= initial_settings());
        upsert(
            &mut self.ai_models,
            AIModel {
                id: id.to_string(),
                name: name.to_string(),
                model_type: model_type.to_string(),
                parent_org_id: parent_org_id.to_string(),
                operators,
                users,
                config,
            },
        );
    }

    /// Stores an active session under `id`, created at `timestamp`.
    pub fn store_rag_session(
        &mut self,
        id: &str,
        name: &str,
        parent_kb_id: &str,
        parent_model_id: &str,
        owner_id: &str,
        participants: Vec<String>,
        timestamp: &str,
    )
        ensures
            views(final(self).rag_sessions@) == upsert_spec::<RAGSession>(
                views(old(self).rag_sessions@),
                session_model(
                    id@,
                    name@,
                    parent_kb_id@,
                    parent_model_id@,
                    owner_id@,
                    views(participants@),
                    timestamp@,
                ),
            ),
            *final(self) == (GenAIRAGDemo { rag_sessions: final(self).rag_sessions, ..*old(self) }),
            old(self).wf() ==> final(self).wf(),
    {
        upsert(
            &mut self.rag_sessions,
            RAGSession {
                id: id.to_string(),
                name: name.to_string(),
                parent_kb_id: parent_kb_id.to_string(),
                parent_model_id: parent_model_id.to_string(),
                owner_id: owner_id.to_string(),
                participants,
                created_at: timestamp.to_string(),
                status: "active".to_string(),
            },
        );
    }

    /// Stores an active session under `id`, created at the time of the call.
    pub fn add_rag_session(
        &mut self,
        id: &str,
        name: &str,
        parent_kb_id: &str,
        parent_model_id: &str,
        owner_id: &str,
        participants: Vec<String>,
    )
        ensures
            exists|timestamp: Seq<char>|
                views(final(self).rag_sessions@) == upsert_spec::<RAGSession>(
                    views(old(self).rag_sessions@),
                    #[trigger] session_model(
                        id@,
                        name@,
                        parent_kb_id@,
                        parent_model_id@,
                        owner_id@,
                        views(participants@),
                        timestamp,
                    ),
                ),
            *final(self) == (GenAIRAGDemo { rag_sessions: final(self).rag_sessions, ..*old(self) }),
            old(self).wf() ==> final(self).wf(),
    {
        let timestamp = current_timestamp();
        self.store_rag_session(
            id,
            name,
            parent_kb_id,
            parent_model_id,
            owner_id,
            participants,
            timestamp.as_str(),
        );
        assert(views(self.rag_sessions@) == upsert_spec::<RAGSession>(
            views(old(self).rag_sessions@),
            session_model(
                id@,
                name@,
                parent_kb_id@,
                parent_model_id@,
                owner_id@,
                views(participants@),
                timestamp@,
            ),
        ));
    }

    /// Stores a query under `id`, put at `timestamp`. The confidence is
    /// counted in hundredths.
    pub fn store_rag_query(
        &mut self,
        id: &str,
        parent_session_id: &str,
        initiated_by: &str,
        query_text: &str,
        queried_documents: Vec<String>,
        response_text: &str,
        confidence_score: u32,
        timestamp: &str,
    )
        ensures
            views(final(self).rag_queries@) == upsert_spec::<RAGQuery>(
                views(old(self).rag_queries@),
                query_model(
                    id@,
                    parent_session_id@,
                    initiated_by@,
                    query_text@,
                    views(queried_documents@),
                    response_text@,
                    confidence_score as nat,
                    timestamp@,
                ),
            ),
            *final(self) == (GenAIRAGDemo { rag_queries: final(self).rag_queries, ..*old(self) }),
            old(self).wf() ==> final(self).wf(),
    {
        upsert(
            &mut self.rag_queries,
            RAGQuery {
                id: id.to_string(),
                parent_session_id: parent_session_id.to_string(),
                initiated_by: initiated_by.to_string(),
                query_text: query_text.to_string(),
                queried_documents,
                response_text: response_text.to_string(),
                timestamp: timestamp.to_string(),
                confidence_score,
            },
        );
    }

    /// Stores a query under `id`, put at the time of the call. The confidence
    /// is counted in hundredths.
    pub fn add_rag_query(
        &mut self,
        id: &str,
        parent_session_id: &str,
        initiated_by: &str,
        query_text: &str,
        queried_documents: Vec<String>,
        response_text: &str,
        confidence_score: u32,
    )
        ensures
            exists|timestamp: Seq<char>|
                views(final(self).rag_queries@) == upsert_spec::<RAGQuery>(
                    views(old(self).rag_queries@),
                    #[trigger] query_model(
                        id@,
                        parent_session_id@,
                        initiated_by@,
                        query_text@,
                        views(queried_documents@),
                        response_text@,
                        confidence_score as nat,
                        timestamp,
                    ),
                ),
            *final(self) == (GenAIRAGDemo { rag_queries: final(self).rag_queries, ..*old(self) }),
            old(self).wf() ==> final(self).wf(),
    {
        let timestamp = current_timestamp();
        self.store_rag_query(
            id,
            parent_session_id,
            initiated_by,
            query_text,
            queried_documents,
            response_text,
            confidence_score,
            timestamp.as_str(),
        );
        assert(views(self.rag_queries@) == upsert_spec::<RAGQuery>(
            views(old(self).rag_queries@),
            query_model(
                id@,
                parent_session_id@,
                initiated_by@,
                query_text@,
                views(queried_documents@),
                response_text@,
                confidence_score as nat,
                timestamp@,
            ),
        ));
    }

    /// Derives the tuples of the records as they stand and adds them to
    /// `tuples`.
    pub fn setup_authorization_tuples(&mut self)
        ensures
            views(final(self).tuples@) == views(old(self).tuples@) + graph_tuples(
                old(self).graph_model(),
            ),
            *final(self) == (GenAIRAGDemo { tuples: final(self).tuples, ..*old(self) }),
            old(self).wf() ==> final(self).wf(),
    {
        let graph = self.graph();
        let mut derived = materialize(&graph);
        let ghost before = views(self.tuples@);
        let ghost added = views(derived@);
        self.tuples.append(&mut derived);
        assert(views(self.tuples@) =~= before + added);
    }

    /// The tuples that were derived when `setup_authorization_tuples` last
    /// ran.
    pub fn get_tuples(&self) -> (tuples: &Vec<OpenFGATuple>)
        ensures
            tuples == &self.tuples,
    {
        &self.tuples
    }

    /// The documents that the user `user_id` may view, in the order of the
    /// records: one check for each document. Where every id is held once, the
    /// documents that the user owns are among them.
    pub fn get_documents_for_user(&self, user_id: &str) -> (found: Vec<&Document>)
        ensures
            found@.len() == visible_documents(
                self.documents@,
                self.graph_model(),
                genai_rules(),
                user_id@,
                self.documents@.len() as int,
            ).len(),
            forall|i: int|
                0 <= i < found@.len() ==> *#[trigger] found@[i] == visible_documents(
                    self.documents@,
                    self.graph_model(),
                    genai_rules(),
                    user_id@,
                    self.documents@.len() as int,
                )[i],
            self.wf() ==> forall|i: int|
                0 <= i < self.documents@.len() && (#[trigger] self.documents@[i]).owner_id@
                    == user_id@ ==> exists|k: int|
                    0 <= k < found@.len() && *#[trigger] found@[k] == self.documents@[i],
    {
        let graph = self.graph();
        let rules = Self::rules();
        let subject = ObjectRef::new("user", user_id);
        let mut found: Vec<&Document> = Vec::new();
        let mut i: usize = 0;
        while i < self.documents.len()
            invariant
                i <= self.documents.len(),
                graph@ == self.graph_model(),
                rules@ == genai_rules(),
                subject@ == user_ref(user_id@),
                found@.len() == visible_documents(
                    self.documents@,
                    graph@,
                    rules@,
                    user_id@,
                    i as int,
                ).len(),
                forall|k: int|
                    0 <= k < found@.len() ==> *#[trigger] found@[k] == visible_documents(
                        self.documents@,
                        graph@,
                        rules@,
                        user_id@,
                        i as int,
                    )[k],
            decreases self.documents.len() - i,
        {
            let document = &self.documents[i];
            let object = ObjectRef::new("document", document.id.as_str());
            match decide(&graph, &rules, &subject, "can_view", &object) {
                Outcome::Granted => {
                    found.push(document);
                },
                _ => {},
            }
            i += 1;
        }
        proof {
            if self.wf() {
                let visible = visible_documents(
                    self.documents@,
                    self.graph_model(),
                    genai_rules(),
                    user_id@,
                    self.documents@.len() as int,
                );
                assert forall|i: int|
                    0 <= i < self.documents@.len() && (#[trigger] self.documents@[i]).owner_id@
                        == user_id@ implies exists|k: int|
                    0 <= k < found@.len() && *#[trigger] found@[k] == self.documents@[i] by {
                    law_owner_is_shown_own_documents(*self, user_id@, i);
                    let k = choose|k: int| 0 <= k < visible.len() && visible[k] == self.documents@[i];
                    assert(*found@[k] == self.documents@[i]);
                }
            }
        }
        found
    }

    /// The response of the query `query_id` as the user `user_id` may see it:
    /// the response where the user may access the results, and the notice of
    /// denial wherever not, also where there is no such query.
    pub fn get_filtered_rag_response(&self, query_id: &str, user_id: &str) -> (response: Option<
        String,
    >)
        ensures
            response matches Some(text) && text@ == filtered_read_spec(
                self.graph_model(),
                genai_rules(),
                user_ref(user_id@),
                "can_access_results"@,
                query_ref(query_id@),
                denied_text(),
            ),
    {
        let graph = self.graph();
        let rules = Self::rules();
        let subject = ObjectRef::new("user", user_id);
        let object = ObjectRef::new("rag_query", query_id);
        filtered_read(
            &graph,
            &rules,
            &subject,
            "can_access_results",
            &object,
            "Access denied: Insufficient permissions to view query results",
        )
    }
}

impl Default for GenAIRAGDemo {
    /// The domain with the demonstration data.
    fn default() -> (demo: GenAIRAGDemo)
        ensures
            exists|stamps: Seq<Seq<char>>| #[trigger] holds_demo_data(demo, stamps),
            views(demo.tuples@) == graph_tuples(demo.graph_model()),
            demo.wf(),
    {
        GenAIRAGDemo::new()
    }
}

/// Whether `demo` holds the demonstration data, its three documents, its
/// session and its query stamped with `stamps` in this order.
pub open spec fn holds_demo_data(demo: GenAIRAGDemo, stamps: Seq<Seq<char>>) -> bool {
    &&& stamps.len() == 5
    &&& views(demo.users@) == demo_users()
    &&& views(demo.organizations@) == demo_organizations()
    &&& views(demo.knowledge_bases@) == demo_knowledge_bases()
    &&& views(demo.documents@) == demo_documents(stamps)
    &&& views(demo.ai_models@) == demo_models()
    &&& views(demo.rag_sessions@) == demo_sessions(stamps)
    &&& views(demo.rag_queries@) == demo_queries(stamps)
}

/// The users of the demonstration data.
pub open spec fn demo_users() -> Seq<GenAIUserModel> {
    seq![
        GenAIUserModel {
            id: "alice"@,
            name: "Alice Smith"@,
            email: "alice@company.com"@,
            role: "curator"@,
        },
        GenAIUserModel {
            id: "bob"@,
            name: "Bob Johnson"@,
            email: "bob@company.com"@,
            role: "contributor"@,
        },
        GenAIUserModel {
            id: "charlie"@,
            name: "Charlie Brown"@,
            email: "charlie@company.com"@,
            role: "reader"@,
        },
        GenAIUserModel {
            id: "diana"@,
            name: "Diana Prince"@,
            email: "diana@company.com"@,
            role: "admin"@,
        },
        GenAIUserModel {
            id: "eve"@,
            name: "Eve Adams"@,
            email: "eve@company.com"@,
            role: "model_operator"@,
        },
    ]
}

/// The organization of the demonstration data.
pub open spec fn demo_organizations() -> Seq<OrganizationModel> {
    seq![
        OrganizationModel {
            id: "org1"@,
            name: "TechCorp AI Division"@,
            admins: seq!["diana"@],
            members: seq!["alice"@, "bob"@, "charlie"@, "eve"@],
        },
    ]
}

/// The knowledge base of the demonstration data.
pub open spec fn demo_knowledge_bases() -> Seq<KnowledgeBaseModel> {
    seq![
        KnowledgeBaseModel {
            id: "kb1"@,
            name: "Technical Documentation"@,
            description: "Technical documentation and best practices"@,
            parent_org_id: "org1"@,
            curators: seq!["alice"@],
            contributors: seq!["bob"@],
            readers: seq!["charlie"@],
        },
    ]
}

/// The documents of the demonstration data: one that names editors and
/// viewers, one that names viewers only, and one that names neither.
pub open spec fn demo_documents(stamps: Seq<Seq<char>>) -> Seq<DocumentModel> {
    seq![
        document_model(
            "doc1"@,
            "API Documentation"@,
            "Comprehensive API documentation for the system"@,
            "kb1"@,
            "alice"@,
            seq!["bob"@],
            seq!["charlie"@],
            seq!["api"@, "documentation"@],
            stamps[0],
        ),
        document_model(
            "doc2"@,
            "Security Guidelines"@,
            "Security best practices and guidelines"@,
            "kb1"@,
            "alice"@,
            Seq::empty(),
            seq!["bob"@, "charlie"@],
            seq!["security"@, "guidelines"@],
            stamps[1],
        ),
        document_model(
            "doc3"@,
            "Internal Process"@,
            "Internal company processes - confidential"@,
            "kb1"@,
            "diana"@,
            Seq::empty(),
            Seq::empty(),
            seq!["internal"@, "confidential"@],
            stamps[2],
        ),
    ]
}

/// The model of the demonstration data.
pub open spec fn demo_models() -> Seq<AIModelModel> {
    seq![
        AIModelModel {
            id: "model1"@,
            name: "RAG-GPT-4"@,
            model_type: "language_model"@,
            parent_org_id: "org1"@,
            operators: seq!["eve"@],
            users: seq!["alice"@, "bob"@, "charlie"@],
            config: initial_settings(),
        },
    ]
}

/// The session of the demonstration data.
pub open spec fn demo_sessions(stamps: Seq<Seq<char>>) -> Seq<RAGSessionModel> {
    seq![
        session_model(
            "session1"@,
            "API Help Session"@,
            "kb1"@,
            "model1"@,
            "bob"@,
            seq!["charlie"@],
            stamps[3],
        ),
    ]
}

/// The query of the demonstration data.
pub open spec fn demo_queries(stamps: Seq<Seq<char>>) -> Seq<RAGQueryModel> {
    seq![
        query_model(
            "query1"@,
            "session1"@,
            "bob"@,
            "How do I authenticate with the API?"@,
            seq!["doc1"@],
            "To authenticate with the API, you need to use OAuth 2.0..."@,
            95,
            stamps[4],
        ),
    ]
}

/// The settings that every model starts from.
pub open spec fn initial_settings() -> Seq<SettingModel> {
    seq![
        SettingModel { name: "max_tokens"@, value: "4000"@ },
        SettingModel { name: "temperature"@, value: "0.7"@ },
    ]
}

/// The model of a document that was created and last updated at `timestamp`.
pub open spec fn document_model(
    id: Seq<char>,
    title: Seq<char>,
    content: Seq<char>,
    parent_kb_id: Seq<char>,
    owner_id: Seq<char>,
    editors: Seq<Seq<char>>,
    viewers: Seq<Seq<char>>,
    tags: Seq<Seq<char>>,
    timestamp: Seq<char>,
) -> DocumentModel {
    DocumentModel {
        id: id,
        title: title,
        content: content,
        parent_kb_id: parent_kb_id,
        owner_id: owner_id,
        editors: editors,
        viewers: viewers,
        tags: tags,
        created_at: timestamp,
        updated_at: timestamp,
    }
}

/// The model of an active session that was created at `timestamp`.
pub open spec fn session_model(
    id: Seq<char>,
    name: Seq<char>,
    parent_kb_id: Seq<char>,
    parent_model_id: Seq<char>,
    owner_id: Seq<char>,
    participants: Seq<Seq<char>>,
    timestamp: Seq<char>,
) -> RAGSessionModel {
    RAGSessionModel {
        id: id,
        name: name,
        parent_kb_id: parent_kb_id,
        parent_model_id: parent_model_id,
        owner_id: owner_id,
        participants: participants,
        created_at: timestamp,
        status: "active"@,
    }
}

/// The model of a query that was put at `timestamp`.
pub open spec fn query_model(
    id: Seq<char>,
    parent_session_id: Seq<char>,
    initiated_by: Seq<char>,
    query_text: Seq<char>,
    queried_documents: Seq<Seq<char>>,
    response_text: Seq<char>,
    confidence_score: nat,
    timestamp: Seq<char>,
) -> RAGQueryModel {
    RAGQueryModel {
        id: id,
        parent_session_id: parent_session_id,
        initiated_by: initiated_by,
        query_text: query_text,
        queried_documents: queried_documents,
        response_text: response_text,
        timestamp: timestamp,
        confidence_score: confidence_score,
    }
}

} // verus!
