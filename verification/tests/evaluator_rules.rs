use openfga_operator::decision::{
    check, check_request, decide, decide_request, AuthorizationRequest, Outcome,
};
use openfga_operator::evaluator::{check_at, EvalContext, Verdict, MAX_DEPTH};
use openfga_operator::graph::{Entity, Link, ObjectGraph};
use openfga_operator::query::{filtered_read, list_accessible};
use openfga_operator::reference::ObjectRef;
use openfga_operator::rules::{Guard, Predicate, RuleSet, RuleTable};

fn user(id: &str) -> ObjectRef {
    ObjectRef::new("user", id)
}

fn request(user: &str, relation: &str, object: &str) -> AuthorizationRequest {
    AuthorizationRequest {
        user: user.to_string(),
        relation: relation.to_string(),
        object: object.to_string(),
    }
}

/// A folder holds files; a file may cite other files.
fn library() -> (ObjectGraph, RuleTable) {
    let mut graph = ObjectGraph::new();
    let mut folder = Entity::new("folder", "f");
    folder.add_member("reader", "rita");
    folder.add_member("keeper", "kim");
    graph.put(folder);

    let mut open = Entity::new("file", "open");
    open.add_parent(Link::new("parent_folder", "folder", "f"));
    open.add_member("owner", "olga");
    open.add_member("viewer", "vic");
    open.set_content("open content");
    graph.put(open);

    let mut closed = Entity::new("file", "closed");
    closed.add_parent(Link::new("parent_folder", "folder", "f"));
    closed.add_member("owner", "olga");
    closed.set_content("closed content");
    graph.put(closed);

    let mut digest = Entity::new("file", "digest");
    digest.add_parent(Link::new("parent_folder", "folder", "f"));
    digest.add_member("owner", "rita");
    digest.add_reference(Link::new("cites", "file", "open"));
    digest.add_reference(Link::new("cites", "file", "closed"));
    digest.add_reference(Link::new("mentions", "file", "nowhere"));
    graph.put(digest);

    let mut orphan = Entity::new("file", "orphan");
    orphan.add_member("viewer", "vic");
    graph.put(orphan);

    let mut lost = Entity::new("file", "lost");
    lost.add_parent(Link::new("parent_folder", "folder", "gone"));
    lost.add_member("viewer", "vic");
    graph.put(lost);

    let mut rules = RuleTable::new();
    rules.grant("folder", "can_view", vec![Predicate::direct("reader"), Predicate::direct("keeper")]);
    rules.grant_delegated("folder", "keeps", vec![Predicate::direct("keeper")]);
    rules.grant(
        "file",
        "can_view",
        vec![
            Predicate::direct("owner"),
            Predicate::direct("viewer"),
            Predicate::conditional(
                Guard::all_empty(vec!["viewer".to_string(), "editor".to_string()]),
                "keeps",
                "can_view",
            ),
        ],
    );
    rules.grant(
        "file",
        "can_read_all",
        vec![Predicate::both(
            Predicate::direct("owner"),
            Predicate::every_reference("cites", "can_view"),
        )],
    );
    rules.grant("file", "can_edit", vec![Predicate::direct("owner"), Predicate::parent("keeps")]);
    (graph, rules)
}

fn allowed(graph: &ObjectGraph, rules: &RuleTable, who: &str, permission: &str, file: &str) -> bool {
    check(graph, rules, &user(who), permission, &ObjectRef::new("file", file)).allowed
}

#[test]
fn direct_relation_grants() {
    let (graph, rules) = library();
    assert!(allowed(&graph, &rules, "olga", "can_view", "open"));
    assert!(allowed(&graph, &rules, "vic", "can_view", "open"));
    assert!(allowed(&graph, &rules, "vic", "can_view", "orphan"));
    assert!(!allowed(&graph, &rules, "nobody", "can_view", "open"));
}

#[test]
fn parent_delegate_grants_through_the_container() {
    let (graph, rules) = library();
    assert!(allowed(&graph, &rules, "kim", "can_edit", "open"));
    assert!(!allowed(&graph, &rules, "rita", "can_edit", "open"));
    // Without a container, and with a container that is missing, nothing is delegated.
    assert!(!allowed(&graph, &rules, "kim", "can_edit", "orphan"));
    assert!(!allowed(&graph, &rules, "kim", "can_edit", "lost"));
}

#[test]
fn confidential_default_asks_for_the_strict_permission() {
    let (graph, rules) = library();
    // The open file names a viewer: whoever may view the folder may view it.
    assert!(allowed(&graph, &rules, "rita", "can_view", "open"));
    assert!(allowed(&graph, &rules, "kim", "can_view", "open"));
    // The closed file names none: only the keeper of the folder may.
    assert!(!allowed(&graph, &rules, "rita", "can_view", "closed"));
    assert!(allowed(&graph, &rules, "kim", "can_view", "closed"));
    assert!(allowed(&graph, &rules, "olga", "can_view", "closed"));
}

#[test]
fn naming_a_viewer_opens_a_confidential_object() {
    let (mut graph, rules) = library();
    assert!(!allowed(&graph, &rules, "rita", "can_view", "closed"));
    let mut closed = Entity::new("file", "closed");
    closed.add_parent(Link::new("parent_folder", "folder", "f"));
    closed.add_member("owner", "olga");
    closed.add_member("viewer", "vic");
    graph.put(closed);
    assert!(allowed(&graph, &rules, "rita", "can_view", "closed"));
    // Whoever was allowed before still is.
    assert!(allowed(&graph, &rules, "kim", "can_view", "closed"));
    assert!(allowed(&graph, &rules, "olga", "can_view", "closed"));
}

#[test]
fn adding_a_member_never_revokes() {
    let (mut graph, rules) = library();
    let people = ["olga", "vic", "rita", "kim", "nobody"];
    let files = ["open", "closed", "digest", "orphan", "lost"];
    let permissions = ["can_view", "can_edit", "can_read_all"];
    let mut before = Vec::new();
    for p in people {
        for f in files {
            for perm in permissions {
                before.push(allowed(&graph, &rules, p, perm, f));
            }
        }
    }
    let mut folder = Entity::new("folder", "f");
    folder.add_member("reader", "rita");
    folder.add_member("keeper", "kim");
    folder.add_member("reader", "nobody");
    graph.put(folder);
    let mut i = 0;
    for p in people {
        for f in files {
            for perm in permissions {
                let after = allowed(&graph, &rules, p, perm, f);
                assert!(!before[i] || after, "{} lost {} on {}", p, perm, f);
                i += 1;
            }
        }
    }
    assert!(allowed(&graph, &rules, "nobody", "can_view", "open"));
}

#[test]
fn conjunction_needs_both() {
    let (graph, rules) = library();
    // Rita owns the digest and may view the open file, but not the closed one.
    assert!(allowed(&graph, &rules, "rita", "can_view", "digest"));
    assert!(!allowed(&graph, &rules, "rita", "can_read_all", "digest"));
    // Kim may view both cited files but does not own the digest.
    assert!(!allowed(&graph, &rules, "kim", "can_read_all", "digest"));
}

#[test]
fn conjunction_flips_with_each_conjunct() {
    let (mut graph, rules) = library();
    let mut folder = Entity::new("folder", "f");
    folder.add_member("reader", "rita");
    folder.add_member("keeper", "kim");
    folder.add_member("keeper", "rita");
    graph.put(folder);
    // Now Rita may view every cited file, and owns the digest.
    assert!(allowed(&graph, &rules, "rita", "can_read_all", "digest"));
    // References of another name are not checked.
    assert!(graph.get("file", "nowhere").is_none());

    let mut digest = Entity::new("file", "digest");
    digest.add_member("owner", "rita");
    digest.add_reference(Link::new("cites", "file", "nowhere"));
    graph.put(digest);
    assert!(!allowed(&graph, &rules, "rita", "can_read_all", "digest"));
}

#[test]
fn every_reference_is_allowed_without_references() {
    let (graph, rules) = library();
    assert!(allowed(&graph, &rules, "olga", "can_read_all", "open"));
    assert!(!allowed(&graph, &rules, "vic", "can_read_all", "open"));
}

#[test]
fn unknown_permission_is_denied() {
    let (graph, rules) = library();
    let file = ObjectRef::new("file", "open");
    assert_eq!(decide(&graph, &rules, &user("olga"), "can_delete", &file), Outcome::UnknownPermission);
    assert_eq!(
        decide(&graph, &rules, &user("rita"), "can_edit", &ObjectRef::new("folder", "f")),
        Outcome::UnknownPermission
    );
    assert_eq!(
        decide(&graph, &rules, &user("olga"), "can_view", &ObjectRef::new("shelf", "s")),
        Outcome::UnknownPermission
    );
    assert!(!check(&graph, &rules, &user("olga"), "can_delete", &file).allowed);
    assert!(!allowed(&graph, &RuleTable::new(), "olga", "can_view", "open"));
}

#[test]
fn delegated_rule_lists_cannot_be_requested() {
    let (graph, rules) = library();
    let folder = ObjectRef::new("folder", "f");
    assert_eq!(decide(&graph, &rules, &user("kim"), "keeps", &folder), Outcome::UnknownPermission);
    assert!(!check(&graph, &rules, &user("kim"), "keeps", &folder).allowed);
    // Delegation still reaches them.
    assert!(allowed(&graph, &rules, "kim", "can_edit", "open"));
}

#[test]
fn missing_object_is_denied() {
    let (graph, rules) = library();
    assert_eq!(
        decide(&graph, &rules, &user("olga"), "can_view", &ObjectRef::new("file", "nowhere")),
        Outcome::NotFound
    );
    assert!(!allowed(&graph, &rules, "olga", "can_view", "nowhere"));
}

#[test]
fn outcome_says_how_a_question_ended() {
    let (graph, rules) = library();
    let open = ObjectRef::new("file", "open");
    assert_eq!(decide(&graph, &rules, &user("olga"), "can_view", &open), Outcome::Granted);
    assert_eq!(decide(&graph, &rules, &user("nobody"), "can_view", &open), Outcome::NotGranted);
    let response = check(&graph, &rules, &user("olga"), "can_view", &open);
    assert!(response.allowed);
    assert_eq!(response.reason, Some("granted".to_string()));
    assert_eq!(Outcome::NotGranted.reason(), "not granted");
    assert_eq!(Outcome::ParseError.reason(), "malformed reference");
    assert_eq!(Outcome::NotFound.reason(), "object not found");
    assert_eq!(Outcome::UnknownPermission.reason(), "unknown permission");
    assert_eq!(Outcome::RecursionLimitExceeded.reason(), "recursion limit exceeded");
    for outcome in [
        Outcome::NotGranted,
        Outcome::ParseError,
        Outcome::NotFound,
        Outcome::UnknownPermission,
        Outcome::RecursionLimitExceeded,
    ] {
        assert!(!outcome.response().allowed);
    }
}

#[test]
fn malformed_request_is_denied() {
    let (graph, rules) = library();
    assert_eq!(decide_request(&graph, &rules, &request("olga", "can_view", "file:open")), Outcome::ParseError);
    assert_eq!(decide_request(&graph, &rules, &request("user:olga", "can_view", "file")), Outcome::ParseError);
    assert_eq!(decide_request(&graph, &rules, &request("", "", "")), Outcome::ParseError);
    assert!(!check_request(&graph, &rules, &request("olga", "can_view", "file:open")).allowed);
    assert_eq!(
        decide_request(&graph, &rules, &request("user:olga", "can_view", "file:open")),
        Outcome::Granted
    );
    assert!(check_request(&graph, &rules, &request("user:olga", "can_view", "file:open")).allowed);
}

#[test]
fn subject_is_read_by_its_id() {
    let (graph, rules) = library();
    assert!(check_request(&graph, &rules, &request("person:olga", "can_view", "file:open")).allowed);
    assert!(!check_request(&graph, &rules, &request("olga:user", "can_view", "file:open")).allowed);
}

fn chain(length: usize, granted_at: usize) -> (ObjectGraph, RuleTable) {
    let mut graph = ObjectGraph::new();
    for i in 0..length {
        let mut node = Entity::new("node", &i.to_string());
        if i + 1 < length {
            node.add_parent(Link::new("parent", "node", &(i + 1).to_string()));
        }
        if i == granted_at {
            node.add_member("member", "sam");
        }
        graph.put(node);
    }
    let table = RuleTable::from_list(vec![RuleSet::exported(
        "node",
        "can_view",
        vec![Predicate::direct("member"), Predicate::parent("can_view")],
    )]);
    (graph, table)
}

#[test]
fn delegation_is_followed_up_to_the_depth_limit() {
    assert_eq!(MAX_DEPTH, 32);
    let start = ObjectRef::new("node", "0");
    let (graph, rules) = chain(40, 32);
    assert_eq!(decide(&graph, &rules, &user("sam"), "can_view", &start), Outcome::Granted);
    let (graph, rules) = chain(40, 33);
    assert_eq!(
        decide(&graph, &rules, &user("sam"), "can_view", &start),
        Outcome::RecursionLimitExceeded
    );
    assert!(!check(&graph, &rules, &user("sam"), "can_view", &start).allowed);
    // A chain that ends before the limit is denied for want of a grant.
    let (graph, rules) = chain(10, 10);
    assert_eq!(decide(&graph, &rules, &user("sam"), "can_view", &start), Outcome::NotGranted);
}

#[test]
fn cyclic_containment_is_denied() {
    let mut graph = ObjectGraph::new();
    let mut a = Entity::new("node", "a");
    a.add_parent(Link::new("parent", "node", "b"));
    let mut b = Entity::new("node", "b");
    b.add_parent(Link::new("parent", "node", "a"));
    graph.put(a);
    graph.put(b);
    let mut rules = RuleTable::new();
    rules.grant("node", "can_view", vec![Predicate::parent("can_view")]);
    let outcome = decide(&graph, &rules, &user("sam"), "can_view", &ObjectRef::new("node", "a"));
    assert_eq!(outcome, Outcome::RecursionLimitExceeded);
    assert!(!outcome.response().allowed);
}

#[test]
fn check_in_a_context_counts_the_depth() {
    let (graph, rules) = chain(3, 2);
    let sam = "sam".to_string();
    let can_view = "can_view".to_string();
    let start = ObjectRef::new("node", "0");
    let root = EvalContext::root();
    assert_eq!(root.depth, 0);
    assert!(!root.exhausted());
    assert_eq!(root.descend().depth, 1);
    assert_eq!(check_at(&graph, &rules, &sam, &can_view, &start, &root), Verdict::Allowed);
    // Two delegations are needed: they fit below depth 30, not below depth 31.
    let deep = EvalContext { depth: 30 };
    assert_eq!(check_at(&graph, &rules, &sam, &can_view, &start, &deep), Verdict::Allowed);
    let deeper = EvalContext { depth: 31 };
    assert_eq!(check_at(&graph, &rules, &sam, &can_view, &start, &deeper), Verdict::Exhausted);
    let past = EvalContext { depth: 33 };
    assert!(past.exhausted());
    assert_eq!(check_at(&graph, &rules, &sam, &can_view, &start, &past), Verdict::Exhausted);
    assert_eq!(
        check_at(&graph, &rules, &"eve".to_string(), &can_view, &start, &root),
        Verdict::Denied
    );
}

#[test]
fn first_rule_list_of_a_pair_counts() {
    let table = RuleTable::from_list(vec![
        RuleSet::exported("node", "can_view", vec![Predicate::direct("member")]),
        RuleSet::exported("node", "can_view", vec![Predicate::direct("guest")]),
    ]);
    assert_eq!(table.len(), 2);
    let found = table.find(&"node".to_string(), &"can_view".to_string()).unwrap();
    assert!(matches!(&found.predicates[0], Predicate::DirectRelation(name) if name == "member"));
    assert!(table.find(&"node".to_string(), &"can_edit".to_string()).is_none());

    let mut table = RuleTable::new();
    table.grant("node", "can_view", vec![Predicate::direct("member")]);
    table.grant("node", "can_view", vec![Predicate::direct("guest")]);
    assert_eq!(table.len(), 1);
    let found = table.find(&"node".to_string(), &"can_view".to_string()).unwrap();
    assert!(matches!(&found.predicates[0], Predicate::DirectRelation(name) if name == "guest"));
}

#[test]
fn guard_holds_when_all_named_lists_are_empty() {
    let guard = Guard::all_empty(vec!["viewer".to_string(), "editor".to_string()]);
    let mut e = Entity::new("file", "x");
    assert!(guard.holds(&e));
    e.add_member("owner", "olga");
    assert!(guard.holds(&e));
    e.add_member("editor", "ed");
    assert!(!guard.holds(&e));
    assert!(Guard::all_empty(vec![]).holds(&e));
    assert!(guard.duplicate().holds(&Entity::new("file", "y")));
}

fn ids(found: &[ObjectRef]) -> Vec<String> {
    found.iter().map(|r| r.format()).collect()
}

#[test]
fn accessible_objects_are_listed_in_store_order() {
    let (graph, rules) = library();
    assert_eq!(
        ids(&list_accessible(&graph, &rules, &user("olga"), "can_view", "file")),
        vec!["file:open", "file:closed"]
    );
    assert_eq!(
        ids(&list_accessible(&graph, &rules, &user("rita"), "can_view", "file")),
        vec!["file:open", "file:digest"]
    );
    assert_eq!(
        ids(&list_accessible(&graph, &rules, &user("vic"), "can_view", "file")),
        vec!["file:open", "file:orphan", "file:lost"]
    );
    assert_eq!(ids(&list_accessible(&graph, &rules, &user("rita"), "can_view", "folder")), vec!["folder:f"]);
    assert!(list_accessible(&graph, &rules, &user("nobody"), "can_view", "file").is_empty());
    assert!(list_accessible(&graph, &rules, &user("olga"), "can_fly", "file").is_empty());
    assert!(list_accessible(&graph, &rules, &user("olga"), "can_view", "shelf").is_empty());
}

#[test]
fn filtered_read_hands_out_content_or_the_sentinel() {
    let (graph, rules) = library();
    let closed = ObjectRef::new("file", "closed");
    assert_eq!(
        filtered_read(&graph, &rules, &user("olga"), "can_view", &closed, "denied"),
        Some("closed content".to_string())
    );
    assert_eq!(
        filtered_read(&graph, &rules, &user("rita"), "can_view", &closed, "denied"),
        Some("denied".to_string())
    );
    assert_eq!(
        filtered_read(&graph, &rules, &user("olga"), "can_fly", &closed, "denied"),
        Some("denied".to_string())
    );
    // An object that is not held is answered with the sentinel as well.
    assert_eq!(
        filtered_read(&graph, &rules, &user("olga"), "can_view", &ObjectRef::new("file", "nowhere"), "denied"),
        Some("denied".to_string())
    );
    assert_eq!(
        filtered_read(&ObjectGraph::new(), &rules, &user("olga"), "can_view", &closed, "denied"),
        Some("denied".to_string())
    );
}

#[test]
fn grant_may_revoke_where_a_guard_does_not_tighten() {
    // The strict permission of this table does not imply the ordinary one.
    let mut rules = RuleTable::new();
    rules.grant_delegated("folder", "keeps", vec![Predicate::direct("keeper")]);
    rules.grant_delegated("folder", "reads", vec![Predicate::direct("reader")]);
    rules.grant(
        "file",
        "can_peek",
        vec![Predicate::conditional(Guard::all_empty(vec!["viewer".to_string()]), "keeps", "reads")],
    );
    let mut graph = ObjectGraph::new();
    let mut folder = Entity::new("folder", "f");
    folder.add_member("keeper", "kim");
    graph.put(folder);
    let mut file = Entity::new("file", "x");
    file.add_parent(Link::new("parent_folder", "folder", "f"));
    graph.put(file);
    assert!(allowed(&graph, &rules, "kim", "can_peek", "x"));

    let mut file = Entity::new("file", "x");
    file.add_parent(Link::new("parent_folder", "folder", "f"));
    file.add_member("viewer", "vic");
    graph.put(file);
    assert!(!allowed(&graph, &rules, "kim", "can_peek", "x"));

    // A grant of a relation that no guard reads revokes nothing.
    let mut file = Entity::new("file", "x");
    file.add_parent(Link::new("parent_folder", "folder", "f"));
    file.add_member("owner", "olga");
    graph.put(file);
    assert!(allowed(&graph, &rules, "kim", "can_peek", "x"));
}
