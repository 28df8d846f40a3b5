use openfga_operator::graph::{Entity, Link, ObjectGraph, Relation};
use openfga_operator::reference::ObjectRef;

fn names(list: &[&str]) -> Vec<String> {
    list.iter().map(|s| s.to_string()).collect()
}

#[test]
fn store_finds_what_was_put() {
    let mut graph = ObjectGraph::new();
    assert_eq!(graph.len(), 0);
    assert!(graph.get("account", "acc1").is_none());

    let mut account = Entity::new("account", "acc1");
    account.add_member("owner", "alice");
    graph.put(account);
    graph.put(Entity::new("branch", "acc1"));

    assert_eq!(graph.len(), 2);
    let found = graph.get("account", "acc1").unwrap();
    assert_eq!(found.kind, "account");
    assert_eq!(found.relations.len(), 1);
    assert_eq!(graph.get("branch", "acc1").unwrap().relations.len(), 0);
    assert!(graph.get("account", "acc2").is_none());
    assert!(graph.get("acc1", "account").is_none());
}

#[test]
fn store_replaces_an_entity_under_the_same_key() {
    let mut graph = ObjectGraph::new();
    graph.put(Entity::new("account", "a"));
    graph.put(Entity::new("account", "b"));
    let mut again = Entity::new("account", "a");
    again.set_content("second");
    graph.put(again);

    assert_eq!(graph.len(), 2);
    assert_eq!(graph.entity(0).id, "a");
    assert_eq!(graph.entity(0).content, "second");
    assert_eq!(graph.entity(1).id, "b");
    assert_eq!(graph.position(&ObjectRef::new("account", "b")), Some(1));
    assert_eq!(graph.position(&ObjectRef::new("account", "c")), None);
    assert_eq!(graph.find(&ObjectRef::new("account", "a")).unwrap().content, "second");
}

#[test]
fn relation_lists_are_sets() {
    let mut e = Entity::new("document", "d");
    e.add_member("viewer", "bob");
    e.add_member("viewer", "carol");
    e.add_member("viewer", "bob");
    e.add_member("editor", "bob");
    assert_eq!(e.relations.len(), 2);
    assert_eq!(e.relations[0].name, "viewer");
    assert_eq!(e.relations[0].members, names(&["bob", "carol"]));
    assert_eq!(e.relations[1].members, names(&["bob"]));

    let viewer = "viewer".to_string();
    let editor = "editor".to_string();
    let owner = "owner".to_string();
    assert!(e.is_member(&viewer, &"carol".to_string()));
    assert!(!e.is_member(&editor, &"carol".to_string()));
    assert!(!e.is_member(&owner, &"bob".to_string()));
    assert!(!e.relation_is_empty(&viewer));
    assert!(e.relation_is_empty(&owner));
}

#[test]
fn members_are_found_in_every_list_of_the_name() {
    let mut e = Entity::new("document", "d");
    e.add_relation(Relation::new("viewer", names(&[])));
    e.add_relation(Relation::new("viewer", names(&["dora"])));
    assert!(e.is_member(&"viewer".to_string(), &"dora".to_string()));
    assert!(!e.relation_is_empty(&"viewer".to_string()));
}

#[test]
fn container_is_the_first_parent() {
    let mut e = Entity::new("rag_session", "s");
    assert!(e.container().is_none());
    e.add_parent(Link::new("parent_kb", "knowledge_base", "kb1"));
    e.add_parent(Link::new("parent_model", "ai_model", "m1"));
    e.add_reference(Link::new("cites", "document", "d1"));
    let container = e.container().unwrap();
    assert_eq!((container.kind.as_str(), container.id.as_str()), ("knowledge_base", "kb1"));
    assert_eq!(e.key().format(), "rag_session:s");
    assert_eq!(e.references.len(), 1);
    let copy = e.parents[1].duplicate();
    assert_eq!(copy.relation, "parent_model");
    assert_eq!(copy.target.format(), "ai_model:m1");
    let list = Relation::new("viewer", names(&["a", "b"])).duplicate();
    assert_eq!(list.members, names(&["a", "b"]));
}
