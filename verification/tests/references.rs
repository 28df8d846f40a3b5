use openfga_operator::reference::ObjectRef;

fn parts(text: &str) -> Option<(String, String)> {
    ObjectRef::parse(text).map(|r| (r.kind, r.id))
}

#[test]
fn reference_splits_at_the_first_separator() {
    assert_eq!(parts("account:acc1"), Some(("account".to_string(), "acc1".to_string())));
    assert_eq!(parts("user:alice"), Some(("user".to_string(), "alice".to_string())));
}

#[test]
fn reference_without_separator_is_malformed() {
    assert_eq!(parts("account"), None);
    assert_eq!(parts(""), None);
    assert_eq!(parts("acc1 of account"), None);
}

#[test]
fn reference_id_ends_at_the_second_separator() {
    assert_eq!(parts("account:acc1:extra"), Some(("account".to_string(), "acc1".to_string())));
    assert_eq!(parts("a::b"), Some(("a".to_string(), "".to_string())));
}

#[test]
fn reference_parts_may_be_empty() {
    assert_eq!(parts(":"), Some(("".to_string(), "".to_string())));
    assert_eq!(parts(":id"), Some(("".to_string(), "id".to_string())));
    assert_eq!(parts("kind:"), Some(("kind".to_string(), "".to_string())));
}

#[test]
fn reference_keeps_characters_beyond_ascii() {
    assert_eq!(parts("konto:müller"), Some(("konto".to_string(), "müller".to_string())));
    assert_eq!(parts("文書:一"), Some(("文書".to_string(), "一".to_string())));
}

#[test]
fn reference_is_formatted_as_type_and_id() {
    assert_eq!(ObjectRef::new("document", "doc3").format(), "document:doc3");
    assert_eq!(ObjectRef::new("", "").format(), ":");
}

#[test]
fn parsing_undoes_formatting() {
    for (kind, id) in [("account", "acc1"), ("rag_query", "query1"), ("k", "")] {
        let text = ObjectRef::new(kind, id).format();
        assert_eq!(parts(&text), Some((kind.to_string(), id.to_string())));
    }
    let copy = ObjectRef::new("a", "b").duplicate();
    assert_eq!((copy.kind.as_str(), copy.id.as_str()), ("a", "b"));
}
