use common::context::Context;

fn filled(entries: &[(&str, &str)]) -> Context {
    let mut context = Context::new();
    for (key, value) in entries {
        context = context.insert(key.to_string(), value.to_string());
    }
    context
}

#[test]
fn new_context_is_empty() {
    let context = Context::new();
    assert_eq!(context.len(), 0);
    assert!(context.is_empty());
    assert!(!context.contains_key("k"));
    assert_eq!(context.get("k"), None);
}

#[test]
fn insert_adds_a_new_key() {
    let context = filled(&[("a", "1"), ("b", "2")]);
    assert_eq!(context.len(), 2);
    assert!(!context.is_empty());
    assert!(context.contains_key("a"));
    assert!(context.contains_key("b"));
    assert!(!context.contains_key("c"));
    assert_eq!(context.get("a").unwrap(), "1");
    assert_eq!(context.get("b").unwrap(), "2");
}

#[test]
fn insert_replaces_the_value_of_a_present_key() {
    let context = filled(&[("a", "1"), ("b", "2"), ("a", "3")]);
    assert_eq!(context.len(), 2);
    assert_eq!(context.get("a").unwrap(), "3");
    assert_eq!(context.get("b").unwrap(), "2");
}

#[test]
fn keys_are_compared_by_content() {
    let context = filled(&[("key", "1"), ("ke", "2"), ("", "3"), ("käy", "4")]);
    assert_eq!(context.len(), 4);
    assert_eq!(context.get("key").unwrap(), "1");
    assert_eq!(context.get("ke").unwrap(), "2");
    assert_eq!(context.get("").unwrap(), "3");
    assert_eq!(context.get("käy").unwrap(), "4");
    assert_eq!(context.get("k"), None);
    assert_eq!(context.get("KEY"), None);
}

#[test]
fn extend_prefers_the_incoming_value() {
    let context = filled(&[("a", "1"), ("b", "2")]).extend(filled(&[("b", "20"), ("c", "30")]));
    assert_eq!(context.len(), 3);
    assert_eq!(context.get("a").unwrap(), "1");
    assert_eq!(context.get("b").unwrap(), "20");
    assert_eq!(context.get("c").unwrap(), "30");
}

#[test]
fn extend_with_an_empty_context_changes_nothing() {
    let context = filled(&[("a", "1")]).extend(Context::new());
    assert_eq!(context.len(), 1);
    assert_eq!(context.get("a").unwrap(), "1");
    let other = Context::new().extend(filled(&[("a", "1")]));
    assert_eq!(other.len(), 1);
    assert_eq!(other.get("a").unwrap(), "1");
}

#[test]
fn clone_of_a_context_has_the_same_entries() {
    let context = filled(&[("a", "1"), ("b", "2")]);
    let copy = context.clone();
    assert_eq!(copy.len(), 2);
    assert_eq!(copy.get("a").unwrap(), "1");
    assert_eq!(copy.get("b").unwrap(), "2");
    let changed = copy.insert("a".to_owned(), "9".to_owned());
    assert_eq!(changed.get("a").unwrap(), "9");
    assert_eq!(context.get("a").unwrap(), "1");
}
