use songstore::expression::make_hashmap;
use songstore::values::{kv_find, kv_put, FieldValue};

#[test]
fn kv_put_appends_a_new_key() {
    let mut m = vec![("a".to_string(), FieldValue::Number(1))];
    kv_put(&mut m, "b".to_string(), FieldValue::Number(2));
    assert_eq!(m.len(), 2);
    assert_eq!(m[1].0, "b");
    assert!(matches!(m[1].1, FieldValue::Number(2)));
}

#[test]
fn kv_put_replaces_in_place() {
    let mut m = vec![
        ("a".to_string(), FieldValue::Number(1)),
        ("b".to_string(), FieldValue::Number(2)),
        ("c".to_string(), FieldValue::Number(3)),
    ];
    kv_put(&mut m, "b".to_string(), FieldValue::Text("two".to_string()));
    assert_eq!(m.len(), 3);
    assert_eq!(m[1].0, "b");
    assert!(matches!(&m[1].1, FieldValue::Text(s) if s == "two"));
    assert!(matches!(m[2].1, FieldValue::Number(3)));
}

#[test]
fn kv_find_returns_the_first_match() {
    let m = vec![
        ("a".to_string(), FieldValue::Number(1)),
        ("b".to_string(), FieldValue::Number(2)),
    ];
    assert!(matches!(kv_find(&m, "a"), Some(FieldValue::Number(1))));
    assert!(matches!(kv_find(&m, "b"), Some(FieldValue::Number(2))));
    assert!(kv_find(&m, "c").is_none());
}

#[test]
fn make_hashmap_holds_exactly_one_binding() {
    let m = make_hashmap("key".to_string(), 7u32);
    assert_eq!(m.len(), 1);
    assert_eq!(m.get("key"), Some(&7));
    assert_eq!(m.get("other"), None);
}
