use songstore::songs::entity::SongSummary;
use songstore::store::StoreError;
use songstore::users::entity::User;
use songstore::users::record::{entity_user, entity_user_id, entity_user_name};
use songstore::users::usecase::{
    login_checked, login_finish, songs_for_user_checked, songs_for_user_finish, upsert_apply,
    Error,
};
use songstore::values::FieldValue;

fn verified(id: &str) -> Result<User, String> {
    Ok(User { id: id.to_string(), name: Some("Alice".to_string()) })
}

#[test]
fn login_passes_a_verified_identity_through() {
    let r = login_checked(verified("u1")).unwrap();
    assert_eq!(r.id, "u1");
    assert_eq!(r.name, Some("Alice".to_string()));
}

#[test]
fn login_rejects_a_failed_verification() {
    match login_checked(Err("bad audience".to_string())) {
        Err(Error::GoogleValidationError { msg, .. }) => assert_eq!(msg, "bad audience"),
        _ => panic!("a failed verification must surface"),
    }
}

#[test]
fn upsert_creates_an_absent_account() {
    let incoming = User { id: "u1".to_string(), name: Some("Alice".to_string()) };
    let stored = upsert_apply(None, &incoming);
    assert_eq!(stored.id, "u1");
    assert_eq!(stored.name, Some("Alice".to_string()));
}

#[test]
fn upsert_without_a_name_keeps_the_stored_one() {
    let existing = User { id: "u1".to_string(), name: Some("Alice".to_string()) };
    let incoming = User { id: "u1".to_string(), name: None };
    let stored = upsert_apply(Some(existing), &incoming);
    assert_eq!(stored.id, "u1");
    assert_eq!(stored.name, Some("Alice".to_string()));
}

#[test]
fn upsert_with_a_name_replaces_the_stored_one() {
    let existing = User { id: "u1".to_string(), name: Some("Alice".to_string()) };
    let incoming = User { id: "u1".to_string(), name: Some("Alicia".to_string()) };
    let stored = upsert_apply(Some(existing), &incoming);
    assert_eq!(stored.name, Some("Alicia".to_string()));
}

#[test]
fn login_twice_converges_and_never_conflicts() {
    let incoming = User { id: "u1".to_string(), name: Some("Alice".to_string()) };
    let first = upsert_apply(None, &incoming);
    // The second login's upsert sees the stored record and returns it
    // unchanged: same id, same name, and — the rule being total — no
    // conflict is even expressible.
    let second = upsert_apply(Some(first), &incoming);
    assert_eq!(second.id, "u1");
    assert_eq!(second.name, Some("Alice".to_string()));
    let first_again = upsert_apply(None, &incoming);
    assert_eq!(first_again.id, second.id);
}

#[test]
fn login_finish_returns_the_stored_user() {
    let stored = Ok(User { id: "u1".to_string(), name: None });
    assert_eq!(login_finish(stored).unwrap().id, "u1");
}

#[test]
fn login_finish_maps_store_failure() {
    let r = login_finish(Err(StoreError::Infra { detail: "down".to_string() }));
    match r {
        Err(Error::DatastoreError { msg }) => assert_eq!(msg, "down"),
        _ => panic!("a store failure must become DatastoreError"),
    }
}

#[test]
fn songs_for_another_owner_are_refused_without_store() {
    let r = songs_for_user_checked(verified("u1"), "u2");
    assert!(matches!(r, Err(Error::OwnerVerificationError)));
}

#[test]
fn songs_for_own_id_are_queried() {
    let r = songs_for_user_checked(verified("u1"), "u1").unwrap();
    assert_eq!(r, "u1");
}

#[test]
fn songs_for_user_rejects_failed_verification() {
    let r = songs_for_user_checked(Err("no token".to_string()), "u1");
    assert!(matches!(r, Err(Error::GoogleValidationError { .. })));
}

#[test]
fn songs_for_user_finish_passes_summaries_through() {
    let list = vec![SongSummary {
        id: "s1".to_string(),
        owner: "u1".to_string(),
        last_saved_at: Some(3),
        metadata: vec![],
    }];
    let r = songs_for_user_finish(Ok(list)).unwrap();
    assert_eq!(r.len(), 1);
    assert_eq!(r[0].id, "s1");
}

#[test]
fn songs_for_user_finish_maps_store_failure() {
    let r = songs_for_user_finish(Err(StoreError::Infra { detail: "down".to_string() }));
    assert!(matches!(r, Err(Error::DatastoreError { .. })));
}

#[test]
fn user_record_decodes_id_and_name() {
    let attrs = vec![
        ("id".to_string(), FieldValue::Text("u1".to_string())),
        ("username".to_string(), FieldValue::Text("Alice".to_string())),
    ];
    let u = entity_user(Some(attrs)).unwrap();
    assert_eq!(u.id, "u1");
    assert_eq!(u.name, Some("Alice".to_string()));
}

#[test]
fn user_record_without_name_decodes_to_none() {
    let attrs = vec![("id".to_string(), FieldValue::Text("u1".to_string()))];
    let u = entity_user(Some(attrs)).unwrap();
    assert_eq!(u.name, None);
}

#[test]
fn user_record_without_attributes_is_a_store_failure() {
    assert!(matches!(entity_user(None), Err(StoreError::Infra { .. })));
}

#[test]
fn user_record_without_id_is_a_store_failure() {
    let attrs = vec![("username".to_string(), FieldValue::Text("Alice".to_string()))];
    assert!(matches!(entity_user_id(&attrs), Err(StoreError::Infra { .. })));
    assert!(matches!(entity_user(Some(attrs)), Err(StoreError::Infra { .. })));
}

#[test]
fn non_text_attributes_are_store_failures() {
    let attrs = vec![("id".to_string(), FieldValue::Number(4))];
    assert!(matches!(entity_user_id(&attrs), Err(StoreError::Infra { .. })));
    let attrs = vec![
        ("id".to_string(), FieldValue::Text("u1".to_string())),
        ("username".to_string(), FieldValue::Number(4)),
    ];
    assert!(matches!(entity_user_name(&attrs), Err(StoreError::Infra { .. })));
}
