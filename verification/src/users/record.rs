//! Decoding a stored user record.
//!
//! The store hands records back as opaque attribute maps; this module
//! owns the rules for reading a user out of one: the id is required and
//! must be text, the name is optional but must be text when present.

use crate::store::StoreError;
use crate::users::entity::User;
use crate::values::{kv_find, kv_get, FieldValue, Fields};
use vstd::prelude::*;

verus! {

/// Reads the required `id` attribute of a user record.
pub fn entity_user_id(attributes: &Fields) -> (r: Result<String, StoreError>)
    ensures
        kv_get(attributes@, "id"@) matches Some(FieldValue::Text(s)) ==> (r matches Ok(id) && id@
            == s@),
        kv_get(attributes@, "id"@) is None ==> (r matches Err(e) && e is Infra),
        (kv_get(attributes@, "id"@) matches Some(v) && !(v is Text)) ==> (r matches Err(e)
            && e is Infra),
{
    match kv_find(attributes, "id") {
        Option::Some(FieldValue::Text(s)) => Ok(s.clone()),
        Option::Some(_) => Err(StoreError::Infra {
            detail: "ID attribute on user is not a string".to_owned(),
        }),
        Option::None => Err(StoreError::Infra {
            detail: "No id found in user attributes".to_owned(),
        }),
    }
}

/// Reads the optional `username` attribute of a user record: absence is
/// a record without a name, but a present attribute must be text.
pub fn entity_user_name(attributes: &Fields) -> (r: Result<Option<String>, StoreError>)
    ensures
        kv_get(attributes@, "username"@) matches Some(FieldValue::Text(s)) ==> (r matches Ok(n)
            && (n matches Some(name) && name@ == s@)),
        kv_get(attributes@, "username"@) is None ==> r == Ok::<Option<String>, StoreError>(
            None::<String>,
        ),
        (kv_get(attributes@, "username"@) matches Some(v) && !(v is Text)) ==> (r matches Err(e)
            && e is Infra),
{
    match kv_find(attributes, "username") {
        Option::Some(FieldValue::Text(s)) => Ok(Option::Some(s.clone())),
        Option::Some(_) => Err(StoreError::Infra {
            detail: "Name attribute on user is not a string".to_owned(),
        }),
        Option::None => Ok(Option::None),
    }
}

/// Reads a whole user record out of a store reply. A reply that carries
/// no attributes at all is a store failure: an upsert asked for the
/// resulting record and got none.
pub fn entity_user(attributes: Option<Fields>) -> (r: Result<User, StoreError>)
    ensures
        attributes is None ==> (r matches Err(e) && e is Infra),
        attributes matches Some(m) ==> {
            &&& kv_get(m@, "id"@) is None ==> (r matches Err(e) && e is Infra)
            &&& (kv_get(m@, "id"@) matches Some(v) && !(v is Text)) ==> (r matches Err(e)
                && e is Infra)
            &&& kv_get(m@, "id"@) matches Some(FieldValue::Text(s)) ==> {
                &&& kv_get(m@, "username"@) matches Some(FieldValue::Text(nm)) ==> (r matches Ok(u)
                    && u.id@ == s@ && (u.name matches Some(n) && n@ == nm@))
                &&& kv_get(m@, "username"@) is None ==> (r matches Ok(u) && u.id@ == s@
                    && u.name is None)
                &&& (kv_get(m@, "username"@) matches Some(v) && !(v is Text)) ==> (r matches Err(e)
                    && e is Infra)
            }
        },
{
    let attributes = match attributes {
        Option::Some(m) => m,
        Option::None => {
            return Err(StoreError::Infra {
                detail: "No attributes found on user update call".to_owned(),
            });
        },
    };
    let id = match entity_user_id(&attributes) {
        Ok(id) => id,
        Err(e) => {
            return Err(e);
        },
    };
    let name = match entity_user_name(&attributes) {
        Ok(name) => name,
        Err(e) => {
            return Err(e);
        },
    };
    Ok(User { id, name })
}

} // verus!
