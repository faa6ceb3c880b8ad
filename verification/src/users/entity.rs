//! The user entity: a verified identity's stable subject id and optional
//! display name. The same shape serves as the verified identity handed
//! back by the token verifier and as the stored account record.

use vstd::prelude::*;

verus! {

pub struct User {
    /// The identity provider's stable subject identifier.
    pub id: String,
    /// The display name, when the provider supplied one.
    pub name: Option<String>,
}

} // verus!
