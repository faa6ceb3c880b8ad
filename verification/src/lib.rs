//! Orchestration layer for a song-document service: identity checks,
//! ownership enforcement, optimistic-concurrency conflict detection,
//! identifier assignment, and background-job dispatch decisions.
//!
//! Each usecase operation is a short sequence of decisions between
//! external calls — token verification, store reads and writes, queue
//! publishes. Those decisions are the verified functions of this crate:
//! each states exactly which outcome follows from which input, and an
//! error outcome requests nothing further of the outside world. The
//! embedding runtime performs the external call a step asks for and
//! feeds its result into the next function.

pub mod clock;
pub mod environment;
pub mod expression;
pub mod gateway;
pub mod ident;
pub mod songs;
pub mod store;
pub mod tracks;
pub mod users;
pub mod values;

use vstd::prelude::*;

verus! {

/// A bearer token extracted from an `Authorization` header: the header must
/// start with `"Bearer "`; the remainder is the token.
pub fn extract_bearer_token(auth_header_value: &str) -> (r: Option<String>)
    ensures
        r is Some <==> (auth_header_value@.len() >= 7 && auth_header_value@.subrange(0, 7)
            == "Bearer "@),
        r matches Some(t) ==> t@ == auth_header_value@.skip(7),
{
    let n = auth_header_value.unicode_len();
    if n < 7 {
        return None;
    }
    let prefix = auth_header_value.substring_char(0, 7).to_owned();
    let expected = "Bearer ".to_owned();
    if prefix == expected {
        let token = auth_header_value.substring_char(7, n);
        Some(token.to_owned())
    } else {
        None
    }
}

} // verus!
