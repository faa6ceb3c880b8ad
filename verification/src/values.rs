//! Opaque document payloads.
//!
//! Songs, their metadata and track contents are grab-bags of keys and
//! values whose shape the orchestration layer mostly carries through
//! untouched. A value is held either as plain text, as a number, or as
//! the raw encoded form of anything else.

use vstd::prelude::*;
use vstd::pervasive::VecAdditionalExecFns;

verus! {

/// One value of an opaque key-value document.
#[derive(Debug)]
pub enum FieldValue {
    /// A plain text value.
    Text(String),
    /// A whole number.
    Number(i64),
    /// Anything else, carried through as its raw encoded text.
    Json(String),
}

/// An opaque key-value document: an ordered list of fields. Keys are
/// expected unique; `kv_put` preserves that by replacing in place.
pub type Fields = Vec<(String, FieldValue)>;

/// The field list after `key` is bound to `value`: the first field with
/// that key is replaced in place, or the pair is appended if the key is
/// absent. This mirrors insertion into an order-preserving map.
pub open spec fn kv_set(m: Seq<(String, FieldValue)>, key: String, value: FieldValue) -> Seq<
    (String, FieldValue),
>
    decreases m.len(),
{
    if m.len() == 0 {
        seq![(key, value)]
    } else if m[0].0@ == key@ {
        seq![(key, value)] + m.drop_first()
    } else {
        seq![m[0]] + kv_set(m.drop_first(), key, value)
    }
}

/// The value bound to `key`, if any: the first field with that key wins.
pub open spec fn kv_get(m: Seq<(String, FieldValue)>, key: Seq<char>) -> Option<FieldValue>
    decreases m.len(),
{
    if m.len() == 0 {
        None
    } else if m[0].0@ == key {
        Some(m[0].1)
    } else {
        kv_get(m.drop_first(), key)
    }
}

/// After binding `key`, looking `key` up yields exactly the new value.
pub proof fn lemma_kv_get_set_same(m: Seq<(String, FieldValue)>, key: String, value: FieldValue)
    ensures
        kv_get(kv_set(m, key, value), key@) == Some(value),
    decreases m.len(),
{
    if m.len() == 0 {
        assert(kv_set(m, key, value)[0] == (key, value));
    } else if m[0].0@ == key@ {
        assert(kv_set(m, key, value)[0] == (key, value));
    } else {
        assert(kv_set(m, key, value)[0] == m[0]);
        assert(kv_set(m, key, value).drop_first() =~= kv_set(m.drop_first(), key, value));
        lemma_kv_get_set_same(m.drop_first(), key, value);
    }
}

/// Binding `key` leaves every other key's binding untouched.
pub proof fn lemma_kv_get_set_other(
    m: Seq<(String, FieldValue)>,
    key: String,
    value: FieldValue,
    other: Seq<char>,
)
    requires
        other != key@,
    ensures
        kv_get(kv_set(m, key, value), other) == kv_get(m, other),
    decreases m.len(),
{
    if m.len() == 0 {
        assert(kv_set(m, key, value)[0] == (key, value));
        assert(kv_set(m, key, value).drop_first() =~= Seq::<(String, FieldValue)>::empty());
    } else if m[0].0@ == key@ {
        assert(kv_set(m, key, value)[0] == (key, value));
        assert(kv_set(m, key, value).drop_first() =~= m.drop_first());
    } else {
        assert(kv_set(m, key, value)[0] == m[0]);
        assert(kv_set(m, key, value).drop_first() =~= kv_set(m.drop_first(), key, value));
        lemma_kv_get_set_other(m.drop_first(), key, value, other);
    }
}

proof fn lemma_kv_set_hit(m: Seq<(String, FieldValue)>, key: String, value: FieldValue, i: int)
    requires
        0 <= i < m.len(),
        forall|j: int| 0 <= j < i ==> m[j].0@ != key@,
        m[i].0@ == key@,
    ensures
        kv_set(m, key, value) =~= m.update(i, (key, value)),
    decreases i,
{
    if i == 0 {
        assert(kv_set(m, key, value) =~= m.update(0, (key, value)));
    } else {
        lemma_kv_set_hit(m.drop_first(), key, value, i - 1);
        assert(kv_set(m, key, value) =~= m.update(i, (key, value)));
    }
}

proof fn lemma_kv_set_miss(m: Seq<(String, FieldValue)>, key: String, value: FieldValue)
    requires
        forall|j: int| 0 <= j < m.len() ==> m[j].0@ != key@,
    ensures
        kv_set(m, key, value) =~= m.push((key, value)),
    decreases m.len(),
{
    if m.len() == 0 {
        assert(kv_set(m, key, value) =~= m.push((key, value)));
    } else {
        lemma_kv_set_miss(m.drop_first(), key, value);
        assert(kv_set(m, key, value) =~= m.push((key, value)));
    }
}

/// Binds `key` to `value` in the field list, replacing an existing field
/// with the same key in place and appending otherwise.
pub fn kv_put(m: &mut Fields, key: String, value: FieldValue)
    ensures
        final(m)@ == kv_set(old(m)@, key, value),
{
    let n = m.len();
    let mut i: usize = 0;
    while i < n
        invariant
            0 <= i <= n,
            n == m@.len(),
            m@ == old(m)@,
            forall|j: int| 0 <= j < i ==> m@[j].0@ != key@,
        decreases n - i,
    {
        if m[i].0 == key {
            proof {
                lemma_kv_set_hit(m@, key, value, i as int);
            }
            m.set(i, (key, value));
            return ;
        }
        i = i + 1;
    }
    proof {
        lemma_kv_set_miss(m@, key, value);
    }
    m.push((key, value));
}

/// Looks up `key` in the field list.
pub fn kv_find<'a>(m: &'a Fields, key: &str) -> (r: Option<&'a FieldValue>)
    ensures
        match r {
            Some(v) => kv_get(m@, key@) == Some(*v),
            None => kv_get(m@, key@) is None,
        },
{
    let owned_key = key.to_owned();
    let n = m.len();
    proof {
        assert(m@.skip(0) =~= m@);
    }
    let mut i: usize = 0;
    while i < n
        invariant
            0 <= i <= n,
            n == m@.len(),
            owned_key@ == key@,
            forall|j: int| 0 <= j < i ==> m@[j].0@ != key@,
            kv_get(m@, key@) == kv_get(m@.skip(i as int), key@),
        decreases n - i,
    {
        assert(m@.skip(i as int)[0] == m@[i as int]);
        if m[i].0 == owned_key {
            return Some(&m[i].1);
        }
        assert(m@.skip(i as int).drop_first() =~= m@.skip(i as int + 1));
        i = i + 1;
    }
    assert(m@.skip(n as int) =~= Seq::<(String, FieldValue)>::empty());
    None
}

} // verus!
