//! The size estimate itself: its defining spec functions and the verified
//! executable walk.

use crate::value::JsonStr;
use crate::value::JsonValue;
use vstd::prelude::*;

verus! {

// The three cost constants below scale with the width of a pointer-sized
// word, so they are all derived from `WORD_BYTES` rather than written out.
// The word width itself is a fixed literal: what is proved here is the
// estimate for the usual 64-bit layout, where a `usize` takes eight bytes.

/// Bytes of one pointer-sized word on the supported targets.
pub const WORD_BYTES: usize = 8;

/// The fixed cost of one value node: the tagged union holding a JSON value,
/// laid out as a discriminant word plus the largest payload, which is the
/// three words of a growable buffer (string, vector or map handle).
pub const ENVELOPE: usize = 4 * WORD_BYTES;

/// The fixed bookkeeping cost of one string beyond its character buffer:
/// pointer, length and capacity, one word each.
pub const STRING_OVERHEAD: usize = 3 * WORD_BYTES;

/// The fixed bookkeeping cost of one object entry in the map's internal
/// table, taken as three pointer-sized words.
pub const MAP_ENTRY_OVERHEAD: usize = 3 * WORD_BYTES;

/// The estimated footprint of one JSON value, in bytes: every node costs one
/// envelope; a string additionally costs its overhead plus its capacity; a
/// container additionally costs its contents.
pub open spec fn estimate(v: JsonValue) -> nat
    decreases v,
{
    match v {
        JsonValue::Null => ENVELOPE as nat,
        JsonValue::Bool(_) => ENVELOPE as nat,
        JsonValue::Number(_) => ENVELOPE as nat,
        JsonValue::Str(s) => (ENVELOPE + STRING_OVERHEAD + s.capacity) as nat,
        JsonValue::Array(elems) => (ENVELOPE + estimate_elems(elems@)) as nat,
        JsonValue::Object(members) => (ENVELOPE + estimate_members(members@)) as nat,
    }
}

/// The sum of the estimates of an array's elements.
pub open spec fn estimate_elems(elems: Seq<JsonValue>) -> nat
    decreases elems,
{
    if elems.len() == 0 {
        0
    } else {
        estimate(elems[0]) + estimate_elems(elems.drop_first())
    }
}

/// What one object entry adds to the estimate: the key's overhead and
/// capacity, the value's estimate, and the table entry's overhead.
pub open spec fn member_cost(m: (JsonStr, JsonValue)) -> nat
    decreases m,
{
    (STRING_OVERHEAD + m.0.capacity + estimate(m.1) + MAP_ENTRY_OVERHEAD) as nat
}

/// The sum of the costs of an object's entries.
pub open spec fn estimate_members(members: Seq<(JsonStr, JsonValue)>) -> nat
    decreases members,
{
    if members.len() == 0 {
        0
    } else {
        member_cost(members[0]) + estimate_members(members.drop_first())
    }
}

/// The element sum distributes over concatenation.
pub proof fn lemma_estimate_elems_concat(s1: Seq<JsonValue>, s2: Seq<JsonValue>)
    ensures
        estimate_elems(s1 + s2) == estimate_elems(s1) + estimate_elems(s2),
    decreases s1.len(),
{
    if s1.len() == 0 {
        assert(s1 + s2 =~= s2);
    } else {
        assert((s1 + s2).drop_first() =~= s1.drop_first() + s2);
        assert((s1 + s2)[0] == s1[0]);
        lemma_estimate_elems_concat(s1.drop_first(), s2);
    }
}

/// The entry sum distributes over concatenation.
pub proof fn lemma_estimate_members_concat(s1: Seq<(JsonStr, JsonValue)>, s2: Seq<(JsonStr, JsonValue)>)
    ensures
        estimate_members(s1 + s2) == estimate_members(s1) + estimate_members(s2),
    decreases s1.len(),
{
    if s1.len() == 0 {
        assert(s1 + s2 =~= s2);
    } else {
        assert((s1 + s2).drop_first() =~= s1.drop_first() + s2);
        assert((s1 + s2)[0] == s1[0]);
        lemma_estimate_members_concat(s1.drop_first(), s2);
    }
}

/// A one-element sequence sums to that element's estimate.
proof fn lemma_estimate_elems_singleton(e: JsonValue)
    ensures
        estimate_elems(seq![e]) == estimate(e),
{
    reveal_with_fuel(estimate_elems, 2);
    assert(seq![e].drop_first() =~= Seq::<JsonValue>::empty());
}

/// A one-entry sequence sums to that entry's cost.
proof fn lemma_estimate_members_singleton(m: (JsonStr, JsonValue))
    ensures
        estimate_members(seq![m]) == member_cost(m),
{
    reveal_with_fuel(estimate_members, 2);
    assert(seq![m].drop_first() =~= Seq::<(JsonStr, JsonValue)>::empty());
}

/// Taking one more element adds exactly that element's estimate.
proof fn lemma_estimate_elems_take_step(s: Seq<JsonValue>, i: int)
    requires
        0 <= i < s.len(),
    ensures
        estimate_elems(s.take(i + 1)) == estimate_elems(s.take(i)) + estimate(s[i]),
{
    assert(s.take(i + 1) =~= s.take(i) + seq![s[i]]);
    lemma_estimate_elems_concat(s.take(i), seq![s[i]]);
    lemma_estimate_elems_singleton(s[i]);
}

/// Taking one more entry adds exactly that entry's cost.
proof fn lemma_estimate_members_take_step(s: Seq<(JsonStr, JsonValue)>, i: int)
    requires
        0 <= i < s.len(),
    ensures
        estimate_members(s.take(i + 1)) == estimate_members(s.take(i)) + member_cost(s[i]),
{
    assert(s.take(i + 1) =~= s.take(i) + seq![s[i]]);
    lemma_estimate_members_concat(s.take(i), seq![s[i]]);
    lemma_estimate_members_singleton(s[i]);
}

/// The estimate of `v`, or `None` where the true figure does not fit in
/// `usize`. Total: every tree gets an answer.
pub fn try_sizeof_val(v: &JsonValue) -> (r: Option<usize>)
    ensures
        match r {
            Some(n) => n == estimate(*v),
            None => estimate(*v) > usize::MAX,
        },
    decreases *v,
{
    match v {
        JsonValue::Null => Some(ENVELOPE),
        JsonValue::Bool(_) => Some(ENVELOPE),
        JsonValue::Number(_) => Some(ENVELOPE),
        JsonValue::Str(s) => (ENVELOPE + STRING_OVERHEAD).checked_add(s.capacity),
        JsonValue::Array(elems) => {
            let mut total: Option<usize> = Some(ENVELOPE);
            let mut i: usize = 0;
            while i < elems.len()
                invariant
                    i <= elems.len(),
                    *v == JsonValue::Array(*elems),
                    match total {
                        Some(t) => t == ENVELOPE + estimate_elems(elems@.take(i as int)),
                        None => ENVELOPE + estimate_elems(elems@.take(i as int)) > usize::MAX,
                    },
                decreases elems.len() - i,
            {
                proof {
                    assert(decreases_to!(*v => (*v)->Array_0));
                    assert(decreases_to!(*elems => elems@[i as int]));
                    lemma_estimate_elems_take_step(elems@, i as int);
                }
                let e = try_sizeof_val(&elems[i]);
                total = match (total, e) {
                    (Some(t), Some(n)) => t.checked_add(n),
                    _ => None,
                };
                i = i + 1;
            }
            proof {
                assert(elems@.take(elems@.len() as int) =~= elems@);
            }
            total
        },
        JsonValue::Object(members) => {
            let mut total: Option<usize> = Some(ENVELOPE);
            let mut i: usize = 0;
            while i < members.len()
                invariant
                    i <= members.len(),
                    *v == JsonValue::Object(*members),
                    match total {
                        Some(t) => t == ENVELOPE + estimate_members(members@.take(i as int)),
                        None => ENVELOPE + estimate_members(members@.take(i as int)) > usize::MAX,
                    },
                decreases members.len() - i,
            {
                let m = &members[i];
                proof {
                    assert(decreases_to!(*v => (*v)->Object_0));
                    assert(decreases_to!(*members => members@[i as int]));
                    assert(decreases_to!(members@[i as int] => members@[i as int].1));
                    lemma_estimate_members_take_step(members@, i as int);
                }
                let e = try_sizeof_val(&m.1);
                total = match (total, e) {
                    (Some(t), Some(n)) => {
                        let a = t.checked_add(STRING_OVERHEAD);
                        let b = match a {
                            Some(x) => x.checked_add(m.0.capacity),
                            None => None,
                        };
                        let c = match b {
                            Some(x) => x.checked_add(n),
                            None => None,
                        };
                        match c {
                            Some(x) => x.checked_add(MAP_ENTRY_OVERHEAD),
                            None => None,
                        }
                    },
                    _ => None,
                };
                i = i + 1;
            }
            proof {
                assert(members@.take(members@.len() as int) =~= members@);
            }
            total
        },
    }
}

/// A null, boolean or number value costs exactly the envelope, nothing more.
pub proof fn lemma_leaf_estimate(v: JsonValue)
    requires
        v is Null || v is Bool || v is Number,
    ensures
        estimate(v) == ENVELOPE,
{
}

/// A string value costs the envelope, the per-string overhead and its
/// allocated capacity; a well-formed string's capacity covers its length.
pub proof fn lemma_str_estimate(s: JsonStr)
    requires
        s.wf(),
    ensures
        estimate(JsonValue::Str(s)) == ENVELOPE + STRING_OVERHEAD + s.capacity,
        s.capacity >= s.len,
{
}

/// An array costs the envelope plus the sum of its elements' estimates; in
/// particular an empty array costs the envelope alone.
pub proof fn lemma_array_estimate(v: JsonValue)
    requires
        v is Array,
    ensures
        estimate(v) == ENVELOPE + estimate_elems(v->Array_0@),
        v->Array_0@.len() == 0 ==> estimate(v) == ENVELOPE,
{
}

/// An object costs the envelope plus, for every entry, the string overhead,
/// the key's capacity, the value's estimate and the map entry overhead; in
/// particular an empty object costs the envelope alone.
pub proof fn lemma_object_estimate(v: JsonValue)
    requires
        v is Object,
    ensures
        estimate(v) == ENVELOPE + estimate_members(v->Object_0@),
        forall|m: (JsonStr, JsonValue)|
            member_cost(m) == STRING_OVERHEAD + m.0.capacity + estimate(m.1)
                + MAP_ENTRY_OVERHEAD,
        v->Object_0@.len() == 0 ==> estimate(v) == ENVELOPE,
{
}

/// Appending an element to an array never decreases the estimate.
pub proof fn lemma_array_push_monotone(a1: JsonValue, a2: JsonValue, e: JsonValue)
    requires
        a1 is Array,
        a2 is Array,
        a2->Array_0@ == a1->Array_0@.push(e),
    ensures
        estimate(a1) <= estimate(a2),
{
    assert(a1->Array_0@.push(e) =~= a1->Array_0@ + seq![e]);
    lemma_estimate_elems_concat(a1->Array_0@, seq![e]);
}

/// Appending an entry to an object never decreases the estimate.
pub proof fn lemma_object_push_monotone(o1: JsonValue, o2: JsonValue, m: (JsonStr, JsonValue))
    requires
        o1 is Object,
        o2 is Object,
        o2->Object_0@ == o1->Object_0@.push(m),
    ensures
        estimate(o1) <= estimate(o2),
{
    assert(o1->Object_0@.push(m) =~= o1->Object_0@ + seq![m]);
    lemma_estimate_members_concat(o1->Object_0@, seq![m]);
}

/// Enlarging a string's capacity never decreases the estimate.
pub proof fn lemma_str_capacity_monotone(s1: JsonStr, s2: JsonStr)
    requires
        s1.capacity <= s2.capacity,
    ensures
        estimate(JsonValue::Str(s1)) <= estimate(JsonValue::Str(s2)),
{
}

/// Every value's estimate is at least the envelope of its root node.
pub proof fn lemma_estimate_at_least_envelope(v: JsonValue)
    ensures
        estimate(v) >= ENVELOPE,
{
}

/// Nesting composes additively: an object holding one entry whose value is
/// itself an object with one numeric entry costs exactly the written-out sum
/// of its parts.
pub proof fn lemma_nested_objects_estimate(
    outer: JsonValue,
    inner: JsonValue,
    ka: JsonStr,
    kb: JsonStr,
    n: JsonValue,
)
    requires
        n is Number,
        inner is Object,
        inner->Object_0@ == seq![(kb, n)],
        outer is Object,
        outer->Object_0@ == seq![(ka, inner)],
    ensures
        estimate(outer) == ENVELOPE + ka.capacity + STRING_OVERHEAD + (ENVELOPE + kb.capacity
            + STRING_OVERHEAD + ENVELOPE + MAP_ENTRY_OVERHEAD) + MAP_ENTRY_OVERHEAD,
{
    lemma_estimate_members_singleton((ka, inner));
    lemma_estimate_members_singleton((kb, n));
}

/// The estimated in-memory footprint of `v` in bytes: exactly [`estimate`].
/// The caller owes that the figure fits the machine word; [`try_sizeof_val`]
/// is the variant that reports overflow instead of assuming it away.
pub fn sizeof_val(v: &JsonValue) -> (r: usize)
    requires
        estimate(*v) <= usize::MAX,
    ensures
        r == estimate(*v),
{
    try_sizeof_val(v).unwrap()
}

} // verus!
