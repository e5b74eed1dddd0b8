//! The library's own model of a JSON document.
//!
//! Plan documents and resource attributes are JSON. The logic only ever reads strings,
//! booleans and the nesting of arrays and objects, so a JSON value is held here as plain
//! values: numbers keep their textual form, and an object keeps its members in document
//! order. Where a key occurs more than once in an object, the last occurrence is the one
//! that counts.

use vstd::prelude::*;
use crate::text::str_eq;

verus! {

broadcast use vstd::std_specs::vec::group_vec_axioms;

/// A JSON value.
#[derive(Debug, PartialEq)]
pub enum JsonValue {
    Null,
    Bool(bool),
    /// A number, in its textual form.
    Number(String),
    Str(String),
    Array(Vec<JsonValue>),
    /// An object's members, in document order.
    Object(Vec<(String, JsonValue)>),
}

/// The value of `key` among an object's members: the last member with that key.
pub open spec fn member(entries: Seq<(String, JsonValue)>, key: Seq<char>) -> Option<JsonValue>
    decreases entries.len(),
{
    if entries.len() == 0 {
        None
    } else if entries.last().0@ == key {
        Some(entries.last().1)
    } else {
        member(entries.drop_last(), key)
    }
}

/// Inserting a member under another key, anywhere among an object's members, leaves the
/// value of `key` unchanged.
pub proof fn lemma_member_insert(
    entries: Seq<(String, JsonValue)>,
    pos: int,
    extra: (String, JsonValue),
    key: Seq<char>,
)
    requires
        0 <= pos <= entries.len(),
        extra.0@ != key,
    ensures
        member(entries.insert(pos, extra), key) == member(entries, key),
    decreases entries.len(),
{
    let bigger = entries.insert(pos, extra);
    if pos == entries.len() {
        assert(bigger.drop_last() =~= entries);
        assert(bigger.last() == extra);
    } else {
        assert(bigger.last() == entries.last());
        assert(bigger.drop_last() =~= entries.drop_last().insert(pos, extra));
        lemma_member_insert(entries.drop_last(), pos, extra, key);
    }
}

/// Replacing the value of the member at `j` changes the value of `key` only where that
/// member is the one read: the value read is either unchanged, or was that member's old
/// value and is now the new one.
pub proof fn lemma_member_update(entries: Seq<(String, JsonValue)>, j: int, v: JsonValue, key: Seq<char>)
    requires
        0 <= j < entries.len(),
    ensures
        ({
            let updated = entries.update(j, (entries[j].0, v));
            ||| member(updated, key) == member(entries, key)
            ||| member(entries, key) == Some(entries[j].1) && member(updated, key) == Some(v)
        }),
    decreases entries.len(),
{
    let updated = entries.update(j, (entries[j].0, v));
    if j == entries.len() - 1 {
        assert(updated.drop_last() =~= entries.drop_last());
        assert(updated.last() == (entries[j].0, v));
        assert(entries.last() == entries[j]);
    } else {
        assert(updated.last() == entries.last());
        assert(updated.drop_last() =~= entries.drop_last().update(j, (entries.drop_last()[j].0, v)));
        lemma_member_update(entries.drop_last(), j, v, key);
    }
}

/// True when `v` is `true`, or holds `true` somewhere inside its arrays and objects. Within
/// an object only the member that counts for each key, the last, is looked at.
///
/// Terraform marks a computed (unknown-until-apply) scalar as `true`, and a partially
/// computed object or array by mirroring its structure with `true` at the computed leaves.
pub open spec fn has_unknown_leaf(v: JsonValue) -> bool
    decreases v,
{
    match v {
        JsonValue::Bool(b) => b,
        JsonValue::Array(items) => items_have_unknown(items@),
        JsonValue::Object(entries) => members_have_unknown(entries@, Set::empty()),
        _ => false,
    }
}

/// Some element of `items` has an unknown leaf.
pub open spec fn items_have_unknown(items: Seq<JsonValue>) -> bool
    decreases items,
{
    if items.len() == 0 {
        false
    } else {
        has_unknown_leaf(items.last()) || items_have_unknown(items.drop_last())
    }
}

/// Some member of `entries` that counts has an unknown leaf. A member counts when no later
/// member has its key and its key is not in `shadowed`, the keys of the members that
/// follow `entries` in the object.
pub open spec fn members_have_unknown(entries: Seq<(String, JsonValue)>, shadowed: Set<Seq<char>>) -> bool
    decreases entries,
{
    if entries.len() == 0 {
        false
    } else {
        (!shadowed.contains(entries.last().0@) && has_unknown_leaf(entries.last().1))
            || members_have_unknown(entries.drop_last(), shadowed.insert(entries.last().0@))
    }
}

/// [`items_have_unknown`] holds exactly when some element has an unknown leaf.
pub proof fn lemma_items_have_unknown(items: Seq<JsonValue>)
    ensures
        items_have_unknown(items) <==> exists|j: int|
            0 <= j < items.len() && #[trigger] has_unknown_leaf(items[j]),
    decreases items.len(),
{
    if items.len() > 0 {
        lemma_items_have_unknown(items.drop_last());
        assert(items.last() == items[items.len() - 1]);
        if has_unknown_leaf(items.last()) {
            assert(has_unknown_leaf(items[items.len() - 1]));
        }
        if items_have_unknown(items.drop_last()) {
            let j = choose|j: int| 0 <= j < items.len() - 1 && #[trigger] has_unknown_leaf(items.drop_last()[j]);
            assert(has_unknown_leaf(items[j]));
        }
        if exists|j: int| 0 <= j < items.len() && #[trigger] has_unknown_leaf(items[j]) {
            let j = choose|j: int| 0 <= j < items.len() && #[trigger] has_unknown_leaf(items[j]);
            if j < items.len() - 1 {
                assert(has_unknown_leaf(items.drop_last()[j]));
            }
        }
    }
}

/// An object has an unknown leaf among its members exactly when, for some key outside
/// `shadowed`, the value that counts for that key (the last member with it) has one.
pub proof fn lemma_members_have_unknown(entries: Seq<(String, JsonValue)>, shadowed: Set<Seq<char>>)
    ensures
        members_have_unknown(entries, shadowed) <==> exists|key: Seq<char>|
            !shadowed.contains(key) && #[trigger] member(entries, key) is Some && has_unknown_leaf(
                member(entries, key)->0,
            ),
    decreases entries.len(),
{
    if entries.len() > 0 {
        let k0 = entries.last().0@;
        let rest = entries.drop_last();
        let s1 = shadowed.insert(k0);
        lemma_members_have_unknown(rest, s1);
        if members_have_unknown(entries, shadowed) {
            if !shadowed.contains(k0) && has_unknown_leaf(entries.last().1) {
                assert(member(entries, k0) is Some);
            } else {
                let key = choose|key: Seq<char>|
                    !s1.contains(key) && #[trigger] member(rest, key) is Some && has_unknown_leaf(
                        member(rest, key)->0,
                    );
                assert(member(entries, key) == member(rest, key));
            }
        }
        if exists|key: Seq<char>|
            !shadowed.contains(key) && #[trigger] member(entries, key) is Some && has_unknown_leaf(
                member(entries, key)->0,
            ) {
            let key = choose|key: Seq<char>|
                !shadowed.contains(key) && #[trigger] member(entries, key) is Some && has_unknown_leaf(
                    member(entries, key)->0,
                );
            if key != k0 {
                assert(member(entries, key) == member(rest, key));
                assert(!s1.contains(key));
            }
        }
    }
}

/// Whether `key` is among `seen`.
fn key_seen(seen: &Vec<&str>, key: &str) -> (r: bool)
    ensures
        r == exists|t: int| 0 <= t < seen@.len() && (#[trigger] seen@[t])@ == key@,
{
    let mut t: usize = 0;
    while t < seen.len()
        invariant
            t <= seen@.len(),
            forall|u: int| 0 <= u < t ==> (#[trigger] seen@[u])@ != key@,
        decreases seen@.len() - t,
    {
        if str_eq(seen[t], key) {
            return true;
        }
        t = t + 1;
    }
    false
}

/// Look up `key` among an object's members; the last member with that key wins.
pub fn find_member<'a>(entries: &'a Vec<(String, JsonValue)>, key: &str) -> (r: Option<&'a JsonValue>)
    ensures
        match r {
            Some(v) => member(entries@, key@) == Some(*v),
            None => member(entries@, key@) is None,
        },
{
    let mut i = entries.len();
    assert(entries@.take(i as int) =~= entries@);
    while i > 0
        invariant
            i <= entries@.len(),
            member(entries@, key@) == member(entries@.take(i as int), key@),
        decreases i,
    {
        let ghost prefix = entries@.take(i as int);
        assert(prefix.drop_last() =~= entries@.take(i - 1));
        if str_eq(entries[i - 1].0.as_str(), key) {
            return Some(&entries[i - 1].1);
        }
        i = i - 1;
    }
    None
}

/// How many of an object's members have `key`.
pub open spec fn key_count(entries: Seq<(String, JsonValue)>, key: Seq<char>) -> nat
    decreases entries.len(),
{
    if entries.len() == 0 {
        0
    } else {
        key_count(entries.drop_last(), key) + if entries.last().0@ == key {
            1nat
        } else {
            0nat
        }
    }
}

/// No key of `keys` occurs more than once among an object's members.
pub open spec fn keys_unrepeated(entries: Seq<(String, JsonValue)>, keys: Seq<Seq<char>>) -> bool {
    forall|i: int| 0 <= i < keys.len() ==> key_count(entries, #[trigger] keys[i]) <= 1
}

/// Inserting a member under another key leaves the count of `key` unchanged.
pub proof fn lemma_key_count_insert(
    entries: Seq<(String, JsonValue)>,
    pos: int,
    extra: (String, JsonValue),
    key: Seq<char>,
)
    requires
        0 <= pos <= entries.len(),
        extra.0@ != key,
    ensures
        key_count(entries.insert(pos, extra), key) == key_count(entries, key),
    decreases entries.len(),
{
    let bigger = entries.insert(pos, extra);
    if pos == entries.len() {
        assert(bigger.drop_last() =~= entries);
    } else {
        assert(bigger.last() == entries.last());
        assert(bigger.drop_last() =~= entries.drop_last().insert(pos, extra));
        lemma_key_count_insert(entries.drop_last(), pos, extra, key);
    }
}

/// Replacing the value of a member, keeping its key, leaves every key's count unchanged.
pub proof fn lemma_key_count_update(entries: Seq<(String, JsonValue)>, j: int, v: JsonValue, key: Seq<char>)
    requires
        0 <= j < entries.len(),
    ensures
        key_count(entries.update(j, (entries[j].0, v)), key) == key_count(entries, key),
    decreases entries.len(),
{
    let updated = entries.update(j, (entries[j].0, v));
    if j == entries.len() - 1 {
        assert(updated.drop_last() =~= entries.drop_last());
    } else {
        assert(updated.drop_last() =~= entries.drop_last().update(j, (entries.drop_last()[j].0, v)));
        lemma_key_count_update(entries.drop_last(), j, v, key);
    }
}

/// The number of members with `key`.
pub fn count_key(entries: &Vec<(String, JsonValue)>, key: &str) -> (r: usize)
    ensures
        r == key_count(entries@, key@),
{
    let mut count: usize = 0;
    let mut i: usize = 0;
    assert(entries@.take(0) =~= Seq::<(String, JsonValue)>::empty());
    while i < entries.len()
        invariant
            i <= entries@.len(),
            count <= i,
            count == key_count(entries@.take(i as int), key@),
        decreases entries@.len() - i,
    {
        assert(entries@.take(i + 1).drop_last() =~= entries@.take(i as int));
        if str_eq(entries[i].0.as_str(), key) {
            count = count + 1;
        }
        i = i + 1;
    }
    assert(entries@.take(i as int) =~= entries@);
    count
}

/// Whether some key of `keys` occurs more than once among an object's members.
pub fn has_repeated_key(entries: &Vec<(String, JsonValue)>, keys: &Vec<&str>) -> (r: bool)
    ensures
        r == !keys_unrepeated(entries@, keys@.map_values(|k: &str| k@)),
{
    let ghost names = keys@.map_values(|k: &str| k@);
    let mut i: usize = 0;
    while i < keys.len()
        invariant
            i <= keys@.len(),
            names == keys@.map_values(|k: &str| k@),
            forall|t: int| 0 <= t < i ==> key_count(entries@, #[trigger] names[t]) <= 1,
        decreases keys@.len() - i,
    {
        if count_key(entries, keys[i]) > 1 {
            assert(key_count(entries@, names[i as int]) > 1);
            return true;
        }
        i = i + 1;
    }
    false
}

/// The value a record gives its field at position `index`, named `key`: the member of an
/// object with that name, or the element of an array at that position.
pub open spec fn field(v: JsonValue, index: int, key: Seq<char>) -> Option<JsonValue> {
    match v {
        JsonValue::Object(entries) => member(entries@, key),
        JsonValue::Array(items) => if 0 <= index < items@.len() {
            Some(items@[index])
        } else {
            None
        },
        _ => None,
    }
}

/// `v` is a record of the fields `keys`, the first `min` of them required by position: an
/// object in which none of `keys` is repeated (other members are ignored), or an array of
/// `min` to `keys.len()` elements.
pub open spec fn record_shaped(v: JsonValue, keys: Seq<Seq<char>>, min: nat) -> bool {
    match v {
        JsonValue::Object(entries) => keys_unrepeated(entries@, keys),
        JsonValue::Array(items) => min <= items@.len() <= keys.len(),
        _ => false,
    }
}

/// Read `v` as a record of the (distinct) fields `keys`: the value of `keys[k]` lands at
/// index `k`; `None` when `v` is not such a record.
pub fn record_fields(v: JsonValue, keys: &Vec<&str>, min: usize) -> (r: Option<Vec<Option<JsonValue>>>)
    requires
        forall|i: int, j: int| 0 <= i < j < keys@.len() ==> keys@[i]@ != keys@[j]@,
    ensures
        (r is Some) == record_shaped(v, keys@.map_values(|k: &str| k@), min as nat),
        r matches Some(fields) ==> fields@.len() == keys@.len() && forall|k: int|
            0 <= k < keys@.len() ==> #[trigger] fields@[k] == field(v, k, keys@[k]@),
{
    match v {
        JsonValue::Object(entries) => {
            if has_repeated_key(&entries, keys) {
                None
            } else {
                Some(take_members(entries, keys))
            }
        },
        JsonValue::Array(items) => {
            if items.len() < min || items.len() > keys.len() {
                return None;
            }
            let ghost all = items@;
            let mut rest = items;
            let mut fields: Vec<Option<JsonValue>> = Vec::new();
            assert(all.skip(0) =~= all);
            while rest.len() > 0
                invariant
                    fields@.len() <= all.len(),
                    all.len() <= keys@.len(),
                    rest@ == all.skip(fields@.len() as int),
                    forall|j: int| 0 <= j < fields@.len() ==> #[trigger] fields@[j] == Some(all[j]),
                decreases rest@.len(),
            {
                let x = rest.remove(0);
                assert(x == all[fields@.len() as int]);
                fields.push(Some(x));
                assert(rest@ =~= all.skip(fields@.len() as int));
            }
            while fields.len() < keys.len()
                invariant
                    all.len() <= fields@.len() <= keys@.len(),
                    forall|j: int| 0 <= j < all.len() ==> #[trigger] fields@[j] == Some(all[j]),
                    forall|j: int| all.len() <= j < fields@.len() ==> #[trigger] fields@[j] is None,
                decreases keys@.len() - fields@.len(),
            {
                fields.push(None);
            }
            Some(fields)
        },
        _ => None,
    }
}

/// Move the values of the given (distinct) keys out of an object's members: the value of
/// `keys[k]` lands at index `k`, following the same last-occurrence rule as [`member`].
pub fn take_members(entries: Vec<(String, JsonValue)>, keys: &Vec<&str>) -> (r: Vec<Option<JsonValue>>)
    requires
        forall|i: int, j: int| 0 <= i < j < keys@.len() ==> keys@[i]@ != keys@[j]@,
    ensures
        r@.len() == keys@.len(),
        forall|k: int| 0 <= k < keys@.len() ==> #[trigger] r@[k] == member(entries@, keys@[k]@),
{
    let mut found: Vec<Option<JsonValue>> = Vec::new();
    let mut k: usize = 0;
    while k < keys.len()
        invariant
            k <= keys@.len(),
            found@.len() == k,
            forall|j: int| 0 <= j < k ==> #[trigger] found@[j] is None,
        decreases keys@.len() - k,
    {
        found.push(None);
        k = k + 1;
    }
    let ghost all = entries@;
    let mut rest = entries;
    while rest.len() > 0
        invariant
            forall|i: int, j: int| 0 <= i < j < keys@.len() ==> keys@[i]@ != keys@[j]@,
            rest@ == all.take(rest@.len() as int),
            rest@.len() <= all.len(),
            found@.len() == keys@.len(),
            forall|j: int| 0 <= j < keys@.len() && (#[trigger] found@[j]) is Some
                ==> found@[j] == member(all, keys@[j]@),
            forall|j: int| 0 <= j < keys@.len() && (#[trigger] found@[j]) is None
                ==> member(all, keys@[j]@) == member(rest@, keys@[j]@),
        decreases rest@.len(),
    {
        let ghost before = rest@;
        let (key, value) = rest.pop().unwrap();
        assert(rest@ =~= all.take(rest@.len() as int));
        assert(before.drop_last() =~= rest@);
        let mut j: usize = 0;
        let mut slot: Option<usize> = None;
        while j < keys.len()
            invariant
                j <= keys@.len(),
                slot is None ==> forall|i: int| 0 <= i < j ==> (#[trigger] keys@[i])@ != key@,
                slot matches Some(s) ==> s < keys@.len() && keys@[s as int]@ == key@,
            decreases keys@.len() - j,
        {
            if slot.is_none() && str_eq(keys[j], key.as_str()) {
                slot = Some(j);
            }
            j = j + 1;
        }
        match slot {
            Some(s) => {
                if found[s].is_none() {
                    found.set(s, Some(value));
                }
            },
            None => {},
        }
    }
    found
}

/// Recursively detect an unknown leaf: see [`has_unknown_leaf`].
pub fn contains_unknown(value: &JsonValue) -> (r: bool)
    ensures
        r == has_unknown_leaf(*value),
    decreases value,
{
    match value {
        JsonValue::Bool(b) => *b,
        JsonValue::Array(items) => {
            let mut i: usize = 0;
            while i < items.len()
                invariant
                    i <= items@.len(),
                    *value == JsonValue::Array(*items),
                    forall|j: int| 0 <= j < i ==> !has_unknown_leaf(#[trigger] items@[j]),
                decreases items@.len() - i,
            {
                proof {
                    assert(decreases_to!(*value => (*value)->Array_0));
                    assert(decreases_to!(*items => items[i as int]));
                }
                if contains_unknown(&items[i]) {
                    proof {
                        lemma_items_have_unknown(items@);
                    }
                    return true;
                }
                i = i + 1;
            }
            proof {
                lemma_items_have_unknown(items@);
            }
            false
        },
        JsonValue::Object(entries) => {
            // Walk the members from the last, looking only at the first occurrence of each
            // key met: the member that counts.
            let mut seen: Vec<&str> = Vec::new();
            let ghost mut shadowed: Set<Seq<char>> = Set::empty();
            let mut i: usize = entries.len();
            proof {
                assert(entries@.take(i as int) =~= entries@);
            }
            while i > 0
                invariant
                    i <= entries@.len(),
                    *value == JsonValue::Object(*entries),
                    members_have_unknown(entries@, Set::empty()) == members_have_unknown(
                        entries@.take(i as int),
                        shadowed,
                    ),
                    forall|x: Seq<char>|
                        shadowed.contains(x) <==> exists|t: int|
                            0 <= t < seen@.len() && (#[trigger] seen@[t])@ == x,
                decreases i,
            {
                let ghost prefix = entries@.take(i as int);
                i = i - 1;
                proof {
                    assert(prefix.drop_last() =~= entries@.take(i as int));
                    assert(prefix.last() == entries@[i as int]);
                }
                let key: &str = entries[i].0.as_str();
                let counts = !key_seen(&seen, key);
                if counts {
                    proof {
                        assert(decreases_to!(*value => (*value)->Object_0));
                        assert(decreases_to!(*entries => entries[i as int]));
                        assert(decreases_to!(entries[i as int] => entries[i as int].1));
                    }
                    if contains_unknown(&entries[i].1) {
                        return true;
                    }
                }
                proof {
                    if !counts {
                        assert(shadowed.insert(key@) =~= shadowed);
                    }
                }
                let ghost old_seen = seen@;
                let ghost old_shadowed = shadowed;
                seen.push(key);
                proof {
                    shadowed = shadowed.insert(key@);
                    assert forall|x: Seq<char>|
                        shadowed.contains(x) <==> exists|t: int|
                            0 <= t < seen@.len() && (#[trigger] seen@[t])@ == x by {
                        if x == key@ {
                            assert(seen@[seen@.len() - 1]@ == x);
                        } else {
                            if old_shadowed.contains(x) {
                                let t = choose|t: int|
                                    0 <= t < old_seen.len() && (#[trigger] old_seen[t])@ == x;
                                assert(seen@[t] == old_seen[t]);
                            }
                            if exists|t: int| 0 <= t < seen@.len() && (#[trigger] seen@[t])@ == x {
                                let t = choose|t: int|
                                    0 <= t < seen@.len() && (#[trigger] seen@[t])@ == x;
                                assert(t < old_seen.len());
                                assert(old_seen[t] == seen@[t]);
                            }
                        }
                    }
                }
            }
            false
        },
        _ => false,
    }
}

/// A copy of `value`: the same kind of value holding copies of the same contents.
fn copy_value(value: &JsonValue) -> (r: JsonValue)
    ensures
        match (*value, r) {
            (JsonValue::Null, JsonValue::Null) => true,
            (JsonValue::Bool(a), JsonValue::Bool(b)) => a == b,
            (JsonValue::Number(a), JsonValue::Number(b)) => a == b,
            (JsonValue::Str(a), JsonValue::Str(b)) => a == b,
            (JsonValue::Array(a), JsonValue::Array(b)) => a@.len() == b@.len(),
            (JsonValue::Object(a), JsonValue::Object(b)) => a@.len() == b@.len()
                && forall|i: int| 0 <= i < a@.len() ==> (#[trigger] a@[i]).0 == b@[i].0,
            _ => false,
        },
    decreases value,
{
    match value {
        JsonValue::Null => JsonValue::Null,
        JsonValue::Bool(b) => JsonValue::Bool(*b),
        JsonValue::Number(n) => JsonValue::Number(n.clone()),
        JsonValue::Str(s) => JsonValue::Str(s.clone()),
        JsonValue::Array(items) => {
            let mut out: Vec<JsonValue> = Vec::new();
            let mut i: usize = 0;
            while i < items.len()
                invariant
                    i <= items@.len(),
                    out@.len() == i,
                    *value == JsonValue::Array(*items),
                decreases items@.len() - i,
            {
                proof {
                    assert(decreases_to!(*value => (*value)->Array_0));
                    assert(decreases_to!(*items => items[i as int]));
                }
                out.push(copy_value(&items[i]));
                i = i + 1;
            }
            JsonValue::Array(out)
        },
        JsonValue::Object(entries) => {
            let mut out: Vec<(String, JsonValue)> = Vec::new();
            let mut i: usize = 0;
            while i < entries.len()
                invariant
                    i <= entries@.len(),
                    out@.len() == i,
                    forall|j: int| 0 <= j < i ==> (#[trigger] entries@[j]).0 == out@[j].0,
                    *value == JsonValue::Object(*entries),
                decreases entries@.len() - i,
            {
                proof {
                    assert(decreases_to!(*value => (*value)->Object_0));
                    assert(decreases_to!(*entries => entries[i as int]));
                    assert(decreases_to!(entries[i as int] => entries[i as int].1));
                }
                out.push((entries[i].0.clone(), copy_value(&entries[i].1)));
                i = i + 1;
            }
            JsonValue::Object(out)
        },
    }
}

impl Clone for JsonValue {
    fn clone(&self) -> Self {
        copy_value(self)
    }
}

impl JsonValue {
    /// The string content of a string value.
    pub fn as_str(&self) -> (r: Option<&str>)
        ensures
            match *self {
                JsonValue::Str(s) => r matches Some(t) && t@ == s@,
                _ => r is None,
            },
    {
        match self {
            JsonValue::Str(s) => Some(s.as_str()),
            _ => None,
        }
    }
}

} // verus!
