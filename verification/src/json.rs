//! JSON values and the overlay merge used for configuration. The values are
//! those of `serde_json`; what they hold is read and written through a few
//! calls, and the merge is stated over what they hold.

use serde_json::Value;
use vstd::prelude::*;

verus! {

/// The mathematical value of a JSON document. The members of an object keep
/// the order in which they were inserted.
pub enum Json {
    Null,
    Bool(bool),
    Number(Seq<char>),
    Text(Seq<char>),
    Array(Seq<Json>),
    Object(Seq<(Seq<char>, Json)>),
}

#[verifier::external_type_specification]
#[verifier::external_body]
pub struct ExValue(Value);

/// What a `serde_json::Value` holds: a number as the text that it is shown
/// with, the members of an object in the order of the map, which keeps the
/// order in which they were inserted.
pub uninterp spec fn json_value(value: Value) -> Json;

/// What the members hold, name by name.
pub open spec fn members_view(members: Seq<(String, Value)>) -> Seq<(Seq<char>, Json)> {
    Seq::new(members.len(), |i: int| (members[i].0@, json_value(members[i].1)))
}

/// What the items hold.
pub open spec fn items_view(items: Seq<Value>) -> Seq<Json> {
    Seq::new(items.len(), |i: int| json_value(items[i]))
}

/// The index of the first member named `key`, or the number of members if
/// there is none.
pub open spec fn position_of(members: Seq<(Seq<char>, Json)>, key: Seq<char>) -> int
    decreases members.len(),
{
    if members.len() == 0 {
        0
    } else if members[0].0 == key {
        0
    } else {
        1 + position_of(members.drop_first(), key)
    }
}

/// The members of `base` after the first `n` members of `overlay` have been
/// merged in, one after the other: a member whose name `base` already has is
/// merged into the value found there and keeps its place, a new one is added
/// at the end.
pub open spec fn merge_members(
    base: Seq<(Seq<char>, Json)>,
    overlay: Seq<(Seq<char>, Json)>,
    n: nat,
) -> Seq<(Seq<char>, Json)>
    decreases overlay, n,
{
    if n == 0 || n > overlay.len() {
        base
    } else {
        let acc = merge_members(base, overlay, (n - 1) as nat);
        let key = overlay[n - 1].0;
        let value = overlay[n - 1].1;
        let i = position_of(acc, key);
        if i < acc.len() {
            acc.update(i, (key, merged(acc[i].1, value)))
        } else {
            acc.push((key, value))
        }
    }
}

/// `overlay` merged into `base`: two objects are merged member by member, in
/// every other case the overlay replaces the base.
pub open spec fn merged(base: Json, overlay: Json) -> Json
    decreases overlay, 0nat,
{
    match (base, overlay) {
        (Json::Object(b), Json::Object(o)) => Json::Object(merge_members(b, o, o.len())),
        _ => overlay,
    }
}

/// Whether no two of `members` have the same name.
pub open spec fn distinct_names(members: Seq<(Seq<char>, Json)>) -> bool {
    forall|i: int, j: int|
        0 <= i < j < members.len() ==> (#[trigger] members[i]).0 != (#[trigger] members[j]).0
}

/// Makes `Value::Null`.
#[verifier::external_body]
pub(crate) fn null_value() -> (out: Value)
    ensures
        json_value(out) == Json::Null,
{
    Value::Null
}

/// Makes `Value::Bool`.
#[verifier::external_body]
pub(crate) fn flag_value(flag: bool) -> (out: Value)
    ensures
        json_value(out) == Json::Bool(flag),
{
    Value::Bool(flag)
}

/// Makes `Value::String`.
#[verifier::external_body]
pub(crate) fn text_value(text: &str) -> (out: Value)
    ensures
        json_value(out) == Json::Text(text@),
{
    Value::String(text.to_string())
}

/// Makes `Value::Array` of the items, in order.
#[verifier::external_body]
pub(crate) fn array_value(items: Vec<Value>) -> (out: Value)
    ensures
        json_value(out) == Json::Array(items_view(items@)),
{
    Value::Array(items)
}

/// Collects the members into a `serde_json::Map`, which inserts them one
/// after the other and keeps that order, and makes `Value::Object` of it.
/// A name that came twice would be kept once: the names are to be distinct.
#[verifier::external_body]
pub(crate) fn object_value(members: Vec<(String, Value)>) -> (out: Value)
    requires
        distinct_names(members_view(members@)),
    ensures
        json_value(out) == Json::Object(members_view(members@)),
{
    Value::Object(members.into_iter().collect())
}

/// Reads the members of an object with `Value::as_object` and hands out a
/// copy of each, in the order of the map; `None` for a value that is no
/// object. A map holds each name once.
#[verifier::external_body]
pub(crate) fn members_of(value: &Value) -> (out: Option<Vec<(String, Value)>>)
    ensures
        match out {
            Some(members) => json_value(*value) == Json::Object(members_view(members@))
                && distinct_names(members_view(members@)),
            None => !(json_value(*value) is Object),
        },
{
    value.as_object().map(|map| map.iter().map(|(name, held)| (name.clone(), held.clone())).collect())
}

/// `Value::clone` copies the whole value.
pub assume_specification[ <Value as Clone>::clone ](value: &Value) -> (out: Value)
    ensures
        json_value(out) == json_value(*value),
;

/// Calls `Value::as_bool`, which gives the flag that a boolean holds.
#[verifier::external_body]
pub(crate) fn as_flag(value: &Value) -> (out: Option<bool>)
    ensures
        match out {
            Some(flag) => json_value(*value) == Json::Bool(flag),
            None => !(json_value(*value) is Bool),
        },
{
    value.as_bool()
}

/// Calls `Value::as_str`, which gives the text that a string holds.
#[verifier::external_body]
pub(crate) fn as_text(value: &Value) -> (out: Option<String>)
    ensures
        match out {
            Some(text) => json_value(*value) == Json::Text(text@),
            None => !(json_value(*value) is Text),
        },
{
    value.as_str().map(|text| text.to_string())
}

/// `position_of` gives the first member with the name, if there is one.
pub proof fn lemma_position_of(members: Seq<(Seq<char>, Json)>, key: Seq<char>)
    ensures
        0 <= position_of(members, key) <= members.len(),
        forall|j: int| 0 <= j < position_of(members, key) ==> (#[trigger] members[j]).0 != key,
        position_of(members, key) < members.len() ==> members[position_of(members, key)].0
            == key,
    decreases members.len(),
{
    if members.len() > 0 && members[0].0 != key {
        let rest = members.drop_first();
        lemma_position_of(rest, key);
        assert forall|j: int| 0 <= j < position_of(members, key) implies (#[trigger] members[j]).0
            != key by {
            if j > 0 {
                assert(members[j] == rest[j - 1]);
            }
        }
    }
}

/// An index with no earlier member of that name, which holds the name itself
/// or is the number of members, is the one `position_of` gives.
pub proof fn lemma_position_is(members: Seq<(Seq<char>, Json)>, key: Seq<char>, i: int)
    requires
        0 <= i <= members.len(),
        forall|j: int| 0 <= j < i ==> (#[trigger] members[j]).0 != key,
        i < members.len() ==> members[i].0 == key,
    ensures
        position_of(members, key) == i,
{
    lemma_position_of(members, key);
    let p = position_of(members, key);
    if p < i {
        assert(members[p].0 != key);
    } else if i < p {
        assert(members[i].0 != key);
    }
}

/// The index of the first member of `members` named `key`, or their number.
fn find_member(members: &Vec<(String, Value)>, key: &str) -> (i: usize)
    ensures
        i as int == position_of(members_view(members@), key@),
{
    let name = String::from_str(key);
    let mut i: usize = 0;
    while i < members.len()
        invariant
            i <= members.len(),
            name@ == key@,
            forall|j: int| 0 <= j < i ==> (#[trigger] members_view(members@)[j]).0 != key@,
        decreases members.len() - i,
    {
        if members[i].0 == name {
            proof {
                lemma_position_is(members_view(members@), key@, i as int);
            }
            return i;
        }
        i += 1;
    }
    proof {
        lemma_position_is(members_view(members@), key@, i as int);
    }
    i
}

/// What `members` hold under `key`, `null` where they hold nothing.
pub open spec fn held_or_null(members: Seq<(Seq<char>, Json)>, key: Seq<char>) -> Json {
    let i = position_of(members, key);
    if i < members.len() {
        members[i].1
    } else {
        Json::Null
    }
}

/// `members` with `value` under `key`: in the place of the member of that
/// name, or at the end where there is none.
pub open spec fn with_member(members: Seq<(Seq<char>, Json)>, key: Seq<char>, value: Json) -> Seq<
    (Seq<char>, Json),
> {
    let i = position_of(members, key);
    if i < members.len() {
        members.update(i, (key, value))
    } else {
        members.push((key, value))
    }
}

/// Says whether the value is `Value::Object`.
#[verifier::external_body]
pub(crate) fn is_object(value: &Value) -> (out: bool)
    ensures
        out == (json_value(*value) is Object),
{
    value.is_object()
}

/// Calls `Map::entry` on the map of an object and `or_insert` with `null`
/// on what it gives: the value that the map holds under the name, after
/// `null` was inserted at the end where it held none. What the caller
/// leaves in that place is what the object holds there afterwards; the
/// other members stay as they are.
#[verifier::external_body]
fn member_slot<'a>(base: &'a mut Value, name: &str) -> (slot: &'a mut Value)
    requires
        json_value(*old(base)) is Object,
    ensures
        json_value(*slot) == held_or_null(json_value(*old(base))->Object_0, name@),
        json_value(*final(base)) == Json::Object(
            with_member(json_value(*old(base))->Object_0, name@, json_value(*final(slot))),
        ),
{
    base.as_object_mut().unwrap().entry(name).or_insert(Value::Null)
}

/// Merges `overlay` into `base` as `Object.assign` would, going into objects
/// that both sides hold under one name.
pub fn json_merge(base: &mut Value, overlay: &Value)
    ensures
        json_value(*final(base)) == merged(json_value(*old(base)), json_value(*overlay)),
        well_formed(json_value(*old(base))) && well_formed(json_value(*overlay)) ==> well_formed(
            json_value(*final(base)),
        ),
    decreases json_value(*overlay),
{
    proof {
        if well_formed(json_value(*base)) && well_formed(json_value(*overlay)) {
            lemma_merged_is_well_formed(json_value(*base), json_value(*overlay));
        }
    }
    if !is_object(base) {
        *base = overlay.clone();
        return ;
    }
    match members_of(overlay) {
        Some(extra) => {
            let ghost start = json_value(*base)->Object_0;
            let ghost over = members_view(extra@);
            let mut n: usize = 0;
            while n < extra.len()
                invariant
                    n <= extra.len(),
                    json_value(*overlay) == Json::Object(over),
                    over == members_view(extra@),
                    json_value(*base) == Json::Object(merge_members(start, over, n as nat)),
                decreases extra.len() - n,
            {
                proof {
                    assert(over[n as int].1 == json_value(extra@[n as int].1));
                    assert(json_value(*overlay)->Object_0 == over);
                    assert(decreases_to!(json_value(*overlay) => json_value(
                        *overlay,
                    )->Object_0));
                    assert(decreases_to!(over => over[n as int]));
                    assert(decreases_to!(over[n as int] => over[n as int].1));
                }
                let slot = member_slot(base, extra[n].0.as_str());
                json_merge(slot, &extra[n].1);
                n += 1;
            }
        },
        None => {
            *base = overlay.clone();
        },
    }
}

/// The value of the first member named `key`, if `value` is an object that
/// has one.
pub open spec fn member_of(value: Json, key: Seq<char>) -> Option<Json> {
    match value {
        Json::Object(members) => {
            let i = position_of(members, key);
            if i < members.len() {
                Some(members[i].1)
            } else {
                None
            }
        },
        _ => None,
    }
}

/// A copy of the value of the member named `key`, if `value` is an object
/// that has one.
pub fn get_member(value: &Value, key: &str) -> (out: Option<Value>)
    ensures
        match out {
            Some(found) => member_of(json_value(*value), key@) == Some(json_value(found)),
            None => member_of(json_value(*value), key@) is None,
        },
{
    match members_of(value) {
        Some(mut members) => {
            let i = find_member(&members, key);
            if i < members.len() {
                let (_, found) = members.remove(i);
                Some(found)
            } else {
                None
            }
        },
        None => None,
    }
}

/// Whether every object in `value` names each of its members once.
pub open spec fn well_formed(value: Json) -> bool
    decreases value,
{
    match value {
        Json::Object(members) => distinct_names(members) && forall|i: int|
            0 <= i < members.len() ==> well_formed((#[trigger] members[i]).1),
        Json::Array(items) => forall|i: int| 0 <= i < items.len() ==> well_formed(#[trigger] items[i]),
        _ => true,
    }
}

proof fn lemma_position_same_names(
    a: Seq<(Seq<char>, Json)>,
    b: Seq<(Seq<char>, Json)>,
    key: Seq<char>,
)
    requires
        a.len() == b.len(),
        forall|i: int| 0 <= i < a.len() ==> (#[trigger] a[i]).0 == b[i].0,
    ensures
        position_of(a, key) == position_of(b, key),
{
    lemma_position_of(a, key);
    let p = position_of(a, key);
    assert forall|j: int| 0 <= j < p implies (#[trigger] b[j]).0 != key by {
        assert(a[j].0 != key);
    }
    if p < a.len() {
        assert(a[p].0 == b[p].0);
    }
    lemma_position_is(b, key, p);
}

proof fn lemma_position_of_push(
    members: Seq<(Seq<char>, Json)>,
    entry: (Seq<char>, Json),
    key: Seq<char>,
)
    ensures
        position_of(members.push(entry), key) == if position_of(members, key) < members.len() {
            position_of(members, key)
        } else if entry.0 == key {
            members.len() as int
        } else {
            (members.len() + 1) as int
        },
{
    lemma_position_of(members, key);
    let p = position_of(members, key);
    let longer = members.push(entry);
    assert forall|j: int| 0 <= j < p implies (#[trigger] longer[j]).0 != key by {
        assert(members[j].0 != key);
    }
    if p < members.len() {
        assert(longer[p] == members[p]);
        lemma_position_is(longer, key, p);
    } else if entry.0 == key {
        lemma_position_is(longer, key, p);
    } else {
        assert forall|j: int| 0 <= j < p + 1 implies (#[trigger] longer[j]).0 != key by {
            if j < p {
                assert(members[j].0 != key);
            }
        }
        lemma_position_is(longer, key, p + 1);
    }
}

/// Merging members into an object takes none of its names away and names
/// none twice.
pub proof fn lemma_merge_keeps_names_distinct(
    base: Seq<(Seq<char>, Json)>,
    overlay: Seq<(Seq<char>, Json)>,
    n: nat,
)
    requires
        distinct_names(base),
    ensures
        distinct_names(merge_members(base, overlay, n)),
        merge_members(base, overlay, n).len() >= base.len(),
    decreases n,
{
    if n == 0 || n > overlay.len() {
    } else {
        lemma_merge_keeps_names_distinct(base, overlay, (n - 1) as nat);
        let acc = merge_members(base, overlay, (n - 1) as nat);
        let key = overlay[n - 1].0;
        lemma_position_of(acc, key);
        let i = position_of(acc, key);
        let next = merge_members(base, overlay, n);
        assert forall|x: int, y: int| 0 <= x < y < next.len() implies (#[trigger] next[x]).0 != (
        #[trigger] next[y]).0 by {
            if i < acc.len() {
                assert(next[x].0 == acc[x].0 && next[y].0 == acc[y].0);
            } else if y < acc.len() {
                assert(next[x] == acc[x] && next[y] == acc[y]);
            } else {
                assert(next[x] == acc[x]);
                assert(acc[x].0 != key);
            }
        }
    }
}

/// What a merge leaves under a name, member by member: a name of the
/// overlay holds the overlay's value merged into what the base held under
/// it, or the overlay's value alone where the base held nothing; every other
/// name holds what the base held. The overlay is to name each member once.
pub proof fn lemma_merged_members(
    base: Seq<(Seq<char>, Json)>,
    overlay: Seq<(Seq<char>, Json)>,
    n: nat,
    key: Seq<char>,
)
    requires
        distinct_names(overlay),
        n <= overlay.len(),
    ensures
        member_of(Json::Object(merge_members(base, overlay, n)), key) == match member_of(
            Json::Object(overlay.take(n as int)),
            key,
        ) {
            Some(value) => Some(
                match member_of(Json::Object(base), key) {
                    Some(held) => merged(held, value),
                    None => value,
                },
            ),
            None => member_of(Json::Object(base), key),
        },
    decreases n,
{
    if n == 0 {
        assert(overlay.take(0) =~= Seq::empty());
    } else {
        lemma_merged_members(base, overlay, (n - 1) as nat, key);
        let acc = merge_members(base, overlay, (n - 1) as nat);
        let next = merge_members(base, overlay, n);
        let name = overlay[n - 1].0;
        let value = overlay[n - 1].1;
        let earlier = overlay.take(n - 1);
        assert(overlay.take(n as int) =~= earlier.push(overlay[n - 1]));
        lemma_position_of_push(earlier, overlay[n - 1], key);
        lemma_position_of(earlier, key);
        lemma_position_of(acc, name);
        lemma_position_of(acc, key);
        let i = position_of(acc, name);
        if i < acc.len() {
            lemma_position_same_names(acc, next, key);
        } else {
            lemma_position_of_push(acc, (name, value), key);
        }
        if key == name {
            if position_of(earlier, key) < earlier.len() {
                assert(earlier[position_of(earlier, key)] == overlay[position_of(earlier, key)]);
                assert(false);
            }
        } else {
            let p = position_of(acc, key);
            if p < acc.len() {
                assert(next[p] == acc[p]);
            }
        }
    }
}

/// A key of the overlay wins where it stands, and objects are merged name
/// by name: the law of `lemma_merged_members` for a whole overlay.
pub proof fn lemma_merged_object(
    base: Seq<(Seq<char>, Json)>,
    overlay: Seq<(Seq<char>, Json)>,
    key: Seq<char>,
)
    requires
        distinct_names(overlay),
    ensures
        member_of(merged(Json::Object(base), Json::Object(overlay)), key) == match member_of(
            Json::Object(overlay),
            key,
        ) {
            Some(value) => Some(
                match member_of(Json::Object(base), key) {
                    Some(held) => merged(held, value),
                    None => value,
                },
            ),
            None => member_of(Json::Object(base), key),
        },
{
    lemma_merged_members(base, overlay, overlay.len(), key);
    assert(overlay.take(overlay.len() as int) =~= overlay);
}

/// Anything but two objects is not merged: the overlay replaces the base
/// whole, an array as much as a scalar.
pub proof fn lemma_merged_replaces(base: Json, overlay: Json)
    requires
        !(base is Object) || !(overlay is Object),
    ensures
        merged(base, overlay) == overlay,
{
}

/// A merge of well-formed values is well-formed.
pub proof fn lemma_merged_is_well_formed(base: Json, overlay: Json)
    requires
        well_formed(base),
        well_formed(overlay),
    ensures
        well_formed(merged(base, overlay)),
    decreases overlay, 0nat,
{
    match (base, overlay) {
        (Json::Object(b), Json::Object(o)) => {
            lemma_merge_members_well_formed(b, o, o.len());
        },
        _ => {},
    }
}

proof fn lemma_merge_members_well_formed(
    base: Seq<(Seq<char>, Json)>,
    overlay: Seq<(Seq<char>, Json)>,
    n: nat,
)
    requires
        well_formed(Json::Object(base)),
        forall|i: int| 0 <= i < overlay.len() ==> well_formed((#[trigger] overlay[i]).1),
        n <= overlay.len(),
    ensures
        well_formed(Json::Object(merge_members(base, overlay, n))),
    decreases overlay, n,
{
    if n > 0 {
        lemma_merge_members_well_formed(base, overlay, (n - 1) as nat);
        lemma_merge_keeps_names_distinct(base, overlay, n);
        let acc = merge_members(base, overlay, (n - 1) as nat);
        let next = merge_members(base, overlay, n);
        let name = overlay[n - 1].0;
        let value = overlay[n - 1].1;
        lemma_position_of(acc, name);
        let i = position_of(acc, name);
        if i < acc.len() {
            assert(well_formed(acc[i].1));
            lemma_merged_is_well_formed(acc[i].1, value);
        }
        assert forall|k: int| 0 <= k < next.len() implies well_formed((#[trigger] next[k]).1) by {
            if i < acc.len() {
                if k != i {
                    assert(next[k] == acc[k]);
                }
            } else if k < acc.len() {
                assert(next[k] == acc[k]);
            }
        }
    }
}

/// Whether merging `overlay` into `held` changes nothing.
pub open spec fn absorbs(held: Json, overlay: Json) -> bool {
    merged(held, overlay) == held
}

proof fn lemma_merge_again_members(
    acc: Seq<(Seq<char>, Json)>,
    overlay: Seq<(Seq<char>, Json)>,
    n: nat,
)
    requires
        n <= overlay.len(),
        forall|j: int|
            0 <= j < n ==> position_of(acc, (#[trigger] overlay[j]).0) < acc.len() && absorbs(
                acc[position_of(acc, overlay[j].0)].1,
                overlay[j].1,
            ),
    ensures
        merge_members(acc, overlay, n) == acc,
    decreases n,
{
    if n > 0 {
        lemma_merge_again_members(acc, overlay, (n - 1) as nat);
        let key = overlay[n - 1].0;
        let p = position_of(acc, key);
        lemma_position_of(acc, key);
        assert(position_of(acc, overlay[n - 1].0) < acc.len());
        assert(acc.update(p, (key, merged(acc[p].1, overlay[n - 1].1))) =~= acc);
    }
}

proof fn lemma_own_position(members: Seq<(Seq<char>, Json)>, j: int)
    requires
        distinct_names(members),
        0 <= j < members.len(),
    ensures
        position_of(members, members[j].0) == j,
{
    assert forall|i: int| 0 <= i < j implies (#[trigger] members[i]).0 != members[j].0 by {}
    lemma_position_is(members, members[j].0, j);
}

/// Merging a well-formed value into itself changes nothing.
pub proof fn lemma_merged_with_itself(value: Json)
    requires
        well_formed(value),
    ensures
        absorbs(value, value),
    decreases value,
{
    match value {
        Json::Object(members) => {
            assert forall|j: int| 0 <= j < members.len() implies position_of(
                members,
                (#[trigger] members[j]).0,
            ) < members.len() && absorbs(
                members[position_of(members, members[j].0)].1,
                members[j].1,
            ) by {
                lemma_own_position(members, j);
                assert(well_formed(members[j].1));
                lemma_merged_with_itself(members[j].1);
            }
            lemma_merge_again_members(members, members, members.len());
        },
        _ => {},
    }
}

/// Merging the same overlay twice changes nothing more: what a merge gives
/// absorbs the overlay that was merged. The overlay is to be well-formed.
pub proof fn lemma_merge_is_idempotent(base: Json, overlay: Json)
    requires
        well_formed(overlay),
    ensures
        merged(merged(base, overlay), overlay) == merged(base, overlay),
    decreases overlay,
{
    match (base, overlay) {
        (Json::Object(b), Json::Object(o)) => {
            let r = merge_members(b, o, o.len());
            assert(o.take(o.len() as int) =~= o);
            assert forall|j: int| 0 <= j < o.len() implies position_of(r, (#[trigger] o[j]).0)
                < r.len() && absorbs(r[position_of(r, o[j].0)].1, o[j].1) by {
                let key = o[j].0;
                lemma_merged_members(b, o, o.len(), key);
                lemma_own_position(o, j);
                assert(member_of(Json::Object(o), key) == Some(o[j].1));
                assert(well_formed(o[j].1));
                match member_of(Json::Object(b), key) {
                    Some(held) => {
                        lemma_merge_is_idempotent(held, o[j].1);
                    },
                    None => {
                        lemma_merged_with_itself(o[j].1);
                    },
                }
            }
            lemma_merge_again_members(r, o, o.len());
        },
        _ => {
            lemma_merged_with_itself(overlay);
        },
    }
}

} // verus!
