//! Operator-embedded defaults for RuntimeProfile.
//!
//! Reasonable defaults (resources, sky TTLs) are deep-merged UNDER the applied
//! manifest: user fields win at ANY depth, defaults only fill holes, and a nested
//! user override never erases sibling defaults.
//!
//! Sky defaults are conditional: they merge only when the manifest carries a
//! `sky` block. An absent `sky` means "on-prem k8s Job" and must stay absent —
//! an unconditional default would silently burst every profile to the cloud.

use vstd::prelude::*;
use crate::json::{member_of, Json, Number};
use crate::number::Real;
use crate::text::cat;
use crate::textmap::{lemma_keys_distinct, lemma_map_of_keys, lemma_map_of_value, map_of, TextMap};

verus! {

broadcast use vstd::seq_lib::group_seq_properties;

/// `r` is `u` merged over `d`. Of two objects each member is merged, and a member of only one
/// of them is kept; a `null` of the user stands for nothing; any other value of the user counts
/// as a whole.
pub closed spec fn is_merge(d: Json, u: Json, r: Json) -> bool
    decreases d,
{
    match (d, u) {
        (Json::Object(dm), Json::Object(um)) => match r {
            Json::Object(rm) => {
                &&& forall|k: Seq<char>| #[trigger]
                    rm@.contains_key(k) <==> dm@.contains_key(k) || um@.contains_key(k)
                &&& forall|k: Seq<char>| #[trigger]
                    um@.contains_key(k) && !dm@.contains_key(k) ==> rm@[k] == um@[k]
                &&& forall|i: int|
                    0 <= i < dm.items@.len() ==> if um@.contains_key(dm.items@[i].0@) {
                        is_merge(
                            (#[trigger] dm.items@[i]).1,
                            um@[dm.items@[i].0@],
                            rm@[dm.items@[i].0@],
                        )
                    } else {
                        rm@[dm.items@[i].0@] == dm.items@[i].1
                    }
            },
            _ => false,
        },
        (_, Json::Null) => r == d,
        _ => r == u,
    }
}

/// What merging does: members of two objects are merged one by one, a `null` of the user gives
/// the default, and any other value of the user wins.
pub proof fn merge_goes_member_by_member(d: Json, u: Json, r: Json)
    requires
        is_merge(d, u, r),
    ensures
        !(d is Object && u is Object) && u is Null ==> r == d,
        !(d is Object && u is Object) && !(u is Null) ==> r == u,
        d is Object && u is Object ==> r is Object,
        d is Object && u is Object ==> forall|k: Seq<char>|
            #![trigger member_of(r, k)]
            match (member_of(d, k), member_of(u, k)) {
                (Some(x), Some(y)) => member_of(r, k) is Some && is_merge(
                    x,
                    y,
                    member_of(r, k)->0,
                ),
                (Some(x), None) => member_of(r, k) == Some(x),
                (None, y) => member_of(r, k) == y,
            },
{
    if d is Object && u is Object {
        let dm = d->Object_0;
        assert forall|k: Seq<char>|
            #![trigger member_of(r, k)]
            match (member_of(d, k), member_of(u, k)) {
                (Some(x), Some(y)) => member_of(r, k) is Some && is_merge(
                    x,
                    y,
                    member_of(r, k)->0,
                ),
                (Some(x), None) => member_of(r, k) == Some(x),
                (None, y) => member_of(r, k) == y,
            } by {
            if dm@.contains_key(k) {
                lemma_last_entry(dm, k);
            }
        }
    }
}

/// The value of a key is that of an entry with the key.
proof fn lemma_last_entry(m: TextMap<Json>, k: Seq<char>)
    requires
        m@.contains_key(k),
    ensures
        exists|i: int|
            0 <= i < m.items@.len() && (#[trigger] m.items@[i]).0@ == k && m.items@[i].1 == m@[k],
{
    let e = m.items@.map_values(|e: (String, Json)| (e.0@, e.1));
    m.lemma_entries();
    let i = lemma_map_of_some(e, k);
    assert(m.items@[i].0@ == k);
}

proof fn lemma_map_of_some<V>(s: Seq<(Seq<char>, V)>, k: Seq<char>) -> (i: int)
    requires
        map_of(s).contains_key(k),
    ensures
        0 <= i < s.len(),
        s[i].0 == k,
        s[i].1 == map_of(s)[k],
    decreases s.len(),
{
    if s.last().0 == k {
        s.len() - 1
    } else {
        lemma_map_of_some(s.drop_last(), k)
    }
}

/// Deep-merge `user` over `defaults`; user wins at any depth.
///
/// - object vs object: recurse per key; keys only in either side survive.
/// - explicit `null` in user is treated as "absent" (the default wins) — the
///   apiserver normally prunes nulls, and `cloud: null` in a manifest means
///   "no pin, use the default behavior", not "erase".
/// - any other user value (scalar, array) wins wholesale; arrays are not
///   element-merged.
pub fn deep_merge(defaults: Json, user: Json) -> (r: Json)
    ensures
        is_merge(defaults, user, r),
    decreases defaults, 1nat,
{
    let ghost d = defaults;
    match defaults {
        Json::Object(default_map) => match user {
            Json::Object(user_map) => {
                let merged = merge_members(default_map, user_map, Ghost(d));
                Json::Object(merged)
            },
            Json::Null => Json::Object(default_map),
            other => other,
        },
        other => match user {
            Json::Null => other,
            value => value,
        },
    }
}

fn merge_members(
    default_map: TextMap<Json>,
    user_map: TextMap<Json>,
    Ghost(d): Ghost<Json>,
) -> (r: TextMap<Json>)
    requires
        d == Json::Object(default_map),
    ensures
        is_merge(d, Json::Object(user_map), Json::Object(r)),
    decreases d, 0nat,
{
    let ghost dm = default_map;
    let ghost um = user_map;
    let ghost all = default_map.items@;
    let n: usize = default_map.len();
    proof {
        dm.lemma_entries();
        lemma_keys_distinct(dm.entries());
        assert(all.len() == dm.entries().len());
        assert forall|a: int, b: int| 0 <= a < b < all.len() implies (#[trigger] all[a]).0@ != (
        #[trigger] all[b]).0@ by {
            assert(dm.entries()[a].0 != dm.entries()[b].0);
        }
    }
    let mut rest: Vec<(String, Json)> = default_map.items;
    let mut users = user_map;
    let mut merged: TextMap<Json> = TextMap::new();
    while rest.len() > 0
        invariant
            d == Json::Object(dm),
            all == dm.items@,
            rest.len() <= all.len(),
            rest@ == all.take(rest.len() as int),
            forall|a: int, b: int|
                0 <= a < b < all.len() ==> (#[trigger] all[a]).0@ != (#[trigger] all[b]).0@,
            forall|k: Seq<char>| #[trigger]
                users@.contains_key(k) <==> um@.contains_key(k) && forall|i: int|
                    rest.len() <= i < all.len() ==> (#[trigger] all[i]).0@ != k,
            forall|k: Seq<char>| #[trigger] users@.contains_key(k) ==> users@[k] == um@[k],
            forall|k: Seq<char>| #[trigger]
                merged@.contains_key(k) <==> exists|i: int|
                    rest.len() <= i < all.len() && (#[trigger] all[i]).0@ == k,
            forall|i: int|
                rest.len() <= i < all.len() ==> if um@.contains_key(all[i].0@) {
                    is_merge((#[trigger] all[i]).1, um@[all[i].0@], merged@[all[i].0@])
                } else {
                    merged@[all[i].0@] == all[i].1
                },
        decreases rest.len(),
    {
        let ghost m = rest.len() as int;
        let ghost users_before = users@;
        let ghost merged_before = merged@;
        match rest.pop() {
            Some((key, default_value)) => {
                let ghost k0 = key@;
                proof {
                    assert(all[m - 1] == (key, default_value));
                    assert(rest@ =~= all.take(m - 1));
                    assert(decreases_to!(d => d->Object_0));
                    assert(decreases_to!(dm => dm.items));
                    assert(decreases_to!(dm.items => dm.items@));
                    assert(decreases_to!(dm.items@ => dm.items@[m - 1]));
                    assert(decreases_to!(dm.items@[m - 1] => dm.items@[m - 1].1));
                    assert(users_before.contains_key(k0) <==> um@.contains_key(k0));
                }
                let ghost v0 = default_value;
                match users.remove(key.as_str()) {
                    Some(user_value) => {
                        let value = deep_merge(default_value, user_value);
                        merged.insert(key, value);
                    },
                    None => {
                        merged.insert(key, default_value);
                    },
                }
                proof {
                    assert forall|k: Seq<char>| #[trigger]
                        users@.contains_key(k) <==> um@.contains_key(k) && forall|i: int|
                            m - 1 <= i < all.len() ==> (#[trigger] all[i]).0@ != k by {
                        if um@.contains_key(k) && forall|i: int|
                            m - 1 <= i < all.len() ==> (#[trigger] all[i]).0@ != k {
                            assert(all[m - 1].0@ != k);
                            assert(users_before.contains_key(k));
                        }
                        if users@.contains_key(k) {
                            assert(users_before.contains_key(k));
                        }
                    }
                    assert forall|k: Seq<char>| #[trigger]
                        merged@.contains_key(k) <==> exists|i: int|
                            m - 1 <= i < all.len() && (#[trigger] all[i]).0@ == k by {
                        if merged_before.contains_key(k) {
                            let i = choose|i: int|
                                m <= i < all.len() && (#[trigger] all[i]).0@ == k;
                            assert(all[i].0@ == k);
                        }
                        if k == k0 {
                            assert(all[m - 1].0@ == k);
                        }
                        if exists|i: int| m - 1 <= i < all.len() && (#[trigger] all[i]).0@ == k {
                            let i = choose|i: int|
                                m - 1 <= i < all.len() && (#[trigger] all[i]).0@ == k;
                            if i >= m {
                                assert(merged_before.contains_key(k));
                            }
                        }
                    }
                    assert forall|i: int| m - 1 <= i < all.len() implies if um@.contains_key(
                        all[i].0@,
                    ) {
                        is_merge((#[trigger] all[i]).1, um@[all[i].0@], merged@[all[i].0@])
                    } else {
                        merged@[all[i].0@] == all[i].1
                    } by {
                        if i >= m {
                            assert(all[m - 1].0@ != all[i].0@);
                            assert(merged@[all[i].0@] == merged_before[all[i].0@]);
                        }
                    }
                }
            },
            None => {},
        }
    }
    proof {
        assert forall|k: Seq<char>| dm@.contains_key(k) <==> exists|i: int|
            0 <= i < all.len() && (#[trigger] all[i]).0@ == k by {
            dm.lemma_entries();
            lemma_map_of_keys(dm.entries(), k);
            if dm@.contains_key(k) {
                let i = choose|i: int|
                    0 <= i < dm.entries().len() && #[trigger] dm.entries()[i].0 == k;
                assert(all[i].0@ == k);
            }
            if exists|i: int| 0 <= i < all.len() && (#[trigger] all[i]).0@ == k {
                let i = choose|i: int| 0 <= i < all.len() && (#[trigger] all[i]).0@ == k;
                assert(dm.entries()[i].0 == k);
            }
        }
    }
    let ghost joint = merged@;
    let ghost left = users.items@;
    proof {
        users.lemma_entries();
    }
    let ghost lone = users;
    let count: usize = users.len();
    proof {
        lemma_keys_distinct(lone.entries());
        assert forall|a: int, b: int| 0 <= a < b < left.len() implies (#[trigger] left[a]).0@ != (
        #[trigger] left[b]).0@ by {
            assert(lone.entries()[a].0 != lone.entries()[b].0);
        }
        assert forall|i: int| 0 <= i < left.len() implies lone@.contains_key(
            (#[trigger] left[i]).0@,
        ) && lone@[left[i].0@] == left[i].1 by {
            lemma_map_of_value(lone.entries(), i);
            assert(lone.entries()[i] == (left[i].0@, left[i].1));
        }
    }
    let mut others: Vec<(String, Json)> = users.items;
    while others.len() > 0
        invariant
            others.len() <= left.len(),
            others@ == left.take(others.len() as int),
            forall|a: int, b: int|
                0 <= a < b < left.len() ==> (#[trigger] left[a]).0@ != (#[trigger] left[b]).0@,
            forall|k: Seq<char>| #[trigger]
                merged@.contains_key(k) <==> joint.contains_key(k) || exists|i: int|
                    others.len() <= i < left.len() && (#[trigger] left[i]).0@ == k,
            forall|i: int|
                others.len() <= i < left.len() ==> merged@[left[i].0@] == (#[trigger] left[i]).1,
            forall|k: Seq<char>| #[trigger]
                joint.contains_key(k) && (forall|i: int|
                    0 <= i < left.len() ==> (#[trigger] left[i]).0@ != k) ==> merged@[k]
                    == joint[k],
        decreases others.len(),
    {
        let ghost m = others.len() as int;
        let ghost before = merged@;
        match others.pop() {
            Some((key, value)) => {
                let ghost k0 = key@;
                assert(left[m - 1] == (key, value));
                assert(others@ =~= left.take(m - 1));
                merged.insert(key, value);
                proof {
                    assert forall|k: Seq<char>| #[trigger]
                        merged@.contains_key(k) <==> joint.contains_key(k) || exists|i: int|
                            m - 1 <= i < left.len() && (#[trigger] left[i]).0@ == k by {
                        if before.contains_key(k) && !joint.contains_key(k) {
                            let i = choose|i: int|
                                m <= i < left.len() && (#[trigger] left[i]).0@ == k;
                            assert(left[i].0@ == k);
                        }
                        assert(left[m - 1].0@ == k0);
                        if exists|i: int| m - 1 <= i < left.len() && (#[trigger] left[i]).0@ == k {
                            let i = choose|i: int|
                                m - 1 <= i < left.len() && (#[trigger] left[i]).0@ == k;
                            if i >= m {
                                assert(before.contains_key(k));
                            }
                        }
                    }
                    assert forall|i: int| m - 1 <= i < left.len() implies merged@[left[i].0@] == (
                    #[trigger] left[i]).1 by {
                        if i >= m {
                            assert(left[m - 1].0@ != left[i].0@);
                        }
                    }
                    assert forall|k: Seq<char>| #[trigger]
                        joint.contains_key(k) && (forall|i: int|
                            0 <= i < left.len() ==> (#[trigger] left[i]).0@ != k) implies merged@[k]
                        == joint[k] by {
                        assert(left[m - 1].0@ != k);
                    }
                }
            },
            None => {},
        }
    }
    proof {
        assert forall|k: Seq<char>| #[trigger] lone@.contains_key(k) implies exists|i: int|
            0 <= i < left.len() && (#[trigger] left[i]).0@ == k by {
            lemma_last_entry(lone, k);
        }
        assert forall|k: Seq<char>| #[trigger]
            merged@.contains_key(k) <==> dm@.contains_key(k) || um@.contains_key(k) by {
            if um@.contains_key(k) && !dm@.contains_key(k) {
                assert(lone@.contains_key(k));
                assert(exists|i: int| 0 <= i < left.len() && (#[trigger] left[i]).0@ == k);
            }
            if dm@.contains_key(k) {
                assert(joint.contains_key(k));
            }
            if merged@.contains_key(k) && !joint.contains_key(k) {
                let i = choose|i: int| 0 <= i < left.len() && (#[trigger] left[i]).0@ == k;
                assert(lone@.contains_key(left[i].0@));
            }
        }
        assert forall|k: Seq<char>| #[trigger]
            um@.contains_key(k) && !dm@.contains_key(k) implies merged@[k] == um@[k] by {
            assert(lone@.contains_key(k));
            let i = choose|i: int| 0 <= i < left.len() && (#[trigger] left[i]).0@ == k;
            assert(lone@[left[i].0@] == left[i].1);
        }
        assert forall|i: int| 0 <= i < dm.items@.len() implies if um@.contains_key(
            dm.items@[i].0@,
        ) {
            is_merge((#[trigger] dm.items@[i]).1, um@[dm.items@[i].0@], merged@[dm.items@[i].0@])
        } else {
            merged@[dm.items@[i].0@] == dm.items@[i].1
        } by {
            let k = all[i].0@;
            assert(joint.contains_key(k));
            assert forall|j: int| 0 <= j < left.len() implies (#[trigger] left[j]).0@ != k by {
                assert(lone@.contains_key(left[j].0@));
            }
            assert(merged@[k] == joint[k]);
        }
    }
    merged
}

// ---------------------------------------------------------------------------
// What a merge keeps
// ---------------------------------------------------------------------------

/// What the members named in `path` lead to, one after another.
pub open spec fn at(j: Json, path: Seq<Seq<char>>) -> Option<Json>
    decreases path.len(),
{
    if path.len() == 0 {
        Some(j)
    } else {
        match member_of(j, path[0]) {
            Some(next) => at(next, path.drop_first()),
            None => None,
        }
    }
}

/// The user's value wins at any depth: what is set to anything but `null` or an object stands
/// in the merge as it was set, with arrays replaced wholesale.
pub proof fn user_wins_at_any_depth(d: Json, u: Json, r: Json, path: Seq<Seq<char>>)
    requires
        is_merge(d, u, r),
        at(u, path) is Some,
        !(at(u, path)->0 is Null),
        !(at(u, path)->0 is Object),
    ensures
        at(r, path) == at(u, path),
    decreases path.len(),
{
    merge_goes_member_by_member(d, u, r);
    if path.len() > 0 && d is Object {
        let k = path[0];
        assert(member_of(r, k) == member_of(r, k));
        if let Some(x) = member_of(d, k) {
            user_wins_at_any_depth(x, member_of(u, k)->0, member_of(r, k)->0, path.drop_first());
        }
    }
}

/// The user says nothing on what `path` leads to: a member on the way is absent or `null`.
pub open spec fn leaves_open(u: Json, path: Seq<Seq<char>>) -> bool
    decreases path.len(),
{
    ||| u is Null
    ||| path.len() > 0 && u is Object && (member_of(u, path[0]) matches Some(next) ==> leaves_open(
        next,
        path.drop_first(),
    ))
}

/// Defaults fill every hole: where the user says nothing, what the defaults give stands in the
/// merge, whatever the user sets beside it.
pub proof fn defaults_fill_holes(d: Json, u: Json, r: Json, path: Seq<Seq<char>>)
    requires
        is_merge(d, u, r),
        leaves_open(u, path),
        at(d, path) is Some,
    ensures
        at(r, path) == at(d, path),
    decreases path.len(),
{
    merge_goes_member_by_member(d, u, r);
    if path.len() > 0 && !(u is Null) {
        let k = path[0];
        assert(member_of(r, k) == member_of(r, k));
        if let Some(y) = member_of(u, k) {
            defaults_fill_holes(
                member_of(d, k)->0,
                y,
                member_of(r, k)->0,
                path.drop_first(),
            );
        }
    }
}

/// What a path leads to in one value is what it leads to in another: nothing in both, an object
/// in both, or the same value.
pub open spec fn agree_at(a: Json, b: Json, path: Seq<Seq<char>>) -> bool {
    match (at(a, path), at(b, path)) {
        (None, None) => true,
        (Some(x), Some(y)) => x == y || (x is Object && y is Object),
        _ => false,
    }
}

/// A value merged over itself is that value.
proof fn lemma_merge_with_itself(d: Json, r: Json, path: Seq<Seq<char>>)
    requires
        is_merge(d, d, r),
    ensures
        agree_at(d, r, path),
    decreases path.len(),
{
    merge_goes_member_by_member(d, d, r);
    if path.len() > 0 && d is Object {
        let k = path[0];
        assert(member_of(r, k) == member_of(r, k));
        if let Some(x) = member_of(d, k) {
            lemma_merge_with_itself(x, member_of(r, k)->0, path.drop_first());
        }
    }
}

/// Merging is idempotent: what came of a merge, merged over the same defaults again, is as it
/// was at any depth.
pub proof fn merging_again_changes_nothing(
    d: Json,
    u: Json,
    r: Json,
    again: Json,
    path: Seq<Seq<char>>,
)
    requires
        is_merge(d, u, r),
        is_merge(d, r, again),
    ensures
        agree_at(r, again, path),
    decreases path.len(),
{
    merge_goes_member_by_member(d, u, r);
    merge_goes_member_by_member(d, r, again);
    if d is Object && u is Object {
        if path.len() > 0 {
            let k = path[0];
            let rest = path.drop_first();
            assert(member_of(r, k) == member_of(r, k));
            assert(member_of(again, k) == member_of(again, k));
            match (member_of(d, k), member_of(u, k)) {
                (Some(x), Some(y)) => {
                    merging_again_changes_nothing(
                        x,
                        y,
                        member_of(r, k)->0,
                        member_of(again, k)->0,
                        rest,
                    );
                },
                (Some(x), None) => {
                    lemma_merge_with_itself(x, member_of(again, k)->0, rest);
                },
                _ => {},
            }
        }
    } else if u is Null {
        lemma_merge_with_itself(d, again, path);
    }
}

// ---------------------------------------------------------------------------
// Runtime profiles
// ---------------------------------------------------------------------------

/// The place of 480 among the floating-point numbers.
pub const RANK_480: i64 = 0x407E_0000_0000_0000;

/// The place of 30 among the floating-point numbers.
pub const RANK_30: i64 = 0x403E_0000_0000_0000;

/// The value is the text.
pub open spec fn is_text(j: Json, s: Seq<char>) -> bool {
    j matches Json::Text(t) && t@ == s
}

/// The value is the whole number, written with the digits; `rank` is its place among the
/// floating-point numbers.
pub open spec fn is_integer(j: Json, n: i64, digits: Seq<char>, rank: i64) -> bool {
    &&& j is Number
    &&& j->Number_0.integer == Some(n)
    &&& j->Number_0.text@ == digits
    &&& j->Number_0.float.rank == rank
    &&& j->Number_0.float.text@ == digits
    &&& j->Number_0.float.fixed1@ == digits + ".0"@
    &&& j->Number_0.float.fixed2@ == digits + ".00"@
    &&& j->Number_0.float.fixed3@ == digits + ".000"@
    &&& j->Number_0.float.fixed4@ == digits + ".0000"@
}

/// The value is an object whose members are those of `keys`.
pub open spec fn has_members(j: Json, keys: Set<Seq<char>>) -> bool {
    j is Object && forall|k: Seq<char>| #[trigger] member_of(j, k) is Some <==> keys.contains(k)
}

/// The manifest carries a `sky` block.
pub open spec fn bursts(user: Json) -> bool {
    member_of(user, "sky"@) matches Some(sky) && !(sky is Null)
}

/// The defaults of the burst knobs.
pub open spec fn is_sky_defaults(j: Json) -> bool {
    &&& has_members(
        j,
        set!["enabled"@, "useSpot"@, "ttlMinutes"@, "idleMinutesToAutostop"@],
    )
    &&& member_of(j, "enabled"@) == Some(Json::Bool(true))
    &&& member_of(j, "useSpot"@) == Some(Json::Bool(true))
    &&& is_integer(member_of(j, "ttlMinutes"@)->0, 480, "480"@, RANK_480)
    &&& is_integer(member_of(j, "idleMinutesToAutostop"@)->0, 30, "30"@, RANK_30)
}

/// The baseline requests.
pub open spec fn is_request_defaults(j: Json) -> bool {
    &&& has_members(j, set!["cpu"@, "memory"@])
    &&& is_text(member_of(j, "cpu"@)->0, "500m"@)
    &&& is_text(member_of(j, "memory"@)->0, "512Mi"@)
}

/// The defaults tree for the manifest.
pub open spec fn is_profile_defaults(user: Json, j: Json) -> bool {
    &&& has_members(
        j,
        if bursts(user) {
            set!["resources"@, "sky"@]
        } else {
            set!["resources"@]
        },
    )
    &&& has_members(member_of(j, "resources"@)->0, set!["requests"@])
    &&& is_request_defaults(member_of(member_of(j, "resources"@)->0, "requests"@)->0)
    &&& bursts(user) ==> is_sky_defaults(member_of(j, "sky"@)->0)
}

fn text(s: &str) -> (r: Json)
    ensures
        is_text(r, s@),
{
    Json::Text(s.to_owned())
}

fn integer(n: i64, digits: &str, rank: i64) -> (r: Json)
    ensures
        is_integer(r, n, digits@, rank),
{
    let float = Real {
        rank,
        text: digits.to_owned(),
        fixed1: cat(digits, ".0"),
        fixed2: cat(digits, ".00"),
        fixed3: cat(digits, ".000"),
        fixed4: cat(digits, ".0000"),
    };
    Json::Number(Number { text: digits.to_owned(), float, integer: Some(n) })
}

fn single(key: &str, value: Json) -> (r: Json)
    ensures
        has_members(r, set![key@]),
        member_of(r, key@) == Some(value),
{
    let mut m: TextMap<Json> = TextMap::new();
    m.insert(key.to_owned(), value);
    Json::Object(m)
}

fn request_defaults() -> (r: Json)
    ensures
        is_request_defaults(r),
{
    proof {
        reveal_strlit("cpu");
        reveal_strlit("memory");
        assert("cpu"@.len() != "memory"@.len());
    }
    let mut m: TextMap<Json> = TextMap::new();
    m.insert("cpu".to_owned(), text("500m"));
    m.insert("memory".to_owned(), text("512Mi"));
    Json::Object(m)
}

fn sky_defaults() -> (r: Json)
    ensures
        is_sky_defaults(r),
{
    proof {
        reveal_strlit("enabled");
        reveal_strlit("useSpot");
        reveal_strlit("ttlMinutes");
        reveal_strlit("idleMinutesToAutostop");
        assert("enabled"@[0] != "useSpot"@[0]);
        assert("enabled"@.len() != "ttlMinutes"@.len());
        assert("enabled"@.len() != "idleMinutesToAutostop"@.len());
        assert("useSpot"@.len() != "ttlMinutes"@.len());
        assert("useSpot"@.len() != "idleMinutesToAutostop"@.len());
        assert("ttlMinutes"@.len() != "idleMinutesToAutostop"@.len());
    }
    let ttl = integer(480, "480", RANK_480);
    let idle = integer(30, "30", RANK_30);
    let mut m: TextMap<Json> = TextMap::new();
    m.insert("enabled".to_owned(), Json::Bool(true));
    m.insert("useSpot".to_owned(), Json::Bool(true));
    m.insert("ttlMinutes".to_owned(), ttl);
    m.insert("idleMinutesToAutostop".to_owned(), idle);
    Json::Object(m)
}

/// The defaults tree for a RuntimeProfile spec, shaped by what the user
/// actually wrote (sky defaults only when a `sky` block is present).
///
/// Keys use the wire (camelCase) names since this merges against the raw
/// manifest.
pub fn runtime_profile_defaults(user: &Json) -> (r: Json)
    ensures
        is_profile_defaults(*user, r),
{
    proof {
        reveal_strlit("resources");
        reveal_strlit("sky");
        assert("resources"@.len() != "sky"@.len());
    }
    // Modest baseline requests so experiment pods are never BestEffort;
    // the Kueue ClusterQueue covers cpu/memory, so these stay admissible.
    // No limits by default — clamping is the user's call.
    let mut m: TextMap<Json> = TextMap::new();
    m.insert("resources".to_owned(), single("requests", request_defaults()));
    // Presence of the block is the opt-in; fill in the burst knobs.
    let opted = match user.get("sky") {
        Some(sky) => !sky.is_null(),
        None => false,
    };
    if opted {
        m.insert("sky".to_owned(), sky_defaults());
    }
    Json::Object(m)
}

/// `r` is the manifest over the defaults that belong to it.
pub open spec fn is_defaulted(user: Json, r: Json) -> bool {
    exists|d: Json| is_profile_defaults(user, d) && is_merge(d, user, r)
}

/// Deep-merge the operator defaults under a raw RuntimeProfile spec manifest.
pub fn apply_runtime_profile_defaults(user: Json) -> (r: Json)
    ensures
        is_defaulted(user, r),
{
    let defaults = runtime_profile_defaults(&user);
    let ghost d = defaults;
    let ghost u = user;
    let r = deep_merge(defaults, user);
    assert(is_profile_defaults(u, d) && is_merge(d, u, r));
    r
}

/// No sky block in the manifest, no sky block after defaulting. Absence is the on-prem
/// switch and is never manufactured by defaults.
pub proof fn absent_sky_stays_absent(user: Json, r: Json)
    requires
        user is Object,
        is_defaulted(user, r),
    ensures
        member_of(user, "sky"@) is None ==> member_of(r, "sky"@) is None,
        bursts(user) ==> bursts(r),
        !bursts(user) ==> !bursts(r),
{
    let d = choose|d: Json| is_profile_defaults(user, d) && is_merge(d, user, r);
    reveal_strlit("resources");
    reveal_strlit("sky");
    assert("resources"@.len() != "sky"@.len());
    merge_goes_member_by_member(d, user, r);
    assert(member_of(r, "sky"@) == member_of(r, "sky"@));
    if bursts(user) {
        let s = member_of(d, "sky"@)->0;
        merge_goes_member_by_member(s, member_of(user, "sky"@)->0, member_of(r, "sky"@)->0);
    }
}

/// Every knob that the manifest's `sky` block leaves open gets its default, the hard TTL
/// among them.
pub proof fn an_open_ttl_is_defaulted(user: Json, r: Json)
    requires
        is_defaulted(user, r),
        user is Object,
        member_of(user, "sky"@) matches Some(sky) && sky is Object,
        leaves_open(member_of(user, "sky"@)->0, seq!["ttlMinutes"@]),
    ensures
        at(r, seq!["sky"@, "ttlMinutes"@]) matches Some(j) && is_integer(j, 480, "480"@, RANK_480),
{
    let d = choose|d: Json| is_profile_defaults(user, d) && is_merge(d, user, r);
    let path = seq!["sky"@, "ttlMinutes"@];
    assert(path.drop_first() =~= seq!["ttlMinutes"@]);
    let s = member_of(d, "sky"@)->0;
    assert(is_sky_defaults(s));
    assert(member_of(s, "ttlMinutes"@) is Some);
    assert(seq!["ttlMinutes"@].drop_first() =~= Seq::<Seq<char>>::empty());
    assert(at(s, seq!["ttlMinutes"@]) == at(member_of(s, "ttlMinutes"@)->0, seq!["ttlMinutes"@].drop_first()));
    assert(at(d, path) == member_of(s, "ttlMinutes"@));
    defaults_fill_holes(d, user, r, path);
}

/// A profile that says nothing of its requests asks for half a processor and half a gigabyte; one
/// that bursts without saying how does so enabled, on spot machines, and stops after thirty idle
/// minutes.
pub proof fn what_is_left_open_is_defaulted(user: Json, r: Json)
    requires
        is_defaulted(user, r),
        user is Object,
    ensures
        leaves_open(user, seq!["resources"@, "requests"@, "cpu"@]) ==> (at(
            r,
            seq!["resources"@, "requests"@, "cpu"@],
        ) matches Some(Json::Text(t)) && t@ == seq!['5', '0', '0', 'm']),
        leaves_open(user, seq!["resources"@, "requests"@, "memory"@]) ==> (at(
            r,
            seq!["resources"@, "requests"@, "memory"@],
        ) matches Some(Json::Text(t)) && t@ == seq!['5', '1', '2', 'M', 'i']),
        bursts(user) && leaves_open(user, seq!["sky"@, "enabled"@]) ==> at(
            r,
            seq!["sky"@, "enabled"@],
        ) == Some(Json::Bool(true)),
        bursts(user) && leaves_open(user, seq!["sky"@, "useSpot"@]) ==> at(
            r,
            seq!["sky"@, "useSpot"@],
        ) == Some(Json::Bool(true)),
        bursts(user) && leaves_open(user, seq!["sky"@, "idleMinutesToAutostop"@]) ==> (at(
            r,
            seq!["sky"@, "idleMinutesToAutostop"@],
        ) matches Some(j) && j is Number && j->Number_0.integer == Some(30i64)),
{
    let d = choose|d: Json| is_profile_defaults(user, d) && is_merge(d, user, r);
    reveal_strlit("500m");
    reveal_strlit("512Mi");
    assert("500m"@ =~= seq!['5', '0', '0', 'm']);
    assert("512Mi"@ =~= seq!['5', '1', '2', 'M', 'i']);
    let res = member_of(d, "resources"@)->0;
    let req = member_of(res, "requests"@)->0;
    assert(member_of(d, "resources"@) is Some);
    assert(member_of(res, "requests"@) is Some);
    assert(member_of(req, "cpu"@) is Some);
    assert(member_of(req, "memory"@) is Some);
    lemma_at3(d, "resources"@, "requests"@, "cpu"@);
    lemma_at3(d, "resources"@, "requests"@, "memory"@);
    if leaves_open(user, seq!["resources"@, "requests"@, "cpu"@]) {
        defaults_fill_holes(d, user, r, seq!["resources"@, "requests"@, "cpu"@]);
    }
    if leaves_open(user, seq!["resources"@, "requests"@, "memory"@]) {
        defaults_fill_holes(d, user, r, seq!["resources"@, "requests"@, "memory"@]);
    }
    if bursts(user) {
        let s = member_of(d, "sky"@)->0;
        assert(member_of(d, "sky"@) is Some);
        assert(is_sky_defaults(s));
        assert(member_of(s, "idleMinutesToAutostop"@) is Some);
        lemma_at2(d, "sky"@, "enabled"@);
        lemma_at2(d, "sky"@, "useSpot"@);
        lemma_at2(d, "sky"@, "idleMinutesToAutostop"@);
        if leaves_open(user, seq!["sky"@, "enabled"@]) {
            defaults_fill_holes(d, user, r, seq!["sky"@, "enabled"@]);
        }
        if leaves_open(user, seq!["sky"@, "useSpot"@]) {
            defaults_fill_holes(d, user, r, seq!["sky"@, "useSpot"@]);
        }
        if leaves_open(user, seq!["sky"@, "idleMinutesToAutostop"@]) {
            defaults_fill_holes(d, user, r, seq!["sky"@, "idleMinutesToAutostop"@]);
        }
    }
}

proof fn lemma_at2(j: Json, a: Seq<char>, b: Seq<char>)
    requires
        member_of(j, a) is Some,
    ensures
        at(j, seq![a, b]) == member_of(member_of(j, a)->0, b),
{
    let x = member_of(j, a)->0;
    assert(seq![a, b].drop_first() =~= seq![b]);
    assert(seq![b].drop_first() =~= Seq::<Seq<char>>::empty());
    assert(at(j, seq![a, b]) == at(x, seq![a, b].drop_first()));
    reveal_with_fuel(at, 3);
}

proof fn lemma_at3(j: Json, a: Seq<char>, b: Seq<char>, c: Seq<char>)
    requires
        member_of(j, a) is Some,
        member_of(member_of(j, a)->0, b) is Some,
    ensures
        at(j, seq![a, b, c]) == member_of(member_of(member_of(j, a)->0, b)->0, c),
{
    let x = member_of(j, a)->0;
    assert(seq![a, b, c].drop_first() =~= seq![b, c]);
    assert(at(j, seq![a, b, c]) == at(x, seq![a, b, c].drop_first()));
    lemma_at2(x, b, c);
}

} // verus!
