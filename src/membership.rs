//! Group membership of a directory user: which group ids the desired names
//! resolve to, and which memberships to remove and add to reach them.

use vstd::prelude::*;
use crate::queries::{Group, User};

verus! {

/// The first group of `groups` whose display name is `name`.
pub open spec fn find_group(groups: Seq<Group>, name: Seq<char>) -> Option<Group>
    decreases groups.len(),
{
    if groups.len() == 0 {
        None
    } else if groups[0].display_name@ == name {
        Some(groups[0])
    } else {
        find_group(groups.drop_first(), name)
    }
}

/// The ids of the groups that `names` name, in the order of `names`, each
/// once; a name that no group carries is dropped.
pub open spec fn resolve_ids(names: Seq<Seq<char>>, groups: Seq<Group>) -> Seq<i32>
    decreases names.len(),
{
    if names.len() == 0 {
        seq![]
    } else {
        let prev = resolve_ids(names.drop_last(), groups);
        match find_group(groups, names.last()) {
            Some(g) => if prev.contains(g.id) {
                prev
            } else {
                prev.push(g.id)
            },
            None => prev,
        }
    }
}

/// The entries of `s` that `other` does not hold, in the order of `s`.
pub open spec fn ids_without(s: Seq<i32>, other: Seq<i32>) -> Seq<i32>
    decreases s.len(),
{
    if s.len() == 0 {
        seq![]
    } else {
        let prev = ids_without(s.drop_last(), other);
        if other.contains(s.last()) {
            prev
        } else {
            prev.push(s.last())
        }
    }
}

/// The ids of `groups`, in order.
pub open spec fn group_ids(groups: Seq<Group>) -> Seq<i32> {
    groups.map_values(|g: Group| g.id)
}

/// The memberships to change: groups to leave, then groups to join.
#[derive(Debug)]
pub struct GroupUpdate {
    pub remove: Vec<i32>,
    pub add: Vec<i32>,
}

/// The groups a user belongs to after leaving `remove` and joining `add`.
pub open spec fn membership_after(current: Seq<i32>, remove: Seq<i32>, add: Seq<i32>) -> Set<i32> {
    current.to_set().difference(remove.to_set()).union(add.to_set())
}

/// The id of the first group of `groups` named `name`.
pub fn find_group_id(groups: &Vec<Group>, name: &String) -> (r: Option<i32>)
    ensures
        match find_group(groups@, name@) {
            Some(g) => r == Some(g.id),
            None => r is None,
        },
{
    let mut i: usize = 0;
    assert(groups@.subrange(0, groups@.len() as int) =~= groups@);
    while i < groups.len()
        invariant
            i <= groups@.len(),
            find_group(groups@, name@) == find_group(
                groups@.subrange(i as int, groups@.len() as int),
                name@,
            ),
        decreases groups.len() - i,
    {
        let ghost rest = groups@.subrange(i as int, groups@.len() as int);
        assert(rest[0] == groups@[i as int]);
        if groups[i].display_name == *name {
            return Some(groups[i].id);
        }
        assert(rest.drop_first() =~= groups@.subrange(i + 1, groups@.len() as int));
        i += 1;
    }
    assert(groups@.subrange(i as int, groups@.len() as int).len() == 0);
    None
}

/// The ids of the groups that `names` name, each once, dropping names that
/// no group carries.
pub fn resolve_group_ids(names: &Vec<String>, groups: &Vec<Group>) -> (r: Vec<i32>)
    ensures
        r@ == resolve_ids(names.deep_view(), groups@),
        r@.no_duplicates(),
{
    let mut out: Vec<i32> = Vec::new();
    let mut i: usize = 0;
    while i < names.len()
        invariant
            i <= names@.len(),
            out@ == resolve_ids(names.deep_view().subrange(0, i as int), groups@),
        decreases names.len() - i,
    {
        let ghost s = names.deep_view().subrange(0, i + 1);
        assert(s.drop_last() =~= names.deep_view().subrange(0, i as int));
        assert(s.last() == names@[i as int]@);
        match find_group_id(groups, &names[i]) {
            Some(id) => {
                if !contains_id(&out, id) {
                    out.push(id);
                }
            },
            None => {},
        }
        i += 1;
    }
    assert(names.deep_view().subrange(0, names@.len() as int) =~= names.deep_view());
    proof {
        lemma_resolve_ids_no_duplicates(names.deep_view(), groups@);
    }
    out
}

/// Whether `v` holds `x`.
pub fn contains_id(v: &Vec<i32>, x: i32) -> (r: bool)
    ensures
        r == v@.contains(x),
{
    let mut i: usize = 0;
    while i < v.len()
        invariant
            i <= v@.len(),
            forall|j: int| 0 <= j < i ==> v@[j] != x,
        decreases v.len() - i,
    {
        if v[i] == x {
            return true;
        }
        i += 1;
    }
    false
}

/// The entries of `s` that `other` does not hold, in order.
pub fn ids_not_in(s: &Vec<i32>, other: &Vec<i32>) -> (r: Vec<i32>)
    ensures
        r@ == ids_without(s@, other@),
{
    let mut out: Vec<i32> = Vec::new();
    let mut i: usize = 0;
    while i < s.len()
        invariant
            i <= s@.len(),
            out@ == ids_without(s@.subrange(0, i as int), other@),
        decreases s.len() - i,
    {
        let ghost t = s@.subrange(0, i + 1);
        assert(t.drop_last() =~= s@.subrange(0, i as int));
        if !contains_id(other, s[i]) {
            out.push(s[i]);
        }
        i += 1;
    }
    assert(s@.subrange(0, s@.len() as int) =~= s@);
    out
}

/// The ids of the groups a user belongs to.
pub fn user_group_ids(user: &User) -> (r: Vec<i32>)
    ensures
        r@ == group_ids(user.groups@),
{
    let mut out: Vec<i32> = Vec::new();
    let mut i: usize = 0;
    while i < user.groups.len()
        invariant
            i <= user.groups@.len(),
            out@.len() == i,
            forall|j: int| 0 <= j < i ==> out@[j] == user.groups@[j].id,
        decreases user.groups.len() - i,
    {
        out.push(user.groups[i].id);
        i += 1;
    }
    assert(out@ =~= group_ids(user.groups@));
    out
}

/// The memberships that take `user` to the groups named `needed_groups`:
/// leave each current group that is not needed, join each needed group that
/// the user is not in. Names that no group of `all_groups` carries are ignored.
pub fn plan_group_update(user: &User, needed_groups: &Vec<String>, all_groups: &Vec<Group>) -> (r:
    GroupUpdate)
    ensures
        r.remove@ == ids_without(
            group_ids(user.groups@),
            resolve_ids(needed_groups.deep_view(), all_groups@),
        ),
        r.add@ == ids_without(
            resolve_ids(needed_groups.deep_view(), all_groups@),
            group_ids(user.groups@),
        ),
        r.add@.no_duplicates(),
{
    let needed = resolve_group_ids(needed_groups, all_groups);
    let current = user_group_ids(user);
    let remove = ids_not_in(&current, &needed);
    let add = ids_not_in(&needed, &current);
    proof {
        lemma_ids_without_no_duplicates(needed@, current@);
    }
    GroupUpdate { remove, add }
}

/// A sequence with one more entry holds exactly that entry and the ones it held.
pub proof fn lemma_push_contains(t: Seq<i32>, y: i32, x: i32)
    ensures
        t.push(y).contains(x) <==> (t.contains(x) || x == y),
{
    if t.push(y).contains(x) {
        let k = choose|k: int| 0 <= k < t.push(y).len() && t.push(y)[k] == x;
        if k < t.len() {
            assert(t[k] == x);
        }
    }
    if t.contains(x) {
        let k = choose|k: int| 0 <= k < t.len() && t[k] == x;
        assert(t.push(y)[k] == x);
    }
    if x == y {
        assert(t.push(y)[t.len() as int] == x);
    }
}

/// An id is kept by `ids_without` exactly when `s` holds it and `other` does not.
pub proof fn lemma_ids_without_contains(s: Seq<i32>, other: Seq<i32>, x: i32)
    ensures
        ids_without(s, other).contains(x) <==> (s.contains(x) && !other.contains(x)),
    decreases s.len(),
{
    if s.len() > 0 {
        let t = s.drop_last();
        let y = s.last();
        lemma_ids_without_contains(t, other, x);
        assert(s =~= t.push(y));
        lemma_push_contains(t, y, x);
        lemma_push_contains(ids_without(t, other), y, x);
    }
}

/// Nothing is left of `s` once every entry of it is in `other`.
pub proof fn lemma_ids_without_empty(s: Seq<i32>, other: Seq<i32>)
    requires
        forall|x: i32| s.contains(x) ==> other.contains(x),
    ensures
        ids_without(s, other).len() == 0,
{
    if ids_without(s, other).len() > 0 {
        let x = ids_without(s, other)[0];
        assert(ids_without(s, other).contains(x));
        lemma_ids_without_contains(s, other, x);
    }
}

/// Applying the planned removals and additions to a user's groups leaves it
/// in exactly the groups that the needed names resolve to: the needed names
/// that exist in the directory, and no others.
pub proof fn lemma_group_update_converges(
    user: User,
    needed_groups: Seq<Seq<char>>,
    all_groups: Seq<Group>,
)
    ensures
        membership_after(
            group_ids(user.groups@),
            ids_without(group_ids(user.groups@), resolve_ids(needed_groups, all_groups)),
            ids_without(resolve_ids(needed_groups, all_groups), group_ids(user.groups@)),
        ) == resolve_ids(needed_groups, all_groups).to_set(),
{
    let current = group_ids(user.groups@);
    let needed = resolve_ids(needed_groups, all_groups);
    let after = membership_after(
        current,
        ids_without(current, needed),
        ids_without(needed, current),
    );
    assert forall|x: i32| after.contains(x) <==> needed.to_set().contains(x) by {
        lemma_ids_without_contains(current, needed, x);
        lemma_ids_without_contains(needed, current, x);
    }
    assert(after =~= needed.to_set());
}

/// Once a user is in exactly the resolved groups, a second plan changes nothing.
pub proof fn lemma_group_update_idempotent(
    current: Seq<i32>,
    needed_groups: Seq<Seq<char>>,
    all_groups: Seq<Group>,
)
    requires
        current.to_set() == resolve_ids(needed_groups, all_groups).to_set(),
    ensures
        ids_without(current, resolve_ids(needed_groups, all_groups)).len() == 0,
        ids_without(resolve_ids(needed_groups, all_groups), current).len() == 0,
{
    let needed = resolve_ids(needed_groups, all_groups);
    assert forall|x: i32| current.contains(x) implies needed.contains(x) by {
        assert(current.to_set().contains(x));
    }
    assert forall|x: i32| needed.contains(x) implies current.contains(x) by {
        assert(needed.to_set().contains(x));
    }
    lemma_ids_without_empty(current, needed);
    lemma_ids_without_empty(needed, current);
}

/// Whether the first group named `name` has the id `id`.
pub open spec fn names_id(groups: Seq<Group>, name: Seq<char>, id: i32) -> bool {
    match find_group(groups, name) {
        Some(g) => g.id == id,
        None => false,
    }
}

/// A group id is resolved exactly when one of the names finds a group with
/// that id: names that no group carries add nothing.
pub proof fn lemma_resolve_ids_contains(names: Seq<Seq<char>>, groups: Seq<Group>, id: i32)
    ensures
        resolve_ids(names, groups).contains(id) <==> exists|i: int|
            0 <= i < names.len() && #[trigger] names_id(groups, names[i], id),
    decreases names.len(),
{
    if names.len() > 0 {
        let t = names.drop_last();
        lemma_resolve_ids_contains(t, groups, id);
        let prev = resolve_ids(t, groups);
        let r = resolve_ids(names, groups);
        if r.contains(id) {
            let k = choose|k: int| 0 <= k < r.len() && r[k] == id;
            if k < prev.len() {
                assert(prev[k] == id);
                assert(prev.contains(id));
                let i = choose|i: int| 0 <= i < t.len() && #[trigger] names_id(groups, t[i], id);
                assert(names[i] == t[i]);
            } else {
                assert(names_id(groups, names[names.len() - 1], id));
            }
        }
        if exists|i: int| 0 <= i < names.len() && #[trigger] names_id(groups, names[i], id) {
            let i = choose|i: int| 0 <= i < names.len() && #[trigger] names_id(groups, names[i], id);
            if i < names.len() - 1 {
                assert(t[i] == names[i]);
                assert(names_id(groups, t[i], id));
                let k = choose|k: int| 0 <= k < prev.len() && prev[k] == id;
                assert(r[k] == id);
            } else if !prev.contains(id) {
                assert(r[prev.len() as int] == id);
            }
        }
    }
}

/// The resolved ids hold no id twice.
pub proof fn lemma_resolve_ids_no_duplicates(names: Seq<Seq<char>>, groups: Seq<Group>)
    ensures
        resolve_ids(names, groups).no_duplicates(),
    decreases names.len(),
{
    if names.len() > 0 {
        let prev = resolve_ids(names.drop_last(), groups);
        lemma_resolve_ids_no_duplicates(names.drop_last(), groups);
        if let Some(g) = find_group(groups, names.last()) {
            if !prev.contains(g.id) {
                let r = prev.push(g.id);
                assert forall|a: int, b: int| 0 <= a < r.len() && 0 <= b < r.len() && a != b implies r[a]
                    != r[b] by {
                    if a == prev.len() {
                        assert(r[b] == prev[b]);
                    } else if b == prev.len() {
                        assert(r[a] == prev[a]);
                    }
                }
            }
        }
    }
}

/// What `ids_without` keeps of a sequence without repeats has no repeats.
pub proof fn lemma_ids_without_no_duplicates(s: Seq<i32>, other: Seq<i32>)
    requires
        s.no_duplicates(),
    ensures
        ids_without(s, other).no_duplicates(),
    decreases s.len(),
{
    if s.len() > 0 {
        let t = s.drop_last();
        let y = s.last();
        assert(t.no_duplicates());
        lemma_ids_without_no_duplicates(t, other);
        let prev = ids_without(t, other);
        if !other.contains(y) {
            lemma_ids_without_contains(t, other, y);
            if t.contains(y) {
                let k = choose|k: int| 0 <= k < t.len() && t[k] == y;
                assert(s[k] == s[s.len() - 1]);
            }
            let r = prev.push(y);
            assert forall|a: int, b: int| 0 <= a < r.len() && 0 <= b < r.len() && a != b implies r[a]
                != r[b] by {
                if a == prev.len() {
                    assert(r[b] == prev[b]);
                } else if b == prev.len() {
                    assert(r[a] == prev[a]);
                }
            }
        }
    }
}

} // verus!
