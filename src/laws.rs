//! Properties of the reconcilers, stated over their contracts and proved.
//! The directory is modelled as a map from login to the set of group ids the
//! user is in, and a map from group id to display name.

use vstd::prelude::*;
use crate::group::{group_step, GroupReconcile, GroupState};
use crate::controller::{Action, APPLY_REQUEUE_SECONDS, first_position, has_finalizer, Next, Request, Response, Step};
use crate::membership::{
    find_group, GroupUpdate, group_ids, ids_without, lemma_group_update_converges,
    lemma_group_update_idempotent, lemma_resolve_ids_contains, membership_after, names_id,
    resolve_ids,
};
use crate::naming::{login_of, secret_name_of};
use crate::queries::{Group, User};
use crate::resources::{Error, SecretData, ServiceUserSpec};
use crate::service_user::{
    ApplyState, ServiceUserApply, apply_awaits, apply_step, authentication_failed, desired_groups_of,
    is_fresh_secret, is_planned,
};

verus! {

/// The directory as the reconcilers see it.
pub struct Directory {
    /// Each user's login and the ids of its groups.
    pub users: Map<Seq<char>, Set<i32>>,
    /// Each group's id and display name.
    pub groups: Map<i32, Seq<char>>,
}

/// The ids of the existing groups that `names` name.
pub open spec fn named_ids(groups: Map<i32, Seq<char>>, names: Set<Seq<char>>) -> Set<i32> {
    groups.dom().filter(|id: i32| names.contains(groups[id]))
}

/// The directory after a successful apply of a service user with login
/// `login` that should be in the groups named `names`.
pub open spec fn applied(dir: Directory, login: Seq<char>, names: Set<Seq<char>>) -> Directory {
    Directory { users: dir.users.insert(login, named_ids(dir.groups, names)), groups: dir.groups }
}

/// The directory after a successful cleanup of the service user `login`.
pub open spec fn cleaned(dir: Directory, login: Seq<char>) -> Directory {
    Directory { users: dir.users.remove(login), groups: dir.groups }
}

/// An apply (`Some(names)`) or a cleanup (`None`) of one service user.
pub open spec fn run_one(dir: Directory, login: Seq<char>, op: Option<Set<Seq<char>>>) -> Directory {
    match op {
        Some(names) => applied(dir, login, names),
        None => cleaned(dir, login),
    }
}

/// Applies and cleanups of one service user, in order.
pub open spec fn run_all(dir: Directory, login: Seq<char>, ops: Seq<Option<Set<Seq<char>>>>) -> Directory
    decreases ops.len(),
{
    if ops.len() == 0 {
        dir
    } else {
        run_one(run_all(dir, login, ops.drop_last()), login, ops.last())
    }
}

/// `listing` is a listing of `groups`: each listed group is in the map
/// under its id and name, each group of the map is listed, and no two listed
/// groups share a display name.
pub open spec fn lists(listing: Seq<Group>, groups: Map<i32, Seq<char>>) -> bool {
    &&& forall|k: int|
        0 <= k < listing.len() ==> groups.contains_key(#[trigger] listing[k].id) && groups[listing[k].id]
            == listing[k].display_name@
    &&& forall|id: i32|
        groups.contains_key(id) ==> exists|k: int| 0 <= k < listing.len() && #[trigger] listing[k].id == id
    &&& forall|a: int, b: int|
        0 <= a < listing.len() && 0 <= b < listing.len() && #[trigger] listing[a].display_name@
            == #[trigger] listing[b].display_name@ ==> a == b
}

/// The group that `find_group` returns is a listed group with the name,
/// and it returns none only when no listed group has the name.
pub proof fn lemma_find_group(listing: Seq<Group>, name: Seq<char>)
    ensures
        find_group(listing, name) matches Some(g) ==> exists|k: int|
            0 <= k < listing.len() && listing[k] == g && g.display_name@ == name,
        find_group(listing, name) is None ==> forall|k: int|
            0 <= k < listing.len() ==> listing[k].display_name@ != name,
    decreases listing.len(),
{
    if listing.len() > 0 && listing[0].display_name@ != name {
        let rest = listing.drop_first();
        lemma_find_group(rest, name);
        if let Some(g) = find_group(rest, name) {
            let k = choose|k: int| 0 <= k < rest.len() && rest[k] == g && g.display_name@ == name;
            assert(listing[k + 1] == g);
        } else {
            assert forall|k: int| 0 <= k < listing.len() implies listing[k].display_name@ != name by {
                if k > 0 {
                    assert(listing[k] == rest[k - 1]);
                }
            }
        }
    }
}

/// Over a listing of the directory's groups, the ids that the names
/// resolve to are the ids of the existing groups with those names.
pub proof fn law_listing_resolves(names: Seq<Seq<char>>, listing: Seq<Group>, groups: Map<i32, Seq<char>>)
    requires
        lists(listing, groups),
    ensures
        resolve_ids(names, listing).to_set() == named_ids(groups, names.to_set()),
{
    assert forall|id: i32|
        resolve_ids(names, listing).to_set().contains(id) <==> named_ids(
            groups,
            names.to_set(),
        ).contains(id) by {
        lemma_resolve_ids_contains(names, listing, id);
        if resolve_ids(names, listing).contains(id) {
            let i = choose|i: int| 0 <= i < names.len() && #[trigger] names_id(listing, names[i], id);
            lemma_find_group(listing, names[i]);
            let g = find_group(listing, names[i])->0;
            let k = choose|k: int| 0 <= k < listing.len() && listing[k] == g && g.display_name@ == names[i];
            assert(groups.contains_key(listing[k].id));
            assert(names.to_set().contains(names[i]));
        }
        if named_ids(groups, names.to_set()).contains(id) {
            let n = groups[id];
            assert(names.to_set().contains(n));
            let i = choose|i: int| 0 <= i < names.len() && names[i] == n;
            let k = choose|k: int| 0 <= k < listing.len() && #[trigger] listing[k].id == id;
            lemma_find_group(listing, n);
            assert(listing[k].display_name@ == n);
            let g = find_group(listing, n)->0;
            let k2 = choose|k2: int| 0 <= k2 < listing.len() && listing[k2] == g && g.display_name@ == n;
            assert(listing[k2].display_name@ == listing[k].display_name@);
            assert(names_id(listing, names[i], id));
        }
    }
    assert(resolve_ids(names, listing).to_set() =~= named_ids(groups, names.to_set()));
}

/// The memberships that an apply plans from a listing of the directory
/// leave the user in the groups that the model of an apply gives it.
pub proof fn law_apply_reaches_model(
    dir: Directory,
    login: Seq<char>,
    spec: ServiceUserSpec,
    user: User,
    listing: Seq<Group>,
    update: GroupUpdate,
)
    requires
        lists(listing, dir.groups),
        is_planned(update, user, desired_groups_of(spec), listing),
    ensures
        membership_after(group_ids(user.groups@), update.remove@, update.add@) == applied(
            dir,
            login,
            desired_groups_of(spec).to_set(),
        ).users[login],
{
    lemma_group_update_converges(user, desired_groups_of(spec), listing);
    law_listing_resolves(desired_groups_of(spec), listing, dir.groups);
}

/// The credentials secret that an apply creates for a service user without
/// one lives in the user's namespace, is named `<name>-lldap-credentials`,
/// is owned by the user, and holds the login `<name>.<namespace>`.
pub proof fn law_new_secret_identity(before: ServiceUserApply, after: ServiceUserApply, r: Step)
    requires
        before.wf(),
        before.state is FetchingSecret,
        apply_step(before, Ok(Response::Secret(None)), after, r),
    ensures
        r.next matches Next::Send(Request::CommitSecret { namespace, name, secret }) && {
            &&& namespace == before.namespace
            &&& name@ == secret_name_of(before.name@)
            &&& secret.owner_references@ == seq![before.owner->0]
            &&& secret.username matches Some(u) && u@ == login_of(before.name@, before.namespace@)
        },
{
}

/// A directory user with the login exists after an apply looked it up: it
/// was found, or the directory said it was missing and it is created under
/// that login.
pub proof fn law_user_exists_or_created(
    before: ServiceUserApply,
    event: Result<Response, Error>,
    after: ServiceUserApply,
    r: Step,
)
    requires
        before.wf(),
        before.state is GettingUser,
        apply_step(before, event, after, r),
        !(after.state is Finished),
    ensures
        event is Ok ==> after.state is ListingGroups && r.next == Next::Send(Request::ListGroups),
        event is Err ==> r.next == Next::Send(
            Request::CreateUser { login: before.login },
        ) && before.login@ == login_of(before.name@, before.namespace@),
{
}

/// After the planned removals and additions, a service user is in exactly
/// the existing groups named by its additional groups and its role group:
/// names that no group carries are ignored.
pub proof fn law_membership_matches_spec(
    spec: ServiceUserSpec,
    user: User,
    groups: Seq<Group>,
    update: GroupUpdate,
)
    requires
        is_planned(update, user, desired_groups_of(spec), groups),
    ensures
        forall|id: i32|
            membership_after(group_ids(user.groups@), update.remove@, update.add@).contains(id)
                <==> exists|i: int|
                0 <= i < desired_groups_of(spec).len() && #[trigger] names_id(
                    groups,
                    desired_groups_of(spec)[i],
                    id,
                ),
{
    let names = desired_groups_of(spec);
    lemma_group_update_converges(user, names, groups);
    assert forall|id: i32|
        membership_after(group_ids(user.groups@), update.remove@, update.add@).contains(id)
            <==> exists|i: int| 0 <= i < names.len() && #[trigger] names_id(groups, names[i], id) by {
        lemma_resolve_ids_contains(names, groups, id);
    }
}

/// A second apply right after the first sends no membership change: the
/// user is already in the resolved groups.
pub proof fn law_second_apply_changes_no_membership(
    user: User,
    names: Seq<Seq<char>>,
    groups: Seq<Group>,
    update: GroupUpdate,
)
    requires
        group_ids(user.groups@).to_set() == resolve_ids(names, groups).to_set(),
        is_planned(update, user, names, groups),
    ensures
        update.remove@.len() == 0,
        update.add@.len() == 0,
{
    lemma_group_update_idempotent(group_ids(user.groups@), names, groups);
}

/// The secret an apply carries once it has stored it.
pub open spec fn carried_secret(state: ApplyState) -> Option<SecretData> {
    match state {
        ApplyState::LoggingIn { secret } => Some(secret),
        ApplyState::GettingUser { secret } => Some(secret),
        ApplyState::CreatingUser { secret } => Some(secret),
        ApplyState::ListingGroups { secret, .. } => Some(secret),
        ApplyState::Leaving { secret, .. } => Some(secret),
        ApplyState::Joining { secret, .. } => Some(secret),
        ApplyState::Registering { secret, .. } => Some(secret),
        ApplyState::FinishingRegistration { secret } => Some(secret),
        _ => None,
    }
}

/// A carried secret that holds no password.
pub open spec fn lacks_password(secret: Option<SecretData>) -> bool {
    match secret {
        Some(s) => s.password is None,
        None => false,
    }
}

/// When every request of an apply succeeds, each step sends the next
/// request or ends the apply with a requeue after an hour. It fails only
/// where the OPAQUE client rejects the server's registration response, or
/// where the stored secret holds no password (a secret this controller
/// creates always holds one).
pub proof fn law_successful_answers_progress(
    before: ServiceUserApply,
    resp: Response,
    after: ServiceUserApply,
    r: Step,
)
    requires
        before.wf(),
        apply_awaits(before.state, Ok(resp)),
        apply_step(before, Ok(resp), after, r),
    ensures
        r.next is Send || r.next == Next::Finish(
            Ok::<Action, Error>(Action::Requeue { seconds: APPLY_REQUEUE_SECONDS }),
        ) || (before.state is Registering && authentication_failed(after.state, r)) || (r.next
            == Next::Finish(Err::<Action, Error>(Error::MissingObjectKey(".data.password")))
            && lacks_password(carried_secret(before.state))),
{
}

/// An apply that ends successfully had the directory return a user for
/// its lookup of the login, or for its creation when the lookup found none.
pub proof fn law_success_follows_user(
    before: ServiceUserApply,
    event: Result<Response, Error>,
    after: ServiceUserApply,
    r: Step,
)
    requires
        before.wf(),
        apply_step(before, event, after, r),
        r.next is Finish && r.next->Finish_0 is Ok,
    ensures
        before.user_confirmed@,
{
}

/// A secret that an apply creates holds a password.
pub proof fn law_fresh_secret_has_password(secret: SecretData, login: Seq<char>, owner: crate::resources::OwnerReference)
    requires
        is_fresh_secret(secret, login, owner),
    ensures
        secret.password is Some,
{
}

/// A second apply finds the secret the first one stored: it creates no
/// secret and publishes no event for it.
pub proof fn law_existing_secret_is_kept(
    before: ServiceUserApply,
    secret: SecretData,
    after: ServiceUserApply,
    r: Step,
)
    requires
        before.state is FetchingSecret,
        apply_step(before, Ok(Response::Secret(Some(secret))), after, r),
    ensures
        r.notice is None,
        after.state == (ApplyState::CommittingSecret { created: false }),
        r.next matches Next::Send(Request::CommitSecret { secret: s, .. }) && s == secret,
{
}

/// Of the directory model: applying a service user twice gives the
/// directory that applying it once gives. `law_apply_reaches_model` ties the
/// memberships an apply plans to this model.
pub proof fn law_apply_idempotent(dir: Directory, login: Seq<char>, names: Set<Seq<char>>)
    ensures
        applied(applied(dir, login, names), login, names) == applied(dir, login, names),
{
    assert(applied(applied(dir, login, names), login, names).users =~= applied(
        dir,
        login,
        names,
    ).users);
}

/// Of the directory model: after a cleanup the directory has no user with
/// the login. The cleanup's own contract (`ServiceUserCleanup::step`) sends
/// the deletion and counts a user already gone as deleted.
pub proof fn law_cleanup_removes_user(dir: Directory, login: Seq<char>)
    ensures
        !cleaned(dir, login).users.contains_key(login),
{
}

/// Of the directory model: any sequence of applies and cleanups of one
/// service user leaves the directory as the last of them alone would.
pub proof fn law_last_operation_wins(
    dir: Directory,
    login: Seq<char>,
    ops: Seq<Option<Set<Seq<char>>>>,
)
    requires
        ops.len() > 0,
    ensures
        run_all(dir, login, ops) == run_one(dir, login, ops.last()),
{
    let prev = run_all(dir, login, ops.drop_last());
    lemma_others_unchanged(dir, login, ops.drop_last());
    let a = run_one(prev, login, ops.last());
    let b = run_one(dir, login, ops.last());
    assert(a.users =~= b.users);
}

/// Applies and cleanups of one service user leave the directory's groups
/// and its other users alone.
pub proof fn lemma_others_unchanged(dir: Directory, login: Seq<char>, ops: Seq<Option<Set<Seq<char>>>>)
    ensures
        run_all(dir, login, ops).groups == dir.groups,
        forall|k: Seq<char>|
            k != login ==> (run_all(dir, login, ops).users.contains_key(k)
                <==> dir.users.contains_key(k)),
        forall|k: Seq<char>|
            k != login && dir.users.contains_key(k) ==> run_all(dir, login, ops).users[k]
                == dir.users[k],
    decreases ops.len(),
{
    if ops.len() > 0 {
        lemma_others_unchanged(dir, login, ops.drop_last());
    }
}

/// `groups` has exactly one group named `name`.
pub open spec fn exactly_one_named(groups: Map<i32, Seq<char>>, name: Seq<char>) -> bool {
    exists|id: i32|
        groups.contains_key(id) && groups[id] == name && forall|other: i32|
            groups.contains_key(other) && groups[other] == name ==> other == id
}

/// `groups` has at most one group named `name`.
pub open spec fn at_most_one_named(groups: Map<i32, Seq<char>>, name: Seq<char>) -> bool {
    forall|a: i32, b: i32|
        groups.contains_key(a) && groups[a] == name && groups.contains_key(b) && groups[b] == name
            ==> a == b
}

/// The directory's groups after a group apply: unchanged if one is named
/// `name`, else with a new group `name` under the id `fresh` that the
/// directory assigned.
pub open spec fn group_applied(groups: Map<i32, Seq<char>>, name: Seq<char>, fresh: i32) -> Map<i32, Seq<char>> {
    if exists|id: i32| groups.contains_key(id) && groups[id] == name {
        groups
    } else {
        groups.insert(fresh, name)
    }
}

/// After a group apply the directory has exactly one group with the
/// object's name, unless someone else had already made two.
pub proof fn law_group_exists_once(groups: Map<i32, Seq<char>>, name: Seq<char>, fresh: i32)
    requires
        !groups.contains_key(fresh),
        at_most_one_named(groups, name),
    ensures
        exactly_one_named(group_applied(groups, name, fresh), name),
        group_applied(group_applied(groups, name, fresh), name, fresh) == group_applied(
            groups,
            name,
            fresh,
        ),
{
    let after = group_applied(groups, name, fresh);
    if exists|id: i32| groups.contains_key(id) && groups[id] == name {
        let id = choose|id: i32| groups.contains_key(id) && groups[id] == name;
        assert(after.contains_key(id) && after[id] == name);
    } else {
        assert(after.contains_key(fresh) && after[fresh] == name);
        assert forall|other: i32| after.contains_key(other) && after[other] == name implies other
            == fresh by {
            if other != fresh {
                assert(groups.contains_key(other) && groups[other] == name);
            }
        }
    }
}

/// Each apply logs in to the directory before it asks the directory
/// anything: while the secret is handled, the only directory request that
/// goes out is the login.
pub proof fn law_login_before_directory(
    before: ServiceUserApply,
    event: Result<Response, Error>,
    after: ServiceUserApply,
    r: Step,
)
    requires
        before.state is FetchingSecret || before.state is CommittingSecret,
        apply_step(before, event, after, r),
    ensures
        r.next is Finish || r.next matches Next::Send(Request::CommitSecret { .. }) || r.next
            == Next::Send(Request::Login),
        r.next == Next::Send(Request::Login) ==> after.state is LoggingIn,
{
}

/// A group apply creates the group exactly when the directory has no group
/// with the object's name, which is when the model of a group apply adds one.
pub proof fn law_group_apply_creates_when_missing(
    before: GroupReconcile,
    listing: Vec<Group>,
    groups: Map<i32, Seq<char>>,
    after: GroupReconcile,
    r: Step,
)
    requires
        before.state == GroupState::Listing,
        !before.cleanup,
        lists(listing@, groups),
        group_step(before, Ok(Response::Groups(listing)), after, r),
    ensures
        r.next == Next::Send(Request::CreateGroup { name: before.name }) <==> !exists|id: i32|
            groups.contains_key(id) && groups[id] == before.name@,
{
    lemma_find_group(listing@, before.name@);
    if exists|id: i32| groups.contains_key(id) && groups[id] == before.name@ {
        let id = choose|id: i32| groups.contains_key(id) && groups[id] == before.name@;
        let k = choose|k: int| 0 <= k < listing@.len() && #[trigger] listing@[k].id == id;
        assert(listing@[k].display_name@ == before.name@);
    }
    if let Some(g) = find_group(listing@, before.name@) {
        let k = choose|k: int| 0 <= k < listing@.len() && listing@[k] == g && g.display_name@ == before.name@;
        assert(groups.contains_key(listing@[k].id));
    }
}

/// Once the finalizer is added an object has it, so the dispatcher applies it.
pub proof fn law_finalizer_present_after_add(list: Seq<String>, added: String, name: Seq<char>)
    requires
        added@ == name,
    ensures
        has_finalizer(list.push(added), name),
{
    assert(list.push(added)[list.len() as int]@ == name);
}

/// Removing the finalizer at its first position after a cleanup leaves
/// the object without it, when it held the finalizer once.
pub proof fn law_finalizer_absent_after_cleanup(list: Seq<String>, name: Seq<char>, index: int)
    requires
        first_position(list, name, index),
        forall|j: int| 0 <= j < list.len() && list[j]@ == name ==> j == index,
    ensures
        !has_finalizer(list.remove(index), name),
{
    let rest = list.remove(index);
    assert forall|j: int| 0 <= j < rest.len() implies rest[j]@ != name by {
        if j < index {
            assert(rest[j] == list[j]);
        } else {
            assert(rest[j] == list[j + 1]);
        }
    }
}

} // verus!
