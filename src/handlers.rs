//! What each chat command does to the store, once its words are read: the
//! caller's platform identity and the names in the command are resolved to
//! rows, then the operation runs.
use vstd::prelude::*;

use crate::attendance_repository::{check_in_at, check_in_post, check_out_at, check_out_post};
use crate::model::{CoreError, Entity};
use crate::store::{Store, StoreView};
use crate::team_repository::{assign_member_at, assign_member_post, create_team_at, create_team_post};
use crate::time::Timestamp;
use crate::user_repository::{register_admin_at, register_post};

verus! {

/// The member and team that platform user `author` means by team
/// `team_name`: its membership row in the team of that name.
pub open spec fn member_target(v: StoreView, author: Seq<char>, team_name: Seq<char>) -> Result<
    (i32, i32),
    CoreError,
> {
    match v.team_index(team_name) {
        None => Err(CoreError::NotFound(Entity::Team)),
        Some(t) => match v.member_index(v.teams[t].id as int, author) {
            None => Err(CoreError::NotFound(Entity::Member)),
            Some(m) => Ok((v.members[m].id, v.teams[t].id)),
        },
    }
}

/// Resolves the membership of platform user `author` in team `team_name`.
fn resolve_member(store: &Store, author: &str, team_name: &str) -> (r: Result<(i32, i32), CoreError>)
    requires
        store@.wf(),
    ensures
        r == member_target(store@, author@, team_name@),
{
    let name = String::from_str(team_name);
    let t = match store.find_team(&name) {
        Some(t) => t,
        None => {
            return Err(CoreError::NotFound(Entity::Team));
        },
    };
    let team_id = store.teams()[t].id;
    let key = String::from_str(author);
    match store.find_member(team_id, &key) {
        Some(m) => Ok((store.members()[m].id, team_id)),
        None => Err(CoreError::NotFound(Entity::Member)),
    }
}

/// `check_in <team> <status>` from platform user `author` at `now`.
pub fn handle_check_in(
    store: &mut Store,
    author: &str,
    team_name: &str,
    status: String,
    now: Timestamp,
) -> (r: Result<(), CoreError>)
    requires
        old(store)@.wf(),
    ensures
        final(store)@.wf(),
        match member_target(old(store)@, author@, team_name@) {
            Err(e) => r == Err::<(), CoreError>(e) && final(store)@ == old(store)@,
            Ok((m, t)) => check_in_post(old(store)@, final(store)@, m, t, status, now, r),
        },
{
    match resolve_member(store, author, team_name) {
        Err(e) => Err(e),
        Ok((m, t)) => check_in_at(store, m, t, status, now),
    }
}

/// `check_out <team>` from platform user `author` at `now`.
pub fn handle_check_out(store: &mut Store, author: &str, team_name: &str, now: Timestamp) -> (r:
    Result<(), CoreError>)
    requires
        old(store)@.wf(),
    ensures
        final(store)@.wf(),
        match member_target(old(store)@, author@, team_name@) {
            Err(e) => r == Err::<(), CoreError>(e) && final(store)@ == old(store)@,
            Ok((m, _)) => check_out_post(old(store)@, final(store)@, m, now, r),
        },
{
    match resolve_member(store, author, team_name) {
        Err(e) => Err(e),
        Ok((m, _)) => check_out_at(store, m, now),
    }
}

/// `register <password>` from platform user `author`, named `author_name`,
/// at `now`.
pub fn handle_register(
    store: &mut Store,
    author: &str,
    author_name: &str,
    password: &str,
    now: Timestamp,
) -> (r: Result<(), CoreError>)
    requires
        old(store)@.wf(),
    ensures
        final(store)@.wf(),
        register_post(old(store)@, final(store)@, author@, author_name@, password@, now, r),
{
    register_admin_at(store, author, author_name, password, now)
}

/// `create_team <team>` from platform user `author` at `now`: the team is
/// owned by the admin with that identity.
pub fn handle_create_team(store: &mut Store, author: &str, team_name: &str, now: Timestamp) -> (r:
    Result<i32, CoreError>)
    requires
        old(store)@.wf(),
    ensures
        final(store)@.wf(),
        match old(store)@.admin_index(author@) {
            None => r == Err::<i32, CoreError>(CoreError::NotFound(Entity::Admin)) && final(store)@
                == old(store)@,
            Some(u) => create_team_post(
                old(store)@,
                final(store)@,
                team_name@,
                old(store)@.users[u].id,
                now,
                r,
            ),
        },
{
    let key = String::from_str(author);
    match store.find_admin(&key) {
        None => Err(CoreError::NotFound(Entity::Admin)),
        Some(u) => {
            let admin = store.users()[u].id;
            create_team_at(store, team_name, admin, now)
        },
    }
}

/// `add_member <team> <@user> as <name>` at `now`: platform user `user_id`
/// joins the team of that name as `username`.
pub fn handle_add_member(
    store: &mut Store,
    team_name: &str,
    user_id: &str,
    username: String,
    now: Timestamp,
) -> (r: Result<(), CoreError>)
    requires
        old(store)@.wf(),
    ensures
        final(store)@.wf(),
        match old(store)@.team_index(team_name@) {
            None => r == Err::<(), CoreError>(CoreError::NotFound(Entity::Team)) && final(store)@
                == old(store)@,
            Some(t) => assign_member_post(
                old(store)@,
                final(store)@,
                user_id@,
                username,
                old(store)@.teams[t].id,
                now,
                r,
            ),
        },
{
    let name = String::from_str(team_name);
    match store.find_team(&name) {
        None => Err(CoreError::NotFound(Entity::Team)),
        Some(t) => {
            let team_id = store.teams()[t].id;
            assign_member_at(store, user_id, username, team_id, now)
        },
    }
}

} // verus!
