//! Team and membership operations as the command surfaces call them.
use vstd::prelude::*;

use crate::model::{member_lines, team_lines, CoreError, MemberTable, TeamTable};
use crate::store::Store;
use crate::team_repository::{
    self, admin_teams_of, assign_member_post, create_team_post, members_of,
};
use crate::time::Timestamp;

verus! {

/// Creates team `name` owned by admin `admin_id` now, and returns its
/// identifier.
pub fn register_team(store: &mut Store, name: &str, admin_id: i32) -> (r: Result<i32, CoreError>)
    requires
        old(store)@.wf(),
    ensures
        final(store)@.wf(),
        create_team_post(
            old(store)@,
            final(store)@,
            name@,
            admin_id,
            final(store)@.teams.last().created_at,
            r,
        ),
{
    team_repository::create_team(store, name, admin_id)
}

/// Adds the platform user `discord_id`, named `username`, to team `team_id`
/// today.
pub fn add_member(store: &mut Store, discord_id: &str, username: String, team_id: i32) -> (r: Result<
    (),
    CoreError,
>)
    requires
        old(store)@.wf(),
    ensures
        final(store)@.wf(),
        exists|t: Timestamp|
            #[trigger] assign_member_post(
                old(store)@,
                final(store)@,
                discord_id@,
                username,
                team_id,
                t,
                r,
            ),
{
    team_repository::assign_member(store, discord_id, username, team_id)
}

/// The teams of the admin with platform identity `admin_discord_id`.
pub fn show_team(store: &Store, admin_discord_id: &str) -> (r: Result<Vec<TeamTable>, CoreError>)
    requires
        store@.wf(),
    ensures
        match admin_teams_of(store@, admin_discord_id@) {
            Ok(lines) => r matches Ok(rows) && team_lines(rows@) == lines,
            Err(e) => r == Err::<Vec<TeamTable>, CoreError>(e),
        },
{
    team_repository::get_admin_teams(store, admin_discord_id)
}

/// The members of the team named `team_name`.
pub fn get_members_by_team(store: &Store, team_name: &str) -> (r: Result<Vec<MemberTable>, CoreError>)
    requires
        store@.wf(),
    ensures
        match members_of(store@, team_name@) {
            Ok(lines) => r matches Ok(rows) && member_lines(rows@) == lines,
            Err(e) => r == Err::<Vec<MemberTable>, CoreError>(e),
        },
{
    team_repository::get_members(store, team_name)
}

} // verus!
