//! Teams owned by admins, and their members.
use vstd::prelude::*;

use crate::model::{
    date_shown, member_lines, show_date, show_time, team_lines, time_shown, CoreError, Entity,
    Member, MemberLine, MemberTable, Team, TeamLine, TeamTable,
};
use crate::store::{Store, StoreView, MAX_ID};
use crate::time::{clock_now, date_of, day_of, Date, Timestamp};

verus! {

/// The role a member gets on joining.
pub open spec fn default_position() -> Seq<char> {
    seq!['D', 'e', 'f', 'a', 'u', 'l', 't']
}

/// The teams of `teams` owned by admin `admin_id`, in order of creation.
pub open spec fn owned_teams(teams: Seq<Team>, admin_id: int) -> Seq<Team>
    decreases teams.len(),
{
    if teams.len() == 0 {
        Seq::empty()
    } else {
        let earlier = owned_teams(teams.drop_last(), admin_id);
        if teams.last().admin_id == admin_id {
            earlier.push(teams.last())
        } else {
            earlier
        }
    }
}

/// The members of `members` that belong to team `team_id`, in order of joining.
pub open spec fn team_members(members: Seq<Member>, team_id: int) -> Seq<Member>
    decreases members.len(),
{
    if members.len() == 0 {
        Seq::empty()
    } else {
        let earlier = team_members(members.drop_last(), team_id);
        if members.last().team_id == team_id {
            earlier.push(members.last())
        } else {
            earlier
        }
    }
}

/// The listed text of a team.
pub open spec fn team_line(t: Team) -> TeamLine {
    TeamLine { name: t.name@, created_at: time_shown(Some(t.created_at)) }
}

/// The listed text of a member.
pub open spec fn member_line(m: Member) -> MemberLine {
    MemberLine { username: m.username@, join_date: date_shown(m.join_date) }
}

/// Why `create_team(name, ..)` is refused on `v`, if it is.
pub open spec fn create_team_error(v: StoreView, name: Seq<char>) -> Option<CoreError> {
    if v.team_index(name) is Some {
        Some(CoreError::Conflict(Entity::Team))
    } else if v.teams.len() >= MAX_ID {
        Some(CoreError::Persistence(Entity::Team))
    } else {
        None
    }
}

/// Why `assign_member(dc_id, .., team_id)` is refused on `v`, if it is.
pub open spec fn assign_member_error(v: StoreView, dc_id: Seq<char>, team_id: int) -> Option<
    CoreError,
> {
    if !v.has_team(team_id) {
        Some(CoreError::NotFound(Entity::Team))
    } else if v.member_index(team_id, dc_id) is Some {
        Some(CoreError::Conflict(Entity::Member))
    } else if v.members.len() >= MAX_ID {
        Some(CoreError::Persistence(Entity::Member))
    } else {
        None
    }
}

/// `w` is `v` with one team added: the next identifier, named `name`, owned
/// by `admin`, created at `now`.
pub open spec fn team_added(v: StoreView, w: StoreView, name: Seq<char>, admin: int, now: Timestamp) -> bool {
    &&& w == (StoreView { teams: v.teams.push(w.teams.last()), ..v })
    &&& w.teams.last().id == v.teams.len() + 1
    &&& w.teams.last().name@ == name
    &&& w.teams.last().admin_id == admin
    &&& w.teams.last().created_at == now
}

/// `w` is `v` with one member added to team `team_id`: the next identifier,
/// platform identity `dc_id`, name `username`, the default role, joined on
/// the day of `now`.
pub open spec fn member_added(
    v: StoreView,
    w: StoreView,
    dc_id: Seq<char>,
    username: String,
    team_id: int,
    now: Timestamp,
) -> bool {
    &&& w == (StoreView { members: v.members.push(w.members.last()), ..v })
    &&& w.members.last().id == v.members.len() + 1
    &&& w.members.last().team_id == team_id
    &&& w.members.last().username == username
    &&& w.members.last().discord_id@ == dc_id
    &&& w.members.last().position@ == default_position()
    &&& w.members.last().join_date == (Date { days: day_of(now.secs as int) as i64 })
}

/// What `create_team(name, admin)` at `now` does: from `v` to `w`,
/// answering `r`.
pub open spec fn create_team_post(
    v: StoreView,
    w: StoreView,
    name: Seq<char>,
    admin: i32,
    now: Timestamp,
    r: Result<i32, CoreError>,
) -> bool {
    match create_team_error(v, name) {
        Some(e) => r == Err::<i32, CoreError>(e) && w == v,
        None => r == Ok::<i32, CoreError>((v.teams.len() + 1) as i32) && team_added(v, w, name, admin as int, now),
    }
}

/// What `assign_member(dc_id, username, team_id)` at `now` does: from `v` to
/// `w`, answering `r`.
pub open spec fn assign_member_post(
    v: StoreView,
    w: StoreView,
    dc_id: Seq<char>,
    username: String,
    team_id: i32,
    now: Timestamp,
    r: Result<(), CoreError>,
) -> bool {
    match assign_member_error(v, dc_id, team_id as int) {
        Some(e) => r == Err::<(), CoreError>(e) && w == v,
        None => r is Ok && member_added(v, w, dc_id, username, team_id as int, now),
    }
}

/// Creates team `name` owned by admin `admin` at `now`, and returns its
/// identifier. Team names are unique: a name in use is a conflict.
pub fn create_team_at(store: &mut Store, name: &str, admin: i32, now: Timestamp) -> (r: Result<
    i32,
    CoreError,
>)
    requires
        old(store)@.wf(),
    ensures
        final(store)@.wf(),
        create_team_post(old(store)@, final(store)@, name@, admin, now, r),
{
    let ghost v = store@;
    let name = String::from_str(name);
    if store.find_team(&name).is_some() {
        return Err(CoreError::Conflict(Entity::Team));
    }
    let n = store.teams().len();
    if n >= MAX_ID as usize {
        return Err(CoreError::Persistence(Entity::Team));
    }
    let id = (n + 1) as i32;
    store.insert_team(Team { id, name, admin_id: admin, created_at: now });
    proof {
        let w = store@;
        assert forall|i: int| 0 <= i < w.teams.len() implies #[trigger] w.teams[i].id == i + 1 by {
            if i < v.teams.len() {
                assert(w.teams[i] == v.teams[i]);
            }
        }
        assert forall|i: int, j: int|
            0 <= i < w.teams.len() && 0 <= j < w.teams.len() && #[trigger] w.teams[i].name@
                == #[trigger] w.teams[j].name@ implies i == j by {
            if i < v.teams.len() {
                assert(w.teams[i] == v.teams[i]);
            }
            if j < v.teams.len() {
                assert(w.teams[j] == v.teams[j]);
            }
        }
        assert forall|i: int| 0 <= i < w.members.len() implies w.has_team(
            #[trigger] w.members[i].team_id as int,
        ) by {
            assert(v.has_team(v.members[i].team_id as int));
        }
        assert forall|i: int| 0 <= i < w.attendance.len() implies {
            &&& w.has_member(#[trigger] w.attendance[i].member_id as int)
            &&& w.has_team(w.attendance[i].team_id as int)
        } by {
            assert(v.has_member(v.attendance[i].member_id as int));
            assert(v.has_team(v.attendance[i].team_id as int));
        }
    }
    Ok(id)
}

/// Creates team `name` owned by admin `admin` now; as `create_team_at`, at
/// the instant the clock gives.
pub fn create_team(store: &mut Store, name: &str, admin: i32) -> (r: Result<i32, CoreError>)
    requires
        old(store)@.wf(),
    ensures
        final(store)@.wf(),
        create_team_post(
            old(store)@,
            final(store)@,
            name@,
            admin,
            final(store)@.teams.last().created_at,
            r,
        ),
{
    let now = clock_now();
    create_team_at(store, name, admin, now)
}

/// Adds the platform user `dc_id`, named `username`, to team `team_id` on the
/// day of `now`, with the default role. The team must exist; a user already
/// in the team is a conflict.
pub fn assign_member_at(
    store: &mut Store,
    dc_id: &str,
    username: String,
    team_id_value: i32,
    now: Timestamp,
) -> (r: Result<(), CoreError>)
    requires
        old(store)@.wf(),
    ensures
        final(store)@.wf(),
        assign_member_post(old(store)@, final(store)@, dc_id@, username, team_id_value, now, r),
{
    let ghost v = store@;
    if team_id_value < 1 || team_id_value as usize > store.teams().len() {
        return Err(CoreError::NotFound(Entity::Team));
    }
    let discord_id = String::from_str(dc_id);
    if store.find_member(team_id_value, &discord_id).is_some() {
        return Err(CoreError::Conflict(Entity::Member));
    }
    let n = store.members().len();
    if n >= MAX_ID as usize {
        return Err(CoreError::Persistence(Entity::Member));
    }
    let position = String::from_str("Default");
    proof {
        reveal_strlit("Default");
        assert(position@ =~= default_position());
    }
    let row = Member {
        id: (n + 1) as i32,
        team_id: team_id_value,
        username,
        discord_id,
        position,
        join_date: date_of(now),
    };
    store.insert_member(row);
    proof {
        let w = store@;
        assert(w.members.last() == row);
        assert forall|i: int| 0 <= i < w.members.len() implies #[trigger] w.members[i].id == i + 1 by {
            if i < v.members.len() {
                assert(w.members[i] == v.members[i]);
            }
        }
        assert forall|i: int, j: int|
            0 <= i < w.members.len() && 0 <= j < w.members.len()
                && #[trigger] w.members[i].team_id == #[trigger] w.members[j].team_id
                && w.members[i].discord_id@ == w.members[j].discord_id@ implies i == j by {
            if i < v.members.len() {
                assert(w.members[i] == v.members[i]);
            }
            if j < v.members.len() {
                assert(w.members[j] == v.members[j]);
            }
            if i < v.members.len() && j == v.members.len() {
                assert(v.members[i].team_id == team_id_value && v.members[i].discord_id@ == dc_id@);
            }
            if j < v.members.len() && i == v.members.len() {
                assert(v.members[j].team_id == team_id_value && v.members[j].discord_id@ == dc_id@);
            }
        }
        assert forall|i: int| 0 <= i < w.members.len() implies w.has_team(
            #[trigger] w.members[i].team_id as int,
        ) by {
            if i < v.members.len() {
                assert(w.members[i] == v.members[i]);
            }
        }
        assert forall|i: int| 0 <= i < w.attendance.len() implies {
            &&& w.has_member(#[trigger] w.attendance[i].member_id as int)
            &&& w.has_team(w.attendance[i].team_id as int)
        } by {
            assert(v.has_member(v.attendance[i].member_id as int));
        }
    }
    Ok(())
}

/// Adds the platform user `dc_id` to team `team_id` now; as
/// `assign_member_at`, at the instant the clock gives.
pub fn assign_member(
    store: &mut Store,
    dc_id: &str,
    username: String,
    team_id_value: i32,
) -> (r: Result<(), CoreError>)
    requires
        old(store)@.wf(),
    ensures
        final(store)@.wf(),
        exists|t: Timestamp|
            #[trigger] assign_member_post(
                old(store)@,
                final(store)@,
                dc_id@,
                username,
                team_id_value,
                t,
                r,
            ),
{
    let ghost v = store@;
    let ghost name = username;
    let now = clock_now();
    let r = assign_member_at(store, dc_id, username, team_id_value, now);
    assert(assign_member_post(v, store@, dc_id@, name, team_id_value, now, r));
    r
}

/// A copy of team `t`.
fn copy_team(t: &Team) -> (r: Team)
    ensures
        r == *t,
{
    Team { id: t.id, name: t.name.clone(), admin_id: t.admin_id, created_at: t.created_at }
}

/// A copy of member `m`.
fn copy_member(m: &Member) -> (r: Member)
    ensures
        r == *m,
{
    Member {
        id: m.id,
        team_id: m.team_id,
        username: m.username.clone(),
        discord_id: m.discord_id.clone(),
        position: m.position.clone(),
        join_date: m.join_date,
    }
}

/// The teams owned by admin `admin_id`, in order of creation; empty when it
/// owns none.
pub fn list_teams(store: &Store, admin_id: i32) -> (r: Vec<Team>)
    ensures
        r@ == owned_teams(store@.teams, admin_id as int),
{
    let teams = store.teams();
    let mut out: Vec<Team> = Vec::new();
    let mut i: usize = 0;
    while i < teams.len()
        invariant
            teams@ == store@.teams,
            i <= teams@.len(),
            out@ == owned_teams(teams@.take(i as int), admin_id as int),
        decreases teams@.len() - i,
    {
        proof {
            assert(teams@.take(i + 1).drop_last() =~= teams@.take(i as int));
        }
        if teams[i].admin_id == admin_id {
            out.push(copy_team(&teams[i]));
        }
        i = i + 1;
    }
    proof {
        assert(teams@.take(teams@.len() as int) =~= teams@);
    }
    out
}

/// The members of team `team_id`, in order of joining; empty when it has none.
pub fn list_members(store: &Store, team_id: i32) -> (r: Vec<Member>)
    ensures
        r@ == team_members(store@.members, team_id as int),
{
    let members = store.members();
    let mut out: Vec<Member> = Vec::new();
    let mut i: usize = 0;
    while i < members.len()
        invariant
            members@ == store@.members,
            i <= members@.len(),
            out@ == team_members(members@.take(i as int), team_id as int),
        decreases members@.len() - i,
    {
        proof {
            assert(members@.take(i + 1).drop_last() =~= members@.take(i as int));
        }
        if members[i].team_id == team_id {
            out.push(copy_member(&members[i]));
        }
        i = i + 1;
    }
    proof {
        assert(members@.take(members@.len() as int) =~= members@);
    }
    out
}

/// What listing the teams of the admin with platform identity `admin` gives
/// on `v`.
pub open spec fn admin_teams_of(v: StoreView, admin: Seq<char>) -> Result<Seq<TeamLine>, CoreError> {
    match v.admin_index(admin) {
        Some(u) => Ok(owned_teams(v.teams, v.users[u].id as int).map_values(|t: Team| team_line(t))),
        None => Err(CoreError::NotFound(Entity::Admin)),
    }
}

/// What listing the members of the team named `team_name` gives on `v`.
pub open spec fn members_of(v: StoreView, team_name: Seq<char>) -> Result<Seq<MemberLine>, CoreError> {
    match v.team_index(team_name) {
        Some(t) => Ok(
            team_members(v.members, v.teams[t].id as int).map_values(|m: Member| member_line(m)),
        ),
        None => Err(CoreError::NotFound(Entity::Team)),
    }
}

/// The teams of the admin with platform identity `admin_discord_id`, each
/// with its creation instant; fails with `NotFound(Admin)` when no admin has
/// that identity.
pub fn get_admin_teams(store: &Store, admin_discord_id: &str) -> (r: Result<Vec<TeamTable>, CoreError>)
    requires
        store@.wf(),
    ensures
        match admin_teams_of(store@, admin_discord_id@) {
            Ok(lines) => r matches Ok(rows) && team_lines(rows@) == lines,
            Err(e) => r == Err::<Vec<TeamTable>, CoreError>(e),
        },
{
    let key = String::from_str(admin_discord_id);
    let u = match store.find_admin(&key) {
        Some(u) => u,
        None => {
            return Err(CoreError::NotFound(Entity::Admin));
        },
    };
    let teams = list_teams(store, store.users()[u].id);
    let mut rows: Vec<TeamTable> = Vec::new();
    let mut i: usize = 0;
    while i < teams.len()
        invariant
            i <= teams@.len(),
            team_lines(rows@) == teams@.take(i as int).map_values(|t: Team| team_line(t)),
        decreases teams@.len() - i,
    {
        let t = &teams[i];
        let row = TeamTable { name: t.name.clone(), created_at: show_time(Some(t.created_at)) };
        let ghost before = rows@;
        rows.push(row);
        proof {
            assert(team_lines(rows@) =~= team_lines(before).push(row@));
            assert(teams@.take(i + 1).map_values(|t: Team| team_line(t)) =~= teams@.take(
                i as int,
            ).map_values(|t: Team| team_line(t)).push(team_line(teams@[i as int])));
        }
        i = i + 1;
    }
    proof {
        assert(teams@.take(teams@.len() as int) =~= teams@);
    }
    Ok(rows)
}

/// The members of the team named `team_name`, each with its joining day;
/// fails with `NotFound(Team)` when no team has that name.
pub fn get_members(store: &Store, team_name: &str) -> (r: Result<Vec<MemberTable>, CoreError>)
    requires
        store@.wf(),
    ensures
        match members_of(store@, team_name@) {
            Ok(lines) => r matches Ok(rows) && member_lines(rows@) == lines,
            Err(e) => r == Err::<Vec<MemberTable>, CoreError>(e),
        },
{
    let key = String::from_str(team_name);
    let t = match store.find_team(&key) {
        Some(t) => t,
        None => {
            return Err(CoreError::NotFound(Entity::Team));
        },
    };
    let members = list_members(store, store.teams()[t].id);
    let mut rows: Vec<MemberTable> = Vec::new();
    let mut i: usize = 0;
    while i < members.len()
        invariant
            i <= members@.len(),
            member_lines(rows@) == members@.take(i as int).map_values(|m: Member| member_line(m)),
        decreases members@.len() - i,
    {
        let m = &members[i];
        let row = MemberTable { username: m.username.clone(), join_date: show_date(m.join_date) };
        let ghost before = rows@;
        rows.push(row);
        proof {
            assert(member_lines(rows@) =~= member_lines(before).push(row@));
            assert(members@.take(i + 1).map_values(|m: Member| member_line(m)) =~= members@.take(
                i as int,
            ).map_values(|m: Member| member_line(m)).push(member_line(members@[i as int])));
        }
        i = i + 1;
    }
    proof {
        assert(members@.take(members@.len() as int) =~= members@);
    }
    Ok(rows)
}

} // verus!
