//! Properties that relate several operations of the core.
use vstd::prelude::*;

use crate::attendance_repository::{
    attendance_line, check_in_error, report_lines, report_of, session_row, with_check_out,
    with_session,
};
use crate::model::{na_text, time_shown, AttendanceLine, CoreError, Team};
use crate::store::StoreView;
use crate::team_repository::owned_teams;
use crate::time::Timestamp;
use crate::user_repository::{admin_added, authenticate_of, register_error};

verus! {

/// After a check-in that succeeds, the report of the team checked into
/// ends with a line for that member whose check-out shows "N/A".
pub proof fn check_in_then_report(
    v: StoreView,
    mem_id: i32,
    team_id: i32,
    status: String,
    now: Timestamp,
)
    requires
        v.wf(),
        check_in_error(v, mem_id as int, team_id as int) is None,
    ensures
        report_of(
            with_session(v, session_row(v, mem_id, team_id, status, now)),
            v.teams[team_id - 1].name@,
        ) matches Ok(lines) && lines.len() > 0 && lines.last() == (AttendanceLine {
            username: v.members[mem_id - 1].username@,
            check_in_time: time_shown(Some(now)),
            check_out_time: na_text(),
            status: status@,
        }),
{
    let row = session_row(v, mem_id, team_id, status, now);
    let w = with_session(v, row);
    let name = v.teams[team_id - 1].name@;
    assert(exists|i: int| 0 <= i < w.teams.len() && w.teams[i].name@ == name) by {
        assert(0 <= team_id - 1 < w.teams.len() && w.teams[team_id - 1].name@ == name);
    }
    let k = w.team_index(name)->0;
    assert(w.teams[k].name@ == w.teams[team_id - 1].name@);
    assert(k == team_id - 1);
    assert(w.teams[k].id == team_id);
    assert(w.attendance.drop_last() =~= v.attendance);
    assert(w.attendance.last() == row);
    assert(report_lines(w.members, w.attendance, team_id as int) == report_lines(
        v.members,
        v.attendance,
        team_id as int,
    ).push(attendance_line(v.members, row)));
}

/// Once a member has checked in, a first check-out finds the open session
/// and a second one finds none.
pub proof fn check_in_then_check_out_twice(
    v: StoreView,
    mem_id: i32,
    team_id: i32,
    status: String,
    check_in_time: Timestamp,
    check_out_time: Timestamp,
)
    requires
        v.wf(),
        check_in_error(v, mem_id as int, team_id as int) is None,
    ensures
        ({
            let w = with_session(v, session_row(v, mem_id, team_id, status, check_in_time));
            &&& w.has_open_session(mem_id as int)
            &&& !with_check_out(
                w,
                w.open_session_of(mem_id as int),
                check_out_time,
            ).has_open_session(mem_id as int)
        }),
{
    let row = session_row(v, mem_id, team_id, status, check_in_time);
    let w = with_session(v, row);
    let n = v.attendance.len() as int;
    assert(w.is_open_of(n, mem_id as int));
    let i = w.open_session_of(mem_id as int);
    assert(w.is_open_of(i, mem_id as int));
    if i < n {
        assert(v.is_open_of(i, mem_id as int));
    }
    assert(i == n);
    let x = with_check_out(w, i, check_out_time);
    assert forall|j: int| !x.is_open_of(j, mem_id as int) by {
        if 0 <= j < n {
            assert(x.attendance[j] == v.attendance[j]);
            if x.is_open_of(j, mem_id as int) {
                assert(v.is_open_of(j, mem_id as int));
            }
        }
    }
}

/// A check-in to a team that does not exist is refused as not found.
pub proof fn check_in_unknown_team(v: StoreView, mem_id: i32, team_id: i32)
    requires
        !v.has_team(team_id as int),
    ensures
        check_in_error(v, mem_id as int, team_id as int) matches Some(CoreError::NotFound(_)),
{
}

/// The teams listed for an admin are exactly the teams it owns, and none
/// when it owns none.
pub proof fn listed_teams_are_owned(teams: Seq<Team>, admin_id: int)
    ensures
        forall|t: Team|
            #[trigger] owned_teams(teams, admin_id).contains(t) <==> teams.contains(t)
                && t.admin_id == admin_id,
        owned_teams(teams, admin_id).len() == 0 <==> forall|i: int|
            0 <= i < teams.len() ==> #[trigger] teams[i].admin_id != admin_id,
    decreases teams.len(),
{
    if teams.len() > 0 {
        let rest = teams.drop_last();
        listed_teams_are_owned(rest, admin_id);
        assert(teams =~= rest.push(teams.last()));
        let o = owned_teams(rest, admin_id);
        let last = teams.last();
        assert forall|t: Team|
            #[trigger] owned_teams(teams, admin_id).contains(t) <==> teams.contains(t)
                && t.admin_id == admin_id by {
            if teams.contains(t) && t.admin_id == admin_id {
                let i = choose|i: int| 0 <= i < teams.len() && teams[i] == t;
                if i < rest.len() {
                    assert(rest[i] == t);
                    assert(rest.contains(t));
                    assert(o.contains(t));
                    let j = choose|j: int| 0 <= j < o.len() && o[j] == t;
                    if last.admin_id == admin_id {
                        assert(o.push(last)[j] == t);
                    }
                } else {
                    assert(t == last);
                    assert(o.push(last)[o.len() as int] == t);
                }
            }
            if owned_teams(teams, admin_id).contains(t) {
                if last.admin_id == admin_id {
                    let j = choose|j: int| 0 <= j < o.len() + 1 && o.push(last)[j] == t;
                    if j < o.len() {
                        assert(o[j] == t);
                        assert(o.contains(t));
                        let i = choose|i: int| 0 <= i < rest.len() && rest[i] == t;
                        assert(teams[i] == t);
                    } else {
                        assert(teams[teams.len() - 1] == t);
                    }
                } else {
                    assert(o.contains(t));
                    let i = choose|i: int| 0 <= i < rest.len() && rest[i] == t;
                    assert(teams[i] == t);
                }
            }
        }
        if owned_teams(teams, admin_id).len() == 0 {
            assert forall|i: int| 0 <= i < teams.len() implies #[trigger] teams[i].admin_id != admin_id by {
                if i < rest.len() {
                    assert(rest[i] == teams[i]);
                }
            }
        } else {
            if teams.last().admin_id != admin_id {
                assert(o.len() > 0);
                let i = choose|i: int| 0 <= i < rest.len() && #[trigger] rest[i].admin_id == admin_id;
                assert(teams[i] == rest[i]);
            }
        }
    }
}

/// An admin registered with a password is then authenticated by that
/// password.
pub proof fn register_then_authenticate(
    v: StoreView,
    w: StoreView,
    discord_id: Seq<char>,
    username: Seq<char>,
    password: Seq<char>,
    now: Timestamp,
)
    requires
        register_error(v, discord_id) is None,
        admin_added(v, w, discord_id, username, password, now),
    ensures
        authenticate_of(w, discord_id, password) == Ok::<bool, CoreError>(true),
{
    let n = v.users.len() as int;
    assert(w.users[n] == w.users.last());
    assert(exists|i: int| 0 <= i < w.users.len() && w.users[i].discord_id@ == discord_id);
    let k = w.admin_index(discord_id)->0;
    if k < n {
        assert(w.users[k] == v.users[k]);
        assert(0 <= k < v.users.len() && v.users[k].discord_id@ == discord_id);
    }
    assert(k == n);
}

} // verus!
