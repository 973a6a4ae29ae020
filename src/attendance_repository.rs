//! Check-in, check-out and the attendance report of a team.
use vstd::prelude::*;

use crate::model::{
    attendance_lines, show_time, time_shown, AttendanceLine, CoreError, Entity, Member,
    MemberAttendance, MemberAttendanceTable,
};
use crate::store::{Store, StoreView, MAX_ID};
use crate::time::{clock_now, date_of, day_of, Date, Timestamp};

verus! {

/// Why `check_in(mem_id, team_id, ..)` is refused on `v`, if it is.
pub open spec fn check_in_error(v: StoreView, mem_id: int, team_id: int) -> Option<CoreError> {
    if !v.has_member(mem_id) {
        Some(CoreError::NotFound(Entity::Member))
    } else if !v.has_team(team_id) {
        Some(CoreError::NotFound(Entity::Team))
    } else if v.has_open_session(mem_id) {
        Some(CoreError::Conflict(Entity::Session))
    } else if v.attendance.len() >= MAX_ID {
        Some(CoreError::Persistence(Entity::Session))
    } else {
        None
    }
}

/// The open session that a check-in at `now` adds to `v`.
pub open spec fn session_row(
    v: StoreView,
    mem_id: i32,
    team_id: i32,
    status: String,
    now: Timestamp,
) -> MemberAttendance {
    MemberAttendance {
        id: (v.attendance.len() + 1) as i32,
        team_id: team_id,
        member_id: mem_id,
        date: Date { days: day_of(now.secs as int) as i64 },
        check_in_time: now,
        check_out_time: None,
        status: status,
    }
}

/// `v` with session `row` added.
pub open spec fn with_session(v: StoreView, row: MemberAttendance) -> StoreView {
    StoreView { attendance: v.attendance.push(row), ..v }
}

/// `v` with session `i` closed at `now`.
pub open spec fn with_check_out(v: StoreView, i: int, now: Timestamp) -> StoreView {
    StoreView {
        attendance: v.attendance.update(
            i,
            MemberAttendance { check_out_time: Some(now), ..v.attendance[i] },
        ),
        ..v
    }
}

/// What `check_in(mem_id, team_id, status)` at `now` does: from `v` to `w`,
/// answering `r`.
pub open spec fn check_in_post(
    v: StoreView,
    w: StoreView,
    mem_id: i32,
    team_id: i32,
    status: String,
    now: Timestamp,
    r: Result<(), CoreError>,
) -> bool {
    match check_in_error(v, mem_id as int, team_id as int) {
        Some(e) => r == Err::<(), CoreError>(e) && w == v,
        None => r is Ok && w == with_session(v, session_row(v, mem_id, team_id, status, now)),
    }
}

/// What `check_out(mem_id)` at `now` does: from `v` to `w`, answering `r`.
pub open spec fn check_out_post(
    v: StoreView,
    w: StoreView,
    mem_id: i32,
    now: Timestamp,
    r: Result<(), CoreError>,
) -> bool {
    if v.has_open_session(mem_id as int) {
        r is Ok && w == with_check_out(v, v.open_session_of(mem_id as int), now)
    } else {
        r == Err::<(), CoreError>(CoreError::NotFound(Entity::Session)) && w == v
    }
}

/// The report line of session `a`.
pub open spec fn attendance_line(members: Seq<Member>, a: MemberAttendance) -> AttendanceLine {
    AttendanceLine {
        username: members[a.member_id - 1].username@,
        check_in_time: time_shown(Some(a.check_in_time)),
        check_out_time: time_shown(a.check_out_time),
        status: a.status@,
    }
}

/// The report lines of the sessions of team `team_id`, in order of check-in.
pub open spec fn report_lines(
    members: Seq<Member>,
    sessions: Seq<MemberAttendance>,
    team_id: int,
) -> Seq<AttendanceLine>
    decreases sessions.len(),
{
    if sessions.len() == 0 {
        Seq::empty()
    } else {
        let earlier = report_lines(members, sessions.drop_last(), team_id);
        if sessions.last().team_id == team_id {
            earlier.push(attendance_line(members, sessions.last()))
        } else {
            earlier
        }
    }
}

/// What the report of the team named `team_name` is on `v`.
pub open spec fn report_of(v: StoreView, team_name: Seq<char>) -> Result<
    Seq<AttendanceLine>,
    CoreError,
> {
    match v.team_index(team_name) {
        Some(t) => Ok(report_lines(v.members, v.attendance, v.teams[t].id as int)),
        None => Err(CoreError::NotFound(Entity::Team)),
    }
}

/// Records that member `mem_id` checked in to team `team_id` at `now`, with
/// the free-form `status` ("Present", "Late", ...). The member and the team
/// must exist and the member must have no open session.
pub fn check_in_at(
    store: &mut Store,
    mem_id: i32,
    team_id: i32,
    status: String,
    now: Timestamp,
) -> (r: Result<(), CoreError>)
    requires
        old(store)@.wf(),
    ensures
        final(store)@.wf(),
        check_in_post(old(store)@, final(store)@, mem_id, team_id, status, now, r),
{
    let ghost v = store@;
    if mem_id < 1 || mem_id as usize > store.members().len() {
        return Err(CoreError::NotFound(Entity::Member));
    }
    if team_id < 1 || team_id as usize > store.teams().len() {
        return Err(CoreError::NotFound(Entity::Team));
    }
    if store.find_open_session(mem_id).is_some() {
        return Err(CoreError::Conflict(Entity::Session));
    }
    let n = store.attendance().len();
    if n >= MAX_ID as usize {
        return Err(CoreError::Persistence(Entity::Session));
    }
    let row = MemberAttendance {
        id: (n + 1) as i32,
        team_id,
        member_id: mem_id,
        date: date_of(now),
        check_in_time: now,
        check_out_time: None,
        status,
    };
    store.insert_session(row);
    proof {
        let w = store@;
        assert(w.attendance.last() == row);
        assert forall|i: int| 0 <= i < w.attendance.len() implies #[trigger] w.attendance[i].id == i
            + 1 by {
            if i < v.attendance.len() {
                assert(w.attendance[i] == v.attendance[i]);
            }
        }
        assert forall|i: int| 0 <= i < w.attendance.len() implies {
            &&& w.has_member(#[trigger] w.attendance[i].member_id as int)
            &&& w.has_team(w.attendance[i].team_id as int)
        } by {
            if i < v.attendance.len() {
                assert(w.attendance[i] == v.attendance[i]);
            }
        }
        assert forall|i: int, j: int|
            0 <= i < w.attendance.len() && 0 <= j < w.attendance.len()
                && #[trigger] w.attendance[i].member_id == #[trigger] w.attendance[j].member_id
                && w.attendance[i].check_out_time is None
                && w.attendance[j].check_out_time is None implies i == j by {
            if i < v.attendance.len() && j < v.attendance.len() {
                assert(w.attendance[i] == v.attendance[i]);
                assert(w.attendance[j] == v.attendance[j]);
            } else if i < v.attendance.len() {
                assert(w.attendance[i] == v.attendance[i]);
                assert(v.is_open_of(i, mem_id as int));
            } else if j < v.attendance.len() {
                assert(w.attendance[j] == v.attendance[j]);
                assert(v.is_open_of(j, mem_id as int));
            }
        }
    }
    Ok(())
}

/// Records that member `mem_id` checked in to team `team_id` now; as
/// `check_in_at`, at the instant the clock gives.
pub fn check_in(store: &mut Store, mem_id: i32, team_id: i32, status: String) -> (r: Result<
    (),
    CoreError,
>)
    requires
        old(store)@.wf(),
    ensures
        final(store)@.wf(),
        check_in_post(
            old(store)@,
            final(store)@,
            mem_id,
            team_id,
            status,
            final(store)@.attendance.last().check_in_time,
            r,
        ),
{
    let now = clock_now();
    check_in_at(store, mem_id, team_id, status, now)
}

/// Closes the open session of member `mem_id` at `now`. Fails with
/// `NotFound(Session)` when the member has none.
pub fn check_out_at(store: &mut Store, mem_id: i32, now: Timestamp) -> (r: Result<(), CoreError>)
    requires
        old(store)@.wf(),
    ensures
        final(store)@.wf(),
        check_out_post(old(store)@, final(store)@, mem_id, now, r),
{
    let ghost v = store@;
    match store.find_open_session(mem_id) {
        None => Err(CoreError::NotFound(Entity::Session)),
        Some(i) => {
            store.set_check_out(i, now);
            proof {
                let w = store@;
                assert forall|k: int| 0 <= k < w.attendance.len() implies #[trigger] w.attendance[k].id
                    == k + 1 by {
                    assert(w.attendance[k].id == v.attendance[k].id);
                }
                assert forall|k: int| 0 <= k < w.attendance.len() implies {
                    &&& w.has_member(#[trigger] w.attendance[k].member_id as int)
                    &&& w.has_team(w.attendance[k].team_id as int)
                } by {
                    assert(w.attendance[k].member_id == v.attendance[k].member_id);
                }
                assert forall|k: int, j: int|
                    0 <= k < w.attendance.len() && 0 <= j < w.attendance.len()
                        && #[trigger] w.attendance[k].member_id == #[trigger] w.attendance[j].member_id
                        && w.attendance[k].check_out_time is None
                        && w.attendance[j].check_out_time is None implies k == j by {
                    assert(w.attendance[k].member_id == v.attendance[k].member_id);
                    assert(w.attendance[j].member_id == v.attendance[j].member_id);
                }
            }
            Ok(())
        },
    }
}

/// Closes the open session of member `mem_id` now; as `check_out_at`, at the
/// instant the clock gives.
pub fn check_out(store: &mut Store, mem_id: i32) -> (r: Result<(), CoreError>)
    requires
        old(store)@.wf(),
    ensures
        final(store)@.wf(),
        check_out_post(
            old(store)@,
            final(store)@,
            mem_id,
            final(store)@.attendance[old(store)@.open_session_of(mem_id as int)].check_out_time->0,
            r,
        ),
{
    let now = clock_now();
    check_out_at(store, mem_id, now)
}

/// The attendance sessions of the team named `team_name`, in order of
/// check-in, each with its member's name; an instant that is missing or
/// cannot be rendered shows as "N/A".
pub fn get_member_attendance_by_team(store: &Store, team_name: &str) -> (r: Result<
    Vec<MemberAttendanceTable>,
    CoreError,
>)
    requires
        store@.wf(),
    ensures
        match report_of(store@, team_name@) {
            Ok(lines) => r matches Ok(rows) && attendance_lines(rows@) == lines,
            Err(e) => r == Err::<Vec<MemberAttendanceTable>, CoreError>(e),
        },
{
    let name = String::from_str(team_name);
    let t = match store.find_team(&name) {
        Some(t) => t,
        None => {
            return Err(CoreError::NotFound(Entity::Team));
        },
    };
    let team_id = store.teams()[t].id;
    let sessions = store.attendance();
    let members = store.members();
    let mut rows: Vec<MemberAttendanceTable> = Vec::new();
    let mut i: usize = 0;
    while i < sessions.len()
        invariant
            store@.wf(),
            sessions@ == store@.attendance,
            members@ == store@.members,
            i <= sessions@.len(),
            attendance_lines(rows@) == report_lines(
                members@,
                sessions@.take(i as int),
                team_id as int,
            ),
        decreases sessions@.len() - i,
    {
        let a = &sessions[i];
        proof {
            assert(sessions@.take(i + 1).drop_last() =~= sessions@.take(i as int));
            assert(sessions@.take(i + 1).last() == sessions@[i as int]);
        }
        if a.team_id == team_id {
            let username = members[(a.member_id - 1) as usize].username.clone();
            let row = MemberAttendanceTable {
                username,
                check_in_time: show_time(Some(a.check_in_time)),
                check_out_time: show_time(a.check_out_time),
                status: a.status.clone(),
            };
            let ghost before = rows@;
            rows.push(row);
            proof {
                assert(attendance_lines(rows@) =~= attendance_lines(before).push(row@));
            }
        }
        i = i + 1;
    }
    proof {
        assert(sessions@.take(sessions@.len() as int) =~= sessions@);
    }
    Ok(rows)
}

} // verus!
