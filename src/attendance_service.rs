//! Attendance operations as the command surfaces call them.
use vstd::prelude::*;

use crate::attendance_repository::{self, check_in_post, check_out_post, report_of};
use crate::model::{attendance_lines, CoreError, MemberAttendanceTable};
use crate::store::Store;

verus! {

/// Records that member `member_id` checked in to team `team_id` now.
pub fn check_in(store: &mut Store, member_id: i32, team_id: i32, status: String) -> (r: Result<
    (),
    CoreError,
>)
    requires
        old(store)@.wf(),
    ensures
        final(store)@.wf(),
        check_in_post(
            old(store)@,
            final(store)@,
            member_id,
            team_id,
            status,
            final(store)@.attendance.last().check_in_time,
            r,
        ),
{
    attendance_repository::check_in(store, member_id, team_id, status)
}

/// Closes the open session of member `member_id` now.
pub fn check_out(store: &mut Store, member_id: i32) -> (r: Result<(), CoreError>)
    requires
        old(store)@.wf(),
    ensures
        final(store)@.wf(),
        check_out_post(
            old(store)@,
            final(store)@,
            member_id,
            final(store)@.attendance[old(store)@.open_session_of(member_id as int)].check_out_time->0,
            r,
        ),
{
    attendance_repository::check_out(store, member_id)
}

/// The attendance report of the team named `team_name`.
pub fn get_member_attendance(store: &Store, team_name: &str) -> (r: Result<
    Vec<MemberAttendanceTable>,
    CoreError,
>)
    requires
        store@.wf(),
    ensures
        match report_of(store@, team_name@) {
            Ok(lines) => r matches Ok(rows) && attendance_lines(rows@) == lines,
            Err(e) => r == Err::<Vec<MemberAttendanceTable>, CoreError>(e),
        },
{
    attendance_repository::get_member_attendance_by_team(store, team_name)
}

} // verus!
