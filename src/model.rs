//! The rows of the four relations, the projections shown to users, and the
//! error kinds of the core.
use vstd::prelude::*;

use crate::time::{Date, Timestamp};

verus! {

/// An administrator account.
#[derive(Clone, Debug)]
pub struct User {
    pub id: i32,
    /// External-platform identity; unique among users.
    pub discord_id: String,
    pub username: String,
    pub password_hash: String,
    pub is_admin: bool,
    pub created_at: Timestamp,
    pub updated_at: Timestamp,
}

/// A team, owned by the admin that created it.
#[derive(Clone, Debug)]
pub struct Team {
    pub id: i32,
    /// Unique among teams: commands name teams by it.
    pub name: String,
    pub admin_id: i32,
    pub created_at: Timestamp,
}

/// A member of exactly one team.
#[derive(Clone, Debug)]
pub struct Member {
    pub id: i32,
    pub team_id: i32,
    pub username: String,
    /// External-platform identity; unique within the team.
    pub discord_id: String,
    pub position: String,
    pub join_date: Date,
}

/// One attendance session; it is open while `check_out_time` is `None`.
#[derive(Clone, Debug)]
pub struct MemberAttendance {
    pub id: i32,
    pub team_id: i32,
    pub member_id: i32,
    pub date: Date,
    pub check_in_time: Timestamp,
    pub check_out_time: Option<Timestamp>,
    pub status: String,
}

/// What a lookup or an operation refers to.
#[derive(Clone, Copy, Debug, PartialEq, Eq, Structural)]
pub enum Entity {
    Admin,
    Team,
    Member,
    Session,
}

/// Why an operation of the core did not happen.
#[derive(Clone, Copy, Debug, PartialEq, Eq, Structural)]
pub enum CoreError {
    /// The referenced admin, team, member or open session is absent.
    NotFound(Entity),
    /// The operation would duplicate an admin, a team name, a membership or
    /// an open session.
    Conflict(Entity),
    /// The relation holding that kind of row has no identifier left.
    Persistence(Entity),
    /// The password hash could not be made, or a stored one could not be read.
    Credential,
    /// The credentials given do not match.
    Unauthorized,
    /// An argument is out of the range the operation can handle.
    Validation,
}

/// A team as listed to its admin.
#[derive(Clone, Debug)]
pub struct TeamTable {
    pub name: String,
    pub created_at: String,
}

/// A member as listed for a team.
#[derive(Clone, Debug)]
pub struct MemberTable {
    pub username: String,
    pub join_date: String,
}

/// One attendance session as reported for a team.
#[derive(Clone, Debug)]
pub struct MemberAttendanceTable {
    pub username: String,
    pub check_in_time: String,
    pub check_out_time: String,
    pub status: String,
}

/// The text of a reported team.
pub struct TeamLine {
    pub name: Seq<char>,
    pub created_at: Seq<char>,
}

/// The text of a listed member.
pub struct MemberLine {
    pub username: Seq<char>,
    pub join_date: Seq<char>,
}

/// The text of a reported attendance session.
pub struct AttendanceLine {
    pub username: Seq<char>,
    pub check_in_time: Seq<char>,
    pub check_out_time: Seq<char>,
    pub status: Seq<char>,
}

impl View for TeamTable {
    type V = TeamLine;

    open spec fn view(&self) -> TeamLine {
        TeamLine { name: self.name@, created_at: self.created_at@ }
    }
}

impl View for MemberTable {
    type V = MemberLine;

    open spec fn view(&self) -> MemberLine {
        MemberLine { username: self.username@, join_date: self.join_date@ }
    }
}

impl View for MemberAttendanceTable {
    type V = AttendanceLine;

    open spec fn view(&self) -> AttendanceLine {
        AttendanceLine {
            username: self.username@,
            check_in_time: self.check_in_time@,
            check_out_time: self.check_out_time@,
            status: self.status@,
        }
    }
}

/// The text shown where a value is missing.
pub open spec fn na_text() -> Seq<char> {
    seq!['N', '/', 'A']
}

/// The text shown for an optional instant.
pub open spec fn time_shown(t: Option<Timestamp>) -> Seq<char> {
    match t {
        Some(t) => match crate::time::datetime_text(t.secs as int) {
            Some(s) => s,
            None => na_text(),
        },
        None => na_text(),
    }
}

/// The text shown for a day.
pub open spec fn date_shown(d: Date) -> Seq<char> {
    match crate::time::date_text(d.days as int) {
        Some(s) => s,
        None => na_text(),
    }
}

/// The text of each reported session.
pub open spec fn attendance_lines(rows: Seq<MemberAttendanceTable>) -> Seq<AttendanceLine> {
    rows.map_values(|r: MemberAttendanceTable| r@)
}

/// The text of each listed member.
pub open spec fn member_lines(rows: Seq<MemberTable>) -> Seq<MemberLine> {
    rows.map_values(|r: MemberTable| r@)
}

/// The text of each listed team.
pub open spec fn team_lines(rows: Seq<TeamTable>) -> Seq<TeamLine> {
    rows.map_values(|r: TeamTable| r@)
}

/// The missing-value text.
pub fn na_string() -> (s: String)
    ensures
        s@ == na_text(),
{
    let s = String::from_str("N/A");
    proof {
        reveal_strlit("N/A");
    }
    assert(s@ =~= na_text());
    s
}

/// Renders an optional instant, or the missing-value text.
pub fn show_time(t: Option<Timestamp>) -> (s: String)
    ensures
        s@ == time_shown(t),
{
    match t {
        Some(t) => match crate::time::format_datetime(t.secs) {
            Some(s) => s,
            None => na_string(),
        },
        None => na_string(),
    }
}

/// Renders a day, or the missing-value text.
pub fn show_date(d: Date) -> (s: String)
    ensures
        s@ == date_shown(d),
{
    match crate::time::format_date(d.days) {
        Some(s) => s,
        None => na_string(),
    }
}

/// The payload of a session token: its subject and its expiry, in seconds
/// since 1970-01-01.
#[derive(Clone, Debug)]
pub struct Claims {
    pub sub: String,
    pub exp: u64,
}

/// A login request of the HTTP surface.
#[derive(Clone, Debug)]
pub struct AuthRequest {
    pub username: String,
    pub password: String,
}

/// A login response of the HTTP surface.
#[derive(Clone, Debug)]
pub struct AuthResponse {
    pub token: String,
}

/// Deployment settings.
#[derive(Clone, Debug)]
pub struct Settings {
    pub discord_token: String,
    pub database_url: String,
}

} // verus!
