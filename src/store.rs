//! The four relations (users, teams, members, attendance sessions) and the
//! consistency rules that every operation keeps.
use vstd::prelude::*;

use crate::model::{Member, MemberAttendance, Team, User};
use crate::time::Timestamp;

verus! {

/// The largest identifier a row can get.
pub const MAX_ID: i32 = 2147483647;

/// The relations, each in insertion order.
pub struct Store {
    users: Vec<User>,
    teams: Vec<Team>,
    members: Vec<Member>,
    attendance: Vec<MemberAttendance>,
}

/// The contents of a `Store`.
pub struct StoreView {
    pub users: Seq<User>,
    pub teams: Seq<Team>,
    pub members: Seq<Member>,
    pub attendance: Seq<MemberAttendance>,
}

impl View for Store {
    type V = StoreView;

    closed spec fn view(&self) -> StoreView {
        StoreView {
            users: self.users@,
            teams: self.teams@,
            members: self.members@,
            attendance: self.attendance@,
        }
    }
}

impl StoreView {
    /// Row `i` of each relation has identifier `i + 1`.
    pub open spec fn ids_serial(self) -> bool {
        &&& forall|i: int| 0 <= i < self.users.len() ==> #[trigger] self.users[i].id == i + 1
        &&& forall|i: int| 0 <= i < self.teams.len() ==> #[trigger] self.teams[i].id == i + 1
        &&& forall|i: int| 0 <= i < self.members.len() ==> #[trigger] self.members[i].id == i + 1
        &&& forall|i: int|
            0 <= i < self.attendance.len() ==> #[trigger] self.attendance[i].id == i + 1
    }

    /// No two admins share a platform identity, no two teams a name, and no
    /// two members of one team a platform identity.
    pub open spec fn keys_unique(self) -> bool {
        &&& forall|i: int, j: int|
            0 <= i < self.users.len() && 0 <= j < self.users.len() && #[trigger] self.users[i].discord_id@
                == #[trigger] self.users[j].discord_id@ ==> i == j
        &&& forall|i: int, j: int|
            0 <= i < self.teams.len() && 0 <= j < self.teams.len() && #[trigger] self.teams[i].name@
                == #[trigger] self.teams[j].name@ ==> i == j
        &&& forall|i: int, j: int|
            0 <= i < self.members.len() && 0 <= j < self.members.len()
                && #[trigger] self.members[i].team_id == #[trigger] self.members[j].team_id
                && self.members[i].discord_id@ == self.members[j].discord_id@ ==> i == j
    }

    /// Every member belongs to a team that exists, and every session refers
    /// to a member and a team that exist.
    pub open spec fn refs_exist(self) -> bool {
        &&& forall|i: int|
            0 <= i < self.members.len() ==> self.has_team(#[trigger] self.members[i].team_id as int)
        &&& forall|i: int|
            0 <= i < self.attendance.len() ==> {
                &&& self.has_member(#[trigger] self.attendance[i].member_id as int)
                &&& self.has_team(self.attendance[i].team_id as int)
            }
    }

    /// At most one session per member is open.
    pub open spec fn one_open_session(self) -> bool {
        forall|i: int, j: int|
            0 <= i < self.attendance.len() && 0 <= j < self.attendance.len()
                && #[trigger] self.attendance[i].member_id == #[trigger] self.attendance[j].member_id
                && self.attendance[i].check_out_time is None
                && self.attendance[j].check_out_time is None ==> i == j
    }

    pub open spec fn wf(self) -> bool {
        &&& self.ids_serial()
        &&& self.keys_unique()
        &&& self.refs_exist()
        &&& self.one_open_session()
    }

    /// An admin has identifier `id`.
    pub open spec fn has_user(self, id: int) -> bool {
        1 <= id <= self.users.len()
    }

    /// A team has identifier `id`.
    pub open spec fn has_team(self, id: int) -> bool {
        1 <= id <= self.teams.len()
    }

    /// A member has identifier `id`.
    pub open spec fn has_member(self, id: int) -> bool {
        1 <= id <= self.members.len()
    }

    /// Session `i` belongs to member `member_id` and is open.
    pub open spec fn is_open_of(self, i: int, member_id: int) -> bool {
        &&& 0 <= i < self.attendance.len()
        &&& self.attendance[i].member_id == member_id
        &&& self.attendance[i].check_out_time is None
    }

    /// Member `member_id` has an open session.
    pub open spec fn has_open_session(self, member_id: int) -> bool {
        exists|i: int| self.is_open_of(i, member_id)
    }

    /// The position of the open session of member `member_id`.
    pub open spec fn open_session_of(self, member_id: int) -> int
        recommends
            self.has_open_session(member_id),
    {
        choose|i: int| self.is_open_of(i, member_id)
    }

    /// The position of the admin with platform identity `discord_id`.
    pub open spec fn admin_index(self, discord_id: Seq<char>) -> Option<int> {
        if exists|i: int| 0 <= i < self.users.len() && self.users[i].discord_id@ == discord_id {
            Some(choose|i: int| 0 <= i < self.users.len() && self.users[i].discord_id@ == discord_id)
        } else {
            None
        }
    }

    /// The position of the team named `name`.
    pub open spec fn team_index(self, name: Seq<char>) -> Option<int> {
        if exists|i: int| 0 <= i < self.teams.len() && self.teams[i].name@ == name {
            Some(choose|i: int| 0 <= i < self.teams.len() && self.teams[i].name@ == name)
        } else {
            None
        }
    }

    /// The position of the member of team `team_id` with platform identity
    /// `discord_id`.
    pub open spec fn member_index(self, team_id: int, discord_id: Seq<char>) -> Option<int> {
        if exists|i: int|
            0 <= i < self.members.len() && self.members[i].team_id == team_id
                && self.members[i].discord_id@ == discord_id {
            Some(
                choose|i: int|
                    0 <= i < self.members.len() && self.members[i].team_id == team_id
                        && self.members[i].discord_id@ == discord_id,
            )
        } else {
            None
        }
    }
}

impl Store {
    /// A store with no rows.
    pub fn new() -> (s: Store)
        ensures
            s@.users.len() == 0,
            s@.teams.len() == 0,
            s@.members.len() == 0,
            s@.attendance.len() == 0,
            s@.wf(),
    {
        Store { users: Vec::new(), teams: Vec::new(), members: Vec::new(), attendance: Vec::new() }
    }

    /// The admins, in order of registration.
    pub fn users(&self) -> (r: &Vec<User>)
        ensures
            r@ == self@.users,
    {
        &self.users
    }

    /// The teams, in order of creation.
    pub fn teams(&self) -> (r: &Vec<Team>)
        ensures
            r@ == self@.teams,
    {
        &self.teams
    }

    /// The members, in order of joining.
    pub fn members(&self) -> (r: &Vec<Member>)
        ensures
            r@ == self@.members,
    {
        &self.members
    }

    /// The attendance sessions, in order of check-in.
    pub fn attendance(&self) -> (r: &Vec<MemberAttendance>)
        ensures
            r@ == self@.attendance,
    {
        &self.attendance
    }
    /// The position of the admin with platform identity `discord_id`.
    pub fn find_admin(&self, discord_id: &String) -> (r: Option<usize>)
        requires
            self@.wf(),
        ensures
            r is None <==> self@.admin_index(discord_id@) is None,
            r matches Some(i) ==> self@.admin_index(discord_id@) == Some(i as int),
    {
        let mut i: usize = 0;
        while i < self.users.len()
            invariant
                self@.wf(),
                i <= self.users@.len(),
                forall|j: int| 0 <= j < i ==> self.users@[j].discord_id@ != discord_id@,
            decreases self.users@.len() - i,
        {
            if self.users[i].discord_id.eq(discord_id) {
                assert(self@.users[i as int].discord_id@ == discord_id@);
                assert(exists|j: int| 0 <= j < self@.users.len() && self@.users[j].discord_id@ == discord_id@);
                let ghost k = self@.admin_index(discord_id@)->0;
                assert(self@.users[k].discord_id@ == self@.users[i as int].discord_id@);
                assert(k == i);
                return Some(i);
            }
            i = i + 1;
        }
        None
    }

    /// The position of the team named `name`.
    pub fn find_team(&self, name: &String) -> (r: Option<usize>)
        requires
            self@.wf(),
        ensures
            r is None <==> self@.team_index(name@) is None,
            r matches Some(i) ==> self@.team_index(name@) == Some(i as int),
    {
        let mut i: usize = 0;
        while i < self.teams.len()
            invariant
                self@.wf(),
                i <= self.teams@.len(),
                forall|j: int| 0 <= j < i ==> self.teams@[j].name@ != name@,
            decreases self.teams@.len() - i,
        {
            if self.teams[i].name.eq(name) {
                assert(self@.teams[i as int].name@ == name@);
                assert(exists|j: int| 0 <= j < self@.teams.len() && self@.teams[j].name@ == name@);
                let ghost k = self@.team_index(name@)->0;
                assert(self@.teams[k].name@ == self@.teams[i as int].name@);
                assert(k == i);
                return Some(i);
            }
            i = i + 1;
        }
        None
    }

    /// The position of the member of team `team_id` with platform identity
    /// `discord_id`.
    pub fn find_member(&self, team_id: i32, discord_id: &String) -> (r: Option<usize>)
        requires
            self@.wf(),
        ensures
            r is None <==> self@.member_index(team_id as int, discord_id@) is None,
            r matches Some(i) ==> self@.member_index(team_id as int, discord_id@) == Some(i as int),
    {
        let mut i: usize = 0;
        while i < self.members.len()
            invariant
                self@.wf(),
                i <= self.members@.len(),
                forall|j: int|
                    0 <= j < i ==> !(self.members@[j].team_id == team_id
                        && self.members@[j].discord_id@ == discord_id@),
            decreases self.members@.len() - i,
        {
            if self.members[i].team_id == team_id && self.members[i].discord_id.eq(discord_id) {
                assert(self@.members[i as int].team_id == team_id
                    && self@.members[i as int].discord_id@ == discord_id@);
                assert(exists|j: int|
                    0 <= j < self@.members.len() && self@.members[j].team_id == team_id
                        && self@.members[j].discord_id@ == discord_id@);
                let ghost k = self@.member_index(team_id as int, discord_id@)->0;
                assert(self@.members[k].team_id == self@.members[i as int].team_id);
                assert(k == i);
                return Some(i);
            }
            i = i + 1;
        }
        None
    }

    /// The position of the open session of member `member_id`.
    pub fn find_open_session(&self, member_id: i32) -> (r: Option<usize>)
        requires
            self@.wf(),
        ensures
            r is None <==> !self@.has_open_session(member_id as int),
            r matches Some(i) ==> i == self@.open_session_of(member_id as int),
    {
        let mut i: usize = 0;
        while i < self.attendance.len()
            invariant
                self@.wf(),
                i <= self.attendance@.len(),
                forall|j: int| 0 <= j < i ==> !self@.is_open_of(j, member_id as int),
            decreases self.attendance@.len() - i,
        {
            if self.attendance[i].member_id == member_id && self.attendance[i].check_out_time.is_none() {
                assert(self@.is_open_of(i as int, member_id as int));
                let ghost k = self@.open_session_of(member_id as int);
                assert(self@.is_open_of(k, member_id as int));
                assert(self@.attendance[k].member_id == self@.attendance[i as int].member_id);
                assert(k == i);
                return Some(i);
            }
            i = i + 1;
        }
        None
    }
    /// Appends an admin row.
    pub(crate) fn insert_user(&mut self, row: User)
        ensures
            final(self)@ == (StoreView { users: old(self)@.users.push(row), ..old(self)@ }),
    {
        self.users.push(row);
    }

    /// Appends a team row.
    pub(crate) fn insert_team(&mut self, row: Team)
        ensures
            final(self)@ == (StoreView { teams: old(self)@.teams.push(row), ..old(self)@ }),
    {
        self.teams.push(row);
    }

    /// Appends a member row.
    pub(crate) fn insert_member(&mut self, row: Member)
        ensures
            final(self)@ == (StoreView { members: old(self)@.members.push(row), ..old(self)@ }),
    {
        self.members.push(row);
    }

    /// Appends a session row.
    pub(crate) fn insert_session(&mut self, row: MemberAttendance)
        ensures
            final(self)@ == (StoreView { attendance: old(self)@.attendance.push(row), ..old(self)@ }),
    {
        self.attendance.push(row);
    }

    /// Sets the check-out instant of session `i`.
    pub(crate) fn set_check_out(&mut self, i: usize, t: Timestamp)
        requires
            i < old(self)@.attendance.len(),
        ensures
            final(self)@ == (StoreView {
                attendance: old(self)@.attendance.update(
                    i as int,
                    MemberAttendance { check_out_time: Some(t), ..old(self)@.attendance[i as int] },
                ),
                ..old(self)@
            }),
    {
        let row = &self.attendance[i];
        let closed = MemberAttendance {
            id: row.id,
            team_id: row.team_id,
            member_id: row.member_id,
            date: row.date,
            check_in_time: row.check_in_time,
            check_out_time: Some(t),
            status: row.status.clone(),
        };
        self.attendance.set(i, closed);
    }
}

} // verus!
