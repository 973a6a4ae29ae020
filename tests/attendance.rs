use attendance_bot::attendance_repository::{
    check_in_at, check_out_at, get_member_attendance_by_team,
};
use attendance_bot::handlers::{handle_add_member, handle_check_in, handle_check_out, handle_create_team};
use attendance_bot::model::{CoreError, Entity};
use attendance_bot::store::Store;
use attendance_bot::team_repository::{assign_member_at, create_team_at};
use attendance_bot::time::{Date, Timestamp};
use attendance_bot::user_repository::register_admin_at;

const T0: i64 = 1431648000; // 2015-05-15 00:00:00

fn at(secs: i64) -> Timestamp {
    Timestamp { secs }
}

/// One admin, team "Eng" (id 1) and member "u42" (id 1) in it.
fn eng_store() -> Store {
    let mut s = Store::new();
    register_admin_at(&mut s, "admin-1", "Ada", "pw", at(T0)).unwrap();
    assert_eq!(create_team_at(&mut s, "Eng", 1, at(T0)), Ok(1));
    assign_member_at(&mut s, "u42", "u42".to_string(), 1, at(T0)).unwrap();
    s
}

#[test]
fn check_in_then_report_shows_open_session() {
    let mut s = eng_store();
    assert_eq!(check_in_at(&mut s, 1, 1, "Late".to_string(), at(T0 + 60)), Ok(()));
    let rows = get_member_attendance_by_team(&s, "Eng").unwrap();
    assert_eq!(rows.len(), 1);
    assert_eq!(rows[0].username, "u42");
    assert_eq!(rows[0].check_in_time, "2015-05-15 00:01:00");
    assert_eq!(rows[0].check_out_time, "N/A");
    assert_eq!(rows[0].status, "Late");
}

#[test]
fn check_in_records_the_day() {
    let mut s = eng_store();
    check_in_at(&mut s, 1, 1, "Present".to_string(), at(T0 + 86399)).unwrap();
    let row = &s.attendance()[0];
    assert_eq!(row.date, Date { days: 16570 });
    assert_eq!(row.check_out_time, None);
    assert_eq!(row.member_id, 1);
    assert_eq!(row.team_id, 1);
    assert_eq!(row.id, 1);
}

#[test]
fn check_out_without_open_session_is_not_found() {
    let mut s = eng_store();
    assert_eq!(check_out_at(&mut s, 1, at(T0)), Err(CoreError::NotFound(Entity::Session)));
}

#[test]
fn check_out_twice_succeeds_once() {
    let mut s = eng_store();
    check_in_at(&mut s, 1, 1, "Present".to_string(), at(T0)).unwrap();
    assert_eq!(check_out_at(&mut s, 1, at(T0 + 3600)), Ok(()));
    assert_eq!(check_out_at(&mut s, 1, at(T0 + 7200)), Err(CoreError::NotFound(Entity::Session)));
    assert_eq!(s.attendance()[0].check_out_time, Some(at(T0 + 3600)));
}

#[test]
fn check_in_to_unknown_team_leaves_no_row() {
    let mut s = eng_store();
    assert_eq!(
        check_in_at(&mut s, 1, 7, "Present".to_string(), at(T0)),
        Err(CoreError::NotFound(Entity::Team))
    );
    assert_eq!(s.attendance().len(), 0);
}

#[test]
fn check_in_of_unknown_member_is_not_found() {
    let mut s = eng_store();
    assert_eq!(
        check_in_at(&mut s, 2, 1, "Present".to_string(), at(T0)),
        Err(CoreError::NotFound(Entity::Member))
    );
    assert_eq!(s.attendance().len(), 0);
}

#[test]
fn second_open_check_in_is_a_conflict() {
    let mut s = eng_store();
    check_in_at(&mut s, 1, 1, "Present".to_string(), at(T0)).unwrap();
    assert_eq!(
        check_in_at(&mut s, 1, 1, "Present".to_string(), at(T0 + 5)),
        Err(CoreError::Conflict(Entity::Session))
    );
    assert_eq!(s.attendance().len(), 1);
    check_out_at(&mut s, 1, at(T0 + 10)).unwrap();
    assert_eq!(check_in_at(&mut s, 1, 1, "Present".to_string(), at(T0 + 20)), Ok(()));
    assert_eq!(s.attendance().len(), 2);
}

#[test]
fn report_of_unknown_team_is_not_found() {
    let s = eng_store();
    assert!(matches!(
        get_member_attendance_by_team(&s, "Ops"),
        Err(CoreError::NotFound(Entity::Team))
    ));
}

#[test]
fn report_keeps_only_the_team_and_check_in_order() {
    let mut s = eng_store();
    assert_eq!(create_team_at(&mut s, "Ops", 1, at(T0)), Ok(2));
    assign_member_at(&mut s, "u7", "Bo".to_string(), 2, at(T0)).unwrap();
    assign_member_at(&mut s, "u8", "Cy".to_string(), 1, at(T0)).unwrap();
    check_in_at(&mut s, 3, 1, "Late".to_string(), at(T0 + 1)).unwrap();
    check_in_at(&mut s, 2, 2, "Present".to_string(), at(T0 + 2)).unwrap();
    check_in_at(&mut s, 1, 1, "Present".to_string(), at(T0 + 3)).unwrap();
    let rows = get_member_attendance_by_team(&s, "Eng").unwrap();
    let names: Vec<&str> = rows.iter().map(|r| r.username.as_str()).collect();
    assert_eq!(names, vec!["Cy", "u42"]);
    assert!(get_member_attendance_by_team(&s, "Ops").unwrap().len() == 1);
}

#[test]
fn eng_scenario_from_team_to_check_out() {
    let mut s = Store::new();
    register_admin_at(&mut s, "admin-1", "Ada", "pw", at(T0)).unwrap();
    assert_eq!(handle_create_team(&mut s, "admin-1", "Eng", at(T0)), Ok(1));
    assert_eq!(handle_add_member(&mut s, "Eng", "u42", "u42".to_string(), at(T0)), Ok(()));
    assert_eq!(handle_check_in(&mut s, "u42", "Eng", "Present".to_string(), at(T0 + 60)), Ok(()));
    let rows = get_member_attendance_by_team(&s, "Eng").unwrap();
    assert_eq!(rows.len(), 1);
    assert_eq!(rows[0].username, "u42");
    assert_eq!(rows[0].check_in_time, "2015-05-15 00:01:00");
    assert_eq!(rows[0].check_out_time, "N/A");
    assert_eq!(rows[0].status, "Present");
    assert_eq!(handle_check_out(&mut s, "u42", "Eng", at(T0 + 3660)), Ok(()));
    let rows = get_member_attendance_by_team(&s, "Eng").unwrap();
    assert_eq!(rows.len(), 1);
    assert_eq!(rows[0].check_out_time, "2015-05-15 01:01:00");
}

#[test]
fn handler_check_in_resolves_names() {
    let mut s = eng_store();
    assert_eq!(
        handle_check_in(&mut s, "u42", "Ops", "Present".to_string(), at(T0)),
        Err(CoreError::NotFound(Entity::Team))
    );
    assert_eq!(
        handle_check_in(&mut s, "u99", "Eng", "Present".to_string(), at(T0)),
        Err(CoreError::NotFound(Entity::Member))
    );
    assert_eq!(
        handle_check_out(&mut s, "u42", "Eng", at(T0)),
        Err(CoreError::NotFound(Entity::Session))
    );
    assert_eq!(s.attendance().len(), 0);
}

#[test]
fn create_team_needs_a_registered_admin() {
    let mut s = Store::new();
    assert_eq!(
        handle_create_team(&mut s, "nobody", "Eng", at(T0)),
        Err(CoreError::NotFound(Entity::Admin))
    );
    assert_eq!(s.teams().len(), 0);
}

#[test]
fn clock_check_in_and_check_out() {
    let mut s = eng_store();
    assert_eq!(attendance_bot::attendance_service::check_in(&mut s, 1, 1, "Present".to_string()), Ok(()));
    assert_eq!(s.attendance()[0].check_out_time, None);
    assert_eq!(attendance_bot::attendance_service::check_out(&mut s, 1), Ok(()));
    assert!(s.attendance()[0].check_out_time.is_some());
    assert_eq!(
        attendance_bot::attendance_service::check_out(&mut s, 1),
        Err(CoreError::NotFound(Entity::Session))
    );
}
