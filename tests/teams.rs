use attendance_bot::model::{CoreError, Entity};
use attendance_bot::store::Store;
use attendance_bot::team_repository::{
    assign_member_at, create_team_at, get_admin_teams, get_members, list_members, list_teams,
};
use attendance_bot::team_service::{add_member, get_members_by_team, register_team, show_team};
use attendance_bot::time::Timestamp;
use attendance_bot::user_repository::register_admin_at;

fn at(secs: i64) -> Timestamp {
    Timestamp { secs }
}

fn two_admins() -> Store {
    let mut s = Store::new();
    register_admin_at(&mut s, "a1", "Ada", "pw", at(0)).unwrap();
    register_admin_at(&mut s, "a2", "Bob", "pw", at(0)).unwrap();
    s
}

#[test]
fn teams_listed_are_exactly_the_owned_ones() {
    let mut s = two_admins();
    create_team_at(&mut s, "Eng", 1, at(10)).unwrap();
    create_team_at(&mut s, "Ops", 2, at(20)).unwrap();
    create_team_at(&mut s, "QA", 1, at(30)).unwrap();
    let mine: Vec<String> = list_teams(&s, 1).into_iter().map(|t| t.name).collect();
    assert_eq!(mine, vec!["Eng".to_string(), "QA".to_string()]);
    let theirs = list_teams(&s, 2);
    assert_eq!(theirs.len(), 1);
    assert_eq!(theirs[0].name, "Ops");
    assert_eq!(theirs[0].admin_id, 2);
    assert_eq!(theirs[0].id, 2);
    assert!(list_teams(&s, 3).is_empty());
}

#[test]
fn admin_with_no_team_lists_nothing() {
    let s = two_admins();
    assert!(list_teams(&s, 1).is_empty());
    assert_eq!(get_admin_teams(&s, "a1").unwrap().len(), 0);
}

#[test]
fn admin_teams_show_creation_time() {
    let mut s = two_admins();
    create_team_at(&mut s, "Eng", 1, at(1431648000)).unwrap();
    let rows = get_admin_teams(&s, "a1").unwrap();
    assert_eq!(rows.len(), 1);
    assert_eq!(rows[0].name, "Eng");
    assert_eq!(rows[0].created_at, "2015-05-15 00:00:00");
    assert!(matches!(get_admin_teams(&s, "zz"), Err(CoreError::NotFound(Entity::Admin))));
}

#[test]
fn duplicate_team_name_is_a_conflict() {
    let mut s = two_admins();
    assert_eq!(create_team_at(&mut s, "Eng", 1, at(0)), Ok(1));
    assert_eq!(create_team_at(&mut s, "Eng", 2, at(0)), Err(CoreError::Conflict(Entity::Team)));
    assert_eq!(s.teams().len(), 1);
}

#[test]
fn members_join_with_default_role_and_day() {
    let mut s = two_admins();
    create_team_at(&mut s, "Eng", 1, at(0)).unwrap();
    assign_member_at(&mut s, "u1", "Cy".to_string(), 1, at(13036 * 86400 + 5)).unwrap();
    let m = &s.members()[0];
    assert_eq!(m.position, "Default");
    assert_eq!(m.discord_id, "u1");
    assert_eq!(m.username, "Cy");
    assert_eq!(m.team_id, 1);
    let rows = get_members(&s, "Eng").unwrap();
    assert_eq!(rows.len(), 1);
    assert_eq!(rows[0].username, "Cy");
    assert_eq!(rows[0].join_date, "2005-09-10");
}

#[test]
fn member_listing_is_per_team() {
    let mut s = two_admins();
    create_team_at(&mut s, "Eng", 1, at(0)).unwrap();
    create_team_at(&mut s, "Ops", 2, at(0)).unwrap();
    assign_member_at(&mut s, "u1", "Cy".to_string(), 1, at(0)).unwrap();
    assign_member_at(&mut s, "u2", "Di".to_string(), 2, at(0)).unwrap();
    assign_member_at(&mut s, "u3", "Ed".to_string(), 1, at(0)).unwrap();
    let eng: Vec<String> = list_members(&s, 1).into_iter().map(|m| m.username).collect();
    assert_eq!(eng, vec!["Cy".to_string(), "Ed".to_string()]);
    assert!(list_members(&s, 9).is_empty());
    assert!(matches!(get_members(&s, "Nope"), Err(CoreError::NotFound(Entity::Team))));
}

#[test]
fn member_of_unknown_team_or_twice_is_refused() {
    let mut s = two_admins();
    create_team_at(&mut s, "Eng", 1, at(0)).unwrap();
    assert_eq!(
        assign_member_at(&mut s, "u1", "Cy".to_string(), 5, at(0)),
        Err(CoreError::NotFound(Entity::Team))
    );
    assign_member_at(&mut s, "u1", "Cy".to_string(), 1, at(0)).unwrap();
    assert_eq!(
        assign_member_at(&mut s, "u1", "Cy again".to_string(), 1, at(0)),
        Err(CoreError::Conflict(Entity::Member))
    );
    assert_eq!(s.members().len(), 1);
}

#[test]
fn services_use_the_clock() {
    let mut s = two_admins();
    assert_eq!(register_team(&mut s, "Eng", 1), Ok(1));
    assert_eq!(add_member(&mut s, "u1", "Cy".to_string(), 1), Ok(()));
    assert_eq!(show_team(&s, "a1").unwrap()[0].name, "Eng");
    assert_eq!(get_members_by_team(&s, "Eng").unwrap()[0].username, "Cy");
}
