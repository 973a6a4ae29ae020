use attendance_bot::auth::{login_user, login_user_at, token_claims, TOKEN_VALIDITY_SECS};
use attendance_bot::model::{CoreError, Entity};
use attendance_bot::store::Store;
use attendance_bot::time::Timestamp;
use attendance_bot::user_repository::{
    authenticate, check_password, find_by_username, register_admin, register_admin_at,
    register_admin_hashed,
};

fn at(secs: i64) -> Timestamp {
    Timestamp { secs }
}

#[test]
fn register_then_authenticate() {
    let mut s = Store::new();
    register_admin_at(&mut s, "id-1", "Ada", "secret123", at(0)).unwrap();
    assert_eq!(authenticate(&s, "id-1", "secret123"), Ok(true));
    assert_eq!(authenticate(&s, "id-1", "wrong"), Ok(false));
    assert_eq!(authenticate(&s, "unknown", "x"), Err(CoreError::NotFound(Entity::Admin)));
}

#[test]
fn stored_hash_is_not_the_password() {
    let mut s = Store::new();
    register_admin_at(&mut s, "id-1", "Ada", "secret123", at(5)).unwrap();
    let u = &s.users()[0];
    assert_ne!(u.password_hash, "secret123");
    assert!(u.password_hash.starts_with("$2b$04$"));
    assert_eq!(u.password_hash.len(), 60);
    assert!(u.is_admin);
    assert_eq!(u.id, 1);
    assert_eq!(u.created_at, at(5));
    assert_eq!(u.updated_at, at(5));
}

#[test]
fn duplicate_registration_is_a_conflict() {
    let mut s = Store::new();
    register_admin(&mut s, "id-1", "Ada", "a").unwrap();
    assert_eq!(register_admin(&mut s, "id-1", "Ada", "b"), Err(CoreError::Conflict(Entity::Admin)));
    assert_eq!(s.users().len(), 1);
    assert_eq!(authenticate(&s, "id-1", "a"), Ok(true));
}

#[test]
fn malformed_hash_is_reported() {
    assert_eq!(check_password("x", "not a hash"), Err(CoreError::Credential));
}

#[test]
fn find_by_username_takes_the_first() {
    let mut s = Store::new();
    register_admin_at(&mut s, "id-1", "Ada", "a", at(0)).unwrap();
    register_admin_at(&mut s, "id-2", "Ada", "b", at(0)).unwrap();
    assert_eq!(find_by_username(&s, "Ada").unwrap().discord_id, "id-1");
    assert!(find_by_username(&s, "Bob").is_none());
}

#[test]
fn token_expires_one_window_later() {
    let c = token_claims("Ada", at(1000)).unwrap();
    assert_eq!(c.sub, "Ada");
    assert_eq!(c.exp, 1000 + TOKEN_VALIDITY_SECS);
    assert_eq!(TOKEN_VALIDITY_SECS, 3600);
    assert!(token_claims("Ada", at(-1)).is_none());
}

#[test]
fn login_checks_the_password() {
    let mut s = Store::new();
    register_admin_at(&mut s, "id-1", "Ada", "secret123", at(0)).unwrap();
    let c = login_user_at(&s, "Ada", "secret123", at(100)).unwrap();
    assert_eq!(c.sub, "Ada");
    assert_eq!(c.exp, 3700);
    assert!(matches!(login_user_at(&s, "Ada", "nope", at(100)), Err(CoreError::Unauthorized)));
    assert!(matches!(
        login_user_at(&s, "Bob", "secret123", at(100)),
        Err(CoreError::NotFound(Entity::Admin))
    ));
    assert!(matches!(login_user_at(&s, "Ada", "secret123", at(-5)), Err(CoreError::Validation)));
}

#[test]
fn login_with_the_clock_gives_a_token() {
    let mut s = Store::new();
    register_admin(&mut s, "1001", "alice", "secret123").unwrap();
    let c = login_user(&s, "alice", "secret123").unwrap();
    assert_eq!(c.sub, "alice");
    assert!(c.exp >= TOKEN_VALIDITY_SECS);
    assert!(matches!(login_user(&s, "alice", "wrong"), Err(CoreError::Unauthorized)));
    assert!(matches!(login_user(&s, "unknown", "x"), Err(CoreError::NotFound(Entity::Admin))));
}

#[test]
fn registration_stores_the_given_hash() {
    let mut s = Store::new();
    let hash = "$2b$04$abcdefghijklmnopqrstuuABCDEFGHIJKLMNOPQRSTUVWXYZ01234".to_string();
    assert_eq!(register_admin_hashed(&mut s, "id-9", "Zed", hash.clone(), at(7)), Ok(()));
    let u = &s.users()[0];
    assert_eq!(u.password_hash, hash);
    assert_eq!(u.discord_id, "id-9");
    assert_eq!(u.username, "Zed");
    assert_eq!(u.id, 1);
    assert!(u.is_admin);
    assert_eq!(u.created_at, at(7));
    assert_eq!(
        register_admin_hashed(&mut s, "id-9", "Zed", hash, at(8)),
        Err(CoreError::Conflict(Entity::Admin))
    );
    assert_eq!(s.users().len(), 1);
}
