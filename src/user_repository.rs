//! Admin accounts: registration with a salted one-way password hash,
//! credential checks, and lookup by name.
use vstd::prelude::*;

use crate::model::{CoreError, Entity, User};
use crate::store::{Store, StoreView, MAX_ID};
use crate::time::{clock_now, Timestamp};

verus! {

/// The bcrypt work factor of stored password hashes.
pub const HASH_COST: u32 = 4;

#[verifier::external_type_specification]
#[verifier::external_body]
pub struct ExBcryptError(bcrypt::BcryptError);

/// Whether bcrypt judges `password` to match the stored hash `hash`, or
/// `None` where the hash cannot be read.
pub uninterp spec fn password_verdict(password: Seq<char>, hash: Seq<char>) -> Option<bool>;

/// Relies on bcrypt::verify: its verdict depends on the password and the
/// stored hash alone, and it fails only where the hash cannot be read.
#[verifier::external_body]
fn bcrypt_verify(password: &str, hash: &str) -> (r: Result<bool, bcrypt::BcryptError>)
    ensures
        r is Ok <==> password_verdict(password@, hash@) is Some,
        r matches Ok(b) ==> password_verdict(password@, hash@) == Some(b),
{
    bcrypt::verify(password, hash)
}

/// Relies on bcrypt::hash: with a random salt and a cost in 4..=31, the hash
/// it returns is one that bcrypt::verify accepts for the same password.
#[verifier::external_body]
fn bcrypt_hash(password: &str, cost: u32) -> (r: Result<String, bcrypt::BcryptError>)
    requires
        4 <= cost <= 31,
    ensures
        r matches Ok(h) ==> password_verdict(password@, h@) == Some(true),
{
    bcrypt::hash(password, cost)
}

/// Why registering platform identity `discord_id` is refused on `v`, before
/// any hashing.
pub open spec fn register_error(v: StoreView, discord_id: Seq<char>) -> Option<CoreError> {
    if v.admin_index(discord_id) is Some {
        Some(CoreError::Conflict(Entity::Admin))
    } else if v.users.len() >= MAX_ID {
        Some(CoreError::Persistence(Entity::Admin))
    } else {
        None
    }
}

/// `w` is `v` with one admin added: the next identifier, the given identity
/// and name, a hash that verifies `password`, created and updated at `now`.
pub open spec fn admin_added(
    v: StoreView,
    w: StoreView,
    discord_id: Seq<char>,
    username: Seq<char>,
    password: Seq<char>,
    now: Timestamp,
) -> bool {
    &&& w == (StoreView { users: v.users.push(w.users.last()), ..v })
    &&& w.users.last().id == v.users.len() + 1
    &&& w.users.last().discord_id@ == discord_id
    &&& w.users.last().username@ == username
    &&& password_verdict(password, w.users.last().password_hash@) == Some(true)
    &&& w.users.last().is_admin
    &&& w.users.last().created_at == now
    &&& w.users.last().updated_at == now
}

/// What `register_admin(discord_id, username, password)` at `now` does:
/// from `v` to `w`, answering `r`. Past the checks on `v`, only the hashing
/// can fail.
pub open spec fn register_post(
    v: StoreView,
    w: StoreView,
    discord_id: Seq<char>,
    username: Seq<char>,
    password: Seq<char>,
    now: Timestamp,
    r: Result<(), CoreError>,
) -> bool {
    match register_error(v, discord_id) {
        Some(e) => r == Err::<(), CoreError>(e) && w == v,
        None => match r {
            Ok(_) => admin_added(v, w, discord_id, username, password, now),
            Err(e) => e == CoreError::Credential && w == v,
        },
    }
}

/// What checking `password` for the admin with identity `discord_id` gives
/// on `v`.
pub open spec fn authenticate_of(v: StoreView, discord_id: Seq<char>, password: Seq<char>) -> Result<
    bool,
    CoreError,
> {
    match v.admin_index(discord_id) {
        None => Err(CoreError::NotFound(Entity::Admin)),
        Some(u) => match password_verdict(password, v.users[u].password_hash@) {
            Some(b) => Ok(b),
            None => Err(CoreError::Credential),
        },
    }
}

/// Position `i` holds the first admin named `username`.
pub open spec fn is_first_named(users: Seq<User>, username: Seq<char>, i: int) -> bool {
    &&& 0 <= i < users.len()
    &&& users[i].username@ == username
    &&& forall|j: int| 0 <= j < i ==> users[j].username@ != username
}

/// The position of the first admin named `username`.
pub open spec fn first_named(users: Seq<User>, username: Seq<char>) -> Option<int> {
    if exists|i: int| 0 <= i < users.len() && users[i].username@ == username {
        Some(choose|i: int| is_first_named(users, username, i))
    } else {
        None
    }
}

/// `w` is `v` with one admin added: the next identifier, the given identity
/// and name, the stored hash `password_hash`, created and updated at `now`.
pub open spec fn admin_row_added(
    v: StoreView,
    w: StoreView,
    discord_id: Seq<char>,
    username: Seq<char>,
    password_hash: String,
    now: Timestamp,
) -> bool {
    &&& w == (StoreView { users: v.users.push(w.users.last()), ..v })
    &&& w.users.last().id == v.users.len() + 1
    &&& w.users.last().discord_id@ == discord_id
    &&& w.users.last().username@ == username
    &&& w.users.last().password_hash == password_hash
    &&& w.users.last().is_admin
    &&& w.users.last().created_at == now
    &&& w.users.last().updated_at == now
}

/// Registers an admin with platform identity `discord_id`, display name
/// `username` and the already-made password hash `password_hash`, at `now`.
/// An identity that is already registered is a conflict.
pub fn register_admin_hashed(
    store: &mut Store,
    discord_id: &str,
    username: &str,
    password_hash: String,
    now: Timestamp,
) -> (r: Result<(), CoreError>)
    requires
        old(store)@.wf(),
    ensures
        final(store)@.wf(),
        match register_error(old(store)@, discord_id@) {
            Some(e) => r == Err::<(), CoreError>(e) && final(store)@ == old(store)@,
            None => r is Ok && admin_row_added(
                old(store)@,
                final(store)@,
                discord_id@,
                username@,
                password_hash,
                now,
            ),
        },
{
    let ghost v = store@;
    let key = String::from_str(discord_id);
    if store.find_admin(&key).is_some() {
        return Err(CoreError::Conflict(Entity::Admin));
    }
    let n = store.users().len();
    if n >= MAX_ID as usize {
        return Err(CoreError::Persistence(Entity::Admin));
    }
    let row = User {
        id: (n + 1) as i32,
        discord_id: key,
        username: String::from_str(username),
        password_hash,
        is_admin: true,
        created_at: now,
        updated_at: now,
    };
    store.insert_user(row);
    proof {
        let w = store@;
        assert(w.users.last() == row);
        assert forall|i: int| 0 <= i < w.users.len() implies #[trigger] w.users[i].id == i + 1 by {
            if i < v.users.len() {
                assert(w.users[i] == v.users[i]);
            }
        }
        assert forall|i: int, j: int|
            0 <= i < w.users.len() && 0 <= j < w.users.len() && #[trigger] w.users[i].discord_id@
                == #[trigger] w.users[j].discord_id@ implies i == j by {
            if i < v.users.len() {
                assert(w.users[i] == v.users[i]);
            }
            if j < v.users.len() {
                assert(w.users[j] == v.users[j]);
            }
        }
        assert forall|i: int| 0 <= i < w.attendance.len() implies {
            &&& w.has_member(#[trigger] w.attendance[i].member_id as int)
            &&& w.has_team(w.attendance[i].team_id as int)
        } by {
            assert(v.has_member(v.attendance[i].member_id as int));
        }
    }
    Ok(())
}

/// Registers an admin with platform identity `discord_id`, display name
/// `username` and a salted hash of `password`, at `now`. An identity that
/// is already registered is a conflict, checked before any hashing; a hash
/// that cannot be made fails with `Credential`. What is stored once the
/// hash is made is `register_admin_hashed`'s.
pub fn register_admin_at(
    store: &mut Store,
    discord_id: &str,
    username: &str,
    password: &str,
    now: Timestamp,
) -> (r: Result<(), CoreError>)
    requires
        old(store)@.wf(),
    ensures
        final(store)@.wf(),
        register_post(old(store)@, final(store)@, discord_id@, username@, password@, now, r),
{
    let key = String::from_str(discord_id);
    if store.find_admin(&key).is_some() {
        return Err(CoreError::Conflict(Entity::Admin));
    }
    if store.users().len() >= MAX_ID as usize {
        return Err(CoreError::Persistence(Entity::Admin));
    }
    match bcrypt_hash(password, HASH_COST) {
        Ok(h) => register_admin_hashed(store, discord_id, username, h, now),
        Err(_) => Err(CoreError::Credential),
    }
}

/// Registers an admin now; as `register_admin_at`, at the instant the clock
/// gives.
pub fn register_admin(store: &mut Store, discord_id: &str, username: &str, password: &str) -> (r:
    Result<(), CoreError>)
    requires
        old(store)@.wf(),
    ensures
        final(store)@.wf(),
        register_post(
            old(store)@,
            final(store)@,
            discord_id@,
            username@,
            password@,
            final(store)@.users.last().created_at,
            r,
        ),
{
    let now = clock_now();
    register_admin_at(store, discord_id, username, password, now)
}

/// Whether `password` is that of the admin with platform identity
/// `discord_id`. Fails with `NotFound(Admin)` when there is no such admin,
/// and with `Credential` when the stored hash cannot be read.
pub fn authenticate(store: &Store, discord_id: &str, password: &str) -> (r: Result<bool, CoreError>)
    requires
        store@.wf(),
    ensures
        r == authenticate_of(store@, discord_id@, password@),
{
    let key = String::from_str(discord_id);
    match store.find_admin(&key) {
        None => Err(CoreError::NotFound(Entity::Admin)),
        Some(u) => check_password(password, store.users()[u].password_hash.as_str()),
    }
}

/// Whether `password` matches the stored hash `hash`; fails with
/// `Credential` when the hash cannot be read.
pub fn check_password(password: &str, hash: &str) -> (r: Result<bool, CoreError>)
    ensures
        match password_verdict(password@, hash@) {
            Some(b) => r == Ok::<bool, CoreError>(b),
            None => r == Err::<bool, CoreError>(CoreError::Credential),
        },
{
    match bcrypt_verify(password, hash) {
        Ok(b) => Ok(b),
        Err(_) => Err(CoreError::Credential),
    }
}

/// A copy of admin `u`.
fn copy_user(u: &User) -> (r: User)
    ensures
        r == *u,
{
    User {
        id: u.id,
        discord_id: u.discord_id.clone(),
        username: u.username.clone(),
        password_hash: u.password_hash.clone(),
        is_admin: u.is_admin,
        created_at: u.created_at,
        updated_at: u.updated_at,
    }
}

/// The first admin, in order of registration, named `username`.
pub fn find_by_username(store: &Store, username: &str) -> (r: Option<User>)
    ensures
        match first_named(store@.users, username@) {
            Some(i) => r == Some(store@.users[i]),
            None => r is None,
        },
{
    let users = store.users();
    let key = String::from_str(username);
    let mut i: usize = 0;
    while i < users.len()
        invariant
            users@ == store@.users,
            key@ == username@,
            i <= users@.len(),
            forall|j: int| 0 <= j < i ==> users@[j].username@ != username@,
        decreases users@.len() - i,
    {
        if users[i].username.eq(&key) {
            proof {
                assert(is_first_named(users@, username@, i as int));
                let k = choose|k: int| is_first_named(users@, username@, k);
                assert(is_first_named(users@, username@, k));
                if k < i {
                    assert(users@[k].username@ != username@);
                } else if k > i {
                    assert(users@[i as int].username@ != username@);
                }
            }
            return Some(copy_user(&users[i]));
        }
        i = i + 1;
    }
    None
}

} // verus!
