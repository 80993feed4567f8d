use user_service::{
    add_user, delete_user, edit_user, get_user, hash_password, is_valid_email, passwords_match,
    reply_to_delete, reply_to_insert, reply_to_lookup, reply_to_sign_in, reply_to_update,
    sign_in_user, sign_out, verify_password, CredentialError, Reply, StoreError, User,
    UserPatch, UserStore,
};

const COST: u32 = 4;

fn form(username: &str, email: &str, password: &str, confirm: &str) -> User {
    User {
        first_name: "First".to_string(),
        last_name: "Last".to_string(),
        username: username.to_string(),
        email: email.to_string(),
        password: password.to_string(),
        confirm_password: confirm.to_string(),
    }
}

fn record(username: &str, password: &str) -> User {
    User {
        first_name: "F".to_string(),
        last_name: "L".to_string(),
        username: username.to_string(),
        email: format!("{username}@x.com"),
        password: password.to_string(),
        confirm_password: String::new(),
    }
}

#[test]
fn email_minimal_address_is_valid() {
    assert!(is_valid_email("a@b.co"));
}

#[test]
fn email_accepted_shapes() {
    assert!(is_valid_email("first.last+tag@sub.example.org"));
    assert!(is_valid_email("a_b%c-d@b-c.d.co"));
    assert!(is_valid_email("x@b..co"));
    assert!(is_valid_email("X9@Host.COM"));
}

#[test]
fn email_rejected_shapes() {
    for bad in [
        "", "a@b.c", "ab.co", "@b.co", "a@.co", "a@b.c0", "a@b@c.co", "a b@c.co", "a@b_c.co",
        "a@bco", "a@b.co ", "a@b.co\n", "é@b.co", "a@b.cö",
    ] {
        assert!(!is_valid_email(bad), "{bad:?} should be rejected");
    }
}

#[test]
fn passwords_match_equal_and_different() {
    assert!(passwords_match("x", "x"));
    assert!(!passwords_match("x", "y"));
    assert!(passwords_match("", ""));
    assert!(!passwords_match("x", "xx"));
}

#[test]
fn hash_then_verify_round_trip() {
    let h = hash_password("secret", COST).unwrap();
    assert_eq!(h.len(), 60);
    assert_ne!(h, "secret");
    assert_eq!(verify_password("secret", &h), Ok(true));
    assert_eq!(verify_password("secreT", &h), Ok(false));
}

#[test]
fn hashes_are_salted() {
    let a = hash_password("pw", COST).unwrap();
    let b = hash_password("pw", COST).unwrap();
    assert_ne!(a, b);
    assert_eq!(verify_password("pw", &a), Ok(true));
    assert_eq!(verify_password("pw", &b), Ok(true));
}

#[test]
fn hash_rejects_cost_out_of_range() {
    assert_eq!(hash_password("pw", 3), Err(CredentialError::CostOutOfRange));
    assert_eq!(hash_password("pw", 32), Err(CredentialError::CostOutOfRange));
}

#[test]
fn verify_rejects_unreadable_hash() {
    assert_eq!(verify_password("pw", "not a hash"), Err(CredentialError::UnreadableHash));
}

#[test]
fn store_create_refuses_duplicate_username() {
    let mut s = UserStore::new();
    assert_eq!(s.create(record("bob", "h1")), Ok(()));
    assert_eq!(s.create(record("bob", "h2")), Err(StoreError::DuplicateKey));
    assert_eq!(s.len(), 1);
    assert_eq!(s.find_by_username("bob").unwrap().password, "h1");
}

#[test]
fn store_find_and_delete() {
    let mut s = UserStore::new();
    s.create(record("a", "h")).unwrap();
    s.create(record("b", "h")).unwrap();
    assert_eq!(s.find_by_username("c"), None);
    assert_eq!(s.delete_by_username("a"), 1);
    assert_eq!(s.delete_by_username("a"), 0);
    assert_eq!(s.len(), 1);
    assert_eq!(s.find_by_username("b").unwrap().email, "b@x.com");
}

#[test]
fn store_update_fields_and_password() {
    let mut s = UserStore::new();
    s.create(record("a", "old")).unwrap();
    s.create(record("b", "h")).unwrap();
    let patch = UserPatch {
        first_name: "N".to_string(),
        last_name: "M".to_string(),
        username: "c".to_string(),
        email: "c@y.org".to_string(),
        password: None,
    };
    assert_eq!(s.update_by_username("a", patch.clone()), Ok(1));
    let c = s.find_by_username("c").unwrap();
    assert_eq!((c.first_name.as_str(), c.password.as_str()), ("N", "old"));
    assert_eq!(s.find_by_username("a"), None);
    assert_eq!(s.update_by_username("zz", patch.clone()), Ok(0));
    let taken = UserPatch { username: "b".to_string(), ..patch.clone() };
    assert_eq!(s.update_by_username("c", taken), Err(StoreError::DuplicateKey));
    let with_pw = UserPatch { password: Some("new".to_string()), ..patch };
    assert_eq!(s.update_by_username("c", with_pw), Ok(1));
    assert_eq!(s.find_by_username("c").unwrap().password, "new");
}

#[test]
fn add_user_rejects_bad_email() {
    let mut s = UserStore::new();
    let r = add_user(&mut s, &form("alice", "alice@x", "pw", "pw"), COST);
    assert_eq!(r, Reply::InvalidEmail);
    assert_eq!(r.status(), 400);
    assert_eq!(s.len(), 0);
}

#[test]
fn add_user_rejects_password_mismatch() {
    let mut s = UserStore::new();
    let r = add_user(&mut s, &form("alice", "alice@x.com", "pw1", "pw2"), COST);
    assert_eq!(r, Reply::PasswordMismatch);
    assert_eq!(r.status(), 400);
    assert_eq!(s.len(), 0);
}

#[test]
fn add_user_bad_cost_is_server_error() {
    let mut s = UserStore::new();
    let r = add_user(&mut s, &form("alice", "alice@x.com", "pw", "pw"), 2);
    assert_eq!(r, Reply::CredentialFailed(CredentialError::CostOutOfRange));
    assert_eq!(r.status(), 500);
}

#[test]
fn add_user_twice_same_username_fails() {
    let mut s = UserStore::new();
    assert_eq!(add_user(&mut s, &form("bob", "bob@x.com", "a", "a"), COST).status(), 200);
    let r = add_user(&mut s, &form("bob", "other@x.com", "b", "b"), COST);
    assert_eq!(r, Reply::StoreFailed(StoreError::DuplicateKey));
    assert_eq!(r.status(), 500);
    assert_eq!(s.len(), 1);
}

#[test]
fn get_user_never_created_is_not_found() {
    let mut s = UserStore::new();
    add_user(&mut s, &form("bob", "bob@x.com", "a", "a"), COST);
    let r = get_user(&s, "carol");
    assert_eq!(r, Reply::UserNotFound("carol".to_string()));
    assert_eq!(r.status(), 404);
}

#[test]
fn delete_user_twice() {
    let mut s = UserStore::new();
    add_user(&mut s, &form("bob", "bob@x.com", "a", "a"), COST);
    let first = delete_user(&mut s, "bob");
    assert_eq!(first, Reply::UserDeleted);
    assert_eq!(first.status(), 200);
    let second = delete_user(&mut s, "bob");
    assert_eq!(second, Reply::UserNotFound("bob".to_string()));
    assert_eq!(second.status(), 404);
}

#[test]
fn edit_user_mismatch_leaves_store_unchanged() {
    let mut s = UserStore::new();
    add_user(&mut s, &form("bob", "bob@x.com", "a", "a"), COST);
    let before = s.find_by_username("bob").unwrap();
    let r = edit_user(&mut s, "bob", &form("bob", "new@x.com", "b", "c"), true, COST);
    assert_eq!(r, Reply::PasswordMismatch);
    assert_eq!(r.status(), 400);
    assert_eq!(s.find_by_username("bob").unwrap(), before);
}

#[test]
fn edit_user_requires_sign_in() {
    let mut s = UserStore::new();
    add_user(&mut s, &form("bob", "bob@x.com", "a", "a"), COST);
    let r = edit_user(&mut s, "bob", &form("bob", "new@x.com", "b", "b"), false, COST);
    assert_eq!(r, Reply::NotSignedIn);
    assert_eq!(r.status(), 401);
    assert_eq!(s.find_by_username("bob").unwrap().email, "bob@x.com");
}

#[test]
fn edit_user_bad_email() {
    let mut s = UserStore::new();
    add_user(&mut s, &form("bob", "bob@x.com", "a", "a"), COST);
    let r = edit_user(&mut s, "bob", &form("bob", "new", "b", "b"), true, COST);
    assert_eq!(r, Reply::InvalidEmail);
    assert_eq!(r.status(), 400);
}

#[test]
fn edit_user_updates_and_rehashes() {
    let mut s = UserStore::new();
    add_user(&mut s, &form("bob", "bob@x.com", "a", "a"), COST);
    let r = edit_user(&mut s, "bob", &form("robert", "rob@x.com", "b", "b"), true, COST);
    assert_eq!(r, Reply::UserUpdated);
    assert_eq!(get_user(&s, "bob").status(), 404);
    match get_user(&s, "robert") {
        Reply::UserFound(u) => {
            assert_eq!(u.email, "rob@x.com");
            assert_eq!(verify_password("b", &u.password), Ok(true));
        }
        other => panic!("unexpected {other:?}"),
    }
    assert_eq!(sign_in_user(&s, "robert", "a"), Reply::WrongPassword);
}

#[test]
fn edit_user_without_password_keeps_hash() {
    let mut s = UserStore::new();
    add_user(&mut s, &form("bob", "bob@x.com", "a", "a"), COST);
    let before = s.find_by_username("bob").unwrap().password;
    let r = edit_user(&mut s, "bob", &form("bob", "b2@x.com", "", ""), true, COST);
    assert_eq!(r, Reply::UserUpdated);
    let after = s.find_by_username("bob").unwrap();
    assert_eq!(after.password, before);
    assert_eq!(after.email, "b2@x.com");
}

#[test]
fn edit_user_missing_is_not_found() {
    let mut s = UserStore::new();
    let r = edit_user(&mut s, "ghost", &form("ghost", "g@x.com", "", ""), true, COST);
    assert_eq!(r, Reply::UserNotFound("ghost".to_string()));
    assert_eq!(r.status(), 404);
}

#[test]
fn edit_user_to_taken_username_fails() {
    let mut s = UserStore::new();
    add_user(&mut s, &form("a", "a@x.com", "p", "p"), COST);
    add_user(&mut s, &form("b", "b@x.com", "p", "p"), COST);
    let r = edit_user(&mut s, "a", &form("b", "a@x.com", "", ""), true, COST);
    assert_eq!(r, Reply::StoreFailed(StoreError::DuplicateKey));
    assert_eq!(r.status(), 500);
}

#[test]
fn alice_scenario() {
    let mut s = UserStore::new();
    let r = add_user(&mut s, &form("alice", "alice@x.com", "pw123", "pw123"), COST);
    assert_eq!(r, Reply::UserAdded);
    assert_eq!(r.status(), 200);
    let got = get_user(&s, "alice");
    assert_eq!(got.status(), 200);
    match got {
        Reply::UserFound(u) => {
            assert_eq!(u.email, "alice@x.com");
            assert_ne!(u.password, "pw123");
            assert_eq!(u.confirm_password, "");
        }
        other => panic!("unexpected {other:?}"),
    }
    let ok = sign_in_user(&s, "alice", "pw123");
    assert_eq!(ok, Reply::SignedIn("alice".to_string()));
    assert_eq!(ok.status(), 200);
    let bad = sign_in_user(&s, "alice", "wrong");
    assert_eq!(bad, Reply::WrongPassword);
    assert_eq!(bad.status(), 404);
    assert_eq!(sign_in_user(&s, "nobody", "pw123").status(), 404);
}

#[test]
fn sign_out_clears_session() {
    let r = sign_out();
    assert_eq!(r, Reply::SignedOut);
    assert_eq!(r.status(), 200);
}

#[test]
fn replies_to_backend_outcomes() {
    let backend = StoreError::Backend("down".to_string());
    assert_eq!(reply_to_insert(Ok(())), Reply::UserAdded);
    assert_eq!(reply_to_insert(Err(backend.clone())).status(), 500);
    assert_eq!(reply_to_lookup("u", Ok(None)), Reply::UserNotFound("u".to_string()));
    assert_eq!(reply_to_lookup("u", Err(backend.clone())), Reply::StoreFailed(backend.clone()));
    assert_eq!(reply_to_delete("u", Ok(2)), Reply::UserDeleted);
    assert_eq!(reply_to_delete("u", Ok(0)).status(), 404);
    assert_eq!(reply_to_update("u", Ok(1)), Reply::UserUpdated);
    assert_eq!(reply_to_update("u", Ok(0)).status(), 404);
    assert_eq!(reply_to_update("u", Err(backend.clone())).status(), 500);
    assert_eq!(reply_to_sign_in("u", "p", Err(backend)).status(), 500);
    assert_eq!(
        reply_to_sign_in("u", "p", Ok(Some(record("u", "garbage")))),
        Reply::CredentialFailed(CredentialError::UnreadableHash)
    );
}
