use vstd::prelude::*;
use crate::credentials::{
    hash_password, verify_outcome, verify_password, CredentialError, MAX_COST, MIN_COST,
};
use crate::store::{
    create_model, delete_model, holds_name, lookup_model, names_unique, position_of,
    update_model, PatchView, StoreError, UserPatch, UserStore,
};
use crate::user::{User, UserView};
use crate::validate::{email_shape, is_valid_email, passwords_match};

verus! {

/// The outcome of a request, which the transport renders as a status code
/// and a body.
#[derive(Clone, Debug, PartialEq, Eq)]
pub enum Reply {
    /// The user was stored.
    UserAdded,
    /// The user asked for, as stored.
    UserFound(User),
    /// The user was removed.
    UserDeleted,
    /// The user was updated.
    UserUpdated,
    /// The named user signed in; the transport sets the session marker.
    SignedIn(String),
    /// The transport clears the session marker.
    SignedOut,
    /// The e-mail address is malformed.
    InvalidEmail,
    /// The password and its confirmation differ.
    PasswordMismatch,
    /// The request needs a prior sign-in.
    NotSignedIn,
    /// No user has the given username.
    UserNotFound(String),
    /// The password does not match the stored hash.
    WrongPassword,
    /// The repository failed.
    StoreFailed(StoreError),
    /// Hashing or checking a password failed.
    CredentialFailed(CredentialError),
}

impl Reply {
    /// The HTTP status code of a reply.
    pub open spec fn code(&self) -> u16 {
        match self {
            Reply::UserAdded | Reply::UserFound(_) | Reply::UserDeleted | Reply::UserUpdated
            | Reply::SignedIn(_) | Reply::SignedOut => 200,
            Reply::InvalidEmail | Reply::PasswordMismatch => 400,
            Reply::NotSignedIn => 401,
            Reply::UserNotFound(_) | Reply::WrongPassword => 404,
            Reply::StoreFailed(_) | Reply::CredentialFailed(_) => 500,
        }
    }

    /// The HTTP status code of this reply.
    pub fn status(&self) -> (r: u16)
        ensures
            r == self.code(),
    {
        match self {
            Reply::UserAdded | Reply::UserFound(_) | Reply::UserDeleted | Reply::UserUpdated
            | Reply::SignedIn(_) | Reply::SignedOut => 200,
            Reply::InvalidEmail | Reply::PasswordMismatch => 400,
            Reply::NotSignedIn => 401,
            Reply::UserNotFound(_) | Reply::WrongPassword => 404,
            Reply::StoreFailed(_) | Reply::CredentialFailed(_) => 500,
        }
    }
}

/// What validation says of a submitted form: `Some` of the rejection, or
/// `None` when the form is acceptable.
pub open spec fn form_rejection(form: UserView) -> Option<Reply> {
    if !email_shape(form.email) {
        Some(Reply::InvalidEmail)
    } else if form.password != form.confirm_password {
        Some(Reply::PasswordMismatch)
    } else {
        None
    }
}

/// What the edit handler says before it hashes or touches the repository:
/// `Some` of the rejection, or `None` when it goes on.
pub open spec fn edit_rejection(signed_in: bool, form: UserView) -> Option<Reply> {
    if !signed_in {
        Some(Reply::NotSignedIn)
    } else {
        form_rejection(form)
    }
}

pub open spec fn cost_allowed(cost: u32) -> bool {
    MIN_COST <= cost <= MAX_COST
}

/// `rec` is the stored form of the submitted `form`: the same names,
/// username and e-mail, a hash of the submitted password in place of it, and
/// no confirmation.
pub open spec fn is_record_of(rec: UserView, form: UserView) -> bool {
    &&& rec.first_name == form.first_name
    &&& rec.last_name == form.last_name
    &&& rec.username == form.username
    &&& rec.email == form.email
    &&& rec.password.len() == 60
    &&& verify_outcome(form.password, rec.password) == Ok::<bool, CredentialError>(true)
    &&& rec.confirm_password.len() == 0
}

/// `p` is the update that a submitted edit form asks for: the names,
/// username and e-mail of the form, and a hash of the new password when one
/// was given.
pub open spec fn is_patch_of(p: PatchView, form: UserView) -> bool {
    &&& p.first_name == form.first_name
    &&& p.last_name == form.last_name
    &&& p.username == form.username
    &&& p.email == form.email
    &&& if form.password.len() == 0 {
        p.password is None
    } else {
        p.password matches Some(h) && h.len() == 60 && verify_outcome(form.password, h) == Ok::<
            bool,
            CredentialError,
        >(true)
    }
}

/// The status of a lookup of `name`.
pub open spec fn get_status(s: Seq<UserView>, name: Seq<char>) -> u16 {
    if holds_name(s, name) {
        200
    } else {
        404
    }
}

/// The status of a deletion of `name`.
pub open spec fn delete_status(s: Seq<UserView>, name: Seq<char>) -> u16 {
    if holds_name(s, name) {
        200
    } else {
        404
    }
}

/// Validates a submitted form and turns it into the record to store, with the
/// password hashed at work factor `cost`.
pub fn new_user_record(form: &User, cost: u32) -> (r: Result<User, Reply>)
    ensures
        form_rejection(form@) matches Some(e) ==> r == Err::<User, Reply>(e),
        form_rejection(form@) is None && !cost_allowed(cost) ==> r == Err::<User, Reply>(
            Reply::CredentialFailed(CredentialError::CostOutOfRange),
        ),
        form_rejection(form@) is None && cost_allowed(cost) ==> match r {
            Ok(u) => is_record_of(u@, form@),
            Err(e) => e == Reply::CredentialFailed(CredentialError::HashingFailed),
        },
{
    if !is_valid_email(form.email.as_str()) {
        return Err(Reply::InvalidEmail);
    }
    if !passwords_match(form.password.as_str(), form.confirm_password.as_str()) {
        return Err(Reply::PasswordMismatch);
    }
    match hash_password(form.password.as_str(), cost) {
        Ok(h) => Ok(
            User {
                first_name: form.first_name.clone(),
                last_name: form.last_name.clone(),
                username: form.username.clone(),
                email: form.email.clone(),
                password: h,
                confirm_password: String::new(),
            },
        ),
        Err(e) => Err(Reply::CredentialFailed(e)),
    }
}

/// The reply to an insertion into the repository.
pub fn reply_to_insert(result: Result<(), StoreError>) -> (r: Reply)
    ensures
        match result {
            Ok(()) => r == Reply::UserAdded,
            Err(e) => r == Reply::StoreFailed(e),
        },
{
    match result {
        Ok(()) => Reply::UserAdded,
        Err(e) => Reply::StoreFailed(e),
    }
}

/// Adds the user of a submitted form to `store`.
pub fn add_user(store: &mut UserStore, form: &User, cost: u32) -> (r: Reply)
    ensures
        form_rejection(form@) matches Some(e) ==> r == e && final(store)@ == old(store)@,
        form_rejection(form@) is None && !cost_allowed(cost) ==> r == Reply::CredentialFailed(
            CredentialError::CostOutOfRange,
        ) && final(store)@ == old(store)@,
        form_rejection(form@) is None && cost_allowed(cost) ==> match r {
            Reply::UserAdded => !holds_name(old(store)@, form.username@) && exists|rec: UserView|
                is_record_of(rec, form@) && final(store)@ == old(store)@.push(rec),
            Reply::StoreFailed(e) => holds_name(old(store)@, form.username@) && e
                == StoreError::DuplicateKey && final(store)@ == old(store)@,
            Reply::CredentialFailed(e) => e == CredentialError::HashingFailed && final(store)@
                == old(store)@,
            _ => false,
        },
{
    let rec = match new_user_record(form, cost) {
        Ok(rec) => rec,
        Err(e) => {
            return e;
        },
    };
    let ghost rv = rec@;
    let result = store.create(rec);
    proof {
        if result is Ok {
            assert(is_record_of(rv, form@) && store@ == old(store)@.push(rv));
        }
    }
    reply_to_insert(result)
}

/// The reply to a lookup of `name` in the repository.
pub fn reply_to_lookup(name: &str, result: Result<Option<User>, StoreError>) -> (r: Reply)
    ensures
        match result {
            Ok(Some(u)) => r == Reply::UserFound(u),
            Ok(None) => r matches Reply::UserNotFound(n) && n@ == name@,
            Err(e) => r == Reply::StoreFailed(e),
        },
{
    match result {
        Ok(Some(u)) => Reply::UserFound(u),
        Ok(None) => Reply::UserNotFound(name.to_owned()),
        Err(e) => Reply::StoreFailed(e),
    }
}

/// Looks up the user named `name` in `store`.
pub fn get_user(store: &UserStore, name: &str) -> (r: Reply)
    ensures
        names_unique(store@),
        r.code() == get_status(store@, name@),
        match lookup_model(store@, name@) {
            Some(u) => r matches Reply::UserFound(v) && v@ == u,
            None => r matches Reply::UserNotFound(n) && n@ == name@,
        },
{
    reply_to_lookup(name, Ok(store.find_by_username(name)))
}

/// The reply to a deletion of `name` that removed `result` users.
pub fn reply_to_delete(name: &str, result: Result<u64, StoreError>) -> (r: Reply)
    ensures
        match result {
            Ok(n) => if n > 0 {
                r == Reply::UserDeleted
            } else {
                r matches Reply::UserNotFound(m) && m@ == name@
            },
            Err(e) => r == Reply::StoreFailed(e),
        },
{
    match result {
        Ok(n) => if n > 0 {
            Reply::UserDeleted
        } else {
            Reply::UserNotFound(name.to_owned())
        },
        Err(e) => Reply::StoreFailed(e),
    }
}

/// Removes the user named `name` from `store`.
pub fn delete_user(store: &mut UserStore, name: &str) -> (r: Reply)
    ensures
        names_unique(final(store)@),
        final(store)@ == delete_model(old(store)@, name@).0,
        r.code() == delete_status(old(store)@, name@),
        holds_name(old(store)@, name@) ==> r == Reply::UserDeleted,
        !holds_name(old(store)@, name@) ==> (r matches Reply::UserNotFound(n) && n@ == name@),
{
    let n = store.delete_by_username(name);
    reply_to_delete(name, Ok(n))
}

/// Checks the sign-in state and a submitted edit form, and turns the form
/// into the update to apply, with a new password hashed at work factor `cost`.
pub fn edit_patch(signed_in: bool, form: &User, cost: u32) -> (r: Result<UserPatch, Reply>)
    ensures
        edit_rejection(signed_in, form@) matches Some(e) ==> r == Err::<UserPatch, Reply>(e),
        edit_rejection(signed_in, form@) is None && form.password@.len() > 0 && !cost_allowed(
            cost,
        ) ==> r == Err::<UserPatch, Reply>(
            Reply::CredentialFailed(CredentialError::CostOutOfRange),
        ),
        edit_rejection(signed_in, form@) is None && (form.password@.len() == 0 || cost_allowed(
            cost,
        )) ==> match r {
            Ok(p) => is_patch_of(p@, form@),
            Err(e) => form.password@.len() > 0 && e == Reply::CredentialFailed(
                CredentialError::HashingFailed,
            ),
        },
        edit_rejection(signed_in, form@) is None && form.password@.len() == 0 ==> r is Ok,
{
    if !signed_in {
        return Err(Reply::NotSignedIn);
    }
    if !is_valid_email(form.email.as_str()) {
        return Err(Reply::InvalidEmail);
    }
    if !passwords_match(form.password.as_str(), form.confirm_password.as_str()) {
        return Err(Reply::PasswordMismatch);
    }
    let password = if form.password.as_str().is_empty() {
        None
    } else {
        match hash_password(form.password.as_str(), cost) {
            Ok(h) => Some(h),
            Err(e) => {
                return Err(Reply::CredentialFailed(e));
            },
        }
    };
    Ok(
        UserPatch {
            first_name: form.first_name.clone(),
            last_name: form.last_name.clone(),
            username: form.username.clone(),
            email: form.email.clone(),
            password,
        },
    )
}

/// The reply to an update of `name` that modified `result` users.
pub fn reply_to_update(name: &str, result: Result<u64, StoreError>) -> (r: Reply)
    ensures
        match result {
            Ok(n) => if n > 0 {
                r == Reply::UserUpdated
            } else {
                r matches Reply::UserNotFound(m) && m@ == name@
            },
            Err(e) => r == Reply::StoreFailed(e),
        },
{
    match result {
        Ok(n) => if n > 0 {
            Reply::UserUpdated
        } else {
            Reply::UserNotFound(name.to_owned())
        },
        Err(e) => Reply::StoreFailed(e),
    }
}

/// Edits the user named `name` in `store` from a submitted form; only a
/// signed-in caller may edit.
pub fn edit_user(store: &mut UserStore, name: &str, form: &User, signed_in: bool, cost: u32) -> (r:
    Reply)
    ensures
        edit_rejection(signed_in, form@) matches Some(e) ==> r == e && final(store)@ == old(
            store,
        )@,
        edit_rejection(signed_in, form@) is None && form.password@.len() > 0 && !cost_allowed(
            cost,
        ) ==> r == Reply::CredentialFailed(CredentialError::CostOutOfRange) && final(store)@
            == old(store)@,
        edit_rejection(signed_in, form@) is None && (form.password@.len() == 0 || cost_allowed(
            cost,
        )) ==> match r {
            Reply::CredentialFailed(e) => form.password@.len() > 0 && e
                == CredentialError::HashingFailed && final(store)@ == old(store)@,
            _ => exists|p: PatchView|
                {
                    &&& is_patch_of(p, form@)
                    &&& final(store)@ == update_model(old(store)@, name@, p).0
                    &&& match update_model(old(store)@, name@, p).1 {
                        Ok(n) => if n > 0 {
                            r == Reply::UserUpdated
                        } else {
                            r matches Reply::UserNotFound(m) && m@ == name@
                        },
                        Err(e) => r == Reply::StoreFailed(e),
                    }
                },
        },
{
    let patch = match edit_patch(signed_in, form, cost) {
        Ok(p) => p,
        Err(e) => {
            return e;
        },
    };
    let ghost pv = patch@;
    let result = store.update_by_username(name, patch);
    let r = reply_to_update(name, result);
    assert(is_patch_of(pv, form@));
    r
}

/// The reply to a sign-in of `name` with `password`, given what the
/// repository returned for `name`.
pub fn reply_to_sign_in(name: &str, password: &str, found: Result<Option<User>, StoreError>) -> (r:
    Reply)
    ensures
        match found {
            Ok(Some(u)) => match verify_outcome(password@, u.password@) {
                Ok(true) => r matches Reply::SignedIn(n) && n@ == name@,
                Ok(false) => r == Reply::WrongPassword,
                Err(e) => r == Reply::CredentialFailed(e),
            },
            Ok(None) => r matches Reply::UserNotFound(n) && n@ == name@,
            Err(e) => r == Reply::StoreFailed(e),
        },
{
    match found {
        Ok(Some(u)) => match verify_password(password, u.password.as_str()) {
            Ok(true) => Reply::SignedIn(name.to_owned()),
            Ok(false) => Reply::WrongPassword,
            Err(e) => Reply::CredentialFailed(e),
        },
        Ok(None) => Reply::UserNotFound(name.to_owned()),
        Err(e) => Reply::StoreFailed(e),
    }
}

/// Signs in the user named `name` with `password`.
pub fn sign_in_user(store: &UserStore, name: &str, password: &str) -> (r: Reply)
    ensures
        names_unique(store@),
        match lookup_model(store@, name@) {
            Some(u) => match verify_outcome(password@, u.password) {
                Ok(true) => r matches Reply::SignedIn(n) && n@ == name@,
                Ok(false) => r == Reply::WrongPassword,
                Err(e) => r == Reply::CredentialFailed(e),
            },
            None => r matches Reply::UserNotFound(n) && n@ == name@,
        },
{
    reply_to_sign_in(name, password, Ok(store.find_by_username(name)))
}

/// Signs out: the transport clears the session marker.
pub fn sign_out() -> (r: Reply)
    ensures
        r == Reply::SignedOut,
{
    Reply::SignedOut
}

/// The repository after creating each user of `us` in turn, starting from `s`.
pub open spec fn create_all(s: Seq<UserView>, us: Seq<UserView>) -> Seq<UserView>
    decreases us.len(),
{
    if us.len() == 0 {
        s
    } else {
        create_model(create_all(s, us.drop_last()), us.last()).0
    }
}

/// Looking up a username that none of the created users had gives not-found.
pub proof fn lemma_never_created_is_not_found(us: Seq<UserView>, name: Seq<char>)
    requires
        forall|i: int| 0 <= i < us.len() ==> (#[trigger] us[i]).username != name,
    ensures
        get_status(create_all(Seq::<UserView>::empty(), us), name) == 404,
    decreases us.len(),
{
    if us.len() > 0 {
        let rest = us.drop_last();
        assert forall|i: int| 0 <= i < rest.len() implies (#[trigger] rest[i]).username
            != name by {
            assert(rest[i] == us[i]);
        }
        lemma_never_created_is_not_found(rest, name);
        let s = create_all(Seq::<UserView>::empty(), rest);
        let u = us.last();
        assert(u.username != name);
        if !holds_name(s, u.username) {
            let s1 = s.push(u);
            assert(!holds_name(s1, name)) by {
                if holds_name(s1, name) {
                    let k = choose|k: int| 0 <= k < s1.len() && (#[trigger] s1[k]).username
                        == name;
                    if k < s.len() {
                        assert(s1[k] == s[k]);
                    }
                }
            }
        }
    }
}

/// Deleting an existing user twice: the first deletion succeeds, the second
/// finds nobody.
pub proof fn lemma_delete_twice(s: Seq<UserView>, name: Seq<char>)
    requires
        names_unique(s),
        holds_name(s, name),
    ensures
        delete_status(s, name) == 200,
        delete_status(delete_model(s, name).0, name) == 404,
{
    let i = position_of(s, name);
    let s1 = delete_model(s, name).0;
    assert(s1 == s.remove(i));
    assert(!holds_name(s1, name)) by {
        if holds_name(s1, name) {
            let k = choose|k: int| 0 <= k < s1.len() && (#[trigger] s1[k]).username == name;
            let k0 = if k < i { k } else { k + 1 };
            assert(s1[k] == s[k0]);
        }
    }
}

/// A signed-in edit whose password and confirmation differ is refused as a
/// validation failure (status 400) before anything is hashed or stored;
/// `edit_user` leaves the repository unchanged whenever `edit_rejection` is
/// `Some`.
pub proof fn lemma_mismatched_edit_rejected(form: UserView)
    requires
        form.password != form.confirm_password,
    ensures
        edit_rejection(true, form) matches Some(e) && e.code() == 400,
{
}

} // verus!
