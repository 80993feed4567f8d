use vstd::prelude::*;
use crate::user::{User, UserView};
use crate::validate::same_text;

verus! {

/// Why a repository operation failed.
#[derive(Clone, Debug, PartialEq, Eq)]
pub enum StoreError {
    /// The operation would give two stored users the same username.
    DuplicateKey,
    /// The storage backend reported a problem, described by the text.
    Backend(String),
}

/// The new values for a stored user: names, username, e-mail and, when
/// present, a new password hash.
#[derive(Clone, Debug, PartialEq, Eq)]
pub struct UserPatch {
    pub first_name: String,
    pub last_name: String,
    pub username: String,
    pub email: String,
    pub password: Option<String>,
}

pub ghost struct PatchView {
    pub first_name: Seq<char>,
    pub last_name: Seq<char>,
    pub username: Seq<char>,
    pub email: Seq<char>,
    pub password: Option<Seq<char>>,
}

impl View for UserPatch {
    type V = PatchView;

    open spec fn view(&self) -> PatchView {
        PatchView {
            first_name: self.first_name@,
            last_name: self.last_name@,
            username: self.username@,
            email: self.email@,
            password: match self.password {
                Some(h) => Some(h@),
                None => None,
            },
        }
    }
}

/// Some stored user has username `name`.
pub open spec fn holds_name(s: Seq<UserView>, name: Seq<char>) -> bool {
    exists|i: int| 0 <= i < s.len() && (#[trigger] s[i]).username == name
}

/// No two stored users share a username.
pub open spec fn names_unique(s: Seq<UserView>) -> bool {
    forall|i: int, j: int|
        0 <= i < s.len() && 0 <= j < s.len() && i != j ==> (#[trigger] s[i]).username
            != (#[trigger] s[j]).username
}

/// Where the user named `name` is stored (meaningful when `holds_name`).
pub open spec fn position_of(s: Seq<UserView>, name: Seq<char>) -> int {
    choose|i: int| 0 <= i < s.len() && (#[trigger] s[i]).username == name
}

/// The stored user named `name`, if any.
pub open spec fn lookup_model(s: Seq<UserView>, name: Seq<char>) -> Option<UserView> {
    if holds_name(s, name) {
        Some(s[position_of(s, name)])
    } else {
        None
    }
}

/// Inserting `u`: refused when its username is taken, appended otherwise.
pub open spec fn create_model(s: Seq<UserView>, u: UserView) -> (Seq<UserView>, Result<(), StoreError>) {
    if holds_name(s, u.username) {
        (s, Err(StoreError::DuplicateKey))
    } else {
        (s.push(u), Ok(()))
    }
}

/// Deleting the user named `name`: the new contents and the deleted count.
pub open spec fn delete_model(s: Seq<UserView>, name: Seq<char>) -> (Seq<UserView>, u64) {
    if holds_name(s, name) {
        (s.remove(position_of(s, name)), 1)
    } else {
        (s, 0)
    }
}

/// `u` with the fields of `p` written over it.
pub open spec fn apply_patch(u: UserView, p: PatchView) -> UserView {
    UserView {
        first_name: p.first_name,
        last_name: p.last_name,
        username: p.username,
        email: p.email,
        password: match p.password {
            Some(h) => h,
            None => u.password,
        },
        confirm_password: u.confirm_password,
    }
}

/// Updating the user named `name` with `p`: the new contents and the
/// modified count, or a refusal when the new username belongs to another user.
pub open spec fn update_model(s: Seq<UserView>, name: Seq<char>, p: PatchView) -> (
    Seq<UserView>,
    Result<u64, StoreError>,
) {
    if !holds_name(s, name) {
        (s, Ok(0))
    } else if p.username != name && holds_name(s, p.username) {
        (s, Err(StoreError::DuplicateKey))
    } else {
        let i = position_of(s, name);
        (s.update(i, apply_patch(s[i], p)), Ok(1))
    }
}

/// With unique usernames, the stored user named `name` is the one at any
/// index that holds that name.
pub proof fn lemma_position_of_unique(s: Seq<UserView>, name: Seq<char>, i: int)
    requires
        names_unique(s),
        0 <= i < s.len(),
        s[i].username == name,
    ensures
        holds_name(s, name),
        position_of(s, name) == i,
{
    assert(holds_name(s, name));
}

/// A user repository held in memory, keyed by username.
pub struct UserStore {
    users: Vec<User>,
}

spec fn users_view(users: Seq<User>) -> Seq<UserView> {
    users.map_values(|u: User| u@)
}

impl View for UserStore {
    type V = Seq<UserView>;

    closed spec fn view(&self) -> Seq<UserView> {
        users_view(self.users@)
    }
}

impl UserStore {
    /// Usernames are unique.
    #[verifier::type_invariant]
    spec fn inv(&self) -> bool {
        names_unique(self@)
    }

    /// An empty repository.
    pub fn new() -> (r: UserStore)
        ensures
            r@ == Seq::<UserView>::empty(),
    {
        let r = UserStore { users: Vec::new() };
        assert(r@ =~= Seq::<UserView>::empty());
        r
    }

    /// The number of stored users.
    pub fn len(&self) -> (r: usize)
        ensures
            r == self@.len(),
            names_unique(self@),
    {
        proof {
            use_type_invariant(self);
        }
        self.users.len()
    }

    fn position(&self, name: &str) -> (r: Option<usize>)
        ensures
            names_unique(self@),
            match r {
                Some(i) => i < self@.len() && self@[i as int].username == name@ && position_of(
                    self@,
                    name@,
                ) == i,
                None => !holds_name(self@, name@),
            },
    {
        proof {
            use_type_invariant(self);
        }
        let mut i: usize = 0;
        while i < self.users.len()
            invariant
                i <= self.users@.len(),
                names_unique(self@),
                self@.len() == self.users@.len(),
                forall|k: int| 0 <= k < self@.len() ==> #[trigger] self@[k] == self.users@[k]@,
                forall|k: int| 0 <= k < i ==> (#[trigger] self@[k]).username != name@,
            decreases self.users@.len() - i,
        {
            if same_text(self.users[i].username.as_str(), name) {
                proof {
                    lemma_position_of_unique(self@, name@, i as int);
                }
                return Some(i);
            }
            i = i + 1;
        }
        None
    }

    /// Stores `user`, unless its username is already taken.
    pub fn create(&mut self, user: User) -> (r: Result<(), StoreError>)
        ensures
            names_unique(final(self)@),
            (final(self)@, r) == create_model(old(self)@, user@),
    {
        match self.position(user.username.as_str()) {
            Some(_) => Err(StoreError::DuplicateKey),
            None => {
                let ghost u = user@;
                let ghost before = self@;
                let mut users: Vec<User> = Vec::new();
                std::mem::swap(&mut users, &mut self.users);
                assert(users_view(users@) == before);
                users.push(user);
                assert(users_view(users@) =~= before.push(u));
                assert(names_unique(before.push(u))) by {
                    let s1 = before.push(u);
                    assert forall|i: int, j: int|
                        0 <= i < s1.len() && 0 <= j < s1.len() && i != j implies (
                        #[trigger] s1[i]).username != (#[trigger] s1[j]).username by {
                        if i < before.len() && j < before.len() {
                            assert(s1[i] == before[i] && s1[j] == before[j]);
                        } else if i < before.len() {
                            assert(s1[i] == before[i]);
                        } else {
                            assert(s1[j] == before[j]);
                        }
                    }
                }
                self.users = users;
                Ok(())
            },
        }
    }

    /// The stored user named `name`, if any.
    pub fn find_by_username(&self, name: &str) -> (r: Option<User>)
        ensures
            names_unique(self@),
            match r {
                Some(u) => lookup_model(self@, name@) == Some(u@),
                None => lookup_model(self@, name@) is None,
            },
    {
        match self.position(name) {
            Some(i) => Some(self.users[i].duplicate()),
            None => None,
        }
    }

    /// Removes the user named `name`; returns how many users were removed.
    pub fn delete_by_username(&mut self, name: &str) -> (r: u64)
        ensures
            names_unique(final(self)@),
            (final(self)@, r) == delete_model(old(self)@, name@),
    {
        match self.position(name) {
            Some(i) => {
                let ghost before = self@;
                let mut users: Vec<User> = Vec::new();
                std::mem::swap(&mut users, &mut self.users);
                assert(users_view(users@) == before);
                users.remove(i);
                let ghost after = users_view(users@);
                assert(after =~= before.remove(i as int));
                assert(names_unique(after)) by {
                    assert forall|a: int, b: int|
                        0 <= a < after.len() && 0 <= b < after.len() && a != b implies (
                        #[trigger] after[a]).username != (#[trigger] after[b]).username by {
                        let a0 = if a < i { a } else { a + 1 };
                        let b0 = if b < i { b } else { b + 1 };
                        assert(after[a] == before[a0]);
                        assert(after[b] == before[b0]);
                    }
                }
                self.users = users;
                1
            },
            None => 0,
        }
    }

    /// Writes `patch` over the user named `name`; returns how many users were
    /// modified, or `DuplicateKey` when the new username belongs to another
    /// user.
    pub fn update_by_username(&mut self, name: &str, patch: UserPatch) -> (r: Result<
        u64,
        StoreError,
    >)
        ensures
            names_unique(final(self)@),
            (final(self)@, r) == update_model(old(self)@, name@, patch@),
    {
        let i = match self.position(name) {
            Some(i) => i,
            None => {
                return Ok(0);
            },
        };
        if !same_text(patch.username.as_str(), name) {
            if self.position(patch.username.as_str()).is_some() {
                return Err(StoreError::DuplicateKey);
            }
        }
        let ghost p = patch@;
        let ghost before = self@;
        let mut users: Vec<User> = Vec::new();
        std::mem::swap(&mut users, &mut self.users);
        assert(users_view(users@) == before);
        let old_user = users.remove(i);
        assert(old_user@ == before[i as int]);
        let password = match patch.password {
            Some(h) => h,
            None => old_user.password,
        };
        let updated = User {
            first_name: patch.first_name,
            last_name: patch.last_name,
            username: patch.username,
            email: patch.email,
            password,
            confirm_password: old_user.confirm_password,
        };
        assert(updated@ == apply_patch(before[i as int], p));
        users.insert(i, updated);
        let ghost after = users_view(users@);
        assert(after =~= before.update(i as int, apply_patch(before[i as int], p)));
        assert(names_unique(after)) by {
            assert forall|a: int, b: int|
                0 <= a < after.len() && 0 <= b < after.len() && a != b implies (
                #[trigger] after[a]).username != (#[trigger] after[b]).username by {
                if a != i && b != i {
                    assert(after[a] == before[a]);
                    assert(after[b] == before[b]);
                } else if a == i {
                    assert(after[b] == before[b]);
                    if p.username == name@ {
                        assert(before[i as int].username == name@);
                    } else {
                        assert(!holds_name(before, p.username));
                    }
                } else {
                    assert(after[a] == before[a]);
                    if p.username == name@ {
                        assert(before[i as int].username == name@);
                    } else {
                        assert(!holds_name(before, p.username));
                    }
                }
            }
        }
        self.users = users;
        Ok(1)
    }
}

/// Creating two users with the same username: the second creation is refused
/// as a duplicate, and the repository still holds no two users with one
/// username.
pub proof fn lemma_second_create_is_duplicate(s: Seq<UserView>, a: UserView, b: UserView)
    requires
        names_unique(s),
        a.username == b.username,
    ensures
        create_model(create_model(s, a).0, b).1 == Err::<(), StoreError>(StoreError::DuplicateKey),
        names_unique(create_model(create_model(s, a).0, b).0),
{
    let s1 = create_model(s, a).0;
    if !holds_name(s, a.username) {
        assert(s1[s.len() as int].username == b.username);
        assert(names_unique(s1)) by {
            assert forall|i: int, j: int|
                0 <= i < s1.len() && 0 <= j < s1.len() && i != j implies (
                #[trigger] s1[i]).username != (#[trigger] s1[j]).username by {
                if i < s.len() && j < s.len() {
                    assert(s1[i] == s[i] && s1[j] == s[j]);
                } else if i < s.len() {
                    assert(s1[i] == s[i]);
                } else {
                    assert(s1[j] == s[j]);
                }
            }
        }
    }
    assert(holds_name(s1, b.username));
}

} // verus!
