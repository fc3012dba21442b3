//! The account store: accounts kept in insertion order, unique by username,
//! with identifiers handed out in increasing order. A password is replaced
//! only by a conditional write that names the hash it expects to replace.
use crate::hashing::{now_timestamp, parses_as_phc, phc_well_formed};
use crate::models::{AccountView, CredentialError, UserResponse, Users};
use vstd::prelude::*;

verus! {

/// The mathematical value of a store.
pub struct StoreView {
    pub accounts: Seq<AccountView>,
    pub next_id: int,
}

/// Whether an account in `s` has the username `u`.
pub open spec fn has_account(s: Seq<AccountView>, u: Seq<char>) -> bool {
    exists|i: int| 0 <= i < s.len() && s[i].username == u
}

/// The position of the account named `u` in `s`.
pub open spec fn index_of(s: Seq<AccountView>, u: Seq<char>) -> int
    recommends
        has_account(s, u),
{
    choose|i: int| 0 <= i < s.len() && s[i].username == u
}

/// Whether an account in `s` has the identifier `id`.
pub open spec fn has_id(s: Seq<AccountView>, id: int) -> bool {
    exists|i: int| 0 <= i < s.len() && s[i].id == id
}

/// Usernames are unique, identifiers are unique and below `next_id`, and
/// every stored password is a PHC hash string.
pub open spec fn store_wf(st: StoreView) -> bool {
    &&& 1 <= st.next_id <= i32::MAX
    &&& forall|i: int| 0 <= i < st.accounts.len() ==> phc_well_formed(#[trigger] st.accounts[i].password)
    &&& forall|i: int, j: int|
        0 <= i < st.accounts.len() && 0 <= j < st.accounts.len() && i != j
            ==> st.accounts[i].username != st.accounts[j].username
            && st.accounts[i].id != st.accounts[j].id
    &&& forall|i: int| 0 <= i < st.accounts.len() ==> 1 <= #[trigger] st.accounts[i].id < st.next_id
}

/// Registering `username` with the hash `hash` at time `now`: refused for a
/// username that is taken, or when no identifier is left.
pub open spec fn insert_spec(
    st: StoreView,
    username: Seq<char>,
    hash: Seq<char>,
    is_admin: bool,
    now: int,
) -> (StoreView, Result<AccountView, CredentialError>) {
    if has_account(st.accounts, username) {
        (st, Err(CredentialError::DuplicateUsername))
    } else if st.next_id >= i32::MAX {
        (st, Err(CredentialError::StoreUnavailable))
    } else {
        let a = AccountView {
            id: st.next_id,
            username,
            password: hash,
            is_admin,
            is_active: true,
            created_at: now,
            updated_at: now,
        };
        (StoreView { accounts: st.accounts.push(a), next_id: st.next_id + 1 }, Ok(a))
    }
}

/// Replacing the hash of `username` by `new_hash` at time `now`, on the
/// condition that the stored hash is still `expected`; a `new_hash` that is
/// not a PHC string is refused.
pub open spec fn commit_spec(
    st: StoreView,
    username: Seq<char>,
    expected: Seq<char>,
    new_hash: Seq<char>,
    now: int,
) -> (StoreView, Result<AccountView, CredentialError>) {
    if !has_account(st.accounts, username) {
        (st, Err(CredentialError::NotFound))
    } else {
        let i = index_of(st.accounts, username);
        let cur = st.accounts[i];
        if cur.password != expected {
            (st, Err(CredentialError::Conflict))
        } else if !phc_well_formed(new_hash) {
            (st, Err(CredentialError::HashingFailure))
        } else {
            let a = AccountView { password: new_hash, updated_at: now, ..cur };
            (StoreView { accounts: st.accounts.update(i, a), next_id: st.next_id }, Ok(a))
        }
    }
}

/// The value of an operation's result.
pub open spec fn result_view(r: Result<Users, CredentialError>) -> Result<AccountView, CredentialError> {
    match r {
        Ok(u) => Ok(u@),
        Err(e) => Err(e),
    }
}

/// Accounts held in memory.
pub struct AccountStore {
    accounts: Vec<Users>,
    next_id: i32,
}

impl View for AccountStore {
    type V = StoreView;

    closed spec fn view(&self) -> StoreView {
        StoreView { accounts: self.accounts@.map_values(|u: Users| u@), next_id: self.next_id as int }
    }
}

impl AccountStore {
    /// Whether the store keeps its invariant.
    pub open spec fn wf(&self) -> bool {
        store_wf(self@)
    }

    /// An empty store.
    pub fn new() -> (r: AccountStore)
        ensures
            r.wf(),
            r@.accounts.len() == 0,
            r@.next_id == 1,
    {
        let r = AccountStore { accounts: Vec::new(), next_id: 1 };
        assert(r@.accounts =~= Seq::<AccountView>::empty());
        r
    }

    /// The number of accounts.
    pub fn len(&self) -> (r: usize)
        ensures
            r == self@.accounts.len(),
    {
        self.accounts.len()
    }

    /// The position of the account named `username`.
    fn position(&self, username: &String) -> (r: Option<usize>)
        ensures
            match r {
                Some(i) => i < self@.accounts.len() && self@.accounts[i as int].username == username@,
                None => !has_account(self@.accounts, username@),
            },
    {
        let mut i: usize = 0;
        while i < self.accounts.len()
            invariant
                i <= self.accounts.len(),
                forall|k: int| 0 <= k < i ==> self@.accounts[k].username != username@,
            decreases self.accounts.len() - i,
        {
            if self.accounts[i].username == *username {
                return Some(i);
            }
            i = i + 1;
        }
        None
    }

    /// The account named `username`.
    pub fn find_by_username(&self, username: &str) -> (r: Result<Users, CredentialError>)
        requires
            self.wf(),
        ensures
            match r {
                Ok(u) => has_account(self@.accounts, username@)
                    && u@ == self@.accounts[index_of(self@.accounts, username@)],
                Err(e) => e is NotFound && !has_account(self@.accounts, username@),
            },
    {
        let name = username.to_owned();
        match self.position(&name) {
            Some(i) => {
                proof {
                    let j = index_of(self@.accounts, username@);
                    assert(self@.accounts[j].username == username@);
                }
                Ok(self.accounts[i].copy())
            },
            None => Err(CredentialError::NotFound),
        }
    }

    /// Whether an account has the username `username`.
    pub fn has_username(&self, username: &str) -> (r: bool)
        ensures
            r == has_account(self@.accounts, username@),
    {
        let name = username.to_owned();
        self.position(&name).is_some()
    }

    /// Whether an identifier is left for a new account.
    pub fn has_free_id(&self) -> (r: bool)
        ensures
            r == (self@.next_id < i32::MAX),
    {
        self.next_id < i32::MAX
    }

    /// Registers `username` with the hash `hash`; the account is active and
    /// stamped with `now`.
    pub(crate) fn insert(&mut self, username: String, hash: String, is_admin: bool, now: i64) -> (r: Result<
        Users,
        CredentialError,
    >)
        requires
            old(self).wf(),
            phc_well_formed(hash@),
        ensures
            final(self).wf(),
            (final(self)@, result_view(r)) == insert_spec(old(self)@, username@, hash@, is_admin, now as int),
    {
        if let Some(_) = self.position(&username) {
            return Err(CredentialError::DuplicateUsername);
        }
        if self.next_id == i32::MAX {
            return Err(CredentialError::StoreUnavailable);
        }
        let u = Users {
            id: self.next_id,
            username,
            password: hash,
            is_admin,
            is_active: true,
            created_at: now,
            updated_at: now,
        };
        let r = u.copy();
        let ghost before = self@;
        self.accounts.push(u);
        self.next_id = self.next_id + 1;
        proof {
            assert(self@.accounts =~= before.accounts.push(r@));
        }
        Ok(r)
    }

    /// Replaces the hash of `username` by `new_hash` and stamps the account
    /// with `now`, provided the stored hash is still `expected_old_hash` and
    /// `new_hash` is a PHC string; otherwise nothing changes.
    pub fn update_password_hash(
        &mut self,
        username: &str,
        expected_old_hash: &str,
        new_hash: String,
        now: i64,
    ) -> (r: Result<Users, CredentialError>)
        requires
            old(self).wf(),
        ensures
            final(self).wf(),
            (final(self)@, result_view(r)) == commit_spec(
                old(self)@,
                username@,
                expected_old_hash@,
                new_hash@,
                now as int,
            ),
    {
        let name = username.to_owned();
        let expected = expected_old_hash.to_owned();
        match self.position(&name) {
            None => Err(CredentialError::NotFound),
            Some(i) => {
                let ghost before = self@;
                proof {
                    let j = index_of(before.accounts, username@);
                    assert(before.accounts[j].username == username@);
                    assert(j == i);
                }
                if self.accounts[i].password != expected {
                    return Err(CredentialError::Conflict);
                }
                if !parses_as_phc(new_hash.as_str()) {
                    return Err(CredentialError::HashingFailure);
                }
                let cur = &self.accounts[i];
                let u = Users {
                    id: cur.id,
                    username: cur.username.clone(),
                    password: new_hash,
                    is_admin: cur.is_admin,
                    is_active: cur.is_active,
                    created_at: cur.created_at,
                    updated_at: now,
                };
                let r = u.copy();
                self.accounts.set(i, u);
                proof {
                    assert(self@.accounts =~= before.accounts.update(i as int, r@));
                }
                Ok(r)
            },
        }
    }

    /// `update_password_hash` stamped with the current time: whatever time
    /// was read, the outcome is that of `commit_spec` for it.
    pub fn commit_password(&mut self, username: &str, expected_old_hash: &str, new_hash: String) -> (r:
        Result<Users, CredentialError>)
        requires
            old(self).wf(),
        ensures
            final(self).wf(),
            exists|now: int|
                (final(self)@, result_view(r)) == commit_spec(
                    old(self)@,
                    username@,
                    expected_old_hash@,
                    new_hash@,
                    now,
                ),
    {
        let now = now_timestamp();
        self.update_password_hash(username, expected_old_hash, new_hash, now)
    }

    /// The public views of all accounts, in insertion order.
    pub fn get_users(&self) -> (r: Vec<UserResponse>)
        ensures
            r@.len() == self@.accounts.len(),
            forall|i: int|
                0 <= i < r@.len() ==> r@[i].id == self@.accounts[i].id && r@[i].username@
                    == self@.accounts[i].username && r@[i].is_active == self@.accounts[i].is_active,
    {
        let mut out: Vec<UserResponse> = Vec::new();
        let mut i: usize = 0;
        while i < self.accounts.len()
            invariant
                i <= self.accounts.len(),
                out@.len() == i,
                forall|k: int|
                    0 <= k < i ==> out@[k].id == self@.accounts[k].id && out@[k].username@
                        == self@.accounts[k].username && out@[k].is_active
                        == self@.accounts[k].is_active,
            decreases self.accounts.len() - i,
        {
            out.push(self.accounts[i].to_response());
            i = i + 1;
        }
        out
    }

    /// The public view of the account with identifier `id`.
    pub fn get_user(&self, id: i32) -> (r: Result<UserResponse, CredentialError>)
        requires
            self.wf(),
        ensures
            match r {
                Ok(u) => exists|i: int|
                    0 <= i < self@.accounts.len() && self@.accounts[i].id == id && u.id == id
                        && u.username@ == self@.accounts[i].username && u.is_active
                        == self@.accounts[i].is_active,
                Err(e) => e is NotFound && !has_id(self@.accounts, id as int),
            },
    {
        let mut i: usize = 0;
        while i < self.accounts.len()
            invariant
                i <= self.accounts.len(),
                forall|k: int| 0 <= k < i ==> self@.accounts[k].id != id,
            decreases self.accounts.len() - i,
        {
            if self.accounts[i].id == id {
                let r = self.accounts[i].to_response();
                assert(self@.accounts[i as int] == self.accounts@[i as int]@);
                return Ok(r);
            }
            i = i + 1;
        }
        Err(CredentialError::NotFound)
    }
}

} // verus!
