//! Registration, credential verification and password change.
//!
//! Each operation that needs a fresh salt or the current time comes in two
//! forms: one that takes them as arguments, whose outcome is given exactly by
//! a spec function, and one that draws them itself and whose outcome is that
//! of the first form for some salt and time.
use crate::hashing::{
    argon2_hash, argon2_phc, argon2_verify, fresh_salt, generated_salt, now_timestamp,
    parses_as_phc, password_matches, phc_well_formed,
};
use crate::models::{AccountView, CredentialError, User, UserResponse, Users};
use crate::store::{
    commit_spec, has_account, has_id, index_of, insert_spec, result_view, store_wf, AccountStore,
    StoreView,
};
use vstd::prelude::*;

verus! {

/// The stored account named `u`.
pub open spec fn account_named(st: StoreView, u: Seq<char>) -> AccountView {
    st.accounts[index_of(st.accounts, u)]
}

/// Checking `password` for the account named `username`.
pub open spec fn verify_spec(st: StoreView, username: Seq<char>, password: Seq<char>) -> Result<
    bool,
    CredentialError,
> {
    if !has_account(st.accounts, username) {
        Err(CredentialError::NotFound)
    } else if !phc_well_formed(account_named(st, username).password) {
        Err(CredentialError::HashingFailure)
    } else {
        Ok(password_matches(password, account_named(st, username).password))
    }
}

/// Registering `username` with `password`, hashed with `salt`, at time `now`.
/// The username is checked before the password is hashed.
pub open spec fn create_spec(
    st: StoreView,
    username: Seq<char>,
    password: Seq<char>,
    salt: Seq<char>,
    now: int,
) -> (StoreView, Result<AccountView, CredentialError>) {
    if username.len() == 0 {
        (st, Err(CredentialError::EmptyUsername))
    } else if has_account(st.accounts, username) {
        (st, Err(CredentialError::DuplicateUsername))
    } else if st.next_id >= i32::MAX {
        (st, Err(CredentialError::StoreUnavailable))
    } else {
        match argon2_phc(password, salt) {
            None => (st, Err(CredentialError::HashingFailure)),
            Some(h) => insert_spec(st, username, h, false, now),
        }
    }
}

/// The gates of a password change on the account `a`, in order: the stored
/// hash must parse, the old password must verify, the new password must
/// equal its confirmation, and the new password must hash with `salt`. The
/// result is the new hash.
pub open spec fn authorize_spec(
    a: AccountView,
    old_password: Seq<char>,
    new_password: Seq<char>,
    new_password_check: Seq<char>,
    salt: Seq<char>,
) -> Result<Seq<char>, CredentialError> {
    if !phc_well_formed(a.password) {
        Err(CredentialError::HashingFailure)
    } else if !password_matches(old_password, a.password) {
        Err(CredentialError::InvalidCredentials)
    } else if new_password != new_password_check {
        Err(CredentialError::PasswordMismatch)
    } else {
        match argon2_phc(new_password, salt) {
            None => Err(CredentialError::HashingFailure),
            Some(h) => Ok(h),
        }
    }
}

/// A whole password change: lookup, the gates of `authorize_spec`, then the
/// conditional write against the hash that was read.
pub open spec fn change_spec(
    st: StoreView,
    username: Seq<char>,
    old_password: Seq<char>,
    new_password: Seq<char>,
    new_password_check: Seq<char>,
    salt: Seq<char>,
    now: int,
) -> (StoreView, Result<AccountView, CredentialError>) {
    if !has_account(st.accounts, username) {
        (st, Err(CredentialError::NotFound))
    } else {
        let a = account_named(st, username);
        match authorize_spec(a, old_password, new_password, new_password_check, salt) {
            Err(e) => (st, Err(e)),
            Ok(h) => commit_spec(st, username, a.password, h, now),
        }
    }
}

/// The value of a result that carries a hash.
pub open spec fn hash_result(r: Result<String, CredentialError>) -> Result<Seq<char>, CredentialError> {
    match r {
        Ok(h) => Ok(h@),
        Err(e) => Err(e),
    }
}

/// `after` is `before` with the account `a`, which `password` verifies
/// against, registered under `username`.
pub open spec fn account_created(
    before: StoreView,
    username: Seq<char>,
    password: Seq<char>,
    after: StoreView,
    a: AccountView,
) -> bool {
    &&& !has_account(before.accounts, username)
    &&& a.username == username
    &&& a.is_active
    &&& !a.is_admin
    &&& a.id == before.next_id
    &&& phc_well_formed(a.password)
    &&& password_matches(password, a.password)
    &&& after == StoreView { accounts: before.accounts.push(a), next_id: before.next_id + 1 }
}

/// `after` is `before` with the account named `username` replaced by `a`,
/// whose hash is new and verifies `password`; nothing else changed.
pub open spec fn password_changed(
    before: StoreView,
    username: Seq<char>,
    password: Seq<char>,
    after: StoreView,
    a: AccountView,
) -> bool {
    &&& has_account(before.accounts, username)
    &&& phc_well_formed(a.password)
    &&& password_matches(password, a.password)
    &&& a == AccountView {
        password: a.password,
        updated_at: a.updated_at,
        ..account_named(before, username)
    }
    &&& after == StoreView {
        accounts: before.accounts.update(index_of(before.accounts, username), a),
        next_id: before.next_id,
    }
}

/// The account named `u` is the only one with that name, so it sits where
/// `index_of` points, also after it is replaced by one of the same name.
proof fn lemma_index_after_replace(s: Seq<AccountView>, u: Seq<char>, a: AccountView)
    requires
        has_account(s, u),
        a.username == u,
        forall|i: int, j: int|
            0 <= i < s.len() && 0 <= j < s.len() && i != j ==> s[i].username != s[j].username,
    ensures
        has_account(s.update(index_of(s, u), a), u),
        index_of(s.update(index_of(s, u), a), u) == index_of(s, u),
{
    let i = index_of(s, u);
    let t = s.update(i, a);
    assert(t[i].username == u);
    let j = index_of(t, u);
    if j != i {
        assert(s[j].username == u);
    }
}

/// Right after an account is registered, its password verifies for its
/// username.
pub proof fn lemma_created_account_verifies(
    before: StoreView,
    username: Seq<char>,
    password: Seq<char>,
    after: StoreView,
    a: AccountView,
)
    requires
        store_wf(before),
        account_created(before, username, password, after, a),
    ensures
        verify_spec(after, username, password) == Ok::<bool, CredentialError>(true),
{
    let n = before.accounts.len() as int;
    assert(after.accounts[n].username == username);
    let j = index_of(after.accounts, username);
    if j != n {
        assert(before.accounts[j].username == username);
    }
}

/// After a successful password change, the new password verifies for the
/// username.
pub proof fn lemma_changed_password_verifies(
    before: StoreView,
    username: Seq<char>,
    password: Seq<char>,
    after: StoreView,
    a: AccountView,
)
    requires
        store_wf(before),
        password_changed(before, username, password, after, a),
    ensures
        verify_spec(after, username, password) == Ok::<bool, CredentialError>(true),
{
    lemma_index_after_replace(before.accounts, username, a);
}

/// A password change with an old password that does not verify is refused
/// as invalid credentials and leaves the store, and so every later check,
/// as it was.
pub proof fn lemma_wrong_old_password_changes_nothing(
    st: StoreView,
    username: Seq<char>,
    old_password: Seq<char>,
    new_password: Seq<char>,
    new_password_check: Seq<char>,
    salt: Seq<char>,
    now: int,
    probe: Seq<char>,
)
    requires
        store_wf(st),
        verify_spec(st, username, old_password) == Ok::<bool, CredentialError>(false),
    ensures
        change_spec(st, username, old_password, new_password, new_password_check, salt, now)
            == (st, Err::<AccountView, CredentialError>(CredentialError::InvalidCredentials)),
        verify_spec(
            change_spec(st, username, old_password, new_password, new_password_check, salt, now).0,
            username,
            probe,
        ) == verify_spec(st, username, probe),
{
}

/// A password change whose new password differs from its confirmation
/// leaves the store as it was; the old password is still checked first.
pub proof fn lemma_mismatched_confirmation_changes_nothing(
    st: StoreView,
    username: Seq<char>,
    old_password: Seq<char>,
    new_password: Seq<char>,
    new_password_check: Seq<char>,
    salt: Seq<char>,
    now: int,
)
    requires
        store_wf(st),
        new_password != new_password_check,
    ensures
        change_spec(st, username, old_password, new_password, new_password_check, salt, now).0
            == st,
        change_spec(st, username, old_password, new_password, new_password_check, salt, now).1
            is Err,
        verify_spec(st, username, old_password) == Ok::<bool, CredentialError>(false) ==> change_spec(
            st,
            username,
            old_password,
            new_password,
            new_password_check,
            salt,
            now,
        ).1 == Err::<AccountView, CredentialError>(CredentialError::InvalidCredentials),
        verify_spec(st, username, old_password) == Ok::<bool, CredentialError>(true) ==> change_spec(
            st,
            username,
            old_password,
            new_password,
            new_password_check,
            salt,
            now,
        ).1 == Err::<AccountView, CredentialError>(CredentialError::PasswordMismatch),
{
}

/// Two password changes of one account that both read the stored hash
/// `expected` cannot both be written: the first commit succeeds, and the
/// second is then refused as a conflict and leaves the first in place.
/// (Were the first new hash equal to `expected`, the second would succeed
/// too, and no change would be lost either.)
pub proof fn lemma_concurrent_commits_one_wins(
    st: StoreView,
    username: Seq<char>,
    expected: Seq<char>,
    first_hash: Seq<char>,
    second_hash: Seq<char>,
    first_now: int,
    second_now: int,
)
    requires
        store_wf(st),
        has_account(st.accounts, username),
        account_named(st, username).password == expected,
        first_hash != expected,
        phc_well_formed(first_hash),
    ensures
        commit_spec(st, username, expected, first_hash, first_now).1 is Ok,
        ({
            let mid = commit_spec(st, username, expected, first_hash, first_now).0;
            commit_spec(mid, username, expected, second_hash, second_now) == (mid, Err::<
                AccountView,
                CredentialError,
            >(CredentialError::Conflict))
        }),
{
    let cur = account_named(st, username);
    let a = AccountView { password: first_hash, updated_at: first_now, ..cur };
    lemma_index_after_replace(st.accounts, username, a);
}


impl Users {
    /// Registers `user`, hashing its password with `salt`, at time `now`.
    pub fn create_user_with(store: &mut AccountStore, user: User, salt: &str, now: i64) -> (r:
        Result<Users, CredentialError>)
        requires
            old(store).wf(),
        ensures
            final(store).wf(),
            (final(store)@, result_view(r)) == create_spec(
                old(store)@,
                user.username@,
                user.password@,
                salt@,
                now as int,
            ),
            r matches Ok(a) ==> account_created(
                old(store)@,
                user.username@,
                user.password@,
                final(store)@,
                a@,
            ),
            user.username@.len() > 0 && !has_account(old(store)@.accounts, user.username@) && old(
                store,
            )@.next_id < i32::MAX && generated_salt(salt@) && user.password@.len() <= 0x3fff_ffff
                ==> r is Ok,
    {
        if user.username.as_str().is_empty() {
            return Err(CredentialError::EmptyUsername);
        }
        if store.has_username(user.username.as_str()) {
            return Err(CredentialError::DuplicateUsername);
        }
        if !store.has_free_id() {
            return Err(CredentialError::StoreUnavailable);
        }
        let hash = match argon2_hash(user.password.as_str(), salt) {
            None => return Err(CredentialError::HashingFailure),
            Some(h) => h,
        };
        store.insert(user.username, hash, false, now)
    }

    /// Registers `user` under a fresh salt, stamped with the current time.
    /// Whatever salt and time were drawn, the outcome is that of
    /// `create_spec` for them; on success the password verifies against the
    /// stored hash.
    pub fn create_user(store: &mut AccountStore, user: User) -> (r: Result<Users, CredentialError>)
        requires
            old(store).wf(),
        ensures
            final(store).wf(),
            exists|salt: Seq<char>, now: int|
                (final(store)@, result_view(r)) == create_spec(
                    old(store)@,
                    user.username@,
                    user.password@,
                    salt,
                    now,
                ),
            r matches Ok(a) ==> account_created(
                old(store)@,
                user.username@,
                user.password@,
                final(store)@,
                a@,
            ),
            user.username@.len() == 0 ==> r == Err::<Users, CredentialError>(
                CredentialError::EmptyUsername,
            ),
            user.username@.len() > 0 && has_account(old(store)@.accounts, user.username@) ==> r
                == Err::<Users, CredentialError>(CredentialError::DuplicateUsername),
            user.username@.len() > 0 && !has_account(old(store)@.accounts, user.username@) && old(
                store,
            )@.next_id < i32::MAX && user.password@.len() <= 0x3fff_ffff ==> r is Ok,
            r is Err ==> final(store)@ == old(store)@,
    {
        let salt = fresh_salt();
        let now = now_timestamp();
        let ghost name = user.username@;
        let ghost pw = user.password@;
        let r = Self::create_user_with(store, user, salt.as_str(), now);
        assert((final(store)@, result_view(r)) == create_spec(old(store)@, name, pw, salt@, now as int));
        r
    }

    /// Checks `password` against the stored hash of `username`.
    pub fn verify_user(store: &AccountStore, username: &str, password: &str) -> (r: Result<
        bool,
        CredentialError,
    >)
        requires
            store.wf(),
        ensures
            r == verify_spec(store@, username@, password@),
    {
        let account = store.find_by_username(username)?;
        if !parses_as_phc(account.password.as_str()) {
            return Err(CredentialError::HashingFailure);
        }
        Ok(argon2_verify(password, account.password.as_str()))
    }

    /// The gates of a password change on this account: the stored hash must
    /// parse, `old_password` must verify, and the new password must equal
    /// its confirmation. Gives the hash of the new password under `salt`.
    pub fn authorize_password_change(
        &self,
        old_password: &str,
        new_password: &str,
        new_password_check: &str,
        salt: &str,
    ) -> (r: Result<String, CredentialError>)
        ensures
            authorize_spec(self@, old_password@, new_password@, new_password_check@, salt@)
                == hash_result(r),
            r matches Ok(h) ==> phc_well_formed(h@) && password_matches(new_password@, h@),
            phc_well_formed(self@.password) && password_matches(old_password@, self@.password)
                && new_password@ == new_password_check@ && generated_salt(salt@)
                && new_password@.len() <= 0x3fff_ffff ==> r is Ok,
    {
        if !parses_as_phc(self.password.as_str()) {
            return Err(CredentialError::HashingFailure);
        }
        if !argon2_verify(old_password, self.password.as_str()) {
            return Err(CredentialError::InvalidCredentials);
        }
        if new_password.to_owned() != new_password_check.to_owned() {
            return Err(CredentialError::PasswordMismatch);
        }
        match argon2_hash(new_password, salt) {
            None => Err(CredentialError::HashingFailure),
            Some(h) => Ok(h),
        }
    }

    /// The gates of `authorize_password_change` under a fresh salt: whatever
    /// salt was drawn, the outcome is that of `authorize_spec` for it, and a
    /// hash handed back verifies the new password.
    pub fn prepare_password_change(
        &self,
        old_password: &str,
        new_password: &str,
        new_password_check: &str,
    ) -> (r: Result<String, CredentialError>)
        ensures
            exists|salt: Seq<char>|
                #[trigger] authorize_spec(self@, old_password@, new_password@, new_password_check@, salt)
                    == hash_result(r),
            r matches Ok(h) ==> phc_well_formed(h@) && password_matches(new_password@, h@),
            phc_well_formed(self@.password) && password_matches(old_password@, self@.password)
                && new_password@ == new_password_check@ && new_password@.len() <= 0x3fff_ffff
                ==> r is Ok,
    {
        let salt = fresh_salt();
        let r = self.authorize_password_change(old_password, new_password, new_password_check, salt.as_str());
        assert(authorize_spec(self@, old_password@, new_password@, new_password_check@, salt@)
            == hash_result(r));
        r
    }

    /// Changes the password of `username`, hashing the new one with `salt`
    /// and stamping the account with `now`. The write is conditional on the
    /// hash that the lookup read.
    pub fn update_password_with(
        store: &mut AccountStore,
        username: &str,
        old_password: &str,
        new_password: &str,
        new_password_check: &str,
        salt: &str,
        now: i64,
    ) -> (r: Result<Users, CredentialError>)
        requires
            old(store).wf(),
        ensures
            final(store).wf(),
            (final(store)@, result_view(r)) == change_spec(
                old(store)@,
                username@,
                old_password@,
                new_password@,
                new_password_check@,
                salt@,
                now as int,
            ),
            r matches Ok(a) ==> password_changed(
                old(store)@,
                username@,
                new_password@,
                final(store)@,
                a@,
            ),
            verify_spec(old(store)@, username@, old_password@) == Ok::<bool, CredentialError>(true)
                && new_password@ == new_password_check@ && generated_salt(salt@)
                && new_password@.len() <= 0x3fff_ffff ==> r is Ok,
    {
        let account = store.find_by_username(username)?;
        let hash = account.authorize_password_change(
            old_password,
            new_password,
            new_password_check,
            salt,
        )?;
        store.update_password_hash(username, account.password.as_str(), hash, now)
    }

    /// Changes the password of `username` under a fresh salt, stamped with
    /// the current time. Whatever salt and time were drawn, the outcome is
    /// that of `change_spec` for them: a failed change leaves the store as it
    /// was, and a wrong old password fails before the new one is looked at.
    pub fn update_password(
        store: &mut AccountStore,
        username: &str,
        old_password: &str,
        new_password: &str,
        new_password_check: &str,
    ) -> (r: Result<Users, CredentialError>)
        requires
            old(store).wf(),
        ensures
            final(store).wf(),
            exists|salt: Seq<char>, now: int|
                (final(store)@, result_view(r)) == change_spec(
                    old(store)@,
                    username@,
                    old_password@,
                    new_password@,
                    new_password_check@,
                    salt,
                    now,
                ),
            r matches Ok(a) ==> password_changed(
                old(store)@,
                username@,
                new_password@,
                final(store)@,
                a@,
            ),
            r is Err ==> final(store)@ == old(store)@,
            !has_account(old(store)@.accounts, username@) ==> r == Err::<Users, CredentialError>(
                CredentialError::NotFound,
            ),
            verify_spec(old(store)@, username@, old_password@) == Ok::<bool, CredentialError>(false)
                ==> r == Err::<Users, CredentialError>(CredentialError::InvalidCredentials),
            verify_spec(old(store)@, username@, old_password@) == Ok::<bool, CredentialError>(true)
                && new_password@ != new_password_check@ ==> r == Err::<Users, CredentialError>(
                CredentialError::PasswordMismatch,
            ),
            verify_spec(old(store)@, username@, old_password@) == Ok::<bool, CredentialError>(true)
                && new_password@ == new_password_check@ && new_password@.len() <= 0x3fff_ffff
                ==> r is Ok,
    {
        let salt = fresh_salt();
        let now = now_timestamp();
        let r = Self::update_password_with(
            store,
            username,
            old_password,
            new_password,
            new_password_check,
            salt.as_str(),
            now,
        );
        assert((final(store)@, result_view(r)) == change_spec(
            old(store)@,
            username@,
            old_password@,
            new_password@,
            new_password_check@,
            salt@,
            now as int,
        ));
        r
    }

    /// The public views of all accounts.
    pub fn get_users(store: &AccountStore) -> (r: Vec<UserResponse>)
        ensures
            r@.len() == store@.accounts.len(),
            forall|i: int|
                0 <= i < r@.len() ==> r@[i].id == store@.accounts[i].id && r@[i].username@
                    == store@.accounts[i].username && r@[i].is_active == store@.accounts[i].is_active,
    {
        store.get_users()
    }

    /// The public view of the account with identifier `id`.
    pub fn get_user(store: &AccountStore, id: i32) -> (r: Result<UserResponse, CredentialError>)
        requires
            store.wf(),
        ensures
            match r {
                Ok(u) => exists|i: int|
                    0 <= i < store@.accounts.len() && store@.accounts[i].id == id && u.id == id
                        && u.username@ == store@.accounts[i].username && u.is_active
                        == store@.accounts[i].is_active,
                Err(e) => e is NotFound && !has_id(store@.accounts, id as int),
            },
    {
        store.get_user(id)
    }
}

} // verus!
