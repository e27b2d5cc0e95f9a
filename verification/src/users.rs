//! Account operations over the store: uniqueness checks before insertion,
//! profile reads, password changes through the credential service, and the
//! recovery-code fields used by password reset.

use vstd::prelude::*;
use vstd::string::StringExecFns;

use crate::crypto::{is_bcrypt_digest, verifies, CryptoService};
use crate::errors::{AppError, AppErrorType};
use crate::ids::{check_object_id, is_object_id};
use crate::models::{PatchUser, User, UserCreds, UserDetails};
use crate::store::Store;

verus! {

pub open spec fn user_has_id(u: User, id: Seq<char>) -> bool {
    u.id matches Some(s) && s@ == id
}

pub open spec fn is_first_user(s: Seq<User>, id: Seq<char>, i: int) -> bool {
    &&& 0 <= i < s.len()
    &&& user_has_id(s[i], id)
    &&& forall|k: int| 0 <= k < i ==> !user_has_id(#[trigger] s[k], id)
}

pub open spec fn user_found(s: Seq<User>, id: Seq<char>) -> bool {
    exists|i: int| is_first_user(s, id, i)
}

pub open spec fn first_user_ix(s: Seq<User>, id: Seq<char>) -> int {
    choose|i: int| is_first_user(s, id, i)
}

pub proof fn lemma_first_user_unique(s: Seq<User>, id: Seq<char>, i: int)
    requires
        is_first_user(s, id, i),
    ensures
        first_user_ix(s, id) == i,
{
    let j = first_user_ix(s, id);
    assert(is_first_user(s, id, j));
}

pub open spec fn user_has_email(u: User, email: Seq<char>) -> bool {
    u.email@ == email
}

pub open spec fn is_first_email_user(s: Seq<User>, email: Seq<char>, i: int) -> bool {
    &&& 0 <= i < s.len()
    &&& user_has_email(s[i], email)
    &&& forall|k: int| 0 <= k < i ==> !user_has_email(#[trigger] s[k], email)
}

pub open spec fn email_user_found(s: Seq<User>, email: Seq<char>) -> bool {
    exists|i: int| is_first_email_user(s, email, i)
}

pub open spec fn first_email_user_ix(s: Seq<User>, email: Seq<char>) -> int {
    choose|i: int| is_first_email_user(s, email, i)
}

pub proof fn lemma_first_email_user_unique(s: Seq<User>, email: Seq<char>, i: int)
    requires
        is_first_email_user(s, email, i),
    ensures
        first_email_user_ix(s, email) == i,
{
    let j = first_email_user_ix(s, email);
    assert(is_first_email_user(s, email, j));
}

/// Some stored account already carries this username.
pub open spec fn username_taken(s: Seq<User>, name: Seq<char>) -> bool {
    exists|k: int| 0 <= k < s.len() && (#[trigger] s[k]).username@ == name
}

/// Some stored account already carries this email.
pub open spec fn email_taken(s: Seq<User>, email: Seq<char>) -> bool {
    exists|k: int| 0 <= k < s.len() && (#[trigger] s[k]).email@ == email
}

fn find_user_index(users: &Vec<User>, id: &str) -> (r: Option<usize>)
    ensures
        r matches Some(i) ==> is_first_user(users@, id@, i as int),
        r is None ==> !user_found(users@, id@),
{
    let mut i: usize = 0;
    while i < users.len()
        invariant
            i <= users.len(),
            forall|k: int| 0 <= k < i ==> !user_has_id(#[trigger] users@[k], id@),
        decreases users.len() - i,
    {
        let hit = match &users[i].id {
            Some(s) => crate::gate::str_eq_check(s.as_str(), id),
            None => false,
        };
        if hit {
            return Some(i);
        }
        i = i + 1;
    }
    proof {
        assert forall|j: int| !is_first_user(users@, id@, j) by {
            if 0 <= j < users@.len() {
                assert(!user_has_id(users@[j], id@));
            }
        }
    }
    None
}

fn find_email_user_index(users: &Vec<User>, email: &str) -> (r: Option<usize>)
    ensures
        r matches Some(i) ==> is_first_email_user(users@, email@, i as int),
        r is None ==> !email_user_found(users@, email@),
{
    let mut i: usize = 0;
    while i < users.len()
        invariant
            i <= users.len(),
            forall|k: int| 0 <= k < i ==> !user_has_email(#[trigger] users@[k], email@),
        decreases users.len() - i,
    {
        if crate::gate::str_eq_check(users[i].email.as_str(), email) {
            return Some(i);
        }
        i = i + 1;
    }
    proof {
        assert forall|j: int| !is_first_email_user(users@, email@, j) by {
            if 0 <= j < users@.len() {
                assert(!user_has_email(users@[j], email@));
            }
        }
    }
    None
}

/// The object-storage URL an avatar reference is resolved against at
/// account creation.
pub open spec fn avatar_url(av: Seq<char>) -> Seq<char> {
    "https://test-blog-static.s3.ap-south-1.amazonaws.com"@ + av
}

/// `q` is `p` with the store-minted id `id` filled in.
pub open spec fn same_user_but_id(p: User, q: User, id: Seq<char>) -> bool {
    &&& q.id matches Some(s) && s@ == id
    &&& q.username == p.username
    &&& q.email == p.email
    &&& q.password == p.password
    &&& q.user_avatar == p.user_avatar
    &&& q.recovery_code == p.recovery_code
}

/// `n` is `o` with only its password digest replaced by a well-formed one
/// that accepts `pw`.
pub open spec fn user_password_set(o: User, n: User, pw: Seq<char>) -> bool {
    &&& n.id == o.id
    &&& n.username == o.username
    &&& n.email == o.email
    &&& n.user_avatar == o.user_avatar
    &&& n.recovery_code == o.recovery_code
    &&& verifies(n.password@, pw)
    &&& is_bcrypt_digest(n.password@)
}

fn already_exists(cause: &str) -> (e: AppError)
    ensures
        e.error_type == AppErrorType::ALREADYEXIST,
{
    AppError {
        cause: Some(cause.to_owned()),
        message: None,
        error_type: AppErrorType::ALREADYEXIST,
    }
}

fn no_user() -> (e: AppError)
    ensures
        e.error_type == AppErrorType::NotFoundError,
{
    AppError {
        cause: None,
        message: Some("No User Found".to_owned()),
        error_type: AppErrorType::NotFoundError,
    }
}

impl User {
    /// Reject the account if its username is already in use.
    pub fn check_username(&self, store: &Store) -> (r: Result<(), AppError>)
        ensures
            r is Ok <==> !username_taken(store.users@, self.username@),
            r matches Err(e) ==> e.error_type == AppErrorType::ALREADYEXIST,
    {
        let mut i: usize = 0;
        while i < store.users.len()
            invariant
                i <= store.users.len(),
                forall|k: int| 0 <= k < i ==> (#[trigger] store.users@[k]).username@ != self.username@,
            decreases store.users.len() - i,
        {
            if crate::gate::str_eq_check(store.users[i].username.as_str(), self.username.as_str()) {
                return Err(already_exists("USERNAME_EXISTS"));
            }
            i = i + 1;
        }
        Ok(())
    }

    /// Reject the account if its email is already in use.
    pub fn check_email(&self, store: &Store) -> (r: Result<(), AppError>)
        ensures
            r is Ok <==> !email_taken(store.users@, self.email@),
            r matches Err(e) ==> e.error_type == AppErrorType::ALREADYEXIST,
    {
        let mut i: usize = 0;
        while i < store.users.len()
            invariant
                i <= store.users.len(),
                forall|k: int| 0 <= k < i ==> (#[trigger] store.users@[k]).email@ != self.email@,
            decreases store.users.len() - i,
        {
            if crate::gate::str_eq_check(store.users[i].email.as_str(), self.email.as_str()) {
                return Err(already_exists("EMAIL_EXISTS"));
            }
            i = i + 1;
        }
        Ok(())
    }

    /// Store the account: the password is replaced by its well-formed
    /// digest, an avatar reference — the avatar is optional — is resolved
    /// against the object-storage URL, and the store mints the id. The
    /// caller checks uniqueness first.
    pub fn save(&mut self, store: &mut Store) -> (r: Result<(), AppError>)
        requires
            old(store).next_id < u64::MAX,
        ensures
            r matches Err(e) ==> {
                &&& e.error_type == AppErrorType::HashingError
                &&& *final(self) == *old(self)
                &&& *final(store) == *old(store)
            },
            r is Ok ==> {
                &&& final(self).id == old(self).id
                &&& final(self).username == old(self).username
                &&& final(self).email == old(self).email
                &&& verifies(final(self).password@, old(self).password@)
                &&& is_bcrypt_digest(final(self).password@)
                &&& (old(self).user_avatar matches Some(a) ==> (final(self).user_avatar
                    matches Some(b) && b@ == avatar_url(a@)))
                &&& (old(self).user_avatar is None ==> final(self).user_avatar is None)
                &&& final(self).recovery_code == old(self).recovery_code
                &&& final(store).posts@ == old(store).posts@
                &&& final(store).comments@ == old(store).comments@
                &&& final(store).next_id == old(store).next_id + 1
                &&& final(store).users@.len() == old(store).users@.len() + 1
                &&& forall|x: int|
                    0 <= x < old(store).users@.len() ==> final(store).users@[x] == #[trigger] old(
                        store,
                    ).users@[x]
                &&& same_user_but_id(
                    User { id: old(self).id, ..*final(self) },
                    final(store).users@.last(),
                    crate::ids::minted_id(old(store).next_id),
                )
            },
    {
        let digest = CryptoService::hash_password(self.password.clone())?;
        let stored_avatar: Option<String> = match &self.user_avatar {
            Some(a) => {
                let mut prefixed: String =
                    "https://test-blog-static.s3.ap-south-1.amazonaws.com".to_owned();
                prefixed.append(a.as_str());
                Some(prefixed)
            },
            None => None,
        };
        self.password = digest.clone();
        self.user_avatar = match &stored_avatar {
            Some(p) => Some(p.clone()),
            None => None,
        };
        let id = store.mint_id();
        let rc = match &self.recovery_code {
            Some(c) => Some(*c),
            None => None,
        };
        store.users.push(
            User {
                id: Some(id),
                username: self.username.clone(),
                email: self.email.clone(),
                password: digest,
                user_avatar: stored_avatar,
                recovery_code: rc,
            },
        );
        Ok(())
    }

    /// The public face of this account.
    pub fn details(&self) -> (d: UserDetails)
        ensures
            d.id == self.id,
            d.username == self.username,
            d.email == self.email,
            d.password == self.password,
            d.user_avatar == self.user_avatar,
    {
        UserDetails {
            id: match &self.id {
                Some(s) => Some(s.clone()),
                None => None,
            },
            username: self.username.clone(),
            email: self.email.clone(),
            password: self.password.clone(),
            user_avatar: match &self.user_avatar {
                Some(s) => Some(s.clone()),
                None => None,
            },
        }
    }
}

impl UserCreds {
    /// Check these credentials against the stored account's digest. A
    /// verdict comes back exactly when the stored digest is well-formed.
    pub fn validate(&self, db_data: &User) -> (r: Result<bool, AppError>)
        ensures
            r is Ok <==> is_bcrypt_digest(db_data.password@),
            r matches Ok(b) ==> b == verifies(db_data.password@, self.password@),
            r matches Err(e) ==> e.error_type == AppErrorType::HashingError,
    {
        CryptoService::verify_hash(db_data.password.clone(), self.password.clone())
    }
}

impl Store {
    /// Read the first account carrying `uid`.
    pub fn get_user_by_id(&self, uid: &str) -> (r: Result<&User, AppError>)
        ensures
            r is Ok <==> is_object_id(uid@) && user_found(self.users@, uid@),
            r matches Ok(u) ==> *u == self.users@[first_user_ix(self.users@, uid@)],
            r matches Err(e) ==> (e.error_type == AppErrorType::InavlidId <==> !is_object_id(uid@)),
            r matches Err(e) ==> (is_object_id(uid@) ==> e.error_type
                == AppErrorType::NotFoundError),
    {
        check_object_id(uid)?;
        match find_user_index(&self.users, uid) {
            Some(i) => {
                proof {
                    lemma_first_user_unique(self.users@, uid@, i as int);
                }
                Ok(&self.users[i])
            },
            None => Err(no_user()),
        }
    }

    /// Read the first account carrying `email`.
    pub fn get_user_by_email(&self, email: &str) -> (r: Result<&User, AppError>)
        ensures
            r is Ok <==> email_user_found(self.users@, email@),
            r matches Ok(u) ==> *u == self.users@[first_email_user_ix(self.users@, email@)],
            r matches Err(e) ==> e.error_type == AppErrorType::NotFoundError,
    {
        match find_email_user_index(&self.users, email) {
            Some(i) => {
                proof {
                    lemma_first_email_user_unique(self.users@, email@, i as int);
                }
                Ok(&self.users[i])
            },
            None => Err(no_user()),
        }
    }

    /// All stored accounts, in store order.
    pub fn get_users(&self) -> (r: &Vec<User>)
        ensures
            r == &self.users,
    {
        &self.users
    }

    /// Replace the password of the first account carrying `user_id` with the
    /// digest of `password`. Changing the password of an absent account is a
    /// no-op, as the single-document update reports.
    pub fn change_password(&mut self, user_id: &str, password: &str) -> (r: Result<(), AppError>)
        ensures
            r matches Err(e) ==> {
                &&& *final(self) == *old(self)
                &&& (e.error_type == AppErrorType::InavlidId <==> !is_object_id(user_id@))
                &&& (is_object_id(user_id@) ==> e.error_type == AppErrorType::HashingError)
            },
            r is Ok ==> is_object_id(user_id@) && {
                let i = first_user_ix(old(self).users@, user_id@);
                &&& final(self).posts@ == old(self).posts@
                &&& final(self).comments@ == old(self).comments@
                &&& final(self).next_id == old(self).next_id
                &&& final(self).users@.len() == old(self).users@.len()
                &&& if user_found(old(self).users@, user_id@) {
                    &&& forall|x: int|
                        0 <= x < old(self).users@.len() && x != i ==> final(self).users@[x]
                            == #[trigger] old(self).users@[x]
                    &&& user_password_set(
                        old(self).users@[i],
                        final(self).users@[i],
                        password@,
                    )
                } else {
                    final(self).users@ == old(self).users@
                }
            },
    {
        check_object_id(user_id)?;
        let digest = CryptoService::hash_password(password.to_owned())?;
        match find_user_index(&self.users, user_id) {
            Some(i) => {
                proof {
                    lemma_first_user_unique(self.users@, user_id@, i as int);
                }
                let u = &mut self.users[i];
                u.password = digest;
                Ok(())
            },
            None => Ok(()),
        }
    }

    /// Replace the password of the first account carrying `email`.
    pub fn change_password_email(&mut self, email: &str, password: &str) -> (r: Result<
        (),
        AppError,
    >)
        ensures
            r matches Err(e) ==> {
                &&& *final(self) == *old(self)
                &&& (e.error_type == AppErrorType::NotFoundError <==> !email_user_found(
                    old(self).users@,
                    email@,
                ))
                &&& (email_user_found(old(self).users@, email@) ==> e.error_type
                    == AppErrorType::HashingError)
            },
            r is Ok ==> email_user_found(old(self).users@, email@) && {
                let i = first_email_user_ix(old(self).users@, email@);
                &&& final(self).posts@ == old(self).posts@
                &&& final(self).comments@ == old(self).comments@
                &&& final(self).next_id == old(self).next_id
                &&& final(self).users@.len() == old(self).users@.len()
                &&& forall|x: int|
                    0 <= x < old(self).users@.len() && x != i ==> final(self).users@[x]
                        == #[trigger] old(self).users@[x]
                &&& user_password_set(old(self).users@[i], final(self).users@[i], password@)
            },
    {
        let i = match find_email_user_index(&self.users, email) {
            Some(i) => i,
            None => {
                return Err(no_user());
            },
        };
        proof {
            lemma_first_email_user_unique(self.users@, email@, i as int);
        }
        let digest = CryptoService::hash_password(password.to_owned())?;
        let u = &mut self.users[i];
        u.password = digest;
        Ok(())
    }

    /// Put a password-recovery code on the first account carrying `email`.
    pub fn add_recovery(&mut self, email: &str, code: i32) -> (r: Result<(), AppError>)
        ensures
            r is Ok <==> email_user_found(old(self).users@, email@),
            r matches Err(e) ==> e.error_type == AppErrorType::NotFoundError && *final(self)
                == *old(self),
            r is Ok ==> {
                let i = first_email_user_ix(old(self).users@, email@);
                &&& final(self).posts@ == old(self).posts@
                &&& final(self).comments@ == old(self).comments@
                &&& final(self).next_id == old(self).next_id
                &&& final(self).users@.len() == old(self).users@.len()
                &&& forall|x: int|
                    0 <= x < old(self).users@.len() && x != i ==> final(self).users@[x]
                        == #[trigger] old(self).users@[x]
                &&& final(self).users@[i].recovery_code == Some(code)
                &&& final(self).users@[i].id == old(self).users@[i].id
                &&& final(self).users@[i].username == old(self).users@[i].username
                &&& final(self).users@[i].email == old(self).users@[i].email
                &&& final(self).users@[i].password == old(self).users@[i].password
                &&& final(self).users@[i].user_avatar == old(self).users@[i].user_avatar
            },
    {
        let i = match find_email_user_index(&self.users, email) {
            Some(i) => i,
            None => {
                return Err(no_user());
            },
        };
        proof {
            lemma_first_email_user_unique(self.users@, email@, i as int);
        }
        let u = &mut self.users[i];
        u.recovery_code = Some(code);
        Ok(())
    }

    /// Accept a recovery code exactly when the account exists and carries
    /// that code.
    pub fn check_validity(&self, email: &str, code: i32) -> (r: Result<(), AppError>)
        ensures
            r is Ok <==> email_user_found(self.users@, email@) && self.users@[first_email_user_ix(
                self.users@,
                email@,
            )].recovery_code == Some(code),
            r matches Err(e) ==> e.error_type == AppErrorType::NotFoundError,
    {
        let i = match find_email_user_index(&self.users, email) {
            Some(i) => i,
            None => {
                return Err(no_user());
            },
        };
        proof {
            lemma_first_email_user_unique(self.users@, email@, i as int);
        }
        match &self.users[i].recovery_code {
            Some(c) => {
                if *c == code {
                    Ok(())
                } else {
                    Err(
                        AppError {
                            cause: None,
                            message: Some("Invalid Code".to_owned()),
                            error_type: AppErrorType::NotFoundError,
                        },
                    )
                }
            },
            None => Err(
                AppError {
                    cause: None,
                    message: Some("Invalid Code".to_owned()),
                    error_type: AppErrorType::NotFoundError,
                },
            ),
        }
    }
}

impl PatchUser {
    /// Set the username and email of the first account carrying `user_id`.
    /// Patching an absent account is a no-op.
    pub fn patch_user_details(&self, store: &mut Store, user_id: &str) -> (r: Result<(), AppError>)
        ensures
            r is Ok <==> is_object_id(user_id@),
            r matches Err(e) ==> e.error_type == AppErrorType::InavlidId && *final(store) == *old(
                store,
            ),
            r is Ok ==> {
                let i = first_user_ix(old(store).users@, user_id@);
                &&& final(store).posts@ == old(store).posts@
                &&& final(store).comments@ == old(store).comments@
                &&& final(store).next_id == old(store).next_id
                &&& final(store).users@.len() == old(store).users@.len()
                &&& if user_found(old(store).users@, user_id@) {
                    &&& forall|x: int|
                        0 <= x < old(store).users@.len() && x != i ==> final(store).users@[x]
                            == #[trigger] old(store).users@[x]
                    &&& final(store).users@[i].username == self.username
                    &&& final(store).users@[i].email == self.email
                    &&& final(store).users@[i].id == old(store).users@[i].id
                    &&& final(store).users@[i].password == old(store).users@[i].password
                    &&& final(store).users@[i].user_avatar == old(store).users@[i].user_avatar
                    &&& final(store).users@[i].recovery_code == old(store).users@[i].recovery_code
                } else {
                    final(store).users@ == old(store).users@
                }
            },
    {
        check_object_id(user_id)?;
        match find_user_index(&store.users, user_id) {
            Some(i) => {
                proof {
                    lemma_first_user_unique(store.users@, user_id@, i as int);
                }
                let u = &mut store.users[i];
                u.username = self.username.clone();
                u.email = self.email.clone();
                Ok(())
            },
            None => Ok(()),
        }
    }
}

} // verus!
