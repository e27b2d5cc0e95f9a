//! Request-level flows: what a route handler does between decoding a request
//! body and encoding a response. Each flow composes store operations, the
//! credential service and the token service, and carries an exact outcome
//! contract.

use vstd::prelude::*;

use crate::crypto::{is_bcrypt_digest, verifies};
use crate::errors::{AppError, AppErrorType};
use crate::ids::is_object_id;
use crate::jwt::{claims_in, token_of, Claims, TOKEN_VALIDITY_SECS};
use crate::models::{BlogPost, PostBlog, User, UserCreds};
use crate::store::Store;
use crate::users::{
    email_taken, email_user_found, first_email_user_ix, first_user_ix, same_user_but_id,
    user_found, username_taken,
};

verus! {

/// What a successful login hands back to the client.
#[derive(Debug)]
pub struct LoginResponse {
    pub user_id: String,
    pub username: String,
    pub email: String,
    pub user_avatar: Option<String>,
    pub jwt: String,
}

/// A login either succeeds with a token or is turned away.
#[derive(Debug)]
pub enum LoginOutcome {
    Success(LoginResponse),
    IncorrectPassword,
}

/// Log a user in: look the account up by email, check the password against
/// the stored digest, and issue a token for the account id, expiring one
/// validity window after `now`. Login is owed an outcome whenever the
/// account exists with a well-formed stored digest and an id — a stored
/// account this library created always has both.
pub fn post_login(store: &Store, form_data: &UserCreds, now: u64) -> (r: Result<
    LoginOutcome,
    AppError,
>)
    requires
        now + TOKEN_VALIDITY_SECS <= u64::MAX,
    ensures
        r matches Err(e) ==> (e.error_type == AppErrorType::NotFoundError <==> !email_user_found(
            store.users@,
            form_data.email@,
        )),
        r is Ok ==> email_user_found(store.users@, form_data.email@),
        email_user_found(store.users@, form_data.email@) ==> ({
            let u = store.users@[first_email_user_ix(store.users@, form_data.email@)];
            is_bcrypt_digest(u.password@) && u.id is Some
        }) ==> r is Ok,
        r matches Ok(o) ==> {
            let u = store.users@[first_email_user_ix(store.users@, form_data.email@)];
            match o {
                LoginOutcome::IncorrectPassword => !verifies(u.password@, form_data.password@),
                LoginOutcome::Success(resp) => {
                    &&& verifies(u.password@, form_data.password@)
                    &&& u.id matches Some(s) && resp.user_id@ == s@ && resp.jwt@ == token_of(
                        s@,
                        (now + TOKEN_VALIDITY_SECS) as u64,
                    ) && claims_in(resp.jwt@) == Some((s@, (now + TOKEN_VALIDITY_SECS) as u64))
                    &&& resp.username == u.username
                    &&& resp.email == u.email
                    &&& resp.user_avatar == u.user_avatar
                },
            }
        },
{
    let user = store.get_user_by_email(form_data.email.as_str())?;
    if !form_data.validate(user)? {
        return Ok(LoginOutcome::IncorrectPassword);
    }
    let uid = match &user.id {
        Some(s) => s.clone(),
        None => {
            return Err(
                AppError {
                    cause: Some("stored account has no id".to_owned()),
                    message: None,
                    error_type: AppErrorType::DatabaseError,
                },
            );
        },
    };
    let jwt = Claims::encode_req(uid.as_str(), now)?;
    Ok(
        LoginOutcome::Success(
            LoginResponse {
                user_id: uid,
                username: user.username.clone(),
                email: user.email.clone(),
                user_avatar: match &user.user_avatar {
                    Some(a) => Some(a.clone()),
                    None => None,
                },
                jwt,
            },
        ),
    )
}

/// Create an account: enforce username and email uniqueness, then store the
/// account with its password hashed and its optional avatar reference
/// resolved.
pub fn register_user(store: &mut Store, user: &mut User) -> (r: Result<(), AppError>)
    requires
        old(store).next_id < u64::MAX,
    ensures
        r matches Err(e) ==> (e.error_type == AppErrorType::ALREADYEXIST <==> username_taken(
            old(store).users@,
            old(user).username@,
        ) || email_taken(old(store).users@, old(user).email@)),
        r matches Err(e) ==> *final(store) == *old(store),
        r is Ok ==> {
            &&& !username_taken(old(store).users@, old(user).username@)
            &&& !email_taken(old(store).users@, old(user).email@)
            &&& verifies(final(user).password@, old(user).password@)
            &&& is_bcrypt_digest(final(user).password@)
            &&& final(store).posts@ == old(store).posts@
            &&& final(store).comments@ == old(store).comments@
            &&& final(store).users@.len() == old(store).users@.len() + 1
            &&& forall|x: int|
                0 <= x < old(store).users@.len() ==> final(store).users@[x] == #[trigger] old(
                    store,
                ).users@[x]
            &&& same_user_but_id(
                User { id: old(user).id, ..*final(user) },
                final(store).users@.last(),
                crate::ids::minted_id(old(store).next_id),
            )
        },
{
    user.check_username(store)?;
    user.check_email(store)?;
    user.save(store)
}

/// Create a post on behalf of the authenticated `user_id`: the author's
/// display name is denormalized from the account at creation time.
pub fn create_post(store: &mut Store, data: &PostBlog, user_id: &str, now: i64) -> (r: Result<
    (),
    AppError,
>)
    requires
        old(store).next_id < u64::MAX,
    ensures
        r matches Err(e) ==> {
            &&& *final(store) == *old(store)
            &&& (e.error_type == AppErrorType::InavlidId <==> !is_object_id(user_id@))
            &&& (is_object_id(user_id@) ==> (e.error_type == AppErrorType::NotFoundError <==>
                !user_found(old(store).users@, user_id@)))
        },
        r is Ok <==> is_object_id(user_id@) && user_found(old(store).users@, user_id@),
        r is Ok ==> {
            let author = old(store).users@[first_user_ix(old(store).users@, user_id@)];
            let p = final(store).posts@.last();
            &&& final(store).users@ == old(store).users@
            &&& final(store).comments@ == old(store).comments@
            &&& final(store).posts@.len() == old(store).posts@.len() + 1
            &&& forall|x: int|
                0 <= x < old(store).posts@.len() ==> final(store).posts@[x] == #[trigger] old(
                    store,
                ).posts@[x]
            &&& p.id matches Some(s) && s@ == crate::ids::minted_id(old(store).next_id)
            &&& p.title == data.title
            &&& p.content == data.content
            &&& p.user_id@ == user_id@
            &&& p.username == author.username
            &&& p.created_at == now
            &&& p.upvotes.count == 0 && p.upvotes.user_ids() =~= Seq::<Seq<char>>::empty()
            &&& p.downvotes.count == 0 && p.downvotes.user_ids() =~= Seq::<Seq<char>>::empty()
        },
{
    let username = {
        let author = store.get_user_by_id(user_id)?;
        author.username.clone()
    };
    let post = BlogPost::new(
        data.title.clone(),
        data.content.clone(),
        user_id.to_owned(),
        username,
        now,
    );
    store.save_post(post)
}

/// Relies on rand::random_range: a value drawn uniformly from the given
/// half-open range.
#[verifier::external_body]
fn draw_recovery_code() -> (c: i32)
    ensures
        1000 <= c < 9999,
{
    rand::random_range(1000..9999)
}

/// Start a password reset: draw a fresh four-digit recovery code and store
/// it on the account. The caller mails the returned code to the account's
/// address.
pub fn forget_password(store: &mut Store, email: &str) -> (r: Result<i32, AppError>)
    ensures
        r is Ok <==> email_user_found(old(store).users@, email@),
        r matches Err(e) ==> e.error_type == AppErrorType::NotFoundError && *final(store) == *old(
            store,
        ),
        r matches Ok(code) ==> {
            let i = first_email_user_ix(old(store).users@, email@);
            &&& 1000 <= code < 9999
            &&& final(store).posts@ == old(store).posts@
            &&& final(store).comments@ == old(store).comments@
            &&& final(store).next_id == old(store).next_id
            &&& final(store).users@.len() == old(store).users@.len()
            &&& forall|x: int|
                0 <= x < old(store).users@.len() && x != i ==> final(store).users@[x]
                    == #[trigger] old(store).users@[x]
            &&& final(store).users@[i].recovery_code == Some(code)
            &&& final(store).users@[i].id == old(store).users@[i].id
            &&& final(store).users@[i].username == old(store).users@[i].username
            &&& final(store).users@[i].email == old(store).users@[i].email
            &&& final(store).users@[i].password == old(store).users@[i].password
            &&& final(store).users@[i].user_avatar == old(store).users@[i].user_avatar
        },
{
    let code = draw_recovery_code();
    store.add_recovery(email, code)?;
    Ok(code)
}

} // verus!
