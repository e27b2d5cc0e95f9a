//! The persisted document shapes: users, posts, comments and the replies
//! nested inside a comment. Ids are 24-character hex strings; instants are
//! epoch seconds. Every reactable entity carries its reaction sets inline.

use vstd::prelude::*;

use crate::errors::AppError;
use crate::ids::{check_object_id, is_object_id};
use crate::reactions::Votes;

verus! {

/// A stored blog post. `id` is None until the store has assigned one.
#[derive(Debug)]
pub struct BlogPost {
    pub id: Option<String>,
    pub title: String,
    pub content: String,
    pub user_id: String,
    pub username: String,
    pub created_at: i64,
    pub upvotes: Votes,
    pub downvotes: Votes,
}

impl BlogPost {
    /// A fresh post by `user_id`, not yet stored: no id, empty reaction sets.
    pub fn new(title: String, content: String, user_id: String, username: String, now: i64) -> (p:
        BlogPost)
        ensures
            p.id is None,
            p.title == title,
            p.content == content,
            p.user_id == user_id,
            p.username == username,
            p.created_at == now,
            p.upvotes.count == 0 && p.upvotes.user_ids() =~= Seq::<Seq<char>>::empty(),
            p.downvotes.count == 0 && p.downvotes.user_ids() =~= Seq::<Seq<char>>::empty(),
    {
        BlogPost {
            id: None,
            title,
            content,
            user_id,
            username,
            created_at: now,
            upvotes: Votes::new(),
            downvotes: Votes::new(),
        }
    }
}

/// A reply nested inside a comment. Created only by appending to a comment,
/// so it always carries the id the store minted for it.
#[derive(Debug)]
pub struct Replies {
    pub id: String,
    pub user_id: String,
    pub created_at: i64,
    pub username: String,
    pub content: String,
    pub likes: Votes,
    pub dislikes: Votes,
}

impl Replies {
    /// A fresh reply under the minted id `id`. The author id must be
    /// well-formed.
    pub fn new(id: String, user_id: &str, username: &str, content: &str, now: i64) -> (r: Result<
        Replies,
        AppError,
    >)
        ensures
            r is Ok <==> is_object_id(user_id@),
            r matches Ok(rep) ==> {
                &&& rep.id == id
                &&& rep.user_id@ == user_id@
                &&& rep.username@ == username@
                &&& rep.content@ == content@
                &&& rep.created_at == now
                &&& rep.likes.count == 0 && rep.likes.user_ids() =~= Seq::<Seq<char>>::empty()
                &&& rep.dislikes.count == 0 && rep.dislikes.user_ids() =~= Seq::<
                    Seq<char>,
                >::empty()
            },
            r matches Err(e) ==> e.error_type == crate::errors::AppErrorType::InavlidId,
    {
        check_object_id(user_id)?;
        Ok(
            Replies {
                id,
                user_id: user_id.to_owned(),
                username: username.to_owned(),
                content: content.to_owned(),
                created_at: now,
                likes: Votes::new(),
                dislikes: Votes::new(),
            },
        )
    }
}

/// A stored comment: tied to its parent post by `blog_id`, carrying its own
/// reaction sets and its ordered sequence of replies.
#[derive(Debug)]
pub struct Comments {
    pub id: Option<String>,
    pub user_id: String,
    pub username: String,
    pub content: String,
    pub blog_id: String,
    pub created_at: i64,
    pub replies: Vec<Replies>,
    pub likes: Votes,
    pub dislikes: Votes,
}

impl Comments {
    /// A fresh comment, not yet stored. Both the author id and the parent
    /// post id must be well-formed.
    pub fn new(user_id: &str, username: &str, content: &str, blog_id: &str, now: i64) -> (r:
        Result<Comments, AppError>)
        ensures
            r is Ok <==> is_object_id(user_id@) && is_object_id(blog_id@),
            r matches Ok(c) ==> {
                &&& c.id is None
                &&& c.user_id@ == user_id@
                &&& c.username@ == username@
                &&& c.content@ == content@
                &&& c.blog_id@ == blog_id@
                &&& c.created_at == now
                &&& c.replies@ =~= Seq::<Replies>::empty()
                &&& c.likes.count == 0 && c.likes.user_ids() =~= Seq::<Seq<char>>::empty()
                &&& c.dislikes.count == 0 && c.dislikes.user_ids() =~= Seq::<Seq<char>>::empty()
            },
            r matches Err(e) ==> e.error_type == crate::errors::AppErrorType::InavlidId,
    {
        check_object_id(user_id)?;
        check_object_id(blog_id)?;
        Ok(
            Comments {
                id: None,
                user_id: user_id.to_owned(),
                username: username.to_owned(),
                content: content.to_owned(),
                blog_id: blog_id.to_owned(),
                created_at: now,
                replies: Vec::new(),
                likes: Votes::new(),
                dislikes: Votes::new(),
            },
        )
    }
}

/// A stored account.
#[derive(Debug)]
pub struct User {
    pub id: Option<String>,
    pub username: String,
    pub email: String,
    pub password: String,
    pub user_avatar: Option<String>,
    pub recovery_code: Option<i32>,
}

/// The public face of an account: what a profile read returns. The password
/// digest is carried but never serialized by the transport layer.
#[derive(Debug)]
pub struct UserDetails {
    pub id: Option<String>,
    pub username: String,
    pub email: String,
    pub password: String,
    pub user_avatar: Option<String>,
}

/// A login request body.
#[derive(Debug)]
pub struct UserCreds {
    pub email: String,
    pub password: String,
}

/// A profile-update request body.
#[derive(Debug)]
pub struct PatchUser {
    pub email: String,
    pub username: String,
}

/// A password-change request body.
#[derive(Debug)]
pub struct Password {
    pub password: String,
}

/// A post create/update request body.
#[derive(Debug)]
pub struct PostBlog {
    pub title: String,
    pub content: String,
}

/// A comment create/update request body.
#[derive(Debug)]
pub struct PostComment {
    pub user_id: String,
    pub username: String,
    pub content: String,
    pub blog_id: String,
}

/// A reply create/update request body.
#[derive(Debug)]
pub struct PostReply {
    pub user_id: String,
    pub username: String,
    pub content: String,
}

} // verus!
