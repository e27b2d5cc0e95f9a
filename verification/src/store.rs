//! The document store model and the reaction ledger over it. The store keeps
//! the three collections — users, posts, comments — and a counter from which
//! it mints document ids. Every operation models one atomic single-document
//! store call: it addresses a document (or a nested reply) by id with
//! first-match semantics, applies its whole effect to that one document, and
//! leaves every other document and collection untouched.

use vstd::prelude::*;
use vstd::multiset::Multiset;

use crate::errors::{AppError, AppErrorType};
use crate::ids::{check_object_id, is_object_id};
use crate::models::{BlogPost, Comments, Replies};
use crate::reactions::{votes_step_fits, votes_stepped, IncOrDec, Votes};

verus! {

/// Which reaction set of a post a vote addresses.
#[derive(Clone, Copy, Debug, PartialEq, Eq, Structural)]
pub enum VoteKind {
    Upvote,
    Downvote,
}

/// Which reaction set of a comment or reply a toggle addresses.
#[derive(Clone, Copy, Debug, PartialEq, Eq, Structural)]
pub enum LikeKind {
    Like,
    Dislike,
}

/// The resolved address of one reaction set: a post, a comment, or a reply
/// nested inside a comment (addressed by comment id and reply id together).
#[derive(Debug)]
pub enum ReactionTarget {
    Post(String, VoteKind),
    Comment(String, LikeKind),
    Reply(String, String, LikeKind),
}

/// The in-memory document store: three collections and the id-minting
/// counter.
#[derive(Debug)]
pub struct Store {
    pub users: Vec<crate::models::User>,
    pub posts: Vec<BlogPost>,
    pub comments: Vec<Comments>,
    pub next_id: u64,
}

// ---------------------------------------------------------------------------
// Addressing: first-match semantics, as the store's single-document calls
// have.
// ---------------------------------------------------------------------------

pub open spec fn post_has_id(p: BlogPost, id: Seq<char>) -> bool {
    p.id matches Some(s) && s@ == id
}

pub open spec fn comment_has_id(c: Comments, id: Seq<char>) -> bool {
    c.id matches Some(s) && s@ == id
}

pub open spec fn reply_has_id(r: Replies, id: Seq<char>) -> bool {
    r.id@ == id
}

/// `i` is the first index of `s` whose post carries `id`.
pub open spec fn is_first_post(s: Seq<BlogPost>, id: Seq<char>, i: int) -> bool {
    &&& 0 <= i < s.len()
    &&& post_has_id(s[i], id)
    &&& forall|k: int| 0 <= k < i ==> !post_has_id(#[trigger] s[k], id)
}

pub open spec fn post_found(s: Seq<BlogPost>, id: Seq<char>) -> bool {
    exists|i: int| is_first_post(s, id, i)
}

pub open spec fn first_post_ix(s: Seq<BlogPost>, id: Seq<char>) -> int {
    choose|i: int| is_first_post(s, id, i)
}

pub open spec fn is_first_comment(s: Seq<Comments>, id: Seq<char>, i: int) -> bool {
    &&& 0 <= i < s.len()
    &&& comment_has_id(s[i], id)
    &&& forall|k: int| 0 <= k < i ==> !comment_has_id(#[trigger] s[k], id)
}

pub open spec fn comment_found(s: Seq<Comments>, id: Seq<char>) -> bool {
    exists|i: int| is_first_comment(s, id, i)
}

pub open spec fn first_comment_ix(s: Seq<Comments>, id: Seq<char>) -> int {
    choose|i: int| is_first_comment(s, id, i)
}

pub open spec fn is_first_reply(s: Seq<Replies>, id: Seq<char>, i: int) -> bool {
    &&& 0 <= i < s.len()
    &&& reply_has_id(s[i], id)
    &&& forall|k: int| 0 <= k < i ==> !reply_has_id(#[trigger] s[k], id)
}

pub open spec fn reply_found(s: Seq<Replies>, id: Seq<char>) -> bool {
    exists|i: int| is_first_reply(s, id, i)
}

pub open spec fn first_reply_ix(s: Seq<Replies>, id: Seq<char>) -> int {
    choose|i: int| is_first_reply(s, id, i)
}

/// There is at most one first match.
pub proof fn lemma_first_post_unique(s: Seq<BlogPost>, id: Seq<char>, i: int)
    requires
        is_first_post(s, id, i),
    ensures
        first_post_ix(s, id) == i,
{
    let j = first_post_ix(s, id);
    assert(is_first_post(s, id, j));
}

pub proof fn lemma_first_comment_unique(s: Seq<Comments>, id: Seq<char>, i: int)
    requires
        is_first_comment(s, id, i),
    ensures
        first_comment_ix(s, id) == i,
{
    let j = first_comment_ix(s, id);
    assert(is_first_comment(s, id, j));
}

pub proof fn lemma_first_reply_unique(s: Seq<Replies>, id: Seq<char>, i: int)
    requires
        is_first_reply(s, id, i),
    ensures
        first_reply_ix(s, id) == i,
{
    let j = first_reply_ix(s, id);
    assert(is_first_reply(s, id, j));
}

fn opt_id_matches(stored: &Option<String>, id: &str) -> (b: bool)
    ensures
        b == (stored matches Some(s) && s@ == id@),
{
    match stored {
        Some(s) => crate::gate::str_eq_check(s.as_str(), id),
        None => false,
    }
}

fn find_post_index(posts: &Vec<BlogPost>, id: &str) -> (r: Option<usize>)
    ensures
        r matches Some(i) ==> is_first_post(posts@, id@, i as int),
        r is None ==> !post_found(posts@, id@),
{
    let mut i: usize = 0;
    while i < posts.len()
        invariant
            i <= posts.len(),
            forall|k: int| 0 <= k < i ==> !post_has_id(#[trigger] posts@[k], id@),
        decreases posts.len() - i,
    {
        if opt_id_matches(&posts[i].id, id) {
            return Some(i);
        }
        i = i + 1;
    }
    proof {
        assert forall|j: int| !is_first_post(posts@, id@, j) by {
            if 0 <= j < posts@.len() {
                assert(!post_has_id(posts@[j], id@));
            }
        }
    }
    None
}

fn find_comment_index(comments: &Vec<Comments>, id: &str) -> (r: Option<usize>)
    ensures
        r matches Some(i) ==> is_first_comment(comments@, id@, i as int),
        r is None ==> !comment_found(comments@, id@),
{
    let mut i: usize = 0;
    while i < comments.len()
        invariant
            i <= comments.len(),
            forall|k: int| 0 <= k < i ==> !comment_has_id(#[trigger] comments@[k], id@),
        decreases comments.len() - i,
    {
        if opt_id_matches(&comments[i].id, id) {
            return Some(i);
        }
        i = i + 1;
    }
    proof {
        assert forall|j: int| !is_first_comment(comments@, id@, j) by {
            if 0 <= j < comments@.len() {
                assert(!comment_has_id(comments@[j], id@));
            }
        }
    }
    None
}

fn find_reply_index(replies: &Vec<Replies>, id: &str) -> (r: Option<usize>)
    ensures
        r matches Some(i) ==> is_first_reply(replies@, id@, i as int),
        r is None ==> !reply_found(replies@, id@),
{
    let mut i: usize = 0;
    while i < replies.len()
        invariant
            i <= replies.len(),
            forall|k: int| 0 <= k < i ==> !reply_has_id(#[trigger] replies@[k], id@),
        decreases replies.len() - i,
    {
        if crate::gate::str_eq_check(replies[i].id.as_str(), id) {
            return Some(i);
        }
        i = i + 1;
    }
    proof {
        assert forall|j: int| !is_first_reply(replies@, id@, j) by {
            if 0 <= j < replies@.len() {
                assert(!reply_has_id(replies@[j], id@));
            }
        }
    }
    None
}

// ---------------------------------------------------------------------------
// The effect of one reaction step on one document, everything else framed.
// ---------------------------------------------------------------------------

/// The addressed reaction set of the first post carrying `id`.
pub open spec fn post_votes_of(s: Store, id: Seq<char>, k: VoteKind) -> Votes {
    let p = s.posts@[first_post_ix(s.posts@, id)];
    match k {
        VoteKind::Upvote => p.upvotes,
        VoteKind::Downvote => p.downvotes,
    }
}

pub open spec fn comment_votes_of(s: Store, id: Seq<char>, k: LikeKind) -> Votes {
    let c = s.comments@[first_comment_ix(s.comments@, id)];
    match k {
        LikeKind::Like => c.likes,
        LikeKind::Dislike => c.dislikes,
    }
}

pub open spec fn reply_votes_of(s: Store, cid: Seq<char>, rid: Seq<char>, k: LikeKind) -> Votes {
    let c = s.comments@[first_comment_ix(s.comments@, cid)];
    let r = c.replies@[first_reply_ix(c.replies@, rid)];
    match k {
        LikeKind::Like => r.likes,
        LikeKind::Dislike => r.dislikes,
    }
}

/// One vote step on a post: the addressed set stepped, every other field of
/// the post unchanged.
pub open spec fn post_vote_stepped(
    o: BlogPost,
    n: BlogPost,
    k: VoteKind,
    uid: Seq<char>,
    dir: IncOrDec,
) -> bool {
    &&& n.id == o.id
    &&& n.title == o.title
    &&& n.content == o.content
    &&& n.user_id == o.user_id
    &&& n.username == o.username
    &&& n.created_at == o.created_at
    &&& match k {
        VoteKind::Upvote => votes_stepped(o.upvotes, n.upvotes, uid, dir) && n.downvotes
            == o.downvotes,
        VoteKind::Downvote => votes_stepped(o.downvotes, n.downvotes, uid, dir) && n.upvotes
            == o.upvotes,
    }
}

/// One like step on a comment's own reaction sets: replies untouched.
pub open spec fn comment_like_stepped(
    o: Comments,
    n: Comments,
    k: LikeKind,
    uid: Seq<char>,
    dir: IncOrDec,
) -> bool {
    &&& n.id == o.id
    &&& n.user_id == o.user_id
    &&& n.username == o.username
    &&& n.content == o.content
    &&& n.blog_id == o.blog_id
    &&& n.created_at == o.created_at
    &&& n.replies == o.replies
    &&& match k {
        LikeKind::Like => votes_stepped(o.likes, n.likes, uid, dir) && n.dislikes == o.dislikes,
        LikeKind::Dislike => votes_stepped(o.dislikes, n.dislikes, uid, dir) && n.likes == o.likes,
    }
}

/// One like step on a reply: everything else about the reply unchanged.
pub open spec fn reply_like_stepped(
    o: Replies,
    n: Replies,
    k: LikeKind,
    uid: Seq<char>,
    dir: IncOrDec,
) -> bool {
    &&& n.id == o.id
    &&& n.user_id == o.user_id
    &&& n.username == o.username
    &&& n.content == o.content
    &&& n.created_at == o.created_at
    &&& match k {
        LikeKind::Like => votes_stepped(o.likes, n.likes, uid, dir) && n.dislikes == o.dislikes,
        LikeKind::Dislike => votes_stepped(o.dislikes, n.dislikes, uid, dir) && n.likes == o.likes,
    }
}

/// One like step on the reply `rid` addressed inside a comment: only the
/// positional match mutates, the comment's own reaction sets and all its
/// other replies stay as they were.
pub open spec fn comment_reply_stepped(
    o: Comments,
    n: Comments,
    ri: int,
    k: LikeKind,
    uid: Seq<char>,
    dir: IncOrDec,
) -> bool {
    &&& n.id == o.id
    &&& n.user_id == o.user_id
    &&& n.username == o.username
    &&& n.content == o.content
    &&& n.blog_id == o.blog_id
    &&& n.created_at == o.created_at
    &&& n.likes == o.likes
    &&& n.dislikes == o.dislikes
    &&& n.replies@.len() == o.replies@.len()
    &&& forall|x: int|
        0 <= x < o.replies@.len() && x != ri ==> n.replies@[x] == #[trigger] o.replies@[x]
    &&& reply_like_stepped(o.replies@[ri], n.replies@[ri], k, uid, dir)
}

/// A successful vote on the first post carrying `id`: that post stepped,
/// every other post and every other collection unchanged.
pub open spec fn post_vote_applied(
    pre: Store,
    post: Store,
    id: Seq<char>,
    k: VoteKind,
    uid: Seq<char>,
    dir: IncOrDec,
) -> bool {
    let i = first_post_ix(pre.posts@, id);
    &&& post.users@ == pre.users@
    &&& post.comments@ == pre.comments@
    &&& post.next_id == pre.next_id
    &&& post.posts@.len() == pre.posts@.len()
    &&& forall|x: int|
        0 <= x < pre.posts@.len() && x != i ==> post.posts@[x] == #[trigger] pre.posts@[x]
    &&& post_vote_stepped(pre.posts@[i], post.posts@[i], k, uid, dir)
}

pub open spec fn comment_like_applied(
    pre: Store,
    post: Store,
    id: Seq<char>,
    k: LikeKind,
    uid: Seq<char>,
    dir: IncOrDec,
) -> bool {
    let i = first_comment_ix(pre.comments@, id);
    &&& post.users@ == pre.users@
    &&& post.posts@ == pre.posts@
    &&& post.next_id == pre.next_id
    &&& post.comments@.len() == pre.comments@.len()
    &&& forall|x: int|
        0 <= x < pre.comments@.len() && x != i ==> post.comments@[x] == #[trigger] pre.comments@[x]
    &&& comment_like_stepped(pre.comments@[i], post.comments@[i], k, uid, dir)
}

pub open spec fn reply_like_applied(
    pre: Store,
    post: Store,
    cid: Seq<char>,
    rid: Seq<char>,
    k: LikeKind,
    uid: Seq<char>,
    dir: IncOrDec,
) -> bool {
    let i = first_comment_ix(pre.comments@, cid);
    let ri = first_reply_ix(pre.comments@[i].replies@, rid);
    &&& post.users@ == pre.users@
    &&& post.posts@ == pre.posts@
    &&& post.next_id == pre.next_id
    &&& post.comments@.len() == pre.comments@.len()
    &&& forall|x: int|
        0 <= x < pre.comments@.len() && x != i ==> post.comments@[x] == #[trigger] pre.comments@[x]
    &&& comment_reply_stepped(pre.comments@[i], post.comments@[i], ri, k, uid, dir)
}

// ---------------------------------------------------------------------------
// Outcome contracts: exactly when each result comes, and what it did.
// ---------------------------------------------------------------------------

/// The whole contract of a vote on a post: success exactly when both ids are
/// well-formed, the post exists, and the counter move fits; the error kind
/// tells which of those failed; an error changes nothing.
pub open spec fn post_vote_outcome(
    pre: Store,
    post: Store,
    id: Seq<char>,
    uid: Seq<char>,
    k: VoteKind,
    dir: IncOrDec,
    r: Result<(), AppError>,
) -> bool {
    let ids_ok = is_object_id(id) && is_object_id(uid);
    let there = post_found(pre.posts@, id);
    &&& r is Ok <==> (ids_ok && there && votes_step_fits(post_votes_of(pre, id, k), dir))
    &&& (r is Ok ==> post_vote_applied(pre, post, id, k, uid, dir))
    &&& (r matches Err(_) ==> post == pre)
    &&& (r matches Err(e) ==> (e.error_type == AppErrorType::InavlidId <==> !ids_ok))
    &&& (r matches Err(e) ==> (ids_ok ==> (e.error_type == AppErrorType::NotFoundError <==> !there)))
    &&& (r matches Err(e) ==> (ids_ok && there ==> e.error_type == AppErrorType::DatabaseError))
}

pub open spec fn comment_like_outcome(
    pre: Store,
    post: Store,
    id: Seq<char>,
    uid: Seq<char>,
    k: LikeKind,
    dir: IncOrDec,
    r: Result<(), AppError>,
) -> bool {
    let ids_ok = is_object_id(id) && is_object_id(uid);
    let there = comment_found(pre.comments@, id);
    &&& r is Ok <==> (ids_ok && there && votes_step_fits(comment_votes_of(pre, id, k), dir))
    &&& (r is Ok ==> comment_like_applied(pre, post, id, k, uid, dir))
    &&& (r matches Err(_) ==> post == pre)
    &&& (r matches Err(e) ==> (e.error_type == AppErrorType::InavlidId <==> !ids_ok))
    &&& (r matches Err(e) ==> (ids_ok ==> (e.error_type == AppErrorType::NotFoundError <==> !there)))
    &&& (r matches Err(e) ==> (ids_ok && there ==> e.error_type == AppErrorType::DatabaseError))
}

pub open spec fn reply_like_outcome(
    pre: Store,
    post: Store,
    cid: Seq<char>,
    rid: Seq<char>,
    uid: Seq<char>,
    k: LikeKind,
    dir: IncOrDec,
    r: Result<(), AppError>,
) -> bool {
    let ids_ok = is_object_id(cid) && is_object_id(rid) && is_object_id(uid);
    let there = comment_found(pre.comments@, cid) && reply_found(
        pre.comments@[first_comment_ix(pre.comments@, cid)].replies@,
        rid,
    );
    &&& r is Ok <==> (ids_ok && there && votes_step_fits(reply_votes_of(pre, cid, rid, k), dir))
    &&& (r is Ok ==> reply_like_applied(pre, post, cid, rid, k, uid, dir))
    &&& (r matches Err(_) ==> post == pre)
    &&& (r matches Err(e) ==> (e.error_type == AppErrorType::InavlidId <==> !ids_ok))
    &&& (r matches Err(e) ==> (ids_ok ==> (e.error_type == AppErrorType::NotFoundError <==> !there)))
    &&& (r matches Err(e) ==> (ids_ok && there ==> e.error_type == AppErrorType::DatabaseError))
}

impl crate::models::PostBlog {
    /// Set the title and content of the first post carrying `blog_id`.
    /// Patching an absent post is a no-op, as the single-document update
    /// reports.
    pub fn patch_posts(&self, store: &mut Store, blog_id: &str) -> (r: Result<(), AppError>)
        ensures
            r is Ok <==> is_object_id(blog_id@),
            r matches Err(e) ==> e.error_type == AppErrorType::InavlidId && *final(store) == *old(store),
            r is Ok ==> {
                let i = first_post_ix(old(store).posts@, blog_id@);
                &&& final(store).users@ == old(store).users@
                &&& final(store).comments@ == old(store).comments@
                &&& final(store).next_id == old(store).next_id
                &&& final(store).posts@.len() == old(store).posts@.len()
                &&& if post_found(old(store).posts@, blog_id@) {
                    &&& forall|x: int|
                        0 <= x < old(store).posts@.len() && x != i ==> final(store).posts@[x]
                            == #[trigger] old(store).posts@[x]
                    &&& final(store).posts@[i].title == self.title
                    &&& final(store).posts@[i].content == self.content
                    &&& final(store).posts@[i].id == old(store).posts@[i].id
                    &&& final(store).posts@[i].user_id == old(store).posts@[i].user_id
                    &&& final(store).posts@[i].username == old(store).posts@[i].username
                    &&& final(store).posts@[i].created_at == old(store).posts@[i].created_at
                    &&& final(store).posts@[i].upvotes == old(store).posts@[i].upvotes
                    &&& final(store).posts@[i].downvotes == old(store).posts@[i].downvotes
                } else {
                    final(store).posts@ == old(store).posts@
                }
            },
    {
        check_object_id(blog_id)?;
        match find_post_index(&store.posts, blog_id) {
            Some(i) => {
                proof {
                    lemma_first_post_unique(store.posts@, blog_id@, i as int);
                }
                let p = &mut store.posts[i];
                p.title = self.title.clone();
                p.content = self.content.clone();
                Ok(())
            },
            None => Ok(()),
        }
    }
}

impl crate::models::PostComment {
    /// Set the content of the first comment carrying `comment_id`. Patching
    /// an absent comment is a no-op.
    pub fn patch_comments(&self, store: &mut Store, comment_id: &str) -> (r: Result<(), AppError>)
        ensures
            r is Ok <==> is_object_id(comment_id@),
            r matches Err(e) ==> e.error_type == AppErrorType::InavlidId && *final(store) == *old(store),
            r is Ok ==> {
                let i = first_comment_ix(old(store).comments@, comment_id@);
                &&& final(store).users@ == old(store).users@
                &&& final(store).posts@ == old(store).posts@
                &&& final(store).next_id == old(store).next_id
                &&& final(store).comments@.len() == old(store).comments@.len()
                &&& if comment_found(old(store).comments@, comment_id@) {
                    &&& forall|x: int|
                        0 <= x < old(store).comments@.len() && x != i ==> final(store).comments@[x]
                            == #[trigger] old(store).comments@[x]
                    &&& final(store).comments@[i].content == self.content
                    &&& final(store).comments@[i].id == old(store).comments@[i].id
                    &&& final(store).comments@[i].user_id == old(store).comments@[i].user_id
                    &&& final(store).comments@[i].username == old(store).comments@[i].username
                    &&& final(store).comments@[i].blog_id == old(store).comments@[i].blog_id
                    &&& final(store).comments@[i].created_at == old(store).comments@[i].created_at
                    &&& final(store).comments@[i].replies == old(store).comments@[i].replies
                    &&& final(store).comments@[i].likes == old(store).comments@[i].likes
                    &&& final(store).comments@[i].dislikes == old(store).comments@[i].dislikes
                } else {
                    final(store).comments@ == old(store).comments@
                }
            },
    {
        check_object_id(comment_id)?;
        match find_comment_index(&store.comments, comment_id) {
            Some(i) => {
                proof {
                    lemma_first_comment_unique(store.comments@, comment_id@, i as int);
                }
                let c = &mut store.comments[i];
                c.content = self.content.clone();
                Ok(())
            },
            None => Ok(()),
        }
    }
}

impl crate::models::PostReply {
    /// Set the content of the first reply carrying `reply_id` inside the
    /// first comment carrying `comment_id`. Patching an absent comment or
    /// reply is a no-op.
    pub fn patch_replies(&self, store: &mut Store, comment_id: &str, reply_id: &str) -> (r: Result<
        (),
        AppError,
    >)
        ensures
            r is Ok <==> is_object_id(comment_id@) && is_object_id(reply_id@),
            r matches Err(e) ==> e.error_type == AppErrorType::InavlidId && *final(store) == *old(store),
            r is Ok ==> {
                let ci = first_comment_ix(old(store).comments@, comment_id@);
                let ri = first_reply_ix(old(store).comments@[ci].replies@, reply_id@);
                &&& final(store).users@ == old(store).users@
                &&& final(store).posts@ == old(store).posts@
                &&& final(store).next_id == old(store).next_id
                &&& if comment_found(old(store).comments@, comment_id@) && reply_found(
                    old(store).comments@[ci].replies@,
                    reply_id@,
                ) {
                    &&& final(store).comments@.len() == old(store).comments@.len()
                    &&& forall|x: int|
                        0 <= x < old(store).comments@.len() && x != ci ==> final(store).comments@[x] == #[trigger] old(store).comments@[x]
                    &&& final(store).comments@[ci].id == old(store).comments@[ci].id
                    &&& final(store).comments@[ci].user_id == old(store).comments@[ci].user_id
                    &&& final(store).comments@[ci].username == old(store).comments@[ci].username
                    &&& final(store).comments@[ci].content == old(store).comments@[ci].content
                    &&& final(store).comments@[ci].blog_id == old(store).comments@[ci].blog_id
                    &&& final(store).comments@[ci].created_at == old(store).comments@[ci].created_at
                    &&& final(store).comments@[ci].likes == old(store).comments@[ci].likes
                    &&& final(store).comments@[ci].dislikes == old(store).comments@[ci].dislikes
                    &&& final(store).comments@[ci].replies@.len() == old(store).comments@[ci].replies@.len()
                    &&& forall|x: int|
                        0 <= x < old(store).comments@[ci].replies@.len() && x != ri ==> final(store).comments@[ci].replies@[x] == #[trigger] old(store).comments@[ci].replies@[x]
                    &&& final(store).comments@[ci].replies@[ri].content == self.content
                    &&& final(store).comments@[ci].replies@[ri].id == old(store).comments@[ci].replies@[ri].id
                    &&& final(store).comments@[ci].replies@[ri].user_id == old(store).comments@[ci].replies@[ri].user_id
                    &&& final(store).comments@[ci].replies@[ri].username == old(store).comments@[ci].replies@[ri].username
                    &&& final(store).comments@[ci].replies@[ri].created_at == old(store).comments@[ci].replies@[ri].created_at
                    &&& final(store).comments@[ci].replies@[ri].likes == old(store).comments@[ci].replies@[ri].likes
                    &&& final(store).comments@[ci].replies@[ri].dislikes == old(store).comments@[ci].replies@[ri].dislikes
                } else {
                    final(store).comments@ == old(store).comments@
                }
            },
    {
        check_object_id(comment_id)?;
        check_object_id(reply_id)?;
        let ci = match find_comment_index(&store.comments, comment_id) {
            Some(i) => i,
            None => {
                return Ok(());
            },
        };
        proof {
            lemma_first_comment_unique(store.comments@, comment_id@, ci as int);
        }
        let ri = match find_reply_index(&store.comments[ci].replies, reply_id) {
            Some(j) => j,
            None => {
                return Ok(());
            },
        };
        proof {
            lemma_first_reply_unique(store.comments@[ci as int].replies@, reply_id@, ri as int);
        }
        let c = &mut store.comments[ci];
        let rep = &mut c.replies[ri];
        rep.content = self.content.clone();
        Ok(())
    }
}

fn vote_fits(v: &Votes, patch_type: IncOrDec) -> (b: bool)
    ensures
        b == votes_step_fits(*v, patch_type),
{
    match patch_type {
        IncOrDec::INC => v.count < i32::MAX,
        IncOrDec::DEC => v.count > i32::MIN,
    }
}

fn not_found(msg: &str) -> (e: AppError)
    ensures
        e.error_type == AppErrorType::NotFoundError,
{
    AppError {
        cause: None,
        message: Some(msg.to_owned()),
        error_type: AppErrorType::NotFoundError,
    }
}

fn counter_out_of_range() -> (e: AppError)
    ensures
        e.error_type == AppErrorType::DatabaseError,
{
    AppError {
        message: None,
        cause: Some("counter out of range".to_owned()),
        error_type: AppErrorType::DatabaseError,
    }
}

/// `q` is `p` with the store-minted id `id` filled in.
pub open spec fn same_post_but_id(p: BlogPost, q: BlogPost, id: Seq<char>) -> bool {
    &&& q.id matches Some(s) && s@ == id
    &&& q.title == p.title
    &&& q.content == p.content
    &&& q.user_id == p.user_id
    &&& q.username == p.username
    &&& q.created_at == p.created_at
    &&& q.upvotes == p.upvotes
    &&& q.downvotes == p.downvotes
}

/// A freshly stored comment built from the request body `data`.
pub open spec fn comment_fresh(
    c: Comments,
    data: crate::models::PostComment,
    now: i64,
    id: Seq<char>,
) -> bool {
    &&& c.id matches Some(s) && s@ == id
    &&& c.user_id@ == data.user_id@
    &&& c.username@ == data.username@
    &&& c.content@ == data.content@
    &&& c.blog_id@ == data.blog_id@
    &&& c.created_at == now
    &&& c.replies@ =~= Seq::<Replies>::empty()
    &&& c.likes.count == 0 && c.likes.user_ids() =~= Seq::<Seq<char>>::empty()
    &&& c.dislikes.count == 0 && c.dislikes.user_ids() =~= Seq::<Seq<char>>::empty()
}

/// A freshly appended reply built from the request body `data`.
pub open spec fn reply_fresh(
    rep: Replies,
    data: crate::models::PostReply,
    now: i64,
    id: Seq<char>,
) -> bool {
    &&& rep.id@ == id
    &&& rep.user_id@ == data.user_id@
    &&& rep.username@ == data.username@
    &&& rep.content@ == data.content@
    &&& rep.created_at == now
    &&& rep.likes.count == 0 && rep.likes.user_ids() =~= Seq::<Seq<char>>::empty()
    &&& rep.dislikes.count == 0 && rep.dislikes.user_ids() =~= Seq::<Seq<char>>::empty()
}

/// `n` is `o` with one fresh reply appended and nothing else changed.
pub open spec fn comment_with_reply_appended(
    o: Comments,
    n: Comments,
    data: crate::models::PostReply,
    now: i64,
    id: Seq<char>,
) -> bool {
    &&& n.id == o.id
    &&& n.user_id == o.user_id
    &&& n.username == o.username
    &&& n.content == o.content
    &&& n.blog_id == o.blog_id
    &&& n.created_at == o.created_at
    &&& n.likes == o.likes
    &&& n.dislikes == o.dislikes
    &&& n.replies@.len() == o.replies@.len() + 1
    &&& forall|x: int| 0 <= x < o.replies@.len() ==> n.replies@[x] == #[trigger] o.replies@[x]
    &&& reply_fresh(n.replies@.last(), data, now, id)
}

/// The posts a sequence of references points at.
pub open spec fn post_values(s: Seq<&BlogPost>) -> Seq<BlogPost> {
    s.map_values(|p: &BlogPost| *p)
}

/// Ordered by upvote counter, highest first.
pub open spec fn sorted_by_upvotes_desc(s: Seq<&BlogPost>) -> bool {
    forall|a: int, b: int|
        0 <= a < b < s.len() ==> (#[trigger] s[a]).upvotes.count >= (#[trigger] s[b]).upvotes.count
}

/// Authorship filter for listing a user's posts.
pub open spec fn by_author(uid: Seq<char>) -> spec_fn(BlogPost) -> bool {
    |p: BlogPost| p.user_id@ == uid
}

/// Parent-post filter for listing a post's comments.
pub open spec fn by_blog(bid: Seq<char>) -> spec_fn(Comments) -> bool {
    |c: Comments| c.blog_id@ == bid
}

/// First post matching both the post id and the owner, as the owner-guarded
/// delete filter does.
pub open spec fn post_owned_by(p: BlogPost, id: Seq<char>, uid: Seq<char>) -> bool {
    post_has_id(p, id) && p.user_id@ == uid
}

pub open spec fn is_first_owned_post(s: Seq<BlogPost>, id: Seq<char>, uid: Seq<char>, i: int) -> bool {
    &&& 0 <= i < s.len()
    &&& post_owned_by(s[i], id, uid)
    &&& forall|k: int| 0 <= k < i ==> !post_owned_by(#[trigger] s[k], id, uid)
}

pub open spec fn owned_post_found(s: Seq<BlogPost>, id: Seq<char>, uid: Seq<char>) -> bool {
    exists|i: int| is_first_owned_post(s, id, uid, i)
}

pub open spec fn first_owned_post_ix(s: Seq<BlogPost>, id: Seq<char>, uid: Seq<char>) -> int {
    choose|i: int| is_first_owned_post(s, id, uid, i)
}

pub proof fn lemma_first_owned_post_unique(s: Seq<BlogPost>, id: Seq<char>, uid: Seq<char>, i: int)
    requires
        is_first_owned_post(s, id, uid, i),
    ensures
        first_owned_post_ix(s, id, uid) == i,
{
    let j = first_owned_post_ix(s, id, uid);
    assert(is_first_owned_post(s, id, uid, j));
}

fn find_owned_post_index(posts: &Vec<BlogPost>, id: &str, uid: &str) -> (r: Option<usize>)
    ensures
        r matches Some(i) ==> is_first_owned_post(posts@, id@, uid@, i as int),
        r is None ==> !owned_post_found(posts@, id@, uid@),
{
    let mut i: usize = 0;
    while i < posts.len()
        invariant
            i <= posts.len(),
            forall|k: int| 0 <= k < i ==> !post_owned_by(#[trigger] posts@[k], id@, uid@),
        decreases posts.len() - i,
    {
        if opt_id_matches(&posts[i].id, id) && crate::gate::str_eq_check(
            posts[i].user_id.as_str(),
            uid,
        ) {
            return Some(i);
        }
        i = i + 1;
    }
    proof {
        assert forall|j: int| !is_first_owned_post(posts@, id@, uid@, j) by {
            if 0 <= j < posts@.len() {
                assert(!post_owned_by(posts@[j], id@, uid@));
            }
        }
    }
    None
}

/// Removal of every reply carrying `rid`, keeping the order of the rest:
/// what the store's pull operator does to a comment's reply array.
pub open spec fn remove_replies_with(rs: Seq<Replies>, rid: Seq<char>) -> Seq<Replies>
    decreases rs.len(),
{
    if rs.len() == 0 {
        Seq::empty()
    } else {
        let rest = remove_replies_with(rs.drop_last(), rid);
        if rs.last().id@ == rid {
            rest
        } else {
            rest.push(rs.last())
        }
    }
}

/// `n` is `o` with every reply carrying `rid` pulled out and nothing else
/// changed.
pub open spec fn comment_with_replies_pulled(o: Comments, n: Comments, rid: Seq<char>) -> bool {
    &&& n.id == o.id
    &&& n.user_id == o.user_id
    &&& n.username == o.username
    &&& n.content == o.content
    &&& n.blog_id == o.blog_id
    &&& n.created_at == o.created_at
    &&& n.likes == o.likes
    &&& n.dislikes == o.dislikes
    &&& n.replies@ == remove_replies_with(o.replies@, rid)
}

impl Store {
    /// An empty store.
    pub fn new() -> (s: Store)
        ensures
            s.users@ =~= Seq::<crate::models::User>::empty(),
            s.posts@ =~= Seq::<BlogPost>::empty(),
            s.comments@ =~= Seq::<Comments>::empty(),
            s.next_id == 0,
    {
        Store { users: Vec::new(), posts: Vec::new(), comments: Vec::new(), next_id: 0 }
    }

    /// The reaction ledger: resolve the target, then apply one atomic step —
    /// set mutation and counter move together — to the one addressed
    /// reaction set. A malformed id is rejected before any store access; a
    /// target that does not exist is reported as not found (this store
    /// surfaces the distinction that the single-document update call folds
    /// into "zero documents matched").
    pub fn apply_reaction(
        &mut self,
        target: &ReactionTarget,
        user_id: &str,
        patch_type: IncOrDec,
    ) -> (r: Result<(), AppError>)
        ensures
            match *target {
                ReactionTarget::Post(id, k) => post_vote_outcome(
                    *old(self),
                    *final(self),
                    id@,
                    user_id@,
                    k,
                    patch_type,
                    r,
                ),
                ReactionTarget::Comment(id, k) => comment_like_outcome(
                    *old(self),
                    *final(self),
                    id@,
                    user_id@,
                    k,
                    patch_type,
                    r,
                ),
                ReactionTarget::Reply(cid, rid, k) => reply_like_outcome(
                    *old(self),
                    *final(self),
                    cid@,
                    rid@,
                    user_id@,
                    k,
                    patch_type,
                    r,
                ),
            },
    {
        match target {
            ReactionTarget::Post(id, kind) => {
                check_object_id(id.as_str())?;
                check_object_id(user_id)?;
                let ci = match find_post_index(&self.posts, id.as_str()) {
                    Some(i) => i,
                    None => {
                        return Err(not_found("No Post Found"));
                    },
                };
                proof {
                    lemma_first_post_unique(self.posts@, id@, ci as int);
                }
                let fits = match kind {
                    VoteKind::Upvote => vote_fits(&self.posts[ci].upvotes, patch_type),
                    VoteKind::Downvote => vote_fits(&self.posts[ci].downvotes, patch_type),
                };
                if !fits {
                    return Err(counter_out_of_range());
                }
                let p = &mut self.posts[ci];
                let _applied = match kind {
                    VoteKind::Upvote => p.upvotes.apply(user_id, patch_type),
                    VoteKind::Downvote => p.downvotes.apply(user_id, patch_type),
                };
                Ok(())
            },
            ReactionTarget::Comment(id, kind) => {
                check_object_id(id.as_str())?;
                check_object_id(user_id)?;
                let ci = match find_comment_index(&self.comments, id.as_str()) {
                    Some(i) => i,
                    None => {
                        return Err(not_found("No Comment Found"));
                    },
                };
                proof {
                    lemma_first_comment_unique(self.comments@, id@, ci as int);
                }
                let fits = match kind {
                    LikeKind::Like => vote_fits(&self.comments[ci].likes, patch_type),
                    LikeKind::Dislike => vote_fits(&self.comments[ci].dislikes, patch_type),
                };
                if !fits {
                    return Err(counter_out_of_range());
                }
                let c = &mut self.comments[ci];
                let _applied = match kind {
                    LikeKind::Like => c.likes.apply(user_id, patch_type),
                    LikeKind::Dislike => c.dislikes.apply(user_id, patch_type),
                };
                Ok(())
            },
            ReactionTarget::Reply(cid, rid, kind) => {
                check_object_id(cid.as_str())?;
                check_object_id(rid.as_str())?;
                check_object_id(user_id)?;
                let ci = match find_comment_index(&self.comments, cid.as_str()) {
                    Some(i) => i,
                    None => {
                        return Err(not_found("No Comment Found"));
                    },
                };
                proof {
                    lemma_first_comment_unique(self.comments@, cid@, ci as int);
                }
                let ri = match find_reply_index(&self.comments[ci].replies, rid.as_str()) {
                    Some(j) => j,
                    None => {
                        return Err(not_found("No Reply Found"));
                    },
                };
                proof {
                    lemma_first_reply_unique(self.comments@[ci as int].replies@, rid@, ri as int);
                }
                let fits = match kind {
                    LikeKind::Like => vote_fits(&self.comments[ci].replies[ri].likes, patch_type),
                    LikeKind::Dislike => vote_fits(
                        &self.comments[ci].replies[ri].dislikes,
                        patch_type,
                    ),
                };
                if !fits {
                    return Err(counter_out_of_range());
                }
                let c = &mut self.comments[ci];
                let rep = &mut c.replies[ri];
                let _applied = match kind {
                    LikeKind::Like => rep.likes.apply(user_id, patch_type),
                    LikeKind::Dislike => rep.dislikes.apply(user_id, patch_type),
                };
                Ok(())
            },
        }
    }

    /// Toggle a user's upvote on a post.
    pub fn upvote(&mut self, blog_id: &str, user_id: &str, patch_type: IncOrDec) -> (r: Result<
        (),
        AppError,
    >)
        ensures
            post_vote_outcome(
                *old(self),
                *final(self),
                blog_id@,
                user_id@,
                VoteKind::Upvote,
                patch_type,
                r,
            ),
    {
        self.apply_reaction(
            &ReactionTarget::Post(blog_id.to_owned(), VoteKind::Upvote),
            user_id,
            patch_type,
        )
    }

    /// Toggle a user's downvote on a post.
    pub fn downvote(&mut self, blog_id: &str, user_id: &str, patch_type: IncOrDec) -> (r: Result<
        (),
        AppError,
    >)
        ensures
            post_vote_outcome(
                *old(self),
                *final(self),
                blog_id@,
                user_id@,
                VoteKind::Downvote,
                patch_type,
                r,
            ),
    {
        self.apply_reaction(
            &ReactionTarget::Post(blog_id.to_owned(), VoteKind::Downvote),
            user_id,
            patch_type,
        )
    }

    /// Toggle a user's like on a comment.
    pub fn like(&mut self, comment_id: &str, user_id: &str, patch_type: IncOrDec) -> (r: Result<
        (),
        AppError,
    >)
        ensures
            comment_like_outcome(
                *old(self),
                *final(self),
                comment_id@,
                user_id@,
                LikeKind::Like,
                patch_type,
                r,
            ),
    {
        self.apply_reaction(
            &ReactionTarget::Comment(comment_id.to_owned(), LikeKind::Like),
            user_id,
            patch_type,
        )
    }

    /// Toggle a user's dislike on a comment.
    pub fn dislike(&mut self, comment_id: &str, user_id: &str, patch_type: IncOrDec) -> (r: Result<
        (),
        AppError,
    >)
        ensures
            comment_like_outcome(
                *old(self),
                *final(self),
                comment_id@,
                user_id@,
                LikeKind::Dislike,
                patch_type,
                r,
            ),
    {
        self.apply_reaction(
            &ReactionTarget::Comment(comment_id.to_owned(), LikeKind::Dislike),
            user_id,
            patch_type,
        )
    }

    /// Toggle a user's like on the reply `reply_id` nested inside the
    /// comment `comment_id`.
    pub fn likes(
        &mut self,
        user_id: &str,
        comment_id: &str,
        reply_id: &str,
        patch_type: IncOrDec,
    ) -> (r: Result<(), AppError>)
        ensures
            reply_like_outcome(
                *old(self),
                *final(self),
                comment_id@,
                reply_id@,
                user_id@,
                LikeKind::Like,
                patch_type,
                r,
            ),
    {
        self.apply_reaction(
            &ReactionTarget::Reply(comment_id.to_owned(), reply_id.to_owned(), LikeKind::Like),
            user_id,
            patch_type,
        )
    }

    /// Mint the next document id.
    pub(crate) fn mint_id(&mut self) -> (id: String)
        requires
            old(self).next_id < u64::MAX,
        ensures
            id@ == crate::ids::minted_id(old(self).next_id),
            is_object_id(id@),
            final(self).next_id == old(self).next_id + 1,
            final(self).users == old(self).users,
            final(self).posts == old(self).posts,
            final(self).comments == old(self).comments,
    {
        let id = crate::ids::mint_object_id(self.next_id);
        self.next_id = self.next_id + 1;
        id
    }

    /// Insert a new post: the store fills in a fresh id and appends it.
    pub fn save_post(&mut self, post: BlogPost) -> (r: Result<(), AppError>)
        requires
            old(self).next_id < u64::MAX,
        ensures
            r is Ok,
            final(self).users@ == old(self).users@,
            final(self).comments@ == old(self).comments@,
            final(self).next_id == old(self).next_id + 1,
            final(self).posts@.len() == old(self).posts@.len() + 1,
            forall|x: int|
                0 <= x < old(self).posts@.len() ==> final(self).posts@[x] == #[trigger] old(
                    self,
                ).posts@[x],
            same_post_but_id(
                post,
                final(self).posts@.last(),
                crate::ids::minted_id(old(self).next_id),
            ),
    {
        let id = self.mint_id();
        self.posts.push(BlogPost { id: Some(id), ..post });
        Ok(())
    }

    /// Insert a new comment built from a request body; returns the minted id.
    pub fn save_comment(&mut self, data: &crate::models::PostComment, now: i64) -> (r: Result<
        String,
        AppError,
    >)
        requires
            old(self).next_id < u64::MAX,
        ensures
            r is Ok <==> is_object_id(data.user_id@) && is_object_id(data.blog_id@),
            r matches Err(e) ==> e.error_type == AppErrorType::InavlidId && *final(self) == *old(
                self,
            ),
            r matches Ok(id) ==> {
                &&& id@ == crate::ids::minted_id(old(self).next_id)
                &&& final(self).users@ == old(self).users@
                &&& final(self).posts@ == old(self).posts@
                &&& final(self).next_id == old(self).next_id + 1
                &&& final(self).comments@.len() == old(self).comments@.len() + 1
                &&& forall|x: int|
                    0 <= x < old(self).comments@.len() ==> final(self).comments@[x] == #[trigger] old(
                        self,
                    ).comments@[x]
                &&& comment_fresh(
                    final(self).comments@.last(),
                    *data,
                    now,
                    crate::ids::minted_id(old(self).next_id),
                )
            },
    {
        let comment = Comments::new(
            data.user_id.as_str(),
            data.username.as_str(),
            data.content.as_str(),
            data.blog_id.as_str(),
            now,
        )?;
        let id = self.mint_id();
        let out = id.clone();
        self.comments.push(Comments { id: Some(id), ..comment });
        Ok(out)
    }

    /// Append a new reply to the comment `comment_id`; returns the minted
    /// reply id.
    pub fn save_reply(&mut self, comment_id: &str, data: &crate::models::PostReply, now: i64) -> (r:
        Result<String, AppError>)
        requires
            old(self).next_id < u64::MAX,
        ensures
            r is Ok <==> is_object_id(comment_id@) && comment_found(
                old(self).comments@,
                comment_id@,
            ) && is_object_id(data.user_id@),
            r matches Err(_) ==> *final(self) == *old(self),
            r matches Err(e) ==> (e.error_type == AppErrorType::InavlidId <==> !is_object_id(
                comment_id@,
            ) || (comment_found(old(self).comments@, comment_id@) && !is_object_id(data.user_id@))),
            r matches Err(e) ==> (is_object_id(comment_id@) ==> (e.error_type
                == AppErrorType::NotFoundError <==> !comment_found(
                old(self).comments@,
                comment_id@,
            ))),
            r matches Ok(id) ==> {
                let ci = first_comment_ix(old(self).comments@, comment_id@);
                &&& id@ == crate::ids::minted_id(old(self).next_id)
                &&& final(self).users@ == old(self).users@
                &&& final(self).posts@ == old(self).posts@
                &&& final(self).next_id == old(self).next_id + 1
                &&& final(self).comments@.len() == old(self).comments@.len()
                &&& forall|x: int|
                    0 <= x < old(self).comments@.len() && x != ci ==> final(self).comments@[x]
                        == #[trigger] old(self).comments@[x]
                &&& comment_with_reply_appended(
                    old(self).comments@[ci],
                    final(self).comments@[ci],
                    *data,
                    now,
                    crate::ids::minted_id(old(self).next_id),
                )
            },
    {
        check_object_id(comment_id)?;
        let ci = match find_comment_index(&self.comments, comment_id) {
            Some(i) => i,
            None => {
                return Err(not_found("Comment Not Found"));
            },
        };
        proof {
            lemma_first_comment_unique(self.comments@, comment_id@, ci as int);
        }
        check_object_id(data.user_id.as_str())?;
        let id = self.mint_id();
        let out = id.clone();
        let rep = match Replies::new(
            id,
            data.user_id.as_str(),
            data.username.as_str(),
            data.content.as_str(),
            now,
        ) {
            Ok(rep) => rep,
            Err(e) => {
                proof {
                    assert(false);
                }
                return Err(e);
            },
        };
        let c = &mut self.comments[ci];
        c.replies.push(rep);
        Ok(out)
    }

    /// Read the first post carrying `id`.
    pub fn get_post_by_id(&self, id: &str) -> (r: Result<&BlogPost, AppError>)
        ensures
            r is Ok <==> is_object_id(id@) && post_found(self.posts@, id@),
            r matches Ok(p) ==> *p == self.posts@[first_post_ix(self.posts@, id@)],
            r matches Err(e) ==> (e.error_type == AppErrorType::InavlidId <==> !is_object_id(id@)),
            r matches Err(e) ==> (is_object_id(id@) ==> e.error_type == AppErrorType::NotFoundError),
    {
        check_object_id(id)?;
        match find_post_index(&self.posts, id) {
            Some(i) => {
                proof {
                    lemma_first_post_unique(self.posts@, id@, i as int);
                }
                Ok(&self.posts[i])
            },
            None => Err(not_found("No Post Found")),
        }
    }

    /// Read the first comment carrying `id`.
    pub fn get_comments_by_id(&self, comment_id: &str) -> (r: Result<&Comments, AppError>)
        ensures
            r is Ok <==> is_object_id(comment_id@) && comment_found(self.comments@, comment_id@),
            r matches Ok(c) ==> *c == self.comments@[first_comment_ix(self.comments@, comment_id@)],
            r matches Err(e) ==> (e.error_type == AppErrorType::InavlidId <==> !is_object_id(
                comment_id@,
            )),
            r matches Err(e) ==> (is_object_id(comment_id@) ==> e.error_type
                == AppErrorType::NotFoundError),
    {
        check_object_id(comment_id)?;
        match find_comment_index(&self.comments, comment_id) {
            Some(i) => {
                proof {
                    lemma_first_comment_unique(self.comments@, comment_id@, i as int);
                }
                Ok(&self.comments[i])
            },
            None => Err(not_found("Comment Not Found")),
        }
    }

    /// The public listing: every post, ordered by upvote counter, highest
    /// first.
    pub fn get_all_posts(&self) -> (r: Vec<&BlogPost>)
        ensures
            post_values(r@).to_multiset() == self.posts@.to_multiset(),
            sorted_by_upvotes_desc(r@),
    {
        broadcast use vstd::seq_lib::group_seq_properties;

        let mut working: Vec<&BlogPost> = Vec::new();
        let mut i: usize = 0;
        while i < self.posts.len()
            invariant
                i <= self.posts.len(),
                post_values(working@) == self.posts@.take(i as int),
            decreases self.posts.len() - i,
        {
            working.push(&self.posts[i]);
            proof {
                assert(post_values(working@) =~= self.posts@.take(i as int).push(
                    self.posts@[i as int],
                ));
                assert(self.posts@.take(i + 1 as int) =~= self.posts@.take(i as int).push(
                    self.posts@[i as int],
                ));
            }
            i = i + 1;
        }
        proof {
            assert(self.posts@.take(self.posts@.len() as int) =~= self.posts@);
            post_values(working@).to_multiset_ensures();
            assert(post_values(Seq::<&BlogPost>::empty()) =~= Seq::<BlogPost>::empty());
            assert(Seq::<BlogPost>::empty().to_multiset() =~= Multiset::<BlogPost>::empty());
        }
        let mut out: Vec<&BlogPost> = Vec::new();
        while working.len() > 0
            invariant
                post_values(out@).to_multiset().add(post_values(working@).to_multiset())
                    =~= self.posts@.to_multiset(),
                sorted_by_upvotes_desc(out@),
                forall|a: int, b: int|
                    0 <= a < out@.len() && 0 <= b < working@.len() ==> (
                    #[trigger] out@[a]).upvotes.count >= (#[trigger] working@[b]).upvotes.count,
            decreases working.len(),
        {
            let mut mi: usize = 0;
            let mut j: usize = 1;
            while j < working.len()
                invariant
                    working@.len() > 0,
                    mi < j <= working@.len(),
                    forall|k: int|
                        0 <= k < j ==> working@[mi as int].upvotes.count >= (
                        #[trigger] working@[k]).upvotes.count,
                decreases working.len() - j,
            {
                if working[j].upvotes.count > working[mi].upvotes.count {
                    mi = j;
                }
                j = j + 1;
            }
            let ghost w0 = working@;
            let ghost out0 = out@;
            let chosen = working.remove(mi);
            out.push(chosen);
            proof {
                broadcast use vstd::multiset::group_multiset_axioms;

                post_values(w0).to_multiset_ensures();
                assert(post_values(w0)[mi as int] == *chosen);
                assert(post_values(working@) =~= post_values(w0).remove(mi as int));
                assert(post_values(working@).to_multiset() == post_values(w0).to_multiset().remove(
                    *chosen,
                )) by {
                    assert(post_values(w0).remove(mi as int).to_multiset() =~= post_values(
                        w0,
                    ).to_multiset().remove(post_values(w0)[mi as int]));
                }
                post_values(out0).to_multiset_ensures();
                assert(post_values(out@) =~= post_values(out0).push(*chosen));
                assert(post_values(out@).to_multiset() =~= post_values(out0).to_multiset().insert(
                    *chosen,
                ));
                let xm = post_values(out0).to_multiset();
                let ym = post_values(w0).to_multiset();
                assert(ym.count(*chosen) > 0) by {
                    assert(post_values(w0).contains(post_values(w0)[mi as int]));
                }
                assert(xm.insert(*chosen).add(ym.remove(*chosen)) =~= xm.add(ym));
                assert(post_values(out@).to_multiset().add(post_values(working@).to_multiset())
                    =~= self.posts@.to_multiset());
            }
        }
        proof {
            assert(post_values(working@) =~= Seq::<BlogPost>::empty());
            assert(post_values(working@).to_multiset() =~= Multiset::<BlogPost>::empty());
            assert(post_values(out@).to_multiset().add(Multiset::<BlogPost>::empty())
                =~= post_values(out@).to_multiset());
        }
        out
    }

    /// All posts authored by `user_id`, in store order.
    pub fn get_posts_by_uid(&self, user_id: &str) -> (r: Vec<&BlogPost>)
        ensures
            r@.map_values(|p: &BlogPost| *p) == self.posts@.filter(by_author(user_id@)),
    {
        let mut out: Vec<&BlogPost> = Vec::new();
        let mut i: usize = 0;
        while i < self.posts.len()
            invariant
                i <= self.posts.len(),
                out@.map_values(|p: &BlogPost| *p) == self.posts@.take(i as int).filter(
                    by_author(user_id@),
                ),
            decreases self.posts.len() - i,
        {
            let ghost prefix = self.posts@.take(i as int);
            let keep = crate::gate::str_eq_check(self.posts[i].user_id.as_str(), user_id);
            if keep {
                out.push(&self.posts[i]);
            }
            proof {
                let next = self.posts@.take(i + 1 as int);
                assert(next.drop_last() =~= prefix);
                assert(next.last() == self.posts@[i as int]);
                reveal(Seq::filter);
                if keep {
                    assert(out@.map_values(|p: &BlogPost| *p) =~= prefix.filter(
                        by_author(user_id@),
                    ).push(self.posts@[i as int]));
                }
            }
            i = i + 1;
        }
        proof {
            assert(self.posts@.take(self.posts@.len() as int) =~= self.posts@);
        }
        out
    }

    /// All comments under the post `blog_id`, in store order.
    pub fn get_comments_by_post(&self, blog_id: &str) -> (r: Result<Vec<&Comments>, AppError>)
        ensures
            r is Ok <==> is_object_id(blog_id@),
            r matches Err(e) ==> e.error_type == AppErrorType::InavlidId,
            r matches Ok(v) ==> v@.map_values(|c: &Comments| *c) == self.comments@.filter(
                by_blog(blog_id@),
            ),
    {
        check_object_id(blog_id)?;
        let mut out: Vec<&Comments> = Vec::new();
        let mut i: usize = 0;
        while i < self.comments.len()
            invariant
                i <= self.comments.len(),
                out@.map_values(|c: &Comments| *c) == self.comments@.take(i as int).filter(
                    by_blog(blog_id@),
                ),
            decreases self.comments.len() - i,
        {
            let ghost prefix = self.comments@.take(i as int);
            let keep = crate::gate::str_eq_check(self.comments[i].blog_id.as_str(), blog_id);
            if keep {
                out.push(&self.comments[i]);
            }
            proof {
                let next = self.comments@.take(i + 1 as int);
                assert(next.drop_last() =~= prefix);
                assert(next.last() == self.comments@[i as int]);
                reveal(Seq::filter);
                if keep {
                    assert(out@.map_values(|c: &Comments| *c) =~= prefix.filter(
                        by_blog(blog_id@),
                    ).push(self.comments@[i as int]));
                }
            }
            i = i + 1;
        }
        proof {
            assert(self.comments@.take(self.comments@.len() as int) =~= self.comments@);
        }
        Ok(out)
    }

    /// Delete the first post matching both `blog_id` and its owner
    /// `user_id`. Nothing else — in particular no comment — is touched, and
    /// deleting a post that is absent (or owned by someone else) is a no-op.
    pub fn delete_blog(&mut self, blog_id: &str, user_id: &str) -> (r: Result<(), AppError>)
        ensures
            r is Ok <==> is_object_id(blog_id@),
            r matches Err(e) ==> e.error_type == AppErrorType::InavlidId && *final(self) == *old(
                self,
            ),
            r is Ok ==> {
                &&& final(self).users@ == old(self).users@
                &&& final(self).comments@ == old(self).comments@
                &&& final(self).next_id == old(self).next_id
                &&& if owned_post_found(old(self).posts@, blog_id@, user_id@) {
                    final(self).posts@ == old(self).posts@.remove(
                        first_owned_post_ix(old(self).posts@, blog_id@, user_id@),
                    )
                } else {
                    final(self).posts@ == old(self).posts@
                }
            },
    {
        check_object_id(blog_id)?;
        match find_owned_post_index(&self.posts, blog_id, user_id) {
            Some(i) => {
                proof {
                    lemma_first_owned_post_unique(self.posts@, blog_id@, user_id@, i as int);
                }
                let _ = self.posts.remove(i);
                Ok(())
            },
            None => Ok(()),
        }
    }

    /// Delete the first comment carrying `comment_id`. Its parent post is
    /// not touched: comment and post lifecycles are independent, and no
    /// delete cascades in either direction.
    pub fn delete(&mut self, comment_id: &str) -> (r: Result<(), AppError>)
        ensures
            r is Ok <==> is_object_id(comment_id@),
            r matches Err(e) ==> e.error_type == AppErrorType::InavlidId && *final(self) == *old(
                self,
            ),
            r is Ok ==> {
                &&& final(self).users@ == old(self).users@
                &&& final(self).posts@ == old(self).posts@
                &&& final(self).next_id == old(self).next_id
                &&& if comment_found(old(self).comments@, comment_id@) {
                    final(self).comments@ == old(self).comments@.remove(
                        first_comment_ix(old(self).comments@, comment_id@),
                    )
                } else {
                    final(self).comments@ == old(self).comments@
                }
            },
    {
        check_object_id(comment_id)?;
        match find_comment_index(&self.comments, comment_id) {
            Some(i) => {
                proof {
                    lemma_first_comment_unique(self.comments@, comment_id@, i as int);
                }
                let _ = self.comments.remove(i);
                Ok(())
            },
            None => Ok(()),
        }
    }

    /// Pull every reply carrying `reply_id` out of the first comment
    /// carrying `comment_id`. Other replies, the comment's own reaction
    /// sets, and every other document stay as they were.
    pub fn delete_reply(&mut self, comment_id: &str, reply_id: &str) -> (r: Result<(), AppError>)
        ensures
            r is Ok <==> is_object_id(comment_id@) && is_object_id(reply_id@),
            r matches Err(e) ==> e.error_type == AppErrorType::InavlidId && *final(self) == *old(
                self,
            ),
            r is Ok ==> {
                let ci = first_comment_ix(old(self).comments@, comment_id@);
                &&& final(self).users@ == old(self).users@
                &&& final(self).posts@ == old(self).posts@
                &&& final(self).next_id == old(self).next_id
                &&& final(self).comments@.len() == old(self).comments@.len()
                &&& if comment_found(old(self).comments@, comment_id@) {
                    forall|x: int|
                        0 <= x < old(self).comments@.len() && x != ci ==> final(self).comments@[x]
                            == #[trigger] old(self).comments@[x]
                } else {
                    final(self).comments@ == old(self).comments@
                }
                &&& comment_found(old(self).comments@, comment_id@)
                    ==> comment_with_replies_pulled(
                    old(self).comments@[ci],
                    final(self).comments@[ci],
                    reply_id@,
                )
            },
    {
        check_object_id(comment_id)?;
        check_object_id(reply_id)?;
        let ci = match find_comment_index(&self.comments, comment_id) {
            Some(i) => i,
            None => {
                return Ok(());
            },
        };
        proof {
            lemma_first_comment_unique(self.comments@, comment_id@, ci as int);
        }
        let c = &mut self.comments[ci];
        let ghost c0 = *c;
        let ghost orig = c.replies@;
        let mut i: usize = 0;
        let ghost mut j: int = 0;
        while i < c.replies.len()
            invariant
                0 <= j <= orig.len(),
                i as int == remove_replies_with(orig.take(j), reply_id@).len(),
                c.replies@ == remove_replies_with(orig.take(j), reply_id@) + orig.skip(j),
                c.id == c0.id,
                c.user_id == c0.user_id,
                c.username == c0.username,
                c.content == c0.content,
                c.blog_id == c0.blog_id,
                c.created_at == c0.created_at,
                c.likes == c0.likes,
                c.dislikes == c0.dislikes,
            decreases c.replies.len() - i,
        {
            let ghost kept = remove_replies_with(orig.take(j), reply_id@);
            proof {
                assert(c.replies@.len() == kept.len() + orig.len() - j);
                assert(orig.take(j + 1).drop_last() =~= orig.take(j));
                assert(orig.take(j + 1).last() == orig[j]);
                assert(c.replies@[i as int] == orig[j]);
            }
            if crate::gate::str_eq_check(c.replies[i].id.as_str(), reply_id) {
                let _ = c.replies.remove(i);
                proof {
                    assert(c.replies@ =~= kept + orig.skip(j + 1));
                    j = j + 1;
                }
            } else {
                i = i + 1;
                proof {
                    assert(c.replies@ =~= remove_replies_with(orig.take(j + 1), reply_id@)
                        + orig.skip(j + 1));
                    j = j + 1;
                }
            }
        }
        proof {
            assert(j == orig.len());
            assert(orig.take(orig.len() as int) =~= orig);
            assert(orig.skip(orig.len() as int) =~= Seq::<Replies>::empty());
            assert(c.replies@ =~= remove_replies_with(orig, reply_id@));
        }
        Ok(())
    }

    /// Toggle a user's dislike on the reply `reply_id` nested inside the
    /// comment `comment_id`.
    pub fn dislikes(
        &mut self,
        user_id: &str,
        comment_id: &str,
        reply_id: &str,
        patch_type: IncOrDec,
    ) -> (r: Result<(), AppError>)
        ensures
            reply_like_outcome(
                *old(self),
                *final(self),
                comment_id@,
                reply_id@,
                user_id@,
                LikeKind::Dislike,
                patch_type,
                r,
            ),
    {
        self.apply_reaction(
            &ReactionTarget::Reply(comment_id.to_owned(), reply_id.to_owned(), LikeKind::Dislike),
            user_id,
            patch_type,
        )
    }
}

} // verus!
