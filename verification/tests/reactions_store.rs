//! The reaction ledger and the store model: counter/set agreement, the
//! documented double-increase gap, nested-reply addressing, deletes, patches
//! and the sorted listing.

use blog_core::models::{BlogPost, Comments, PostBlog, PostComment, PostReply, Replies};
use blog_core::reactions::{IncOrDec, Votes};
use blog_core::store::Store;

const U1: &str = "aaaaaaaaaaaaaaaaaaaaaaaa";
const U2: &str = "bbbbbbbbbbbbbbbbbbbbbbbb";
const U3: &str = "cccccccccccccccccccccccc";
const ABSENT: &str = "ffffffffffffffffffffffff";

fn fresh_votes() -> Votes {
    Votes { users: vec![], count: 0 }
}

fn post(id: &str, user: &str, title: &str, up: i32) -> BlogPost {
    let mut upvotes = fresh_votes();
    upvotes.count = up;
    for k in 0..up {
        upvotes.users.push(format!("{:024}", k));
    }
    BlogPost {
        id: Some(id.to_string()),
        title: title.to_string(),
        content: "body".to_string(),
        user_id: user.to_string(),
        username: "author".to_string(),
        created_at: 1,
        upvotes,
        downvotes: fresh_votes(),
    }
}

fn reply(id: &str) -> Replies {
    Replies {
        id: id.to_string(),
        user_id: U1.to_string(),
        created_at: 1,
        username: "author".to_string(),
        content: "re".to_string(),
        likes: fresh_votes(),
        dislikes: fresh_votes(),
    }
}

fn comment(id: &str, blog_id: &str, replies: Vec<Replies>) -> Comments {
    Comments {
        id: Some(id.to_string()),
        user_id: U1.to_string(),
        username: "author".to_string(),
        content: "hi".to_string(),
        blog_id: blog_id.to_string(),
        created_at: 1,
        replies,
        likes: fresh_votes(),
        dislikes: fresh_votes(),
    }
}

const P1ID: &str = "111111111111111111111111";
const C1: &str = "222222222222222222222222";
const C2: &str = "333333333333333333333333";
const R7: &str = "777777777777777777777777";
const R2: &str = "444444444444444444444444";

fn sample_store() -> Store {
    let mut s = Store::new();
    s.posts.push(post(P1ID, U1, "first", 0));
    s.comments.push(comment(C1, P1ID, vec![reply(R2), reply(R7)]));
    s.comments.push(comment(C2, P1ID, vec![reply(R7)]));
    s
}

#[test]
fn counter_tracks_set_without_duplicate_increases() {
    let mut v = fresh_votes();
    v.apply(U1, IncOrDec::INC).unwrap();
    v.apply(U2, IncOrDec::INC).unwrap();
    v.apply(U1, IncOrDec::DEC).unwrap();
    v.apply(U3, IncOrDec::INC).unwrap();
    assert_eq!(v.count, 2);
    assert_eq!(v.users, vec![U2.to_string(), U3.to_string()]);
    assert_eq!(v.count as usize, v.users.len());
}

#[test]
fn double_increase_diverges_and_one_decrease_does_not_recover() {
    // The gap is preserved, not corrected: no membership check on increase,
    // and a decrease pulls every copy while moving the counter by one.
    let mut v = fresh_votes();
    v.apply(U1, IncOrDec::INC).unwrap();
    v.apply(U1, IncOrDec::INC).unwrap();
    assert_eq!(v.count, 2);
    assert_eq!(v.users, vec![U1.to_string(), U1.to_string()]);
    v.apply(U1, IncOrDec::DEC).unwrap();
    assert_eq!(v.count, 1);
    assert!(v.users.is_empty());
}

#[test]
fn decrease_without_membership_goes_negative() {
    let mut v = fresh_votes();
    v.apply(U1, IncOrDec::DEC).unwrap();
    assert_eq!(v.count, -1);
    assert!(v.users.is_empty());
}

#[test]
fn counter_at_bound_is_a_store_failure() {
    let mut v = Votes { users: vec![], count: i32::MAX };
    let e = v.apply(U1, IncOrDec::INC).unwrap_err();
    assert_eq!(e.status_code(), 500);
    assert_eq!(v.count, i32::MAX);
    assert!(v.users.is_empty());
}

#[test]
fn upvote_increments_only_the_addressed_post() {
    let mut s = sample_store();
    s.posts.push(post("555555555555555555555555", U2, "second", 0));
    s.upvote(P1ID, U2, IncOrDec::INC).unwrap();
    assert_eq!(s.posts[0].upvotes.count, 1);
    assert_eq!(s.posts[0].upvotes.users, vec![U2.to_string()]);
    assert_eq!(s.posts[0].downvotes.count, 0);
    assert_eq!(s.posts[1].upvotes.count, 0);
}

#[test]
fn reply_like_mutates_only_the_positional_match() {
    let mut s = sample_store();
    s.likes(U2, C1, R7, IncOrDec::INC).unwrap();
    // the addressed reply inside C1
    assert_eq!(s.comments[0].replies[1].likes.count, 1);
    assert_eq!(s.comments[0].replies[1].likes.users, vec![U2.to_string()]);
    // its sibling, the comment's own sets, the other comment (which has a
    // reply under the same reply id), and the post are untouched
    assert_eq!(s.comments[0].replies[0].likes.count, 0);
    assert_eq!(s.comments[0].likes.count, 0);
    assert_eq!(s.comments[0].dislikes.count, 0);
    assert_eq!(s.comments[1].replies[0].likes.count, 0);
    assert_eq!(s.posts[0].upvotes.count, 0);
}

#[test]
fn comment_like_and_dislike_address_their_own_sets() {
    let mut s = sample_store();
    s.like(C1, U2, IncOrDec::INC).unwrap();
    s.dislike(C1, U3, IncOrDec::INC).unwrap();
    assert_eq!(s.comments[0].likes.users, vec![U2.to_string()]);
    assert_eq!(s.comments[0].dislikes.users, vec![U3.to_string()]);
    s.like(C1, U2, IncOrDec::DEC).unwrap();
    assert_eq!(s.comments[0].likes.count, 0);
    assert!(s.comments[0].likes.users.is_empty());
    assert_eq!(s.comments[0].dislikes.count, 1);
}

#[test]
fn malformed_reaction_target_is_rejected_before_any_store_access() {
    let mut s = sample_store();
    let e = s.upvote("short", U1, IncOrDec::INC).unwrap_err();
    assert_eq!(e.status_code(), 404);
    let e = s.likes(U1, C1, "not-hex-and-not-24-chars", IncOrDec::INC).unwrap_err();
    assert_eq!(e.status_code(), 404);
    assert_eq!(s.posts[0].upvotes.count, 0);
}

#[test]
fn absent_reaction_target_is_not_found() {
    let mut s = sample_store();
    let e = s.upvote(ABSENT, U1, IncOrDec::INC).unwrap_err();
    assert_eq!(e.message(), "No Post Found");
    let e = s.like(ABSENT, U1, IncOrDec::INC).unwrap_err();
    assert_eq!(e.message(), "No Comment Found");
    let e = s.likes(U1, C1, ABSENT, IncOrDec::INC).unwrap_err();
    assert_eq!(e.message(), "No Reply Found");
}

#[test]
fn deleting_a_comment_keeps_its_parent_post() {
    let mut s = sample_store();
    s.delete(C1).unwrap();
    assert_eq!(s.comments.len(), 1);
    assert_eq!(s.comments[0].id.as_deref(), Some(C2));
    assert_eq!(s.posts.len(), 1);
}

#[test]
fn deleting_a_post_does_not_cascade_to_its_comments() {
    let mut s = sample_store();
    s.delete_blog(P1ID, U1).unwrap();
    assert!(s.posts.is_empty());
    assert_eq!(s.comments.len(), 2);
}

#[test]
fn delete_blog_requires_the_owner_to_match() {
    let mut s = sample_store();
    s.delete_blog(P1ID, U2).unwrap();
    assert_eq!(s.posts.len(), 1);
}

#[test]
fn delete_reply_pulls_every_copy_inside_one_comment() {
    let mut s = sample_store();
    s.comments[0].replies.push(reply(R7));
    s.delete_reply(C1, R7).unwrap();
    assert_eq!(s.comments[0].replies.len(), 1);
    assert_eq!(s.comments[0].replies[0].id, R2);
    // the other comment keeps its reply under the same id
    assert_eq!(s.comments[1].replies.len(), 1);
}

#[test]
fn save_comment_and_save_reply_mint_ids() {
    let mut s = sample_store();
    let data = PostComment {
        user_id: U1.to_string(),
        username: "author".to_string(),
        content: "hello".to_string(),
        blog_id: P1ID.to_string(),
    };
    let cid = s.save_comment(&data, 7).unwrap();
    assert!(blog_core::ids::validate_object_id(cid.as_str()));
    let c = s.get_comments_by_id(cid.as_str()).unwrap();
    assert_eq!(c.content, "hello");
    assert_eq!(c.created_at, 7);

    let rdata = PostReply {
        user_id: U2.to_string(),
        username: "other".to_string(),
        content: "re".to_string(),
    };
    let rid = s.save_reply(cid.as_str(), &rdata, 8).unwrap();
    assert!(blog_core::ids::validate_object_id(rid.as_str()));
    assert_ne!(cid, rid);
    let c = s.get_comments_by_id(cid.as_str()).unwrap();
    assert_eq!(c.replies.len(), 1);
    assert_eq!(c.replies[0].content, "re");
}

#[test]
fn save_comment_rejects_malformed_ids() {
    let mut s = Store::new();
    let data = PostComment {
        user_id: "nope".to_string(),
        username: "a".to_string(),
        content: "c".to_string(),
        blog_id: P1ID.to_string(),
    };
    let e = s.save_comment(&data, 0).unwrap_err();
    assert_eq!(e.status_code(), 404);
    assert!(s.comments.is_empty());
}

#[test]
fn listing_is_sorted_by_upvotes_descending() {
    let mut s = Store::new();
    s.posts.push(post("111111111111111111111111", U1, "one", 1));
    s.posts.push(post("222222222222222222222222", U1, "five", 5));
    s.posts.push(post("333333333333333333333333", U1, "three", 3));
    let listed = s.get_all_posts();
    let titles: Vec<&str> = listed.iter().map(|p| p.title.as_str()).collect();
    assert_eq!(titles, vec!["five", "three", "one"]);
}

#[test]
fn posts_by_author_are_filtered_in_order() {
    let mut s = Store::new();
    s.posts.push(post("111111111111111111111111", U1, "a", 0));
    s.posts.push(post("222222222222222222222222", U2, "b", 0));
    s.posts.push(post("333333333333333333333333", U1, "c", 0));
    let mine = s.get_posts_by_uid(U1);
    let titles: Vec<&str> = mine.iter().map(|p| p.title.as_str()).collect();
    assert_eq!(titles, vec!["a", "c"]);
}

#[test]
fn comments_by_post_are_filtered() {
    let s = sample_store();
    let under = s.get_comments_by_post(P1ID).unwrap();
    assert_eq!(under.len(), 2);
    assert!(s.get_comments_by_post("bad id").is_err());
}

#[test]
fn patch_updates_only_the_addressed_fields() {
    let mut s = sample_store();
    let body = PostBlog { title: "new title".to_string(), content: "new body".to_string() };
    body.patch_posts(&mut s, P1ID).unwrap();
    assert_eq!(s.posts[0].title, "new title");
    assert_eq!(s.posts[0].content, "new body");
    assert_eq!(s.posts[0].username, "author");

    let cbody = PostComment {
        user_id: U1.to_string(),
        username: "author".to_string(),
        content: "edited".to_string(),
        blog_id: P1ID.to_string(),
    };
    cbody.patch_comments(&mut s, C1).unwrap();
    assert_eq!(s.comments[0].content, "edited");

    let rbody = PostReply {
        user_id: U1.to_string(),
        username: "author".to_string(),
        content: "edited reply".to_string(),
    };
    rbody.patch_replies(&mut s, C1, R7).unwrap();
    assert_eq!(s.comments[0].replies[1].content, "edited reply");
    assert_eq!(s.comments[0].replies[0].content, "re");
}

#[test]
fn get_post_by_id_distinguishes_its_errors() {
    let s = sample_store();
    assert_eq!(s.get_post_by_id(P1ID).unwrap().title, "first");
    assert_eq!(s.get_post_by_id("zz").unwrap_err().status_code(), 404);
    assert_eq!(s.get_post_by_id(ABSENT).unwrap_err().message(), "No Post Found");
}

#[test]
fn minted_ids_are_well_formed_and_distinct() {
    let mut s = Store::new();
    let a = s
        .save_comment(
            &PostComment {
                user_id: U1.to_string(),
                username: "x".to_string(),
                content: "1".to_string(),
                blog_id: P1ID.to_string(),
            },
            0,
        )
        .unwrap();
    let b = s
        .save_comment(
            &PostComment {
                user_id: U1.to_string(),
                username: "x".to_string(),
                content: "2".to_string(),
                blog_id: P1ID.to_string(),
            },
            0,
        )
        .unwrap();
    assert_eq!(a, "000000000000000000000000");
    assert_eq!(b, "000000000000000000000001");
    assert!(blog_core::ids::validate_object_id(a.as_str()));
    assert_ne!(a, b);
}
