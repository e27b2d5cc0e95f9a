//! The reaction set: the pair of a membership list and a denormalized counter
//! that backs votes on posts and likes/dislikes on comments and replies.
//!
//! An increase pushes the acting user's id onto the list without checking
//! membership first, exactly as the store's push operator does; a decrease
//! removes every occurrence of the id, as the store's pull operator does, and
//! moves the counter by one either way. The laws below state when the counter
//! agrees with the set of distinct members, and how a repeated increase makes
//! the two diverge.

use vstd::prelude::*;

use crate::errors::{AppError, AppErrorType};

verus! {

/// Direction of a reaction toggle.
#[derive(Clone, Copy, Debug, PartialEq, Eq, Structural)]
pub enum IncOrDec {
    INC,
    DEC,
}

/// A membership list paired with its counter.
#[derive(Debug)]
pub struct Votes {
    pub users: Vec<String>,
    pub count: i32,
}

/// The member ids of a reaction set, as character sequences.
pub open spec fn id_views(users: Seq<String>) -> Seq<Seq<char>> {
    users.map_values(|s: String| s@)
}

/// Removal of every occurrence of one id, keeping the order of the rest:
/// what the store's pull operator does to the membership list.
pub open spec fn remove_user(ids: Seq<Seq<char>>, uid: Seq<char>) -> Seq<Seq<char>>
    decreases ids.len(),
{
    if ids.len() == 0 {
        Seq::empty()
    } else {
        let rest = remove_user(ids.drop_last(), uid);
        if ids.last() == uid {
            rest
        } else {
            rest.push(ids.last())
        }
    }
}

/// One ledger step fits: the counter move stays in range.
pub open spec fn votes_step_fits(o: Votes, patch_type: IncOrDec) -> bool {
    match patch_type {
        IncOrDec::INC => o.count < i32::MAX,
        IncOrDec::DEC => o.count > i32::MIN,
    }
}

/// The relation between a reaction set before and after one ledger step.
pub open spec fn votes_stepped(o: Votes, n: Votes, uid: Seq<char>, patch_type: IncOrDec) -> bool {
    match patch_type {
        IncOrDec::INC => n.user_ids() == o.user_ids().push(uid) && n.count == o.count + 1,
        IncOrDec::DEC => n.user_ids() == remove_user(o.user_ids(), uid) && n.count == o.count - 1,
    }
}

impl Votes {
    /// The distinct-member ids of this reaction set.
    pub open spec fn user_ids(&self) -> Seq<Seq<char>> {
        id_views(self.users@)
    }

    /// An empty reaction set: no members, counter zero.
    pub fn new() -> (v: Votes)
        ensures
            v.count == 0,
            v.user_ids() =~= Seq::<Seq<char>>::empty(),
    {
        Votes { users: Vec::new(), count: 0 }
    }

    /// One ledger step on this reaction set. An increase appends the user id
    /// (without a membership check) and raises the counter; a decrease
    /// removes every occurrence of the id and lowers the counter. A step
    /// whose counter move would overflow is refused as a store failure and
    /// changes nothing.
    pub fn apply(&mut self, user_id: &str, patch_type: IncOrDec) -> (r: Result<(), AppError>)
        ensures
            votes_step_fits(*old(self), patch_type) ==> r is Ok && votes_stepped(
                *old(self),
                *final(self),
                user_id@,
                patch_type,
            ),
            !votes_step_fits(*old(self), patch_type) ==> {
                &&& r matches Err(e) && e.error_type == AppErrorType::DatabaseError
                &&& *final(self) == *old(self)
            },
    {
        match patch_type {
            IncOrDec::INC => {
                if self.count == i32::MAX {
                    return Err(counter_failure());
                }
                self.users.push(user_id.to_owned());
                proof {
                    assert(self.user_ids() =~= old(self).user_ids().push(user_id@));
                }
                self.count = self.count + 1;
                Ok(())
            },
            IncOrDec::DEC => {
                if self.count == i32::MIN {
                    return Err(counter_failure());
                }
                let uid: String = user_id.to_owned();
                let mut kept: Vec<String> = Vec::new();
                let mut i: usize = 0;
                while i < self.users.len()
                    invariant
                        i <= self.users.len(),
                        uid@ == user_id@,
                        id_views(kept@) == remove_user(id_views(self.users@.take(i as int)), user_id@),
                    decreases self.users.len() - i,
                {
                    let ghost prefix = id_views(self.users@.take(i as int));
                    let keep_it = !(self.users[i] == uid);
                    if keep_it {
                        kept.push(self.users[i].clone());
                    }
                    proof {
                        let next = id_views(self.users@.take(i + 1 as int));
                        assert(next =~= prefix.push(self.users@[i as int]@));
                        assert(next.drop_last() =~= prefix);
                        if keep_it {
                            assert(id_views(kept@) =~= remove_user(prefix, user_id@).push(
                                self.users@[i as int]@,
                            ));
                        }
                    }
                    i = i + 1;
                }
                proof {
                    assert(self.users@.take(self.users@.len() as int) =~= self.users@);
                }
                self.users = kept;
                self.count = self.count - 1;
                Ok(())
            },
        }
    }
}

/// One abstract ledger step: who reacted, and in which direction.
pub enum LedgerOp {
    Increase(Seq<char>),
    Decrease(Seq<char>),
}

/// The effect of one step on the abstract state (counter, member list).
pub open spec fn apply_op(count: int, ids: Seq<Seq<char>>, op: LedgerOp) -> (int, Seq<Seq<char>>) {
    match op {
        LedgerOp::Increase(u) => (count + 1, ids.push(u)),
        LedgerOp::Decrease(u) => (count - 1, remove_user(ids, u)),
    }
}

/// The effect of a sequence of steps, first step first.
pub open spec fn apply_ops(count: int, ids: Seq<Seq<char>>, ops: Seq<LedgerOp>) -> (
    int,
    Seq<Seq<char>>,
)
    decreases ops.len(),
{
    if ops.len() == 0 {
        (count, ids)
    } else {
        let next = apply_op(count, ids, ops[0]);
        apply_ops(next.0, next.1, ops.drop_first())
    }
}

/// A step is legal when it does not duplicate an increase and only decreases
/// a present member: an increase by a user not yet in the set, or a decrease
/// by one who is.
pub open spec fn op_legal(ids: Seq<Seq<char>>, op: LedgerOp) -> bool {
    match op {
        LedgerOp::Increase(u) => !ids.contains(u),
        LedgerOp::Decrease(u) => ids.contains(u),
    }
}

/// Every step of the sequence is legal in the state the earlier steps leave.
pub open spec fn ops_legal(ids: Seq<Seq<char>>, ops: Seq<LedgerOp>) -> bool
    decreases ops.len(),
{
    ops.len() == 0 || (op_legal(ids, ops[0]) && ops_legal(
        apply_op(0, ids, ops[0]).1,
        ops.drop_first(),
    ))
}

/// The reaction-set invariant: the counter equals the length of the member
/// list, and no member appears twice.
pub open spec fn votes_wf(count: int, ids: Seq<Seq<char>>) -> bool {
    count == ids.len() && ids.no_duplicates()
}

/// Anything removal keeps was already a member.
proof fn lemma_remove_user_subset(ids: Seq<Seq<char>>, uid: Seq<char>, x: Seq<char>)
    requires
        remove_user(ids, uid).contains(x),
    ensures
        ids.contains(x),
    decreases ids.len(),
{
    if ids.len() > 0 {
        let rest = remove_user(ids.drop_last(), uid);
        if ids.last() == uid || x != ids.last() {
            assert(rest.contains(x));
            lemma_remove_user_subset(ids.drop_last(), uid, x);
            assert(ids.drop_last().contains(x));
            let i = choose|i: int| 0 <= i < ids.drop_last().len() && ids.drop_last()[i] == x;
            assert(ids[i] == x);
        } else {
            assert(ids[ids.len() - 1] == x);
        }
    }
}

/// Removing an id that is not a member changes nothing.
proof fn lemma_remove_user_absent(ids: Seq<Seq<char>>, uid: Seq<char>)
    requires
        !ids.contains(uid),
    ensures
        remove_user(ids, uid) =~= ids,
    decreases ids.len(),
{
    if ids.len() > 0 {
        assert(forall|i: int|
            0 <= i < ids.drop_last().len() ==> ids.drop_last()[i] == #[trigger] ids[i]);
        assert(!ids.drop_last().contains(uid));
        lemma_remove_user_absent(ids.drop_last(), uid);
        assert(ids[ids.len() - 1] != uid);
        assert(remove_user(ids, uid) =~= ids.drop_last().push(ids.last()));
    }
}

/// On a duplicate-free list, removing a present member takes away exactly one
/// entry and keeps the list duplicate-free and free of that member.
proof fn lemma_remove_user_present(ids: Seq<Seq<char>>, uid: Seq<char>)
    requires
        ids.no_duplicates(),
        ids.contains(uid),
    ensures
        remove_user(ids, uid).len() == ids.len() - 1,
        remove_user(ids, uid).no_duplicates(),
        !remove_user(ids, uid).contains(uid),
    decreases ids.len(),
{
    let prefix = ids.drop_last();
    assert(forall|i: int| 0 <= i < prefix.len() ==> prefix[i] == #[trigger] ids[i]);
    assert(prefix.no_duplicates());
    if ids.last() == uid {
        assert(!prefix.contains(uid)) by {
            if prefix.contains(uid) {
                let i = choose|i: int| 0 <= i < prefix.len() && prefix[i] == uid;
                assert(ids[i] == ids[ids.len() - 1]);
            }
        }
        lemma_remove_user_absent(prefix, uid);
    } else {
        assert(prefix.contains(uid)) by {
            let i = choose|i: int| 0 <= i < ids.len() && ids[i] == uid;
            assert(i < ids.len() - 1);
            assert(prefix[i] == uid);
        }
        lemma_remove_user_present(prefix, uid);
        let rest = remove_user(prefix, uid);
        assert(!rest.contains(ids.last())) by {
            if rest.contains(ids.last()) {
                lemma_remove_user_subset(prefix, uid, ids.last());
                let i = choose|i: int| 0 <= i < prefix.len() && prefix[i] == ids.last();
                assert(ids[i] == ids[ids.len() - 1]);
            }
        }
        let out = rest.push(ids.last());
        assert(out.no_duplicates()) by {
            assert(forall|i: int| 0 <= i < rest.len() ==> rest[i] == #[trigger] out[i]);
            assert(forall|i: int, j: int|
                0 <= i < j < out.len() && j < out.len() - 1 ==> #[trigger] out[i] != #[trigger] out[j]);
            assert(forall|i: int|
                0 <= i < out.len() - 1 ==> #[trigger] out[i] != out[out.len() - 1]) by {
                assert(forall|i: int|
                    0 <= i < rest.len() && #[trigger] rest[i] == ids.last() ==> rest.contains(
                        ids.last(),
                    ));
            }
        }
        assert(!out.contains(uid)) by {
            if out.contains(uid) {
                let i = choose|i: int| 0 <= i < out.len() && out[i] == uid;
                if i < rest.len() {
                    assert(rest.contains(uid));
                }
            }
        }
    }
}

/// A legal increase keeps the list duplicate-free.
proof fn lemma_push_fresh_no_duplicates(ids: Seq<Seq<char>>, uid: Seq<char>)
    requires
        ids.no_duplicates(),
        !ids.contains(uid),
    ensures
        ids.push(uid).no_duplicates(),
{
    let out = ids.push(uid);
    assert(forall|i: int| 0 <= i < ids.len() ==> ids[i] == #[trigger] out[i]);
    assert(forall|i: int|
        0 <= i < ids.len() && #[trigger] ids[i] == uid ==> ids.contains(uid));
}

/// Law: a reaction set that satisfies its invariant still satisfies it after
/// any sequence of legal steps — no increase by a user already in the set,
/// no decrease by one outside it — and its counter then equals the number of
/// distinct members.
pub proof fn law_counter_matches_member_set(
    count: int,
    ids: Seq<Seq<char>>,
    ops: Seq<LedgerOp>,
)
    requires
        votes_wf(count, ids),
        ops_legal(ids, ops),
    ensures
        votes_wf(apply_ops(count, ids, ops).0, apply_ops(count, ids, ops).1),
        apply_ops(count, ids, ops).0 == apply_ops(count, ids, ops).1.to_set().len(),
    decreases ops.len(),
{
    if ops.len() == 0 {
        ids.unique_seq_to_set();
    } else {
        let next = apply_op(count, ids, ops[0]);
        match ops[0] {
            LedgerOp::Increase(u) => {
                lemma_push_fresh_no_duplicates(ids, u);
            },
            LedgerOp::Decrease(u) => {
                lemma_remove_user_present(ids, u);
            },
        }
        assert(apply_op(0, ids, ops[0]).1 == next.1);
        law_counter_matches_member_set(next.0, next.1, ops.drop_first());
    }
}

/// Law: one executed step on a reaction set is exactly one step of the
/// abstract ledger.
pub proof fn law_exec_step_is_ledger_op(o: Votes, n: Votes, uid: Seq<char>, patch_type: IncOrDec)
    requires
        votes_stepped(o, n, uid, patch_type),
    ensures
        ({
            let op = match patch_type {
                IncOrDec::INC => LedgerOp::Increase(uid),
                IncOrDec::DEC => LedgerOp::Decrease(uid),
            };
            &&& n.count as int == apply_op(o.count as int, o.user_ids(), op).0
            &&& n.user_ids() == apply_op(o.count as int, o.user_ids(), op).1
        }),
{
}

/// Law: the documented gap is preserved, not corrected. From a well-formed
/// set that does not contain `u`, two increases by `u` with no decrease in
/// between leave the counter one above the number of distinct members, and
/// one following decrease removes both copies of `u` at once, so the counter
/// stays one too high.
pub proof fn law_double_increase_diverges(count: int, ids: Seq<Seq<char>>, u: Seq<char>)
    requires
        votes_wf(count, ids),
        !ids.contains(u),
    ensures
        ({
            let twice = apply_op(count + 1, ids.push(u), LedgerOp::Increase(u));
            &&& twice.0 == twice.1.len()
            &&& twice.0 == twice.1.to_set().len() + 1
            &&& apply_op(twice.0, twice.1, LedgerOp::Decrease(u)).1 =~= ids
            &&& apply_op(twice.0, twice.1, LedgerOp::Decrease(u)).0 == ids.to_set().len() + 1
        }),
{
    broadcast use vstd::set::group_set_axioms;
    broadcast use vstd::seq_lib::group_seq_properties;

    let once = ids.push(u);
    let twice = once.push(u);
    ids.unique_seq_to_set();
    assert(once.to_set() =~= ids.to_set().insert(u)) by {
        assert(forall|x: Seq<char>| once.contains(x) <==> ids.contains(x) || x == u) by {
            assert(forall|i: int| 0 <= i < ids.len() ==> ids[i] == #[trigger] once[i]);
            assert(forall|i: int|
                0 <= i < ids.len() && #[trigger] ids[i] == ids[i] ==> once.contains(ids[i]));
            assert(once[ids.len() as int] == u);
        }
    }
    assert(twice.to_set() =~= once.to_set().insert(u)) by {
        assert(forall|x: Seq<char>| twice.contains(x) <==> once.contains(x) || x == u) by {
            assert(forall|i: int| 0 <= i < once.len() ==> once[i] == #[trigger] twice[i]);
            assert(twice[once.len() as int] == u);
        }
    }
    assert(!ids.to_set().contains(u));
    assert(once.to_set().contains(u));
    assert(twice.to_set().len() == ids.to_set().len() + 1);
    assert(remove_user(twice, u) =~= ids) by {
        assert(twice.drop_last() =~= once);
        assert(twice.last() == u);
        assert(remove_user(twice, u) == remove_user(once, u));
        assert(once.drop_last() =~= ids);
        assert(once.last() == u);
        assert(remove_user(once, u) == remove_user(ids, u));
        lemma_remove_user_absent(ids, u);
    }
}

fn counter_failure() -> (e: AppError)
    ensures
        e.error_type == AppErrorType::DatabaseError,
{
    AppError {
        message: None,
        cause: Some("counter out of range".to_owned()),
        error_type: AppErrorType::DatabaseError,
    }
}

} // verus!
