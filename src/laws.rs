//! Properties of the interaction ledger that relate several operations.

use vstd::prelude::*;

use crate::endpoint::VoteCast;
use crate::ids::{PollChoiceId, PostId, UserId};
use crate::query::{
    count_choice, count_post, count_status, exactly_one, has_key, has_key_at, insert_or_ignore,
    key_index, keys_unique, lemma_key_index, lemma_push_unique, reaction_status, upsert_reaction,
    vote_cast, voted_choice, BookmarkRow, Keyed, Reaction, VoteRow,
};

verus! {

/// Where keys are unique and row `i` has key (u, p), no other row has it.
pub proof fn lemma_exactly_one<R: Keyed>(rows: Seq<R>, i: int, u: UserId, p: PostId)
    requires
        keys_unique(rows),
        has_key_at(rows, i, u, p),
    ensures
        exactly_one(rows, u, p),
        key_index(rows, u, p) == Some(i),
{
    lemma_key_index(rows, i, u, p);
    assert forall|j: int| 0 <= j < rows.len() && j != i implies !#[trigger] has_key_at(
        rows,
        j,
        u,
        p,
    ) by {
        assert(rows[i].user_of() == rows[i].user_of());
        assert(rows[j].user_of() == rows[j].user_of());
    }
}

/// An upsert keeps keys unique and leaves exactly one row with the new
/// reaction's key, which holds its status.
pub proof fn lemma_upsert_reaction(rows: Seq<Reaction>, r: Reaction)
    requires
        keys_unique(rows),
    ensures
        keys_unique(upsert_reaction(rows, r)),
        exactly_one(upsert_reaction(rows, r), r.user_id, r.post_id),
        reaction_status(upsert_reaction(rows, r), r.user_id, r.post_id) == r.like_status,
{
    let s = upsert_reaction(rows, r);
    match key_index(rows, r.user_id, r.post_id) {
        Some(i) => {
            assert(has_key_at(rows, i, r.user_id, r.post_id));
            assert forall|a: int, b: int|
                0 <= a < s.len() && 0 <= b < s.len() && a != b implies !(#[trigger] s[a].user_of()
                == #[trigger] s[b].user_of() && s[a].post_of() == s[b].post_of()) by {
                assert(rows[a].user_of() == rows[a].user_of());
                assert(rows[b].user_of() == rows[b].user_of());
            }
            lemma_exactly_one(s, i, r.user_id, r.post_id);
        },
        None => {
            lemma_push_unique(rows, r);
            lemma_exactly_one(s, rows.len() as int, r.user_id, r.post_id);
        },
    }
}

/// A like and then a dislike by the same user on the same post leave
/// exactly one reaction of that user to that post, with status -1.
pub proof fn lemma_like_then_dislike(rows: Seq<Reaction>, like: Reaction, dislike: Reaction)
    requires
        keys_unique(rows),
        like.user_id == dislike.user_id,
        like.post_id == dislike.post_id,
        like.like_status == 1,
        dislike.like_status == -1,
    ensures
        exactly_one(
            upsert_reaction(upsert_reaction(rows, like), dislike),
            like.user_id,
            like.post_id,
        ),
        reaction_status(upsert_reaction(upsert_reaction(rows, like), dislike), like.user_id, like.post_id)
            == -1,
{
    lemma_upsert_reaction(rows, like);
    lemma_upsert_reaction(upsert_reaction(rows, like), dislike);
}

/// Bookmarking a post twice leaves what bookmarking it once leaves: exactly
/// one bookmark of that user on that post.
pub proof fn lemma_bookmark_twice(rows: Seq<BookmarkRow>, user_id: UserId, post_id: PostId)
    requires
        keys_unique(rows),
    ensures
        insert_or_ignore(
            insert_or_ignore(rows, BookmarkRow { user_id, post_id }),
            BookmarkRow { user_id, post_id },
        ) == insert_or_ignore(rows, BookmarkRow { user_id, post_id }),
        exactly_one(insert_or_ignore(rows, BookmarkRow { user_id, post_id }), user_id, post_id),
{
    let row = BookmarkRow { user_id, post_id };
    let s = insert_or_ignore(rows, row);
    if has_key(rows, user_id, post_id) {
        let i = choose|i: int| has_key_at(rows, i, user_id, post_id);
        lemma_exactly_one(rows, i, user_id, post_id);
    } else {
        lemma_push_unique(rows, row);
        assert(has_key_at(s, rows.len() as int, user_id, post_id));
        lemma_exactly_one(s, rows.len() as int, user_id, post_id);
    }
}

/// A first vote on a post is cast and a second one, for any choice, is
/// refused; the stored vote stays the first one's choice.
pub proof fn lemma_vote_once(
    votes: Seq<VoteRow>,
    user_id: UserId,
    post_id: PostId,
    first: PollChoiceId,
    second: PollChoiceId,
    first_at: i64,
    second_at: i64,
)
    requires
        keys_unique(votes),
        !has_key(votes, user_id, post_id),
    ensures
        vote_cast(votes, user_id, post_id) == VoteCast::Yes,
        vote_cast(
            insert_or_ignore(votes, VoteRow { user_id, post_id, choice_id: first, created_at: first_at }),
            user_id,
            post_id,
        ) == VoteCast::AlreadyVoted,
        voted_choice(
            insert_or_ignore(
                insert_or_ignore(
                    votes,
                    VoteRow { user_id, post_id, choice_id: first, created_at: first_at },
                ),
                VoteRow { user_id, post_id, choice_id: second, created_at: second_at },
            ),
            user_id,
            post_id,
        ) == Some(first),
{
    let row = VoteRow { user_id, post_id, choice_id: first, created_at: first_at };
    let s = votes.push(row);
    lemma_push_unique(votes, row);
    assert(has_key_at(s, votes.len() as int, user_id, post_id));
    lemma_exactly_one(s, votes.len() as int, user_id, post_id);
}

/// The sum of the tallies of `choices` on `p`.
pub open spec fn sum_tallies(votes: Seq<VoteRow>, p: PostId, choices: Seq<PollChoiceId>) -> nat
    decreases choices.len(),
{
    if choices.len() == 0 {
        0
    } else {
        sum_tallies(votes, p, choices.drop_last()) + count_choice(votes, p, choices.last())
    }
}

/// How many times `c` occurs in `choices`.
pub open spec fn occurrences(choices: Seq<PollChoiceId>, c: PollChoiceId) -> nat
    decreases choices.len(),
{
    if choices.len() == 0 {
        0
    } else {
        occurrences(choices.drop_last(), c) + if choices.last() == c {
            1nat
        } else {
            0nat
        }
    }
}

proof fn lemma_occurrences(choices: Seq<PollChoiceId>, c: PollChoiceId)
    requires
        choices.no_duplicates(),
    ensures
        occurrences(choices, c) == if choices.contains(c) {
            1nat
        } else {
            0nat
        },
    decreases choices.len(),
{
    if choices.len() > 0 {
        let init = choices.drop_last();
        assert(init.no_duplicates());
        lemma_occurrences(init, c);
        if choices.last() == c {
            if init.contains(c) {
                let k = choose|k: int| 0 <= k < init.len() && init[k] == c;
                assert(choices[k] == choices[choices.len() - 1]);
            }
        } else {
            if choices.contains(c) {
                let k = choose|k: int| 0 <= k < choices.len() && choices[k] == c;
                assert(init[k] == c);
            }
            if init.contains(c) {
                let k = choose|k: int| 0 <= k < init.len() && init[k] == c;
                assert(choices[k] == c);
            }
        }
    }
}

proof fn lemma_sum_step(votes: Seq<VoteRow>, p: PostId, choices: Seq<PollChoiceId>)
    requires
        votes.len() > 0,
    ensures
        sum_tallies(votes, p, choices) == sum_tallies(votes.drop_last(), p, choices) + if votes.last().post_id
            == p {
            occurrences(choices, votes.last().choice_id)
        } else {
            0nat
        },
    decreases choices.len(),
{
    if choices.len() > 0 {
        lemma_sum_step(votes, p, choices.drop_last());
    }
}

/// The tallies of a poll's choices add up to the number of votes on the
/// post, where the choices are distinct and every vote on the post names
/// one of them.
pub proof fn lemma_poll_tallies_sum(votes: Seq<VoteRow>, p: PostId, choices: Seq<PollChoiceId>)
    requires
        choices.no_duplicates(),
        forall|i: int|
            0 <= i < votes.len() && #[trigger] votes[i].post_id == p ==> choices.contains(
                votes[i].choice_id,
            ),
    ensures
        sum_tallies(votes, p, choices) == count_post(votes, p),
    decreases votes.len(),
{
    if votes.len() == 0 {
        lemma_sum_empty(votes, p, choices);
    } else {
        let init = votes.drop_last();
        assert forall|i: int| 0 <= i < init.len() && #[trigger] init[i].post_id == p implies choices.contains(
            init[i].choice_id,
        ) by {
            assert(init[i] == votes[i]);
        }
        lemma_poll_tallies_sum(init, p, choices);
        lemma_sum_step(votes, p, choices);
        lemma_occurrences(choices, votes.last().choice_id);
        if votes.last().post_id == p {
            assert(votes[votes.len() - 1].post_id == p);
        }
    }
}

proof fn lemma_sum_empty(votes: Seq<VoteRow>, p: PostId, choices: Seq<PollChoiceId>)
    requires
        votes.len() == 0,
    ensures
        sum_tallies(votes, p, choices) == 0,
    decreases choices.len(),
{
    if choices.len() > 0 {
        lemma_sum_empty(votes, p, choices.drop_last());
    }
}

/// The ledger after the reactions of `ops` are recorded in order.
pub open spec fn apply_reactions(rows: Seq<Reaction>, ops: Seq<Reaction>) -> Seq<Reaction>
    decreases ops.len(),
{
    if ops.len() == 0 {
        rows
    } else {
        upsert_reaction(apply_reactions(rows, ops.drop_last()), ops.last())
    }
}

/// The number of reactions in `ops` with status `s`.
pub open spec fn count_ops(ops: Seq<Reaction>, s: i16) -> nat
    decreases ops.len(),
{
    if ops.len() == 0 {
        0
    } else {
        count_ops(ops.drop_last(), s) + if ops.last().like_status == s {
            1nat
        } else {
            0nat
        }
    }
}

proof fn lemma_count_none(rows: Seq<Reaction>, p: PostId, s: i16)
    requires
        forall|i: int| 0 <= i < rows.len() ==> #[trigger] rows[i].post_id != p,
    ensures
        count_status(rows, p, s) == 0,
    decreases rows.len(),
{
    if rows.len() > 0 {
        let init = rows.drop_last();
        assert forall|i: int| 0 <= i < init.len() implies #[trigger] init[i].post_id != p by {
            assert(init[i] == rows[i]);
        }
        lemma_count_none(init, p, s);
        assert(rows[rows.len() - 1].post_id != p);
    }
}

proof fn lemma_apply_distinct(rows: Seq<Reaction>, p: PostId, ops: Seq<Reaction>, s: i16)
    requires
        keys_unique(rows),
        forall|i: int| 0 <= i < rows.len() ==> #[trigger] rows[i].post_id != p,
        forall|i: int| 0 <= i < ops.len() ==> #[trigger] ops[i].post_id == p,
        forall|i: int, j: int|
            0 <= i < ops.len() && 0 <= j < ops.len() && i != j ==> #[trigger] ops[i].user_id
                != #[trigger] ops[j].user_id,
    ensures
        keys_unique(apply_reactions(rows, ops)),
        count_status(apply_reactions(rows, ops), p, s) == count_ops(ops, s),
        forall|k: int|
            0 <= k < apply_reactions(rows, ops).len() && #[trigger] apply_reactions(
                rows,
                ops,
            )[k].post_id == p ==> exists|j: int|
                0 <= j < ops.len() && ops[j].user_id == apply_reactions(rows, ops)[k].user_id,
    decreases ops.len(),
{
    if ops.len() == 0 {
        lemma_count_none(rows, p, s);
    } else {
        let init = ops.drop_last();
        let last = ops.last();
        assert forall|i: int| 0 <= i < init.len() implies #[trigger] init[i].post_id == p by {
            assert(init[i] == ops[i]);
        }
        assert forall|i: int, j: int|
            0 <= i < init.len() && 0 <= j < init.len() && i != j implies #[trigger] init[i].user_id
            != #[trigger] init[j].user_id by {
            assert(init[i] == ops[i] && init[j] == ops[j]);
        }
        lemma_apply_distinct(rows, p, init, s);
        let before = apply_reactions(rows, init);
        assert(ops[ops.len() - 1].post_id == p);
        if has_key(before, last.user_id, last.post_id) {
            let k = choose|k: int| has_key_at(before, k, last.user_id, last.post_id);
            assert(before[k].post_id == p);
            let j = choose|j: int| 0 <= j < init.len() && init[j].user_id == before[k].user_id;
            assert(ops[j] == init[j]);
            assert(ops[j].user_id != ops[ops.len() - 1].user_id);
        }
        let after = apply_reactions(rows, ops);
        assert(after == before.push(last));
        lemma_push_unique(before, last);
        assert(after.drop_last() == before);
        assert forall|k: int| 0 <= k < after.len() && #[trigger] after[k].post_id == p implies exists|
            j: int,
        | 0 <= j < ops.len() && ops[j].user_id == after[k].user_id by {
            if k == before.len() {
                assert(ops[ops.len() - 1].user_id == after[k].user_id);
            } else {
                assert(after[k] == before[k]);
                let j = choose|j: int| 0 <= j < init.len() && init[j].user_id == before[k].user_id;
                assert(ops[j] == init[j]);
            }
        }
    }
}

/// Where a post has no reactions yet, recording reactions to it from
/// distinct users, in any order, leaves as many reactions with each status
/// as there were reactions with that status: k likes and m dislikes give
/// k likes and m dislikes.
pub proof fn lemma_reaction_counts(rows: Seq<Reaction>, p: PostId, ops: Seq<Reaction>)
    requires
        keys_unique(rows),
        forall|i: int| 0 <= i < rows.len() ==> #[trigger] rows[i].post_id != p,
        forall|i: int| 0 <= i < ops.len() ==> #[trigger] ops[i].post_id == p,
        forall|i: int, j: int|
            0 <= i < ops.len() && 0 <= j < ops.len() && i != j ==> #[trigger] ops[i].user_id
                != #[trigger] ops[j].user_id,
    ensures
        count_status(apply_reactions(rows, ops), p, 1) == count_ops(ops, 1),
        count_status(apply_reactions(rows, ops), p, -1i16) == count_ops(ops, -1i16),
{
    lemma_apply_distinct(rows, p, ops, 1);
    lemma_apply_distinct(rows, p, ops, -1i16);
}

proof fn lemma_count_ops_remove(ops: Seq<Reaction>, j: int, s: i16)
    requires
        0 <= j < ops.len(),
    ensures
        count_ops(ops, s) == count_ops(ops.remove(j), s) + if ops[j].like_status == s {
            1nat
        } else {
            0nat
        },
    decreases ops.len(),
{
    if j == ops.len() - 1 {
        assert(ops.remove(j) == ops.drop_last());
    } else {
        let init = ops.drop_last();
        assert(ops.remove(j).drop_last() == init.remove(j));
        assert(ops.remove(j).last() == ops.last());
        assert(init[j] == ops[j]);
        lemma_count_ops_remove(init, j, s);
    }
}

proof fn lemma_count_ops_permutation(ops: Seq<Reaction>, other: Seq<Reaction>, s: i16)
    requires
        ops.to_multiset() == other.to_multiset(),
    ensures
        count_ops(ops, s) == count_ops(other, s),
    decreases ops.len(),
{
    broadcast use vstd::seq_lib::group_to_multiset_ensures;

    if ops.len() == 0 {
        assert(other.to_multiset().len() == 0);
    } else {
        let init = ops.drop_last();
        let a = ops.last();
        assert(ops == init.push(a));
        assert(other.to_multiset().count(a) > 0);
        assert(other.contains(a));
        let j = choose|j: int| 0 <= j < other.len() && other[j] == a;
        assert(other.remove(j).to_multiset() == other.to_multiset().remove(a));
        assert(other.remove(j).to_multiset() =~= init.to_multiset());
        lemma_count_ops_permutation(init, other.remove(j), s);
        lemma_count_ops_remove(other, j, s);
    }
}

/// Recording the same reactions from distinct users on a post with none
/// yet, in another order, gives the same like and dislike counts.
pub proof fn lemma_reaction_counts_any_order(
    rows: Seq<Reaction>,
    p: PostId,
    ops: Seq<Reaction>,
    reordered: Seq<Reaction>,
)
    requires
        keys_unique(rows),
        forall|i: int| 0 <= i < rows.len() ==> #[trigger] rows[i].post_id != p,
        forall|i: int| 0 <= i < ops.len() ==> #[trigger] ops[i].post_id == p,
        forall|i: int, j: int|
            0 <= i < ops.len() && 0 <= j < ops.len() && i != j ==> #[trigger] ops[i].user_id
                != #[trigger] ops[j].user_id,
        forall|i: int| 0 <= i < reordered.len() ==> #[trigger] reordered[i].post_id == p,
        forall|i: int, j: int|
            0 <= i < reordered.len() && 0 <= j < reordered.len() && i != j
                ==> #[trigger] reordered[i].user_id != #[trigger] reordered[j].user_id,
        reordered.to_multiset() == ops.to_multiset(),
    ensures
        count_status(apply_reactions(rows, reordered), p, 1) == count_status(
            apply_reactions(rows, ops),
            p,
            1,
        ),
        count_status(apply_reactions(rows, reordered), p, -1i16) == count_status(
            apply_reactions(rows, ops),
            p,
            -1i16,
        ),
{
    lemma_reaction_counts(rows, p, ops);
    lemma_reaction_counts(rows, p, reordered);
    lemma_count_ops_permutation(ops, reordered, 1);
    lemma_count_ops_permutation(ops, reordered, -1i16);
}

} // verus!
