//! Mathematical model of the investment history: sums, counts and filters
//! over the sequence of recorded investments, with the lemmas the query
//! implementations rest on.
use vstd::prelude::*;
use crate::types::Address;
use crate::types::Investment;

verus! {

/// Sum of the amounts of all investments, across all statuses.
pub open spec fn sum_amounts(s: Seq<Investment>) -> int
    decreases s.len(),
{
    if s.len() == 0 {
        0
    } else {
        sum_amounts(s.drop_last()) + s.last().amount
    }
}

/// Sum of the absolute values of all amounts: every partial sum the query
/// loops form is bounded by it, which rules arithmetic overflow out.
pub open spec fn abs_amounts(s: Seq<Investment>) -> int
    decreases s.len(),
{
    if s.len() == 0 {
        0
    } else {
        abs_amounts(s.drop_last()) + (if s.last().amount < 0 {
            -(s.last().amount as int)
        } else {
            s.last().amount as int
        })
    }
}

/// How many investments are `Completed`.
pub open spec fn count_completed(s: Seq<Investment>) -> int
    decreases s.len(),
{
    if s.len() == 0 {
        0
    } else {
        count_completed(s.drop_last()) + (if s.last().status is Completed {
            1int
        } else {
            0int
        })
    }
}

/// Sum of the amounts of the `Completed` investments referencing `token_id`.
pub open spec fn completed_token_total(s: Seq<Investment>, token_id: Seq<char>) -> int
    decreases s.len(),
{
    if s.len() == 0 {
        0
    } else {
        completed_token_total(s.drop_last(), token_id) + (if s.last().token_id@ == token_id
            && s.last().status is Completed {
            s.last().amount as int
        } else {
            0int
        })
    }
}

/// The investments of one buyer, in creation order.
pub open spec fn filter_by_buyer(s: Seq<Investment>, buyer: Address) -> Seq<Investment>
    decreases s.len(),
{
    if s.len() == 0 {
        Seq::empty()
    } else {
        filter_by_buyer(s.drop_last(), buyer) + (if s.last().buyer == buyer {
            seq![s.last()]
        } else {
            Seq::empty()
        })
    }
}

/// A pushed sequence drops back to the sequence it extends and ends in the
/// new element;
/// lets the recursive definitions above unfold one step at a time.
pub proof fn lemma_push_unfold(s: Seq<Investment>, x: Investment)
    ensures
        s.push(x).drop_last() == s,
        s.push(x).last() == x,
        s.push(x).len() == s.len() + 1,
{
    assert(s.push(x).drop_last() =~= s);
}

/// All the aggregates stay within the band set by the absolute sum, and the
/// completed count never exceeds the number of investments.
pub proof fn lemma_sums_bounded(s: Seq<Investment>, token_id: Seq<char>)
    ensures
        0 <= abs_amounts(s),
        -abs_amounts(s) <= sum_amounts(s) <= abs_amounts(s),
        -abs_amounts(s) <= completed_token_total(s, token_id) <= abs_amounts(s),
        0 <= count_completed(s) <= s.len(),
    decreases s.len(),
{
    if s.len() > 0 {
        lemma_sums_bounded(s.drop_last(), token_id);
    }
}

/// The absolute sum over a prefix never exceeds the absolute sum over the
/// whole history.
pub proof fn lemma_abs_amounts_prefix(s: Seq<Investment>, i: int)
    requires
        0 <= i <= s.len(),
    ensures
        abs_amounts(s.subrange(0, i)) <= abs_amounts(s),
    decreases s.len() - i,
{
    if i == s.len() {
        assert(s.subrange(0, i) =~= s);
    } else {
        assert(s.subrange(0, i + 1).drop_last() =~= s.subrange(0, i));
        assert(s.subrange(0, i + 1).last() == s[i]);
        lemma_abs_amounts_prefix(s, i + 1);
    }
}

} // verus!
