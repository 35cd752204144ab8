//! The registry's global laws, proved from the operation contracts and the
//! well-formedness invariant alone.
use vstd::prelude::*;
use crate::registry::created;
use crate::registry::initialized;
use crate::registry::is_default_token_info;
use crate::registry::spec_get_investment;
use crate::registry::spec_get_token_info;
use crate::registry::DobLinkContract;
use crate::types::Address;
use crate::types::Error;
use crate::types::Investment;

verus! {

/// In a well-formed registry the ids are exactly 1, 2, ... in creation
/// order: strictly increasing with no gaps.
pub proof fn lemma_ids_contiguous(s: DobLinkContract)
    requires
        s.well_formed(),
    ensures
        forall|i: int| 0 <= i < s.investments@.len() ==> #[trigger] s.investments@[i].id == i + 1,
        forall|i: int, j: int|
            0 <= i < j < s.investments@.len() ==> s.investments@[i].id < s.investments@[j].id,
{
}

/// A successful creation returns exactly one more than the number of
/// investments created before the call.
pub proof fn lemma_created_id_is_count(
    pre: DobLinkContract,
    post: DobLinkContract,
    buyer: Address,
    token_id: Seq<char>,
    amount: i128,
    timestamp: u64,
    id: u32,
)
    requires
        pre.well_formed(),
        created(pre, post, buyer, token_id, amount, timestamp, id),
    ensures
        id == pre.investments@.len() + 1,
{
}

/// Across two consecutive successful creations the returned ids are
/// strictly increasing and adjacent: no gap can ever open.
pub proof fn lemma_created_ids_consecutive(
    s0: DobLinkContract,
    s1: DobLinkContract,
    s2: DobLinkContract,
    buyer1: Address,
    token_id1: Seq<char>,
    amount1: i128,
    timestamp1: u64,
    id1: u32,
    buyer2: Address,
    token_id2: Seq<char>,
    amount2: i128,
    timestamp2: u64,
    id2: u32,
)
    requires
        created(s0, s1, buyer1, token_id1, amount1, timestamp1, id1),
        created(s1, s2, buyer2, token_id2, amount2, timestamp2, id2),
    ensures
        id2 == id1 + 1,
        id1 < id2,
{
}

/// Reads are idempotent: two lookups of the same id in the same state,
/// with no mutation in between, return identical results.
pub proof fn lemma_get_investment_idempotent(
    s: DobLinkContract,
    investment_id: u32,
    r1: Result<Investment, Error>,
    r2: Result<Investment, Error>,
)
    requires
        r1 == spec_get_investment(s, investment_id),
        r2 == spec_get_investment(s, investment_id),
    ensures
        r1 == r2,
{
}

/// Immediately after initialization, with no intervening update, reading
/// the token configuration yields exactly the documented defaults.
pub proof fn lemma_default_config_after_init(
    pre: DobLinkContract,
    post: DobLinkContract,
    admin: Address,
)
    requires
        initialized(pre, post, admin),
    ensures
        spec_get_token_info(post) is Ok,
        is_default_token_info(spec_get_token_info(post)->Ok_0),
{
}

} // verus!
