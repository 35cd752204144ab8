//! The registry: owns the admin identity, the token configuration, the
//! investment history and the id counter, and implements every operation.
//!
//! The host environment around a deployment supplies persistence, the
//! ledger clock and the caller's identity; each operation here takes those
//! as plain values and is verified for every value of them.
use vstd::prelude::*;
use crate::model::abs_amounts;
use crate::model::completed_token_total;
use crate::model::count_completed;
use crate::model::filter_by_buyer;
use crate::model::lemma_abs_amounts_prefix;
use crate::model::lemma_push_unfold;
use crate::model::lemma_sums_bounded;
use crate::model::sum_amounts;
use crate::types::Address;
use crate::types::Error;
use crate::types::Investment;
use crate::types::InvestmentStatus;
use crate::types::TokenInfo;

verus! {

/// The default token configuration installed by `init`.
pub open spec fn is_default_token_info(t: TokenInfo) -> bool {
    &&& t.id@ == "EVCHARGER001"@
    &&& t.name@ == "Electric Vehicle Charging Network"@
    &&& t.apy == 1250
    &&& t.total_value_locked == 2400000000
    &&& t.min_investment == 10000000
    &&& t.max_investment == 100000000000
}

/// What `get_admin` returns in a given state.
pub open spec fn spec_get_admin(s: DobLinkContract) -> Result<Address, Error> {
    match s.admin {
        Some(a) => Ok(a),
        None => Err(Error::NotFound),
    }
}

/// What `get_token_info` returns in a given state.
pub open spec fn spec_get_token_info(s: DobLinkContract) -> Result<TokenInfo, Error> {
    match s.token_info {
        Some(t) => Ok(t),
        None => Err(Error::NotFound),
    }
}

/// What `get_investment` returns in a given state: in a well-formed registry
/// the investment with id `n` sits at position `n - 1`.
pub open spec fn spec_get_investment(s: DobLinkContract, investment_id: u32) -> Result<
    Investment,
    Error,
> {
    if 1 <= investment_id && investment_id <= s.investments@.len() {
        Ok(s.investments@[investment_id - 1])
    } else {
        Err(Error::NotFound)
    }
}

/// `inv` with its status replaced; every other field kept.
pub open spec fn with_status(inv: Investment, status: InvestmentStatus) -> Investment {
    Investment { status, ..inv }
}

/// The successful-creation transition: the new record is appended with the
/// allocated id, the counter advances by exactly one, and nothing else moves.
pub open spec fn created(
    pre: DobLinkContract,
    post: DobLinkContract,
    buyer: Address,
    token_id: Seq<char>,
    amount: i128,
    timestamp: u64,
    id: u32,
) -> bool {
    &&& id == pre.next_id
    &&& post.next_id == pre.next_id + 1
    &&& post.investments@.len() == pre.investments@.len() + 1
    &&& post.investments@.drop_last() == pre.investments@
    &&& post.investments@.last().id == id
    &&& post.investments@.last().buyer == buyer
    &&& post.investments@.last().token_id@ == token_id
    &&& post.investments@.last().amount == amount
    &&& post.investments@.last().timestamp == timestamp
    &&& post.investments@.last().status is Pending
    &&& post.admin == pre.admin
    &&& post.token_info == pre.token_info
}

/// The initialization transition: admin set, default configuration
/// installed, investment history and counter untouched.
pub open spec fn initialized(pre: DobLinkContract, post: DobLinkContract, admin: Address) -> bool {
    &&& post.admin == Some(admin)
    &&& post.token_info matches Some(t) && is_default_token_info(t)
    &&& post.investments == pre.investments
    &&& post.next_id == pre.next_id
}

/// The successful status-transition: one record's status replaced in place,
/// everything else untouched.
pub open spec fn status_updated(
    pre: DobLinkContract,
    post: DobLinkContract,
    investment_id: u32,
    status: InvestmentStatus,
) -> bool {
    &&& 1 <= investment_id <= pre.investments@.len()
    &&& post.investments@ == pre.investments@.update(
        investment_id - 1,
        with_status(pre.investments@[investment_id - 1], status),
    )
    &&& post.admin == pre.admin
    &&& post.token_info == pre.token_info
    &&& post.next_id == pre.next_id
}

/// The investment registry. One instance owns all the state the operations
/// read and write: the single admin identity, the single token
/// configuration, the append-only investment history and the next-id
/// counter.
pub struct DobLinkContract {
    /// The one identity allowed to mutate configuration and status;
    /// designated by `init`.
    pub admin: Option<Address>,
    /// The single investable asset's configuration.
    pub token_info: Option<TokenInfo>,
    /// Every investment ever created, in creation order; the record with id
    /// `n` sits at position `n - 1`.
    pub investments: Vec<Investment>,
    /// The next id to allocate; always one more than the number of
    /// investments ever created.
    pub next_id: u32,
}

impl DobLinkContract {
    /// Ids are unique and contiguous from 1 in creation order, and the
    /// counter always equals the count of investments plus one.
    pub open spec fn well_formed(self) -> bool {
        &&& self.next_id == self.investments@.len() + 1
        &&& forall|i: int|
            0 <= i < self.investments@.len() ==> #[trigger] self.investments@[i].id == i + 1
    }

    /// A fresh, never-initialized registry: no admin, no configuration, no
    /// history, counter at one.
    pub fn new() -> (r: Self)
        ensures
            r.well_formed(),
            r.admin is None,
            r.token_info is None,
            r.investments@ == Seq::<Investment>::empty(),
            r.next_id == 1,
    {
        DobLinkContract { admin: None, token_info: None, investments: Vec::new(), next_id: 1 }
    }

    /// Designates the admin and installs the default token configuration.
    /// Never fails; calling it again resets admin and configuration but
    /// leaves the investment history and the counter untouched.
    pub fn init(&mut self, admin: Address) -> (r: Result<(), Error>)
        ensures
            r is Ok,
            initialized(*old(self), *final(self), admin),
            old(self).well_formed() ==> final(self).well_formed(),
    {
        self.admin = Some(admin);
        self.token_info = Some(
            TokenInfo {
                id: String::from_str("EVCHARGER001"),
                name: String::from_str("Electric Vehicle Charging Network"),
                apy: 1250,
                total_value_locked: 2400000000,
                min_investment: 10000000,
                max_investment: 100000000000,
            },
        );
        Ok(())
    }

    /// Returns the designated admin, or `NotFound` if the registry was
    /// never initialized.
    pub fn get_admin(&self) -> (r: Result<Address, Error>)
        ensures
            r == spec_get_admin(*self),
    {
        match self.admin {
            Some(a) => Ok(a),
            None => Err(Error::NotFound),
        }
    }

    /// Replaces the token configuration wholesale. Admin-gated: fails with
    /// `NotFound` if no admin was ever designated, with `NotAuthorized` if
    /// the caller is any other identity; on failure nothing changes.
    pub fn update_token_info(
        &mut self,
        caller: &Address,
        token_id: String,
        name: String,
        apy: i128,
        total_value_locked: i128,
        min_investment: i128,
        max_investment: i128,
    ) -> (r: Result<(), Error>)
        ensures
            match old(self).admin {
                None => r == Err::<(), Error>(Error::NotFound) && *final(self) == *old(self),
                Some(a) => if *caller == a {
                    &&& r is Ok
                    &&& final(self).token_info matches Some(t) && t.id@ == token_id@ && t.name@
                        == name@ && t.apy == apy && t.total_value_locked == total_value_locked
                        && t.min_investment == min_investment && t.max_investment == max_investment
                    &&& final(self).admin == old(self).admin
                    &&& final(self).investments == old(self).investments
                    &&& final(self).next_id == old(self).next_id
                } else {
                    r == Err::<(), Error>(Error::NotAuthorized) && *final(self) == *old(self)
                },
            },
            old(self).well_formed() ==> final(self).well_formed(),
    {
        match self.admin {
            None => Err(Error::NotFound),
            Some(a) => {
                if *caller != a {
                    Err(Error::NotAuthorized)
                } else {
                    self.token_info = Some(
                        TokenInfo {
                            id: token_id,
                            name,
                            apy,
                            total_value_locked,
                            min_investment,
                            max_investment,
                        },
                    );
                    Ok(())
                }
            },
        }
    }

    /// Returns the current token configuration, or `NotFound` if none was
    /// ever set.
    pub fn get_token_info(&self) -> (r: Result<TokenInfo, Error>)
        ensures
            r == spec_get_token_info(*self),
    {
        match &self.token_info {
            Some(t) => Ok(t.clone()),
            None => Err(Error::NotFound),
        }
    }

    /// Records a new investment. Fails with `ConfigMissing` if no
    /// configuration was ever set and with `InvalidAmount` if the amount
    /// lies outside the configured bounds; on failure nothing changes, the
    /// counter included. On success the returned id is the counter's value,
    /// which is one more than the number of investments created before the
    /// call, the record is appended with status `Pending`, and the counter
    /// advances by exactly one.
    pub fn create_investment(
        &mut self,
        buyer: Address,
        token_id: String,
        amount: i128,
        timestamp: u64,
    ) -> (r: Result<u32, Error>)
        requires
            old(self).well_formed(),
            old(self).next_id < u32::MAX,
        ensures
            final(self).well_formed(),
            match old(self).token_info {
                None => r == Err::<u32, Error>(Error::ConfigMissing) && *final(self) == *old(self),
                Some(cfg) => if amount < cfg.min_investment || amount > cfg.max_investment {
                    r == Err::<u32, Error>(Error::InvalidAmount) && *final(self) == *old(self)
                } else {
                    r matches Ok(id) && created(
                        *old(self),
                        *final(self),
                        buyer,
                        token_id@,
                        amount,
                        timestamp,
                        id,
                    )
                },
            },
    {
        match &self.token_info {
            None => {
                return Err(Error::ConfigMissing);
            },
            Some(cfg) => {
                if amount < cfg.min_investment || amount > cfg.max_investment {
                    return Err(Error::InvalidAmount);
                }
            },
        }
        let id = self.next_id;
        let investment = Investment {
            id,
            buyer,
            token_id,
            amount,
            timestamp,
            status: InvestmentStatus::Pending,
        };
        proof {
            lemma_push_unfold(self.investments@, investment);
        }
        self.investments.push(investment);
        self.next_id = id + 1;
        Ok(id)
    }

    /// Point lookup by id; fails with `NotFound` if no investment has that
    /// id. In a well-formed registry the returned record carries the id
    /// asked for.
    pub fn get_investment(&self, investment_id: u32) -> (r: Result<Investment, Error>)
        ensures
            r == spec_get_investment(*self, investment_id),
            self.well_formed() && r is Ok ==> r->Ok_0.id == investment_id,
    {
        if 1 <= investment_id && (investment_id as usize) <= self.investments.len() {
            Ok(self.investments[(investment_id - 1) as usize].clone())
        } else {
            Err(Error::NotFound)
        }
    }

    /// Every investment, in creation order.
    pub fn get_all_investments(&self) -> (r: Result<Vec<Investment>, Error>)
        ensures
            r matches Ok(v) && v@ == self.investments@,
    {
        let n = self.investments.len();
        let mut all: Vec<Investment> = Vec::new();
        let mut i: usize = 0;
        while i < n
            invariant
                n == self.investments@.len(),
                i <= n,
                all@ == self.investments@.subrange(0, i as int),
            decreases n - i,
        {
            all.push(self.investments[i].clone());
            proof {
                assert(self.investments@.subrange(0, i + 1) =~= self.investments@.subrange(
                    0,
                    i as int,
                ).push(self.investments@[i as int]));
            }
            i = i + 1;
        }
        proof {
            assert(self.investments@.subrange(0, n as int) =~= self.investments@);
        }
        Ok(all)
    }

    /// Every investment of one buyer, in creation order: a full scan
    /// filtered by identity equality.
    pub fn get_buyer_investments(&self, buyer: &Address) -> (r: Result<Vec<Investment>, Error>)
        ensures
            r matches Ok(v) && v@ == filter_by_buyer(self.investments@, *buyer),
    {
        let n = self.investments.len();
        let mut found: Vec<Investment> = Vec::new();
        let mut i: usize = 0;
        while i < n
            invariant
                n == self.investments@.len(),
                i <= n,
                found@ == filter_by_buyer(self.investments@.subrange(0, i as int), *buyer),
            decreases n - i,
        {
            proof {
                assert(self.investments@.subrange(0, i + 1) =~= self.investments@.subrange(
                    0,
                    i as int,
                ).push(self.investments@[i as int]));
                lemma_push_unfold(
                    self.investments@.subrange(0, i as int),
                    self.investments@[i as int],
                );
            }
            let inv = &self.investments[i];
            if inv.buyer == *buyer {
                found.push(inv.clone());
                proof {
                    assert(found@ =~= filter_by_buyer(
                        self.investments@.subrange(0, i as int),
                        *buyer,
                    ) + seq![self.investments@[i as int]]);
                }
            }
            i = i + 1;
        }
        proof {
            assert(self.investments@.subrange(0, n as int) =~= self.investments@);
        }
        Ok(found)
    }

    /// Replaces one investment's status in place. Admin-gated exactly as
    /// `update_token_info`; fails with `NotFound` if no investment has the
    /// id; on failure nothing changes. Transitions are unrestricted: a
    /// `Completed` investment may move back to `Pending`.
    pub fn update_investment_status(
        &mut self,
        caller: &Address,
        investment_id: u32,
        status: InvestmentStatus,
    ) -> (r: Result<(), Error>)
        requires
            old(self).well_formed(),
        ensures
            final(self).well_formed(),
            match old(self).admin {
                None => r == Err::<(), Error>(Error::NotFound) && *final(self) == *old(self),
                Some(a) => if *caller != a {
                    r == Err::<(), Error>(Error::NotAuthorized) && *final(self) == *old(self)
                } else if 1 <= investment_id && investment_id <= old(self).investments@.len() {
                    r is Ok && status_updated(*old(self), *final(self), investment_id, status)
                } else {
                    r == Err::<(), Error>(Error::NotFound) && *final(self) == *old(self)
                },
            },
    {
        match self.admin {
            None => Err(Error::NotFound),
            Some(a) => {
                if *caller != a {
                    Err(Error::NotAuthorized)
                } else if 1 <= investment_id && (investment_id as usize)
                    <= self.investments.len() {
                    let idx = (investment_id - 1) as usize;
                    self.investments[idx].status = status;
                    Ok(())
                } else {
                    Err(Error::NotFound)
                }
            },
        }
    }

    /// Sum of the amounts of the `Completed` investments referencing
    /// `token_id`; other statuses and other tokens contribute zero.
    pub fn get_token_total_investments(&self, token_id: &String) -> (r: Result<i128, Error>)
        requires
            abs_amounts(self.investments@) <= i128::MAX,
        ensures
            r matches Ok(total) && total == completed_token_total(self.investments@, token_id@),
    {
        let n = self.investments.len();
        let mut total: i128 = 0;
        let mut i: usize = 0;
        while i < n
            invariant
                n == self.investments@.len(),
                i <= n,
                abs_amounts(self.investments@) <= i128::MAX,
                total == completed_token_total(
                    self.investments@.subrange(0, i as int),
                    token_id@,
                ),
            decreases n - i,
        {
            proof {
                assert(self.investments@.subrange(0, i + 1) =~= self.investments@.subrange(
                    0,
                    i as int,
                ).push(self.investments@[i as int]));
                lemma_push_unfold(
                    self.investments@.subrange(0, i as int),
                    self.investments@[i as int],
                );
                lemma_sums_bounded(self.investments@.subrange(0, i + 1), token_id@);
                lemma_abs_amounts_prefix(self.investments@, i + 1);
            }
            let inv = &self.investments[i];
            let is_completed = match inv.status {
                InvestmentStatus::Completed => true,
                _ => false,
            };
            if inv.token_id == *token_id && is_completed {
                total = total + inv.amount;
            }
            i = i + 1;
        }
        proof {
            assert(self.investments@.subrange(0, n as int) =~= self.investments@);
        }
        Ok(total)
    }

    /// Global statistics in one pass over one snapshot: count of all
    /// investments, sum of all amounts across all statuses, and count of
    /// `Completed` investments, in that order.
    pub fn get_stats(&self) -> (r: Result<Vec<i128>, Error>)
        requires
            abs_amounts(self.investments@) <= i128::MAX,
        ensures
            r matches Ok(v) && v@.len() == 3 && v@[0] == self.investments@.len() && v@[1]
                == sum_amounts(self.investments@) && v@[2] == count_completed(self.investments@),
    {
        let n = self.investments.len();
        let mut total_investments: i128 = 0;
        let mut total_amount: i128 = 0;
        let mut completed_investments: i128 = 0;
        let mut i: usize = 0;
        while i < n
            invariant
                n == self.investments@.len(),
                i <= n,
                abs_amounts(self.investments@) <= i128::MAX,
                total_investments == i,
                total_amount == sum_amounts(self.investments@.subrange(0, i as int)),
                completed_investments == count_completed(self.investments@.subrange(0, i as int)),
            decreases n - i,
        {
            proof {
                assert(self.investments@.subrange(0, i + 1) =~= self.investments@.subrange(
                    0,
                    i as int,
                ).push(self.investments@[i as int]));
                lemma_push_unfold(
                    self.investments@.subrange(0, i as int),
                    self.investments@[i as int],
                );
                lemma_sums_bounded(self.investments@.subrange(0, i + 1), Seq::empty());
                lemma_abs_amounts_prefix(self.investments@, i + 1);
            }
            let inv = &self.investments[i];
            total_investments = total_investments + 1;
            total_amount = total_amount + inv.amount;
            match inv.status {
                InvestmentStatus::Completed => {
                    completed_investments = completed_investments + 1;
                },
                _ => {},
            }
            i = i + 1;
        }
        proof {
            assert(self.investments@.subrange(0, n as int) =~= self.investments@);
        }
        let mut stats: Vec<i128> = Vec::new();
        stats.push(total_investments);
        stats.push(total_amount);
        stats.push(completed_investments);
        Ok(stats)
    }
}

} // verus!
