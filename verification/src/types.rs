//! Data model of the registry: identities, the asset configuration, one
//! recorded investment, the status lifecycle, and the error taxonomy.
use vstd::prelude::*;

verus! {

/// An opaque, equality-comparable identity: tags who invested and who is
/// the admin. The registry only ever compares identities for equality.
#[derive(Clone, Copy, PartialEq, Eq, Structural, Debug)]
pub struct Address {
    pub id: u64,
}

/// Lifecycle status of one investment. Every investment starts `Pending`;
/// transitions are unrestricted (a completed investment may move back to
/// pending), a permissiveness the design keeps deliberately.
#[derive(Clone, Copy, PartialEq, Eq, Structural, Debug)]
pub enum InvestmentStatus {
    Pending,
    Completed,
    Failed,
}

/// The error taxonomy. Every failure is returned as an explicit value;
/// nothing is swallowed.
#[derive(Clone, Copy, PartialEq, Eq, Structural, Debug)]
pub enum Error {
    /// The amount lies outside the configured bounds.
    InvalidAmount,
    /// The caller is not the registered admin.
    NotAuthorized,
    /// The referenced admin or investment does not exist.
    NotFound,
    /// The operation needs a token configuration that was never set.
    ConfigMissing,
}

/// Configuration of the single investable asset.
#[derive(Debug)]
pub struct TokenInfo {
    /// Opaque identifier of the asset.
    pub id: String,
    /// Display name, no uniqueness constraint.
    pub name: String,
    /// Annual yield in basis points (1250 = 12.5%).
    pub apy: i128,
    /// Declared total value locked, micro-units.
    pub total_value_locked: i128,
    /// Smallest acceptable investment amount, micro-units.
    pub min_investment: i128,
    /// Largest acceptable investment amount, micro-units.
    pub max_investment: i128,
}

impl Clone for TokenInfo {
    fn clone(&self) -> (r: Self)
        ensures
            r == *self,
    {
        TokenInfo {
            id: self.id.clone(),
            name: self.name.clone(),
            apy: self.apy,
            total_value_locked: self.total_value_locked,
            min_investment: self.min_investment,
            max_investment: self.max_investment,
        }
    }
}

/// One recorded contribution. Append-only: created once, only its status
/// ever changes afterwards.
#[derive(Debug)]
pub struct Investment {
    /// Unique identifier, assigned by the registry in creation order.
    pub id: u32,
    /// Who contributed.
    pub buyer: Address,
    /// Which asset the contribution references.
    pub token_id: String,
    /// Contributed amount, micro-units.
    pub amount: i128,
    /// Ledger time of creation, immutable thereafter.
    pub timestamp: u64,
    /// Current lifecycle status.
    pub status: InvestmentStatus,
}

impl Clone for Investment {
    fn clone(&self) -> (r: Self)
        ensures
            r == *self,
    {
        Investment {
            id: self.id,
            buyer: self.buyer,
            token_id: self.token_id.clone(),
            amount: self.amount,
            timestamp: self.timestamp,
            status: self.status,
        }
    }
}

} // verus!
