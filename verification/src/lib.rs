//! An on-ledger investment registry: records capital contributions against a
//! tokenized asset, enforces admin-gated configuration, assigns monotonically
//! increasing investment identifiers, tracks per-investment status, and
//! answers aggregate queries.
mod laws;
mod model;
mod registry;
mod types;

pub use laws::lemma_created_id_is_count;
pub use laws::lemma_created_ids_consecutive;
pub use laws::lemma_default_config_after_init;
pub use laws::lemma_get_investment_idempotent;
pub use laws::lemma_ids_contiguous;
pub use model::abs_amounts;
pub use model::completed_token_total;
pub use model::count_completed;
pub use model::filter_by_buyer;
pub use model::sum_amounts;
pub use registry::created;
pub use registry::initialized;
pub use registry::is_default_token_info;
pub use registry::spec_get_admin;
pub use registry::spec_get_investment;
pub use registry::spec_get_token_info;
pub use registry::status_updated;
pub use registry::with_status;
pub use registry::DobLinkContract;
pub use types::Address;
pub use types::Error;
pub use types::Investment;
pub use types::InvestmentStatus;
pub use types::TokenInfo;
