//! Narrative-shift records and paid subscriptions, with their rules proved.

mod clock;
mod error;
mod identity;
mod record;
mod subscription;

pub use error::NarrativeError;
pub use identity::Identity;
pub use record::{
    store_narrative, text_len, NarrativeRecord, StoreNarrative, MAX_NAME_LEN, MAX_SCORE,
};
pub use subscription::{
    cancel_outcome, cancel_subscription, lemma_cancel_idempotent, lemma_cancel_keeps_well_formed,
    subscribe, subscribe_now, subscribe_outcome, tier_price, CancelSubscription, Subscribe,
    Subscription, Transfer, SECONDS_PER_DAY, TIER_A_MAX_DAYS, TIER_A_PRICE, TIER_B_PRICE,
};
