//! Pricing and entitlement ledger for the purchasable traits of a collection.
//!
//! An owner publishes a price list ([`CollectionPricesData`]); buyers
//! purchase trait indices, recorded per buyer in a bitmask
//! ([`UserPurchases`]); the settlement functions ([`lamports_purchase`],
//! [`token_purchase`]) compute what is owed and how it is split between the
//! platform royalty, the owner and an optional commission. Transfers and
//! storage are left to the caller, which makes the transfers of [`payouts`]
//! and then commits the purchase with [`UserPurchases::record_purchase`].
mod address;
mod error;
mod prices;
mod purchases;
mod settlement;

pub use address::Address;
pub use error::CustomError;
pub use prices::{
    initialize_collection, update_collection_price_token, update_payment_mint, update_prices,
    CollectionPricesData,
};
pub use purchases::UserPurchases;
pub use settlement::{
    lamports_purchase, payouts, lemma_owned_index_is_free, lemma_payouts_cover_amount_due, lemma_repurchase_is_free, lemma_split_conserves, split_payment, token_purchase, unpaid_total, Payout, Recipient,
    Settlement, Split, TokenHolding, LamportsPurchase, TokenPurchase, BPS_DENOMINATOR, MAX_COMMISSION_BPS, ROYALTY_BPS,
};
