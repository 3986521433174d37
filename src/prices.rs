use vstd::prelude::*;
use crate::address::Address;
use crate::error::CustomError;

verus! {

/// The price list of one collection: one price per trait index, the owner
/// who may change it, and the currency payments are made in (the all-zero
/// identity for the native currency, else a token's identity).
#[derive(Clone, Debug)]
pub struct CollectionPricesData {
    pub bump: u8,
    pub owner: Address,
    pub size: u16,
    pub payment_mint: Address,
    pub prices: Vec<u64>,
}

impl CollectionPricesData {
    /// `size` counts the prices, and there is at least one.
    pub open spec fn wf(&self) -> bool {
        &&& self.size as int == self.prices@.len()
        &&& self.prices@.len() > 0
    }

    /// The stored size of a price list of `prices_len` prices, without the
    /// account discriminator: bump, owner, size, payment token, the length
    /// prefix of the prices and eight bytes per price.
    pub fn dynamic_size(prices_len: usize) -> (r: usize)
        requires
            78 + 8 * prices_len <= usize::MAX,
        ensures
            r == 78 + 8 * prices_len,
    {
        8 + 32 + 2 + 32 + 4 + prices_len * 8
    }
}

/// Creates the price list of a collection for `owner`. `owner_lamports` is
/// the creator's balance and `required_lamports` the storage cost of the
/// list, which the creator must be able to cover.
pub fn initialize_collection(
    owner: Address,
    bump: u8,
    prices: Vec<u64>,
    payment_mint: Address,
    owner_lamports: u64,
    required_lamports: u64,
) -> (r: Result<CollectionPricesData, CustomError>)
    requires
        prices@.len() <= u16::MAX,
    ensures
        prices@.len() == 0 ==> r == Err::<CollectionPricesData, CustomError>(CustomError::EmptyPriceList),
        prices@.len() > 0 && owner_lamports < required_lamports
            ==> r == Err::<CollectionPricesData, CustomError>(CustomError::InsufficientFundsForRent),
        prices@.len() > 0 && owner_lamports >= required_lamports ==> r is Ok,
        r matches Ok(c) ==> {
            &&& c.wf()
            &&& c.size as int == prices@.len()
            &&& c.prices@ == prices@
            &&& c.owner == owner
            &&& c.payment_mint == payment_mint
            &&& c.bump == bump
        },
{
    if prices.len() == 0 {
        return Err(CustomError::EmptyPriceList);
    }
    if owner_lamports < required_lamports {
        return Err(CustomError::InsufficientFundsForRent);
    }
    let size: u16 = prices.len() as u16;
    Ok(CollectionPricesData { bump, owner, size, payment_mint, prices })
}

/// Replaces the prices and the payment currency of a collection. Only the
/// owner may do so, and the new list must have the length of the old one.
pub fn update_collection_price_token(
    collection: &mut CollectionPricesData,
    signer: &Address,
    new_prices: Vec<u64>,
    new_payment_mint: Address,
) -> (r: Result<(), CustomError>)
    ensures
        signer@ != old(collection).owner@ ==> r == Err::<(), CustomError>(CustomError::Unauthorized),
        signer@ == old(collection).owner@ && new_prices@.len() != old(collection).prices@.len()
            ==> r == Err::<(), CustomError>(CustomError::PriceLengthMismatch),
        r is Err ==> *final(collection) == *old(collection),
        signer@ == old(collection).owner@ && new_prices@.len() == old(collection).prices@.len() ==> {
            &&& r is Ok
            &&& final(collection).prices@ == new_prices@
            &&& final(collection).payment_mint == new_payment_mint
            &&& final(collection).owner == old(collection).owner
            &&& final(collection).size == old(collection).size
            &&& final(collection).bump == old(collection).bump
        },
        old(collection).wf() ==> final(collection).wf(),
{
    if !signer.same(&collection.owner) {
        return Err(CustomError::Unauthorized);
    }
    if new_prices.len() != collection.prices.len() {
        return Err(CustomError::PriceLengthMismatch);
    }
    collection.payment_mint = new_payment_mint;
    collection.prices = new_prices;
    Ok(())
}

/// Replaces the payment currency of a collection; only the owner may do so.
/// Any identity is accepted, the all-zero one meaning the native currency.
pub fn update_payment_mint(
    collection: &mut CollectionPricesData,
    signer: &Address,
    new_payment_mint: Address,
) -> (r: Result<(), CustomError>)
    ensures
        signer@ != old(collection).owner@ ==> {
            &&& r == Err::<(), CustomError>(CustomError::Unauthorized)
            &&& *final(collection) == *old(collection)
        },
        signer@ == old(collection).owner@ ==> {
            &&& r is Ok
            &&& *final(collection) == (CollectionPricesData {
                payment_mint: new_payment_mint,
                ..*old(collection)
            })
        },
{
    if !signer.same(&collection.owner) {
        return Err(CustomError::Unauthorized);
    }
    collection.payment_mint = new_payment_mint;
    Ok(())
}

/// Replaces the prices of a collection. Only the owner may do so, and the new
/// list must have the length of the old one.
pub fn update_prices(
    collection: &mut CollectionPricesData,
    signer: &Address,
    new_prices: Vec<u64>,
) -> (r: Result<(), CustomError>)
    ensures
        signer@ != old(collection).owner@ ==> r == Err::<(), CustomError>(CustomError::Unauthorized),
        signer@ == old(collection).owner@ && new_prices@.len() != old(collection).prices@.len()
            ==> r == Err::<(), CustomError>(CustomError::PriceLengthMismatch),
        r is Err ==> *final(collection) == *old(collection),
        signer@ == old(collection).owner@ && new_prices@.len() == old(collection).prices@.len() ==> {
            &&& r is Ok
            &&& final(collection).prices@ == new_prices@
            &&& final(collection).payment_mint == old(collection).payment_mint
            &&& final(collection).owner == old(collection).owner
            &&& final(collection).size == old(collection).size
            &&& final(collection).bump == old(collection).bump
        },
        old(collection).wf() ==> final(collection).wf(),
{
    if !signer.same(&collection.owner) {
        return Err(CustomError::Unauthorized);
    }
    if new_prices.len() != collection.prices.len() {
        return Err(CustomError::PriceLengthMismatch);
    }
    collection.prices = new_prices;
    Ok(())
}

} // verus!
