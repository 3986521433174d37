use vstd::prelude::*;
use crate::address::{zero_key, Address};
use crate::error::CustomError;
use crate::prices::CollectionPricesData;
use crate::purchases::{names, UserPurchases};

verus! {

/// The platform royalty, in basis points of the price (2.5%).
pub const ROYALTY_BPS: u64 = 250;

/// Basis points in a whole (100%).
pub const BPS_DENOMINATOR: u64 = 10000;

/// The largest commission rate a purchase may ask for, in basis points (70%).
pub const MAX_COMMISSION_BPS: u16 = 7000;

/// How a payment is divided. `royalty` and `owner_amount` make up `total`;
/// `commission` comes on top, and `amount_due` is what the buyer pays.
#[derive(Clone, Copy, Debug, PartialEq, Eq, Structural)]
pub struct Split {
    pub total: u64,
    pub royalty: u64,
    pub owner_amount: u64,
    pub commission: u64,
    pub amount_due: u64,
}

/// The outcome of a purchase that passed validation.
#[derive(Clone, Copy, Debug, PartialEq, Eq, Structural)]
pub enum Settlement {
    /// Every requested index was already paid for: nothing is transferred.
    NothingDue,
    /// The buyer pays as the split says.
    Pay(Split),
}

/// Who receives a transfer of a settlement.
#[derive(Clone, Copy, Debug, PartialEq, Eq, Structural)]
pub enum Recipient {
    AppRoyalty,
    Owner,
    Commission,
}

/// One transfer from the buyer.
#[derive(Clone, Copy, Debug, PartialEq, Eq, Structural)]
pub struct Payout {
    pub to: Recipient,
    pub amount: u64,
}

/// A token account as the settlement reads it: the token it holds, the
/// identity it belongs to, and its balance.
#[derive(Clone, Copy, Debug)]
pub struct TokenHolding {
    pub mint: Address,
    pub owner: Address,
    pub amount: u64,
}

/// The parties of a purchase in the native currency.
#[derive(Clone, Copy, Debug)]
pub struct LamportsPurchase {
    /// The buyer's native balance.
    pub purchaser_lamports: u64,
    /// The owner to be paid; must be the owner of the price list.
    pub owner: Address,
    /// The royalty recipient; must be the platform's royalty identity.
    pub app_royalty: Address,
    /// The commission recipient; the all-zero identity for none.
    pub commission_wallet: Address,
}

impl LamportsPurchase {
    /// Whether the commission has a recipient to be transferred to: the
    /// all-zero commission wallet stands for none.
    pub fn pays_commission(&self) -> (r: bool)
        ensures
            r == (self.commission_wallet@ != zero_key()),
    {
        !self.commission_wallet.is_zero()
    }
}

/// The parties of a purchase in the list's token.
#[derive(Clone, Copy, Debug)]
pub struct TokenPurchase {
    /// The identity that authorises the payment.
    pub purchase_signer: Address,
    /// The owner to be paid; must be the owner of the price list.
    pub owner: Address,
    pub purchaser_token_account: TokenHolding,
    pub owner_token_account: TokenHolding,
    pub royalty_token_account: TokenHolding,
    pub commission_token_account: TokenHolding,
}

/// Every index of `indexes` is below `n`.
pub open spec fn all_below(indexes: Seq<u16>, n: int) -> bool {
    forall|k: int| 0 <= k < indexes.len() ==> (#[trigger] indexes[k] as int) < n
}

/// The sum of the prices of the requested indices that `record` does not yet
/// hold; an index named twice is counted twice.
pub open spec fn unpaid_sum(prices: Seq<u64>, record: UserPurchases, indexes: Seq<u16>) -> int
    decreases indexes.len(),
{
    if indexes.len() == 0 {
        0
    } else {
        let last = indexes.last() as int;
        unpaid_sum(prices, record, indexes.drop_last()) + if record.owns(last) {
            0
        } else {
            prices[last] as int
        }
    }
}

/// The split of `total` with a commission of `bps` basis points on top, or
/// `Overflow` where a step leaves `u64`.
pub open spec fn split_of(total: int, bps: int) -> Result<Split, CustomError> {
    let royalty = total * ROYALTY_BPS / BPS_DENOMINATOR as int;
    let charged = bps > 0;
    let commission = if charged { total * bps / BPS_DENOMINATOR as int } else { 0 };
    if total * ROYALTY_BPS > u64::MAX {
        Err(CustomError::Overflow)
    } else if charged && total * bps > u64::MAX {
        Err(CustomError::Overflow)
    } else if total + commission > u64::MAX {
        Err(CustomError::Overflow)
    } else {
        Ok(
            Split {
                total: total as u64,
                royalty: royalty as u64,
                owner_amount: (total - royalty) as u64,
                commission: commission as u64,
                amount_due: (total + commission) as u64,
            },
        )
    }
}

/// What a validated purchase owing `total` settles to, for a buyer whose
/// balance is `balance`.
pub open spec fn settle_spec(total: int, bps: int, balance: int) -> Result<
    Settlement,
    CustomError,
> {
    if total > u64::MAX {
        Err(CustomError::Overflow)
    } else if total == 0 {
        Ok(Settlement::NothingDue)
    } else {
        match split_of(total, bps) {
            Err(e) => Err(e),
            Ok(s) => if balance < s.amount_due {
                Err(CustomError::InsufficientFunds)
            } else {
                Ok(Settlement::Pay(s))
            },
        }
    }
}

/// The first check that a native-currency purchase fails, if any.
pub open spec fn lamports_refusal(
    accounts: LamportsPurchase,
    collection: CollectionPricesData,
    royalty_key: Address,
    indexes: Seq<u16>,
    bps: u16,
) -> Option<CustomError> {
    if indexes.len() == 0 {
        Some(CustomError::NoTraitsSelected)
    } else if bps > MAX_COMMISSION_BPS {
        Some(CustomError::CommissionTooHigh)
    } else if collection.payment_mint@ != zero_key() {
        Some(CustomError::ExpectedLamportsPayment)
    } else if accounts.owner@ != collection.owner@ {
        Some(CustomError::InvalidOwner)
    } else if accounts.app_royalty@ != royalty_key@ {
        Some(CustomError::InvalidRoyaltyAccount)
    } else if !all_below(indexes, collection.prices@.len() as int) {
        Some(CustomError::InvalidTraitIndex)
    } else {
        None
    }
}

/// The first check that a token purchase fails, if any.
pub open spec fn token_refusal(
    accounts: TokenPurchase,
    collection: CollectionPricesData,
    royalty_key: Address,
    indexes: Seq<u16>,
    bps: u16,
) -> Option<CustomError> {
    let mint = collection.payment_mint@;
    if indexes.len() == 0 {
        Some(CustomError::NoTraitsSelected)
    } else if bps > MAX_COMMISSION_BPS {
        Some(CustomError::CommissionTooHigh)
    } else if mint == zero_key() {
        Some(CustomError::ExpectedTokenPayment)
    } else if accounts.purchaser_token_account.mint@ != mint
        || accounts.owner_token_account.mint@ != mint
        || accounts.royalty_token_account.mint@ != mint
        || accounts.commission_token_account.mint@ != mint {
        Some(CustomError::InvalidTokenMint)
    } else if accounts.purchaser_token_account.owner@ != accounts.purchase_signer@
        || accounts.owner_token_account.owner@ != accounts.owner@
        || accounts.royalty_token_account.owner@ != royalty_key@ {
        Some(CustomError::InvalidTokenOwner)
    } else if accounts.owner@ != collection.owner@ {
        Some(CustomError::InvalidOwner)
    } else if !all_below(indexes, collection.prices@.len() as int) {
        Some(CustomError::InvalidTraitIndex)
    } else {
        None
    }
}

/// The transfers of a split, in order: royalty, owner, commission, each
/// left out where its amount is zero; the commission is left out too where
/// there is no one to pay it to (`pay_commission` false).
pub open spec fn payouts_of(s: Split, pay_commission: bool) -> Seq<Payout> {
    let royalty = if s.royalty > 0 {
        seq![Payout { to: Recipient::AppRoyalty, amount: s.royalty }]
    } else {
        Seq::empty()
    };
    let owner = if s.owner_amount > 0 {
        seq![Payout { to: Recipient::Owner, amount: s.owner_amount }]
    } else {
        Seq::empty()
    };
    let commission = if s.commission > 0 && pay_commission {
        seq![Payout { to: Recipient::Commission, amount: s.commission }]
    } else {
        Seq::empty()
    };
    royalty + owner + commission
}

/// A request whose every index the record already holds owes nothing.
proof fn lemma_all_owned_owes_nothing(prices: Seq<u64>, record: UserPurchases, indexes: Seq<u16>)
    requires
        forall|k: int| 0 <= k < indexes.len() ==> record.owns(#[trigger] indexes[k] as int),
    ensures
        unpaid_sum(prices, record, indexes) == 0,
    decreases indexes.len(),
{
    if indexes.len() > 0 {
        let rest = indexes.drop_last();
        assert forall|k: int| 0 <= k < rest.len() implies record.owns(#[trigger] rest[k] as int) by {
            assert(rest[k] == indexes[k]);
        }
        lemma_all_owned_owes_nothing(prices, record, rest);
        assert(record.owns(indexes[indexes.len() - 1] as int));
    }
}

/// Purchases are charged once: after a purchase of `indexes` is committed
/// (`after` holds what `before` held and every index of `indexes`),
/// requesting the same indices again owes nothing.
pub proof fn lemma_repurchase_is_free(
    prices: Seq<u64>,
    before: UserPurchases,
    after: UserPurchases,
    indexes: Seq<u16>,
)
    requires
        forall|i: int| #[trigger] after.owns(i) == (before.owns(i) || names(indexes, i)),
    ensures
        unpaid_sum(prices, after, indexes) == 0,
{
    assert forall|k: int| 0 <= k < indexes.len() implies after.owns(#[trigger] indexes[k] as int) by {
        assert(names(indexes, indexes[k] as int));
    }
    lemma_all_owned_owes_nothing(prices, after, indexes);
}

/// An index the record already holds adds nothing to what a request owes:
/// the request owes exactly what it owes without that index.
pub proof fn lemma_owned_index_is_free(
    prices: Seq<u64>,
    record: UserPurchases,
    indexes: Seq<u16>,
    index: u16,
)
    requires
        record.owns(index as int),
    ensures
        unpaid_sum(prices, record, indexes.push(index)) == unpaid_sum(prices, record, indexes),
{
    assert(indexes.push(index).drop_last() =~= indexes);
}

/// The royalty and the owner's share make up the total exactly, the royalty
/// never exceeds it, and the commission comes on top of it: what the buyer
/// owes is the total plus the commission.
pub proof fn lemma_split_conserves(total: u64, commission_bps: u16)
    ensures
        split_of(total as int, commission_bps as int) matches Ok(s) ==> {
            &&& s.total == total
            &&& s.royalty + s.owner_amount == total
            &&& s.royalty <= total
            &&& s.amount_due == total + s.commission
        },
{
    assert(total * 250 / 10000 <= total) by (nonlinear_arith);
}

/// The sum of the amounts of a list of transfers.
pub open spec fn payout_sum(p: Seq<Payout>) -> int
    decreases p.len(),
{
    if p.len() == 0 {
        0
    } else {
        payout_sum(p.drop_last()) + p.last().amount
    }
}

/// The sum of the amounts of two lists of transfers, one after the other.
proof fn lemma_payout_sum_concat(a: Seq<Payout>, b: Seq<Payout>)
    ensures
        payout_sum(a + b) == payout_sum(a) + payout_sum(b),
    decreases b.len(),
{
    if b.len() == 0 {
        assert(a + b =~= a);
    } else {
        lemma_payout_sum_concat(a, b.drop_last());
        assert((a + b).drop_last() =~= a + b.drop_last());
    }
}

/// The transfers of a split move exactly what the buyer owes: the royalty,
/// the owner's share and the commission, and nothing more. Where the
/// commission has no recipient, they move the total alone.
pub proof fn lemma_payouts_cover_amount_due(total: u64, commission_bps: u16, pay_commission: bool)
    ensures
        split_of(total as int, commission_bps as int) matches Ok(s) ==> {
            &&& pay_commission ==> payout_sum(payouts_of(s, pay_commission)) == s.amount_due
            &&& !pay_commission ==> payout_sum(payouts_of(s, pay_commission)) == s.total
        },
{
    if let Ok(s) = split_of(total as int, commission_bps as int) {
        lemma_split_conserves(total, commission_bps);
        let royalty = if s.royalty > 0 {
            seq![Payout { to: Recipient::AppRoyalty, amount: s.royalty }]
        } else {
            Seq::empty()
        };
        let owner = if s.owner_amount > 0 {
            seq![Payout { to: Recipient::Owner, amount: s.owner_amount }]
        } else {
            Seq::empty()
        };
        let commission = if s.commission > 0 && pay_commission {
            seq![Payout { to: Recipient::Commission, amount: s.commission }]
        } else {
            Seq::empty()
        };
        reveal_with_fuel(payout_sum, 2);
        assert(payout_sum(royalty) == s.royalty as int) by {
            if s.royalty > 0 {
                assert(royalty.drop_last() =~= Seq::<Payout>::empty());
            }
        }
        assert(payout_sum(owner) == s.owner_amount as int) by {
            if s.owner_amount > 0 {
                assert(owner.drop_last() =~= Seq::<Payout>::empty());
            }
        }
        assert(payout_sum(commission) == if pay_commission { s.commission as int } else { 0 }) by {
            if s.commission > 0 && pay_commission {
                assert(commission.drop_last() =~= Seq::<Payout>::empty());
            }
        }
        lemma_payout_sum_concat(royalty, owner);
        lemma_payout_sum_concat(royalty + owner, commission);
    }
}

/// A longer prefix of a request owes at least as much as a shorter one.
proof fn lemma_prefix_monotone(prices: Seq<u64>, record: UserPurchases, indexes: Seq<u16>, i: int, j: int)
    requires
        0 <= i <= j <= indexes.len(),
    ensures
        unpaid_sum(prices, record, indexes.subrange(0, i)) <= unpaid_sum(prices, record, indexes.subrange(0, j)),
    decreases j - i,
{
    if i < j {
        lemma_prefix_monotone(prices, record, indexes, i, j - 1);
        assert(indexes.subrange(0, j).drop_last() =~= indexes.subrange(0, j - 1));
    }
}

/// The sum of the prices of the requested indices that `record` does not yet
/// hold, or `Overflow` where that sum leaves `u64`.
pub fn unpaid_total(prices: &Vec<u64>, record: &UserPurchases, indexes: &Vec<u16>) -> (r: Result<u64, CustomError>)
    requires
        all_below(indexes@, prices@.len() as int),
    ensures
        unpaid_sum(prices@, *record, indexes@) <= u64::MAX
            ==> r == Ok::<u64, CustomError>(unpaid_sum(prices@, *record, indexes@) as u64),
        unpaid_sum(prices@, *record, indexes@) > u64::MAX
            ==> r == Err::<u64, CustomError>(CustomError::Overflow),
        r matches Ok(t) ==> t as int == unpaid_sum(prices@, *record, indexes@),
{
    let mut total_price: u64 = 0;
    let mut k: usize = 0;
    while k < indexes.len()
        invariant
            k <= indexes@.len(),
            all_below(indexes@, prices@.len() as int),
            total_price as int == unpaid_sum(prices@, *record, indexes@.subrange(0, k as int)),
        decreases indexes@.len() - k,
    {
        let i: u16 = indexes[k];
        proof {
            assert(indexes@.subrange(0, k + 1).drop_last() =~= indexes@.subrange(0, k as int));
        }
        if !record.has(i) {
            match total_price.checked_add(prices[i as usize]) {
                Some(t) => {
                    total_price = t;
                },
                None => {
                    proof {
                        lemma_prefix_monotone(prices@, *record, indexes@, k + 1, indexes@.len() as int);
                        assert(indexes@.subrange(0, indexes@.len() as int) =~= indexes@);
                    }
                    return Err(CustomError::Overflow);
                },
            }
        }
        k = k + 1;
    }
    proof {
        assert(indexes@.subrange(0, k as int) =~= indexes@);
    }
    Ok(total_price)
}

/// Splits `total` into the platform royalty and the owner's remainder, and
/// computes the commission of `commission_bps` basis points that comes on top
/// of it.
pub fn split_payment(total: u64, commission_bps: u16) -> (r: Result<Split, CustomError>)
    ensures
        r == split_of(total as int, commission_bps as int),
        r matches Ok(s) ==> {
            &&& s.total == total
            &&& s.royalty + s.owner_amount == total
            &&& s.amount_due == total + s.commission
        },
{
    let royalty_amount: u64 = match total.checked_mul(ROYALTY_BPS) {
        Some(v) => v / BPS_DENOMINATOR,
        None => {
            return Err(CustomError::Overflow);
        },
    };
    proof {
        assert(royalty_amount <= total) by (nonlinear_arith)
            requires
                royalty_amount == total * 250 / 10000,
        ;
    }
    let owner_amount: u64 = match total.checked_sub(royalty_amount) {
        Some(v) => v,
        None => {
            return Err(CustomError::Overflow);
        },
    };
    let commission_amount: u64 = if commission_bps > 0 {
        match total.checked_mul(commission_bps as u64) {
            Some(v) => v / BPS_DENOMINATOR,
            None => {
                return Err(CustomError::Overflow);
            },
        }
    } else {
        0
    };
    let amount_due: u64 = match total.checked_add(commission_amount) {
        Some(v) => v,
        None => {
            return Err(CustomError::Overflow);
        },
    };
    Ok(Split { total, royalty: royalty_amount, owner_amount, commission: commission_amount, amount_due })
}

/// Settles a validated purchase owing `total` for a buyer whose balance is
/// `balance`.
fn settle(total: u64, commission_bps: u16, balance: u64) -> (r: Result<Settlement, CustomError>)
    ensures
        r == settle_spec(total as int, commission_bps as int, balance as int),
{
    if total == 0 {
        return Ok(Settlement::NothingDue);
    }
    let split = match split_payment(total, commission_bps) {
        Ok(s) => s,
        Err(e) => {
            return Err(e);
        },
    };
    if balance < split.amount_due {
        return Err(CustomError::InsufficientFunds);
    }
    Ok(Settlement::Pay(split))
}

/// Whether every index of `indexes` is below `n`.
fn indexes_below(indexes: &Vec<u16>, n: usize) -> (r: bool)
    ensures
        r == all_below(indexes@, n as int),
{
    let mut k: usize = 0;
    while k < indexes.len()
        invariant
            k <= indexes@.len(),
            forall|j: int| 0 <= j < k ==> (#[trigger] indexes@[j] as int) < n,
        decreases indexes@.len() - k,
    {
        if indexes[k] as usize >= n {
            return false;
        }
        k = k + 1;
    }
    true
}

/// Prices a purchase of `trait_indexes` in the native currency and validates
/// it. Indices that `purchases` already holds cost nothing. The commission
/// follows from the rate alone and is owed on top of the total, whoever
/// receives it. Nothing is transferred or recorded here: on `Ok`, the caller
/// makes the transfers of [`payouts`], with the flag of
/// [`LamportsPurchase::pays_commission`], and then commits the indices with
/// [`UserPurchases::record_purchase`].
pub fn lamports_purchase(
    accounts: &LamportsPurchase,
    collection: &CollectionPricesData,
    purchases: &UserPurchases,
    royalty_key: &Address,
    trait_indexes: &Vec<u16>,
    commission_bps: u16,
) -> (r: Result<Settlement, CustomError>)
    ensures
        r == match lamports_refusal(*accounts, *collection, *royalty_key, trait_indexes@, commission_bps) {
            Some(e) => Err(e),
            None => settle_spec(
                unpaid_sum(collection.prices@, *purchases, trait_indexes@),
                commission_bps as int,
                accounts.purchaser_lamports as int,
            ),
        },
{
    if trait_indexes.len() == 0 {
        return Err(CustomError::NoTraitsSelected);
    }
    if commission_bps > MAX_COMMISSION_BPS {
        return Err(CustomError::CommissionTooHigh);
    }
    if !collection.payment_mint.is_zero() {
        return Err(CustomError::ExpectedLamportsPayment);
    }
    if !accounts.owner.same(&collection.owner) {
        return Err(CustomError::InvalidOwner);
    }
    if !accounts.app_royalty.same(royalty_key) {
        return Err(CustomError::InvalidRoyaltyAccount);
    }
    if !indexes_below(trait_indexes, collection.prices.len()) {
        return Err(CustomError::InvalidTraitIndex);
    }
    let total_price: u64 = match unpaid_total(&collection.prices, purchases, trait_indexes) {
        Ok(t) => t,
        Err(e) => {
            return Err(e);
        },
    };
    settle(total_price, commission_bps, accounts.purchaser_lamports)
}

/// Prices a purchase of `trait_indexes` in the list's token and validates it,
/// including the token and the owner of each of the four token accounts.
/// Indices that `purchases` already holds cost nothing. Nothing is
/// transferred or recorded here: on `Ok`, the caller makes the transfers of
/// [`payouts`], commission included, and then commits the indices with
/// [`UserPurchases::record_purchase`].
pub fn token_purchase(
    accounts: &TokenPurchase,
    collection: &CollectionPricesData,
    purchases: &UserPurchases,
    royalty_key: &Address,
    trait_indexes: &Vec<u16>,
    commission_bps: u16,
) -> (r: Result<Settlement, CustomError>)
    ensures
        r == match token_refusal(*accounts, *collection, *royalty_key, trait_indexes@, commission_bps) {
            Some(e) => Err(e),
            None => settle_spec(
                unpaid_sum(collection.prices@, *purchases, trait_indexes@),
                commission_bps as int,
                accounts.purchaser_token_account.amount as int,
            ),
        },
{
    if trait_indexes.len() == 0 {
        return Err(CustomError::NoTraitsSelected);
    }
    if commission_bps > MAX_COMMISSION_BPS {
        return Err(CustomError::CommissionTooHigh);
    }
    let mint_key: &Address = &collection.payment_mint;
    if mint_key.is_zero() {
        return Err(CustomError::ExpectedTokenPayment);
    }
    if !accounts.purchaser_token_account.mint.same(mint_key)
        || !accounts.owner_token_account.mint.same(mint_key)
        || !accounts.royalty_token_account.mint.same(mint_key)
        || !accounts.commission_token_account.mint.same(mint_key) {
        return Err(CustomError::InvalidTokenMint);
    }
    if !accounts.purchaser_token_account.owner.same(&accounts.purchase_signer)
        || !accounts.owner_token_account.owner.same(&accounts.owner)
        || !accounts.royalty_token_account.owner.same(royalty_key) {
        return Err(CustomError::InvalidTokenOwner);
    }
    if !accounts.owner.same(&collection.owner) {
        return Err(CustomError::InvalidOwner);
    }
    if !indexes_below(trait_indexes, collection.prices.len()) {
        return Err(CustomError::InvalidTraitIndex);
    }
    let total_price: u64 = match unpaid_total(&collection.prices, purchases, trait_indexes) {
        Ok(t) => t,
        Err(e) => {
            return Err(e);
        },
    };
    settle(total_price, commission_bps, accounts.purchaser_token_account.amount)
}

/// The transfers that settle `split`, in the order they are made. The
/// commission is transferred only where `pay_commission` says that it has a
/// recipient: a native-currency purchase whose commission wallet is the
/// all-zero identity charges the commission but transfers it to no one.
pub fn payouts(split: &Split, pay_commission: bool) -> (r: Vec<Payout>)
    ensures
        r@ == payouts_of(*split, pay_commission),
        !pay_commission ==> forall|k: int| 0 <= k < r@.len() ==> r@[k].to != Recipient::Commission,
{
    let mut r: Vec<Payout> = Vec::new();
    if split.royalty > 0 {
        r.push(Payout { to: Recipient::AppRoyalty, amount: split.royalty });
    }
    if split.owner_amount > 0 {
        r.push(Payout { to: Recipient::Owner, amount: split.owner_amount });
    }
    if split.commission > 0 && pay_commission {
        r.push(Payout { to: Recipient::Commission, amount: split.commission });
    }
    proof {
        assert(r@ =~= payouts_of(*split, pay_commission));
    }
    r
}

} // verus!
