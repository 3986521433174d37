use collection_prices::{
    initialize_collection, lamports_purchase, payouts, split_payment, token_purchase,
    unpaid_total, update_collection_price_token, update_payment_mint, update_prices, Address,
    CollectionPricesData, CustomError, LamportsPurchase, Payout, Recipient, Settlement, Split,
    TokenHolding, TokenPurchase, UserPurchases, MAX_COMMISSION_BPS,
};

fn key(b: u8) -> Address {
    Address::new([b; 32])
}

fn royalty_key() -> Address {
    key(9)
}

fn native_list(prices: Vec<u64>) -> CollectionPricesData {
    initialize_collection(key(1), 254, prices, Address::zero(), 1_000, 100).unwrap()
}

fn native_accounts(balance: u64, commission_wallet: Address) -> LamportsPurchase {
    LamportsPurchase {
        purchaser_lamports: balance,
        owner: key(1),
        app_royalty: royalty_key(),
        commission_wallet,
    }
}

fn holding(mint: Address, owner: Address, amount: u64) -> TokenHolding {
    TokenHolding { mint, owner, amount }
}

fn token_accounts(mint: Address, balance: u64) -> TokenPurchase {
    TokenPurchase {
        purchase_signer: key(5),
        owner: key(1),
        purchaser_token_account: holding(mint, key(5), balance),
        owner_token_account: holding(mint, key(1), 0),
        royalty_token_account: holding(mint, royalty_key(), 0),
        commission_token_account: holding(mint, key(6), 0),
    }
}

fn token_list(prices: Vec<u64>) -> CollectionPricesData {
    initialize_collection(key(1), 1, prices, key(7), 10, 10).unwrap()
}

#[test]
fn creation_sets_size_to_price_count() {
    let c = native_list(vec![100, 200, 50]);
    assert_eq!(c.size, 3);
    assert_eq!(c.prices, vec![100, 200, 50]);
    assert!(c.owner == key(1));
    assert!(c.payment_mint.is_zero());
    assert_eq!(c.bump, 254);
}

#[test]
fn creation_with_no_prices_fails() {
    let r = initialize_collection(key(1), 0, vec![], Address::zero(), 1_000, 100);
    assert_eq!(r.unwrap_err(), CustomError::EmptyPriceList);
}

#[test]
fn creation_without_rent_fails() {
    let r = initialize_collection(key(1), 0, vec![5], Address::zero(), 99, 100);
    assert_eq!(r.unwrap_err(), CustomError::InsufficientFundsForRent);
    let r = initialize_collection(key(1), 0, vec![], Address::zero(), 99, 100);
    assert_eq!(r.unwrap_err(), CustomError::EmptyPriceList);
}

#[test]
fn replacing_prices_with_other_length_fails() {
    let mut c = native_list(vec![100, 200, 50]);
    let r = update_prices(&mut c, &key(1), vec![1, 2]);
    assert_eq!(r, Err(CustomError::PriceLengthMismatch));
    assert_eq!(c.prices, vec![100, 200, 50]);
    let r = update_collection_price_token(&mut c, &key(1), vec![1, 2, 3, 4], key(7));
    assert_eq!(r, Err(CustomError::PriceLengthMismatch));
    assert!(c.payment_mint.is_zero());
}

#[test]
fn replacing_prices_with_same_length_updates_values() {
    let mut c = native_list(vec![100, 200, 50]);
    assert_eq!(update_prices(&mut c, &key(1), vec![1, 2, 3]), Ok(()));
    assert_eq!(c.prices, vec![1, 2, 3]);
    assert_eq!(c.size, 3);
    assert!(c.payment_mint.is_zero());
    assert!(c.owner == key(1));
}

#[test]
fn replacing_prices_and_currency() {
    let mut c = native_list(vec![100, 200, 50]);
    assert_eq!(update_collection_price_token(&mut c, &key(1), vec![4, 5, 6], key(7)), Ok(()));
    assert_eq!(c.prices, vec![4, 5, 6]);
    assert!(c.payment_mint == key(7));
    assert_eq!(c.size, 3);
}

#[test]
fn only_owner_may_modify() {
    let mut c = native_list(vec![100, 200, 50]);
    assert_eq!(update_prices(&mut c, &key(2), vec![1, 2, 3]), Err(CustomError::Unauthorized));
    assert_eq!(update_payment_mint(&mut c, &key(2), key(7)), Err(CustomError::Unauthorized));
    assert_eq!(
        update_collection_price_token(&mut c, &key(2), vec![1], key(7)),
        Err(CustomError::Unauthorized)
    );
    assert_eq!(c.prices, vec![100, 200, 50]);
    assert!(c.payment_mint.is_zero());
}

#[test]
fn changing_currency_keeps_prices() {
    let mut c = native_list(vec![100, 200, 50]);
    assert_eq!(update_payment_mint(&mut c, &key(1), key(7)), Ok(()));
    assert!(c.payment_mint == key(7));
    assert_eq!(c.prices, vec![100, 200, 50]);
    assert_eq!(update_payment_mint(&mut c, &key(1), Address::zero()), Ok(()));
    assert!(c.payment_mint.is_zero());
}

#[test]
fn bitmask_has_and_set() {
    let mut p = UserPurchases::new();
    assert!(!p.has(0));
    assert!(!p.has(65535));
    p.record_purchase(10, &vec![]);
    assert_eq!(p.data.len(), 2);
    p.set(9);
    assert!(p.has(9));
    assert!(!p.has(8));
    assert_eq!(p.data, vec![0, 2]);
    p.set(0);
    p.set(7);
    assert_eq!(p.data, vec![0x81, 2]);
    assert!(!p.has(16));
}

#[test]
fn record_space_rounds_up() {
    assert_eq!(UserPurchases::space(0), 4);
    assert_eq!(UserPurchases::space(1), 5);
    assert_eq!(UserPurchases::space(8), 5);
    assert_eq!(UserPurchases::space(9), 6);
    assert_eq!(UserPurchases::space(65535), 4 + 8192);
}

#[test]
fn price_list_storage_size() {
    assert_eq!(CollectionPricesData::dynamic_size(0), 78);
    assert_eq!(CollectionPricesData::dynamic_size(3), 102);
}

#[test]
fn split_example() {
    let s = split_payment(150, 1000).unwrap();
    assert_eq!(
        s,
        Split { total: 150, royalty: 3, owner_amount: 147, commission: 15, amount_due: 165 }
    );
}

#[test]
fn split_parts_make_up_total() {
    for total in [0u64, 1, 39, 40, 41, 399, 400, 12_345, u64::MAX / 7000] {
        let s = split_payment(total, 7000).unwrap();
        assert_eq!(s.royalty + s.owner_amount, total);
        assert_eq!(s.amount_due, total + s.commission);
        assert_eq!(s.commission, total * 7000 / 10_000);
    }
}

#[test]
fn split_without_commission() {
    let s = split_payment(1000, 0).unwrap();
    assert_eq!(s.commission, 0);
    assert_eq!(s.amount_due, 1000);
    assert_eq!(s.royalty, 25);
    assert_eq!(s.owner_amount, 975);
}

#[test]
fn split_overflow() {
    assert_eq!(split_payment(u64::MAX / 250 + 1, 0), Err(CustomError::Overflow));
    let total = u64::MAX / 250;
    let s = split_payment(total, 0).unwrap();
    assert_eq!(s.royalty, total * 250 / 10_000);
    assert_eq!(s.owner_amount, total - s.royalty);
    assert_eq!(split_payment(u64::MAX / 7000 + 1, 7000), Err(CustomError::Overflow));
    assert!(split_payment(u64::MAX / 7000 + 1, 0).is_ok());
}

#[test]
fn payouts_skip_zero_amounts() {
    let s = Split { total: 150, royalty: 3, owner_amount: 147, commission: 15, amount_due: 165 };
    assert_eq!(
        payouts(&s, true),
        vec![
            Payout { to: Recipient::AppRoyalty, amount: 3 },
            Payout { to: Recipient::Owner, amount: 147 },
            Payout { to: Recipient::Commission, amount: 15 },
        ]
    );
    assert_eq!(
        payouts(&s, false),
        vec![
            Payout { to: Recipient::AppRoyalty, amount: 3 },
            Payout { to: Recipient::Owner, amount: 147 },
        ]
    );
    let s = split_payment(39, 0).unwrap();
    assert_eq!(payouts(&s, true), vec![Payout { to: Recipient::Owner, amount: 39 }]);
}

#[test]
fn native_purchase_example_then_repurchase() {
    let c = native_list(vec![100, 200, 50]);
    let mut p = UserPurchases::new();
    let acc = native_accounts(1_000, key(6));
    let first = vec![0u16, 2];
    let r = lamports_purchase(&acc, &c, &p, &royalty_key(), &first, 1000).unwrap();
    assert_eq!(
        r,
        Settlement::Pay(Split { total: 150, royalty: 3, owner_amount: 147, commission: 15, amount_due: 165 })
    );
    p.record_purchase(c.size, &first);
    assert!(p.has(0));
    assert!(!p.has(1));
    assert!(p.has(2));

    let later = vec![0u16, 1, 2];
    let r = lamports_purchase(&acc, &c, &p, &royalty_key(), &later, 1000).unwrap();
    match r {
        Settlement::Pay(s) => assert_eq!(s.total, 200),
        Settlement::NothingDue => panic!("index 1 is still owed"),
    }
    p.record_purchase(c.size, &later);
    let r = lamports_purchase(&acc, &c, &p, &royalty_key(), &later, 1000).unwrap();
    assert_eq!(r, Settlement::NothingDue);
}

#[test]
fn unpaid_total_counts_duplicates() {
    let p = UserPurchases::new();
    assert_eq!(unpaid_total(&vec![100, 200, 50], &p, &vec![1, 1]), Ok(400));
    assert_eq!(unpaid_total(&vec![u64::MAX, 1], &p, &vec![0, 1]), Err(CustomError::Overflow));
    assert_eq!(unpaid_total(&vec![u64::MAX, 1], &p, &vec![0]), Ok(u64::MAX));
}

#[test]
fn native_commission_without_wallet_is_owed_but_not_sent() {
    let c = native_list(vec![100, 200, 50]);
    let p = UserPurchases::new();
    let short = native_accounts(150, Address::zero());
    assert!(!short.pays_commission());
    assert_eq!(
        lamports_purchase(&short, &c, &p, &royalty_key(), &vec![0, 2], 1000),
        Err(CustomError::InsufficientFunds)
    );
    let acc = native_accounts(165, Address::zero());
    let r = lamports_purchase(&acc, &c, &p, &royalty_key(), &vec![0, 2], 1000).unwrap();
    let split = Split { total: 150, royalty: 3, owner_amount: 147, commission: 15, amount_due: 165 };
    assert_eq!(r, Settlement::Pay(split));
    assert_eq!(
        payouts(&split, acc.pays_commission()),
        vec![
            Payout { to: Recipient::AppRoyalty, amount: 3 },
            Payout { to: Recipient::Owner, amount: 147 },
        ]
    );
    assert!(native_accounts(165, key(6)).pays_commission());
}

#[test]
fn native_validation_errors() {
    let c = native_list(vec![100, 200, 50]);
    let p = UserPurchases::new();
    let acc = native_accounts(1_000, key(6));
    let rk = royalty_key();
    assert_eq!(lamports_purchase(&acc, &c, &p, &rk, &vec![], 0), Err(CustomError::NoTraitsSelected));
    assert_eq!(
        lamports_purchase(&acc, &c, &p, &rk, &vec![0], MAX_COMMISSION_BPS + 1),
        Err(CustomError::CommissionTooHigh)
    );
    assert!(lamports_purchase(&acc, &c, &p, &rk, &vec![0], MAX_COMMISSION_BPS).is_ok());
    assert_eq!(lamports_purchase(&acc, &c, &p, &rk, &vec![0, 3], 0), Err(CustomError::InvalidTraitIndex));
    let wrong_owner = LamportsPurchase { owner: key(2), ..acc };
    assert_eq!(lamports_purchase(&wrong_owner, &c, &p, &rk, &vec![0], 0), Err(CustomError::InvalidOwner));
    let wrong_royalty = LamportsPurchase { app_royalty: key(8), ..acc };
    assert_eq!(
        lamports_purchase(&wrong_royalty, &c, &p, &rk, &vec![0], 0),
        Err(CustomError::InvalidRoyaltyAccount)
    );
    let poor = native_accounts(164, key(6));
    assert_eq!(lamports_purchase(&poor, &c, &p, &rk, &vec![0, 2], 1000), Err(CustomError::InsufficientFunds));
    let exact = native_accounts(165, key(6));
    assert!(lamports_purchase(&exact, &c, &p, &rk, &vec![0, 2], 1000).is_ok());
}

#[test]
fn native_path_on_token_list_fails() {
    let c = token_list(vec![100, 200, 50]);
    let p = UserPurchases::new();
    let acc = native_accounts(1_000, key(6));
    assert_eq!(
        lamports_purchase(&acc, &c, &p, &royalty_key(), &vec![0], 0),
        Err(CustomError::ExpectedLamportsPayment)
    );
}

#[test]
fn token_purchase_charges_commission_unconditionally() {
    let c = token_list(vec![100, 200, 50]);
    let p = UserPurchases::new();
    let acc = token_accounts(key(7), 1_000);
    let r = token_purchase(&acc, &c, &p, &royalty_key(), &vec![0, 2], 1000).unwrap();
    assert_eq!(
        r,
        Settlement::Pay(Split { total: 150, royalty: 3, owner_amount: 147, commission: 15, amount_due: 165 })
    );
}

#[test]
fn token_validation_errors() {
    let c = token_list(vec![100, 200, 50]);
    let p = UserPurchases::new();
    let rk = royalty_key();
    let acc = token_accounts(key(7), 1_000);
    assert_eq!(token_purchase(&acc, &c, &p, &rk, &vec![], 0), Err(CustomError::NoTraitsSelected));
    assert_eq!(token_purchase(&acc, &c, &p, &rk, &vec![0], 7001), Err(CustomError::CommissionTooHigh));
    let native = native_list(vec![1]);
    assert_eq!(token_purchase(&acc, &native, &p, &rk, &vec![0], 0), Err(CustomError::ExpectedTokenPayment));
    let mut bad_mint = acc;
    bad_mint.commission_token_account.mint = key(8);
    assert_eq!(token_purchase(&bad_mint, &c, &p, &rk, &vec![0], 0), Err(CustomError::InvalidTokenMint));
    let mut bad_owner = acc;
    bad_owner.royalty_token_account.owner = key(8);
    assert_eq!(token_purchase(&bad_owner, &c, &p, &rk, &vec![0], 0), Err(CustomError::InvalidTokenOwner));
    let mut other_owner = acc;
    other_owner.owner = key(2);
    other_owner.owner_token_account.owner = key(2);
    assert_eq!(token_purchase(&other_owner, &c, &p, &rk, &vec![0], 0), Err(CustomError::InvalidOwner));
    assert_eq!(token_purchase(&acc, &c, &p, &rk, &vec![3], 0), Err(CustomError::InvalidTraitIndex));
    let poor = token_accounts(key(7), 10);
    assert_eq!(token_purchase(&poor, &c, &p, &rk, &vec![1], 0), Err(CustomError::InsufficientFunds));
}

#[test]
fn purchase_overflow() {
    let c = native_list(vec![u64::MAX, 1]);
    let p = UserPurchases::new();
    let acc = native_accounts(u64::MAX, key(6));
    assert_eq!(lamports_purchase(&acc, &c, &p, &royalty_key(), &vec![0, 1], 0), Err(CustomError::Overflow));
    assert_eq!(lamports_purchase(&acc, &c, &p, &royalty_key(), &vec![0], 0), Err(CustomError::Overflow));
}

#[test]
fn error_messages() {
    assert_eq!(CustomError::CommissionTooHigh.message(), "Comission too high, Set to max 70%.");
    assert_eq!(CustomError::Unauthorized.message(), "Unauthorized: only the owner can modify prices");
    assert_eq!(CustomError::InsufficientFunds.message(), "Purchase failed, Insufficient funds.");
}

#[test]
fn payouts_move_the_amount_due() {
    for (total, bps) in [(150u64, 1000u16), (39, 0), (1, 7000), (10_000, 7000), (0, 100)] {
        let s = split_payment(total, bps).unwrap();
        let moved: u64 = payouts(&s, true).iter().map(|p| p.amount).sum();
        assert_eq!(moved, s.amount_due);
        let moved: u64 = payouts(&s, false).iter().map(|p| p.amount).sum();
        assert_eq!(moved, s.total);
    }
}

#[test]
fn record_purchase_keeps_earlier_bits() {
    let mut p = UserPurchases::new();
    p.record_purchase(3, &vec![2]);
    assert_eq!(p.data, vec![4]);
    p.record_purchase(3, &vec![0, 0]);
    assert_eq!(p.data, vec![5]);
    assert!(p.has(0) && !p.has(1) && p.has(2));
    let mut wide = UserPurchases { data: vec![0, 0, 0] };
    wide.record_purchase(3, &vec![1]);
    assert_eq!(wide.data, vec![2, 0, 0]);
}

#[test]
fn duplicate_indices_in_one_request_are_charged_each_time() {
    let c = native_list(vec![100, 200, 50]);
    let p = UserPurchases::new();
    let acc = native_accounts(1_000, Address::zero());
    let r = lamports_purchase(&acc, &c, &p, &royalty_key(), &vec![1, 1], 0).unwrap();
    match r {
        Settlement::Pay(s) => assert_eq!(s.total, 400),
        Settlement::NothingDue => panic!("the request owes 400"),
    }
}
