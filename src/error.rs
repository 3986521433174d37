use vstd::prelude::*;

verus! {

/// Every way an operation of the ledger can fail.
#[derive(Clone, Copy, Debug, PartialEq, Eq, Structural)]
pub enum CustomError {
    /// Only the owner of a price list may modify it.
    Unauthorized,
    /// A replacement price list must have the length of the current one.
    PriceLengthMismatch,
    /// The creator cannot cover the storage cost of a new price list.
    InsufficientFundsForRent,
    /// A requested trait index is not below the size of the price list.
    InvalidTraitIndex,
    /// A checked arithmetic step overflowed.
    Overflow,
    /// A price list was created without prices.
    EmptyPriceList,
    /// A token account was not supplied.
    MissingTokenAccount,
    /// The token program was not supplied.
    MissingTokenProgram,
    /// A token holding is not denominated in the list's payment token.
    InvalidTokenMint,
    /// A token holding is not owned by the identity it must belong to.
    InvalidTokenOwner,
    /// The list is priced in a token; the native path was called.
    ExpectedLamportsPayment,
    /// The list is priced in the native currency; the token path was called.
    ExpectedTokenPayment,
    /// A purchase named no trait index.
    NoTraitsSelected,
    /// The supplied owner is not the owner of the price list.
    InvalidOwner,
    /// The payer's balance is below the amount due.
    InsufficientFunds,
    /// The commission rate is above the maximum.
    CommissionTooHigh,
    /// The supplied royalty recipient is not the platform's royalty identity.
    InvalidRoyaltyAccount,
}

impl CustomError {
    /// The human-readable message of the error.
    pub fn message(&self) -> (r: &'static str)
        ensures
            r@ == match *self {
                CustomError::Unauthorized => "Unauthorized: only the owner can modify prices"@,
                CustomError::PriceLengthMismatch => "New prices array length must match existing"@,
                CustomError::InsufficientFundsForRent => "Wallet has insufficient funds to create Collection."@,
                CustomError::InvalidTraitIndex => "Trait index is out of bounds."@,
                CustomError::Overflow => "Overflow during price calculation."@,
                CustomError::EmptyPriceList => "Empty price list sent as parameter."@,
                CustomError::MissingTokenAccount => "Missing Token Account."@,
                CustomError::MissingTokenProgram => "Missing Token Program."@,
                CustomError::InvalidTokenMint => "Invalid Purchase Mint Token."@,
                CustomError::InvalidTokenOwner => "Invalid Owner Mint Token."@,
                CustomError::ExpectedLamportsPayment => "Expected Lamport Payment Call."@,
                CustomError::ExpectedTokenPayment => "Expected Token Payment Call."@,
                CustomError::NoTraitsSelected => "No Traits Were Selected to purchase."@,
                CustomError::InvalidOwner => "Invalid Collection Owner."@,
                CustomError::InsufficientFunds => "Purchase failed, Insufficient funds."@,
                CustomError::CommissionTooHigh => "Comission too high, Set to max 70%."@,
                CustomError::InvalidRoyaltyAccount => "Invalid royalty account provided."@,
            },
    {
        match self {
            CustomError::Unauthorized => "Unauthorized: only the owner can modify prices",
            CustomError::PriceLengthMismatch => "New prices array length must match existing",
            CustomError::InsufficientFundsForRent => "Wallet has insufficient funds to create Collection.",
            CustomError::InvalidTraitIndex => "Trait index is out of bounds.",
            CustomError::Overflow => "Overflow during price calculation.",
            CustomError::EmptyPriceList => "Empty price list sent as parameter.",
            CustomError::MissingTokenAccount => "Missing Token Account.",
            CustomError::MissingTokenProgram => "Missing Token Program.",
            CustomError::InvalidTokenMint => "Invalid Purchase Mint Token.",
            CustomError::InvalidTokenOwner => "Invalid Owner Mint Token.",
            CustomError::ExpectedLamportsPayment => "Expected Lamport Payment Call.",
            CustomError::ExpectedTokenPayment => "Expected Token Payment Call.",
            CustomError::NoTraitsSelected => "No Traits Were Selected to purchase.",
            CustomError::InvalidOwner => "Invalid Collection Owner.",
            CustomError::InsufficientFunds => "Purchase failed, Insufficient funds.",
            CustomError::CommissionTooHigh => "Comission too high, Set to max 70%.",
            CustomError::InvalidRoyaltyAccount => "Invalid royalty account provided.",
        }
    }
}

} // verus!
