use vstd::prelude::*;

verus! {

/// Every way a call into the ledgers can fail. A failed call changes nothing.
#[derive(Debug, Clone, Copy, PartialEq, Eq, Structural)]
pub enum ContractError {
    /// The caller is not the party the operation belongs to.
    Unauthorized,
    /// The seller tried to buy their own offering.
    InvalidBuyer,
    /// A listing price is not in the settlement denomination.
    WrongDenom,
    /// The attached funds do not hold exactly the asking price.
    InsufficientFunds,
    /// No offering is stored under the given id.
    NotFound,
    /// The collection has no aggregate yet.
    NotRegisteredCollection,
    /// A running total would leave the range of its integer type.
    Overflow,
    /// Minting has been switched off by the admin.
    MintingDisabled,
    /// The sale has not started yet.
    MintNotStarted,
    /// Every unit of the supply has been issued.
    SoldOut,
    /// The private sale is on and the caller holds no allowlist quota.
    NotAllowlisted,
    /// The caller has used up their per-address allowance.
    LimitExceeded,
    /// A paying caller attached an amount other than the active price.
    WrongAmount { expected: u128, got: u128 },
    /// The admin mints for free and attached a non-zero amount.
    OverpaidBySelf { got: u128 },
    /// The sale would start before the current time.
    InvalidStartTime { start: u64, now: u64 },
    /// The total supply is zero or above the largest supply accepted.
    InvalidNumTokens { min: u128, max: u128 },
    /// The per-address limit is zero or above the largest limit accepted.
    InvalidLimit { min: u128, max: u128, got: u128 },
    /// A callback arrived with an id that no pending instantiation uses.
    UnexpectedCallbackId { id: u64 },
    /// The asset registry could not be instantiated.
    AssetRegistryInstantiateFailed,
}

} // verus!
