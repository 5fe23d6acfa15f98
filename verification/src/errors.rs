use vstd::prelude::*;

verus! {

/// Why this module declined a request. Every error is a request-level
/// decline: the operation returns it synchronously and mutates nothing.
#[derive(Clone, Copy, Debug, PartialEq, Eq, Structural)]
pub enum Error {
    /// The id space is exhausted: the counter holds the id type's maximum.
    KittiesCountOverflow,
    /// The caller is not the recorded owner of the referenced entity.
    NotOwner,
    /// Breeding was requested with two identical parent ids.
    SameParentIndex,
    /// The referenced id has no corresponding entity.
    InvalidKittyIndex,
    /// The caller's free balance cannot cover the creation deposit.
    ReserveFailed,
    /// A purchase was requested by the entity's current owner.
    BuyerIsOwner,
}

/// Why the currency ledger declined a balance movement.
#[derive(Clone, Copy, Debug, PartialEq, Eq, Structural)]
pub enum LedgerError {
    /// The paying account's free balance is below the requested amount.
    InsufficientBalance,
    /// The receiving account's holdings would exceed the balance type.
    Overflow,
}

/// The error a dispatched operation surfaces: either this module declined
/// the request, or the currency ledger declined the payment it required.
#[derive(Clone, Copy, Debug, PartialEq, Eq, Structural)]
pub enum DispatchError {
    Module(Error),
    Currency(LedgerError),
}

} // verus!
