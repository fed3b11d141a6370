//! Reasons for which an operation is rejected.

use vstd::prelude::*;

verus! {

/// Why an operation was rejected. A rejected operation changes nothing.
#[derive(Clone, Copy, PartialEq, Eq, Debug, Structural)]
pub enum Error {
    /// The payment sent with the call is below the required minimum.
    InsufficientPayment,
    /// A name of the wrong length, or a quest identifier that names no quest.
    InvalidInput,
    /// The caller does not hold the hero the call is about.
    NotOwner,
    /// No hero has the requested id.
    NotFound,
    /// Too little experience for a level-up, a hero already at the highest
    /// level, or a withdrawal larger than the treasury.
    InsufficientResource,
    /// The hero attempted a quest before its cooldown had passed.
    OnCooldown,
    /// The caller is not the designated owner of the ledger.
    Unauthorized,
}

impl Error {
    /// The reason reported to the caller of a rejected operation.
    pub open spec fn reason_text(self) -> Seq<char> {
        match self {
            Error::InsufficientPayment => "Payment below the required minimum"@,
            Error::InvalidInput => "Invalid name length or quest id"@,
            Error::NotOwner => "Not hero owner"@,
            Error::NotFound => "Hero does not exist"@,
            Error::InsufficientResource => "Not enough experience, level or balance"@,
            Error::OnCooldown => "Hero is resting. Try again later."@,
            Error::Unauthorized => "Caller is not the owner"@,
        }
    }

    /// Returns the reason to report for this rejection.
    pub fn reason(&self) -> (text: &'static str)
        ensures
            text@ == self.reason_text(),
    {
        match self {
            Error::InsufficientPayment => "Payment below the required minimum",
            Error::InvalidInput => "Invalid name length or quest id",
            Error::NotOwner => "Not hero owner",
            Error::NotFound => "Hero does not exist",
            Error::InsufficientResource => "Not enough experience, level or balance",
            Error::OnCooldown => "Hero is resting. Try again later.",
            Error::Unauthorized => "Caller is not the owner",
        }
    }
}

} // verus!
