use vstd::prelude::*;

verus! {

/// An opaque participant identity. The hosting execution context issues these
/// tokens and resolves the caller of each operation; the ledger only ever
/// compares them for equality, so it carries them as plain integer tokens.
pub type AccountId = u64;

/// An asset amount.
pub type Balance = u128;

/// A point in time, in the same unit as campaign deadlines.
pub type Timestamp = u64;

/// Why a ledger operation was refused. Every refusal aborts the whole
/// operation: the ledger is left exactly as it was.
#[derive(Debug, Clone, Copy, PartialEq, Eq, Structural)]
pub enum Error {
    /// No campaign exists under the named creator, or a loan index is out of
    /// range.
    NotFound,
    /// The campaign has already been closed.
    CampaignClosed,
    /// The campaign's deadline has passed, so contributions are refused.
    DeadlinePassed,
    /// A campaign cannot be closed before its deadline.
    TooEarly,
    /// A withdrawal asked for more than the recorded balance.
    InsufficientBalance,
    /// An accepted amount would overflow the balance it accumulates into.
    ArithmeticOverflow,
}

/// One funding campaign. A creator identity owns at most one campaign at a
/// time; re-creating replaces the old record outright.
#[derive(Debug, Clone, Copy, PartialEq, Eq, Structural)]
pub struct Campaign {
    pub creator: AccountId,
    pub target_amount: Balance,
    /// Sum of all accepted contributions; never decreases while the campaign
    /// exists.
    pub current_amount: Balance,
    pub deadline: Timestamp,
    /// Set once by `close_campaign` and never unset.
    pub is_closed: bool,
}

/// One loan record. Loans are append-only and immutable; only the borrower
/// side of the relationship is tracked.
#[derive(Debug, Clone, Copy, PartialEq, Eq, Structural)]
pub struct Loan {
    pub borrower: AccountId,
    pub amount: Balance,
    pub interest_rate: u32,
    pub duration: u32,
    pub collateral: Balance,
}

/// One directed message, stored under the (sender, recipient) key. The
/// reverse direction is a distinct key: a conversation is read by querying
/// both directions.
#[derive(Debug, PartialEq, Eq)]
pub struct Message {
    pub sender: AccountId,
    pub recipient: AccountId,
    pub content: String,
}

impl Clone for Message {
    /// Cloning preserves the message exactly.
    fn clone(&self) -> (r: Self)
        ensures
            r == *self,
    {
        Message {
            sender: self.sender,
            recipient: self.recipient,
            content: self.content.clone(),
        }
    }
}

} // verus!
