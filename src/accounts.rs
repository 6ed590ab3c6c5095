use vstd::prelude::*;

verus! {

/// Bytes reserved for a counter account: the framework's discriminator and
/// bookkeeping, followed by the counter itself.
pub const ACCOUNT_SPACE: usize = 32;

/// The state that a counter account persists.
#[derive(Clone, Copy, Debug, PartialEq, Eq, Structural)]
pub struct BaseAccount {
    pub count: u64,
}

/// A counter account as the host resolves it for an instruction.
#[derive(Clone, Copy, Debug, PartialEq, Eq, Structural)]
pub enum AccountSlot {
    /// No counter has been created in this account yet.
    Uninitialized,
    /// The account holds a counter.
    Initialized(BaseAccount),
}

/// The account that pays for a new counter's storage.
#[derive(Clone, Copy, Debug, PartialEq, Eq, Structural)]
pub struct Payer {
    /// Whether the account's key signed the enclosing transaction.
    pub is_signer: bool,
    /// The account's balance.
    pub lamports: u64,
}

/// The accounts of a `create` instruction.
#[derive(Clone, Copy, Debug, PartialEq, Eq, Structural)]
pub struct Create {
    pub base_account: AccountSlot,
    pub user: Payer,
}

/// The accounts of an `increment` instruction.
#[derive(Clone, Copy, Debug, PartialEq, Eq, Structural)]
pub struct Increment {
    pub base_account: AccountSlot,
}

/// The accounts of a `decrement` instruction.
#[derive(Clone, Copy, Debug, PartialEq, Eq, Structural)]
pub struct Decrement {
    pub base_account: AccountSlot,
}

/// Why an instruction was refused. A refused instruction changes nothing.
#[derive(Clone, Copy, Debug, PartialEq, Eq, Structural)]
pub enum CounterError {
    /// `create` on an account that already holds a counter.
    AccountAlreadyInUse,
    /// `increment` or `decrement` on an account that holds no counter.
    AccountNotInitialized,
    /// The paying account did not sign the transaction.
    MissingRequiredSignature,
    /// The paying account cannot fund the new account's storage.
    InsufficientFunds,
}

impl AccountSlot {
    /// The counter held by the slot, if any.
    pub open spec fn view(self) -> Option<u64> {
        match self {
            AccountSlot::Uninitialized => None,
            AccountSlot::Initialized(a) => Some(a.count),
        }
    }

    pub fn is_initialized(&self) -> (r: bool)
        ensures
            r == self@ is Some,
    {
        match self {
            AccountSlot::Uninitialized => false,
            AccountSlot::Initialized(_) => true,
        }
    }
}

} // verus!
