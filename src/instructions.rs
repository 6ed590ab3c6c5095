use vstd::prelude::*;
use crate::accounts::{AccountSlot, BaseAccount, CounterError, Create, Decrement, Increment, Payer};

verus! {

/// The number of values a counter can hold; its arithmetic is modulo this.
pub open spec fn modulus() -> int {
    0x1_0000_0000_0000_0000
}

/// The counter value that stands for the integer `i`.
pub open spec fn wrap(i: int) -> u64 {
    (i % modulus()) as u64
}

/// One change of a counter by a single instruction.
#[derive(Clone, Copy, Debug, PartialEq, Eq, Structural)]
pub enum Step {
    Up,
    Down,
}

/// The signed change that a step makes.
pub open spec fn delta(s: Step) -> int {
    match s {
        Step::Up => 1,
        Step::Down => -1,
    }
}

/// The counter after one step.
pub open spec fn after_step(c: u64, s: Step) -> u64 {
    wrap(c + delta(s))
}

/// The outcome of `create` on the given accounts, with `rent` the balance
/// that the new account's storage needs.
pub open spec fn create_outcome(ctx: Create, rent: u64) -> Result<(), CounterError> {
    if !ctx.user.is_signer {
        Err(CounterError::MissingRequiredSignature)
    } else if ctx.base_account@ is Some {
        Err(CounterError::AccountAlreadyInUse)
    } else if ctx.user.lamports < rent {
        Err(CounterError::InsufficientFunds)
    } else {
        Ok(())
    }
}

/// The accounts after a successful `create`: a counter at zero, paid for by the user.
pub open spec fn created(ctx: Create, rent: u64) -> Create {
    Create {
        base_account: AccountSlot::Initialized(BaseAccount { count: 0 }),
        user: Payer { is_signer: ctx.user.is_signer, lamports: (ctx.user.lamports - rent) as u64 },
    }
}

/// Creates a counter at zero in `ctx.base_account`, paid for by `ctx.user`.
///
/// `rent` is the balance that the host asks for the account's storage.
pub fn create(ctx: &mut Create, rent: u64) -> (r: Result<(), CounterError>)
    ensures
        r == create_outcome(*old(ctx), rent),
        r is Ok ==> *final(ctx) == created(*old(ctx), rent),
        r is Ok ==> final(ctx).base_account@ == Some(0u64),
        r is Err ==> *final(ctx) == *old(ctx),
{
    if !ctx.user.is_signer {
        return Err(CounterError::MissingRequiredSignature);
    }
    if ctx.base_account.is_initialized() {
        return Err(CounterError::AccountAlreadyInUse);
    }
    if ctx.user.lamports < rent {
        return Err(CounterError::InsufficientFunds);
    }
    ctx.user.lamports = ctx.user.lamports - rent;
    ctx.base_account = AccountSlot::Initialized(BaseAccount { count: 0 });
    Ok(())
}

/// Adds one to the counter, wrapping at the top of `u64`.
pub fn increment(ctx: &mut Increment) -> (r: Result<(), CounterError>)
    ensures
        match old(ctx).base_account@ {
            None => r == Err::<(), CounterError>(CounterError::AccountNotInitialized)
                && *final(ctx) == *old(ctx),
            Some(c) => r is Ok && final(ctx).base_account@ == Some(after_step(c, Step::Up)),
        },
{
    match &mut ctx.base_account {
        AccountSlot::Uninitialized => Err(CounterError::AccountNotInitialized),
        AccountSlot::Initialized(a) => {
            a.count = a.count.wrapping_add(1);
            Ok(())
        },
    }
}

/// Takes one from the counter, wrapping below zero to `u64::MAX`.
pub fn decrement(ctx: &mut Decrement) -> (r: Result<(), CounterError>)
    ensures
        match old(ctx).base_account@ {
            None => r == Err::<(), CounterError>(CounterError::AccountNotInitialized)
                && *final(ctx) == *old(ctx),
            Some(c) => r is Ok && final(ctx).base_account@ == Some(after_step(c, Step::Down)),
        },
{
    match &mut ctx.base_account {
        AccountSlot::Uninitialized => Err(CounterError::AccountNotInitialized),
        AccountSlot::Initialized(a) => {
            a.count = a.count.wrapping_sub(1);
            Ok(())
        },
    }
}

} // verus!
