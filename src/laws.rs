use vstd::prelude::*;
use vstd::arithmetic::div_mod::lemma_add_mod_noop_right;
use crate::accounts::{CounterError, Create};
use crate::instructions::{after_step, create_outcome, created, delta, modulus, wrap, Step};

verus! {

/// The counter after applying `steps` in order, starting from `c`.
pub open spec fn run(c: u64, steps: Seq<Step>) -> u64
    decreases steps.len(),
{
    if steps.len() == 0 {
        c
    } else {
        run(after_step(c, steps[0]), steps.drop_first())
    }
}

/// The sum of the signed changes that `steps` make.
pub open spec fn total(steps: Seq<Step>) -> int
    decreases steps.len(),
{
    if steps.len() == 0 {
        0
    } else {
        delta(steps[0]) + total(steps.drop_first())
    }
}

/// Any sequence of increments and decrements leaves the counter at its start
/// value plus the sum of the unit changes, modulo 2^64: it wraps, it never
/// saturates.
pub proof fn lemma_steps_sum(c: u64, steps: Seq<Step>)
    ensures
        run(c, steps) == wrap(c + total(steps)),
    decreases steps.len(),
{
    if steps.len() == 0 {
        assert((c as int) % modulus() == c as int) by {
            vstd::arithmetic::div_mod::lemma_small_mod(c as nat, modulus() as nat);
        }
    } else {
        let rest = steps.drop_first();
        let x = c + delta(steps[0]);
        lemma_steps_sum(after_step(c, steps[0]), rest);
        lemma_add_mod_noop_right(total(rest), x, modulus());
        assert(total(rest) + x == c + total(steps));
    }
}

/// `create` is not idempotent: once a first call has returned, a second
/// call with the same rent on the accounts it left fails, and after a first
/// call that succeeded it fails because the account is already in use.
pub proof fn lemma_create_twice_fails(ctx: Create, rent: u64)
    ensures
        ({
            let after = if create_outcome(ctx, rent) is Ok {
                created(ctx, rent)
            } else {
                ctx
            };
            &&& create_outcome(after, rent) is Err
            &&& create_outcome(ctx, rent) is Ok ==> create_outcome(after, rent) == Err::<
                (),
                CounterError,
            >(CounterError::AccountAlreadyInUse)
        }),
{
}

/// Decrementing a counter at zero wraps to `u64::MAX` instead of failing.
pub proof fn lemma_decrement_from_zero_wraps()
    ensures
        after_step(0, Step::Down) == u64::MAX,
{
    assert((-1int) % modulus() == modulus() - 1);
}

} // verus!
