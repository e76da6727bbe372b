use vstd::prelude::*;
use crate::records::{
    Counter, ProgramError, TradeState, increment_step, init_counter_step, init_trades_step,
    trade_step,
};

verus! {

/// The counter slot after `n` increments in a row starting from `slot`, and
/// whether every one of them succeeded.
pub open spec fn increments(slot: Option<Counter>, n: nat) -> (Option<Counter>, bool)
    decreases n,
{
    if n == 0 {
        (slot, true)
    } else {
        let (s, ok) = increments(slot, (n - 1) as nat);
        let (next, r) = increment_step(s);
        (next, ok && r is Ok)
    }
}

/// The trade tally slot after one trade for each of `amounts`, in order,
/// starting from `slot`, and whether every one of them succeeded.
pub open spec fn trades(slot: Option<TradeState>, amounts: Seq<u64>) -> (Option<TradeState>, bool)
    decreases amounts.len(),
{
    if amounts.len() == 0 {
        (slot, true)
    } else {
        let (s, ok) = trades(slot, amounts.drop_last());
        let (next, r) = trade_step(s, amounts.last());
        (next, ok && r is Ok)
    }
}

/// After a counter is initialized, `n` increments in a row all succeed as long
/// as `n` fits in a `u64`, and when all of them succeed the value is `n`.
pub proof fn counter_counts_increments(n: nat)
    ensures
        n <= u64::MAX ==> increments(init_counter_step(None).0, n).1,
        increments(init_counter_step(None).0, n).1 ==> n <= u64::MAX && increments(
            init_counter_step(None).0,
            n,
        ).0 == Some(Counter { value: n as u64 }),
    decreases n,
{
    if n > 0 {
        counter_counts_increments((n - 1) as nat);
    }
}

/// After a trade tally is initialized, recording one trade per amount in a
/// row succeeds throughout as long as the number of trades fits in a `u64`;
/// when all succeed the count is the number of trades and the last amount is
/// that of the most recent trade (zero where there was none).
pub proof fn tally_counts_trades(amounts: Seq<u64>)
    ensures
        amounts.len() <= u64::MAX ==> trades(init_trades_step(None).0, amounts).1,
        trades(init_trades_step(None).0, amounts).1 ==> amounts.len() <= u64::MAX && trades(
            init_trades_step(None).0,
            amounts,
        ).0 == Some(
            TradeState {
                count: amounts.len() as u64,
                last_amount: if amounts.len() == 0 {
                    0u64
                } else {
                    amounts.last()
                },
            },
        ),
    decreases amounts.len(),
{
    if amounts.len() > 0 {
        tally_counts_trades(amounts.drop_last());
    }
}

/// Initializing a counter slot a second time fails with `AlreadyInitialized`
/// and leaves the slot as the first call left it.
pub proof fn counter_init_twice_fails(slot: Option<Counter>)
    ensures
        init_counter_step(init_counter_step(slot).0) == (
            init_counter_step(slot).0,
            Err::<(), ProgramError>(ProgramError::AlreadyInitialized),
        ),
{
}

/// Initializing a trade tally slot a second time fails with
/// `AlreadyInitialized` and leaves the slot as the first call left it.
pub proof fn tally_init_twice_fails(slot: Option<TradeState>)
    ensures
        init_trades_step(init_trades_step(slot).0) == (
            init_trades_step(slot).0,
            Err::<(), ProgramError>(ProgramError::AlreadyInitialized),
        ),
{
}

/// Incrementing or recording a trade where no record was initialized fails
/// with `NotFound` and creates nothing.
pub proof fn update_before_init_fails(amount: u64)
    ensures
        increment_step(None) == (None::<Counter>, Err::<(), ProgramError>(ProgramError::NotFound)),
        trade_step(None, amount) == (
            None::<TradeState>,
            Err::<(), ProgramError>(ProgramError::NotFound),
        ),
{
}

/// Incrementing a counter already at the largest `u64` fails with `Overflow`
/// and leaves the value as it was.
pub proof fn increment_at_max_fails()
    ensures
        increment_step(Some(Counter { value: u64::MAX })) == (
            Some(Counter { value: u64::MAX }),
            Err::<(), ProgramError>(ProgramError::Overflow),
        ),
{
}

} // verus!
