use vstd::prelude::*;
use crate::records::{
    Counter, ProgramError, TradeState, increment_step, init_counter_step, init_trades_step,
    trade_step,
};

verus! {

/// The accounts of `init_counter`: the slot at the counter's address.
#[derive(Debug, Clone, Copy, PartialEq, Eq, Structural)]
pub struct InitCounter {
    pub counter: Option<Counter>,
}

/// The accounts of `increment`: the slot at the counter's address.
#[derive(Debug, Clone, Copy, PartialEq, Eq, Structural)]
pub struct Increment {
    pub counter: Option<Counter>,
}

/// The accounts of `init_trades`: the slot at the trade tally's address.
#[derive(Debug, Clone, Copy, PartialEq, Eq, Structural)]
pub struct InitTrades {
    pub trades: Option<TradeState>,
}

/// The accounts of `trade`: the slot at the trade tally's address.
#[derive(Debug, Clone, Copy, PartialEq, Eq, Structural)]
pub struct Trade {
    pub trades: Option<TradeState>,
}

/// Creates the counter record with value zero. Fails with
/// `AlreadyInitialized` where a record is already there.
pub fn init_counter(ctx: &mut InitCounter) -> (r: Result<(), ProgramError>)
    ensures
        (final(ctx).counter, r) == init_counter_step(old(ctx).counter),
        r is Ok <==> old(ctx).counter is None,
        r is Ok ==> final(ctx).counter == Some(Counter { value: 0 }),
        r is Err ==> r == Err::<(), ProgramError>(ProgramError::AlreadyInitialized)
            && final(ctx).counter == old(ctx).counter,
{
    match ctx.counter {
        Some(_) => Err(ProgramError::AlreadyInitialized),
        None => {
            ctx.counter = Some(Counter { value: 0 });
            Ok(())
        },
    }
}

/// Adds one to the counter. Fails with `NotFound` where no counter exists,
/// and with `Overflow` where its value is already the largest `u64`.
pub fn increment(ctx: &mut Increment) -> (r: Result<(), ProgramError>)
    ensures
        (final(ctx).counter, r) == increment_step(old(ctx).counter),
        r is Ok <==> old(ctx).counter is Some && old(ctx).counter->0.value < u64::MAX,
        r is Ok ==> final(ctx).counter == Some(
            Counter { value: (old(ctx).counter->0.value + 1) as u64 },
        ),
        old(ctx).counter is None ==> r == Err::<(), ProgramError>(ProgramError::NotFound),
        old(ctx).counter is Some && old(ctx).counter->0.value == u64::MAX ==> r == Err::<
            (),
            ProgramError,
        >(ProgramError::Overflow),
        r is Err ==> final(ctx).counter == old(ctx).counter,
{
    match ctx.counter {
        None => Err(ProgramError::NotFound),
        Some(c) => match c.incremented() {
            Ok(next) => {
                ctx.counter = Some(next);
                Ok(())
            },
            Err(e) => Err(e),
        },
    }
}

/// Creates the trade tally with a zero count and a zero last amount. Fails
/// with `AlreadyInitialized` where a record is already there.
pub fn init_trades(ctx: &mut InitTrades) -> (r: Result<(), ProgramError>)
    ensures
        (final(ctx).trades, r) == init_trades_step(old(ctx).trades),
        r is Ok <==> old(ctx).trades is None,
        r is Ok ==> final(ctx).trades == Some(TradeState { count: 0, last_amount: 0 }),
        r is Err ==> r == Err::<(), ProgramError>(ProgramError::AlreadyInitialized)
            && final(ctx).trades == old(ctx).trades,
{
    match ctx.trades {
        Some(_) => Err(ProgramError::AlreadyInitialized),
        None => {
            ctx.trades = Some(TradeState { count: 0, last_amount: 0 });
            Ok(())
        },
    }
}

/// Records a trade: adds one to the count and overwrites the last amount
/// with `amount`, whatever it is. Fails with `NotFound` where no tally
/// exists, and with `Overflow` where its count is already the largest `u64`.
pub fn trade(ctx: &mut Trade, amount: u64) -> (r: Result<(), ProgramError>)
    ensures
        (final(ctx).trades, r) == trade_step(old(ctx).trades, amount),
        r is Ok <==> old(ctx).trades is Some && old(ctx).trades->0.count < u64::MAX,
        r is Ok ==> final(ctx).trades == Some(
            TradeState { count: (old(ctx).trades->0.count + 1) as u64, last_amount: amount },
        ),
        old(ctx).trades is None ==> r == Err::<(), ProgramError>(ProgramError::NotFound),
        old(ctx).trades is Some && old(ctx).trades->0.count == u64::MAX ==> r == Err::<
            (),
            ProgramError,
        >(ProgramError::Overflow),
        r is Err ==> final(ctx).trades == old(ctx).trades,
{
    match ctx.trades {
        None => Err(ProgramError::NotFound),
        Some(t) => match t.recorded(amount) {
            Ok(next) => {
                ctx.trades = Some(next);
                Ok(())
            },
            Err(e) => Err(e),
        },
    }
}

/// The program's entry points: an initialize and an update for each
/// record.
#[derive(Debug, Clone, Copy, PartialEq, Eq, Structural)]
pub enum Instruction {
    InitializeCounter,
    IncrementCounter,
    InitializeTradeTally,
    RecordTrade { amount: u64 },
}

/// The records at the program's two derived addresses: the one tagged
/// "counter" and the one tagged "trades". `None` where no record exists.
#[derive(Debug, Clone, Copy, PartialEq, Eq, Structural)]
pub struct ProgramState {
    pub counter: Option<Counter>,
    pub trades: Option<TradeState>,
}

/// The state after `ix` runs against `s`, and the result it reports.
pub open spec fn process_step(s: ProgramState, ix: Instruction) -> (ProgramState, Result<(), ProgramError>) {
    match ix {
        Instruction::InitializeCounter => {
            let (c, r) = init_counter_step(s.counter);
            (ProgramState { counter: c, ..s }, r)
        },
        Instruction::IncrementCounter => {
            let (c, r) = increment_step(s.counter);
            (ProgramState { counter: c, ..s }, r)
        },
        Instruction::InitializeTradeTally => {
            let (t, r) = init_trades_step(s.trades);
            (ProgramState { trades: t, ..s }, r)
        },
        Instruction::RecordTrade { amount } => {
            let (t, r) = trade_step(s.trades, amount);
            (ProgramState { trades: t, ..s }, r)
        },
    }
}

impl ProgramState {
    /// No record at either address.
    pub fn new() -> (r: ProgramState)
        ensures
            r.counter is None,
            r.trades is None,
    {
        ProgramState { counter: None, trades: None }
    }

    /// Runs one instruction against the record it addresses. The other
    /// record is never touched, and a failed instruction changes nothing.
    pub fn process(&mut self, ix: Instruction) -> (r: Result<(), ProgramError>)
        ensures
            (*final(self), r) == process_step(*old(self), ix),
            r is Err ==> *final(self) == *old(self),
            ix is InitializeCounter || ix is IncrementCounter ==> final(self).trades == old(
                self,
            ).trades,
            ix is InitializeTradeTally || ix is RecordTrade ==> final(self).counter == old(
                self,
            ).counter,
    {
        match ix {
            Instruction::InitializeCounter => {
                let mut ctx = InitCounter { counter: self.counter };
                let r = init_counter(&mut ctx);
                self.counter = ctx.counter;
                r
            },
            Instruction::IncrementCounter => {
                let mut ctx = Increment { counter: self.counter };
                let r = increment(&mut ctx);
                self.counter = ctx.counter;
                r
            },
            Instruction::InitializeTradeTally => {
                let mut ctx = InitTrades { trades: self.trades };
                let r = init_trades(&mut ctx);
                self.trades = ctx.trades;
                r
            },
            Instruction::RecordTrade { amount } => {
                let mut ctx = Trade { trades: self.trades };
                let r = trade(&mut ctx, amount);
                self.trades = ctx.trades;
                r
            },
        }
    }
}

} // verus!
