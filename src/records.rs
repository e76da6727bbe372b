use vstd::prelude::*;

verus! {

/// The counter record: a single unsigned 64-bit value.
#[derive(Debug, Clone, Copy, PartialEq, Eq, Structural)]
pub struct Counter {
    pub value: u64,
}

/// The trade tally record: how many trades were recorded, and the amount of
/// the most recent one.
#[derive(Debug, Clone, Copy, PartialEq, Eq, Structural)]
pub struct TradeState {
    pub count: u64,
    pub last_amount: u64,
}

/// Why an operation failed. Every failure leaves the record untouched.
#[derive(Debug, Clone, Copy, PartialEq, Eq, Structural)]
pub enum ProgramError {
    /// An initialize operation found a record already at its address.
    AlreadyInitialized,
    /// An update operation found no record at its address.
    NotFound,
    /// An increment would go past the largest `u64`.
    Overflow,
}

/// The outcome of initializing a counter slot: the slot afterwards, and the
/// result reported.
pub open spec fn init_counter_step(slot: Option<Counter>) -> (Option<Counter>, Result<(), ProgramError>) {
    match slot {
        Some(_) => (slot, Err(ProgramError::AlreadyInitialized)),
        None => (Some(Counter { value: 0 }), Ok(())),
    }
}

/// The outcome of incrementing the counter in a slot.
pub open spec fn increment_step(slot: Option<Counter>) -> (Option<Counter>, Result<(), ProgramError>) {
    match slot {
        None => (slot, Err(ProgramError::NotFound)),
        Some(c) => if c.value == u64::MAX {
            (slot, Err(ProgramError::Overflow))
        } else {
            (Some(Counter { value: (c.value + 1) as u64 }), Ok(()))
        },
    }
}

/// The outcome of initializing a trade tally slot.
pub open spec fn init_trades_step(slot: Option<TradeState>) -> (Option<TradeState>, Result<(), ProgramError>) {
    match slot {
        Some(_) => (slot, Err(ProgramError::AlreadyInitialized)),
        None => (Some(TradeState { count: 0, last_amount: 0 }), Ok(())),
    }
}

/// The outcome of recording a trade of `amount` in a slot.
pub open spec fn trade_step(slot: Option<TradeState>, amount: u64) -> (Option<TradeState>, Result<(), ProgramError>) {
    match slot {
        None => (slot, Err(ProgramError::NotFound)),
        Some(t) => if t.count == u64::MAX {
            (slot, Err(ProgramError::Overflow))
        } else {
            (Some(TradeState { count: (t.count + 1) as u64, last_amount: amount }), Ok(()))
        },
    }
}

impl Counter {
    /// Bytes of storage a counter record takes: an 8-byte record header and
    /// the value.
    pub const SPACE: usize = 16;

    /// The counter one step on, or `Overflow` where the value is already the
    /// largest `u64`.
    pub fn incremented(&self) -> (r: Result<Counter, ProgramError>)
        ensures
            self.value < u64::MAX ==> r == Ok::<Counter, ProgramError>(Counter { value: (self.value + 1) as u64 }),
            self.value == u64::MAX ==> r == Err::<Counter, ProgramError>(ProgramError::Overflow),
    {
        match self.value.checked_add(1) {
            Some(v) => Ok(Counter { value: v }),
            None => Err(ProgramError::Overflow),
        }
    }
}

impl TradeState {
    /// Bytes of storage a trade tally record takes: an 8-byte record header
    /// and the two fields.
    pub const SPACE: usize = 24;

    /// The tally after one more trade of `amount`, or `Overflow` where the
    /// count is already the largest `u64`.
    pub fn recorded(&self, amount: u64) -> (r: Result<TradeState, ProgramError>)
        ensures
            self.count < u64::MAX ==> r == Ok::<TradeState, ProgramError>(
                TradeState { count: (self.count + 1) as u64, last_amount: amount },
            ),
            self.count == u64::MAX ==> r == Err::<TradeState, ProgramError>(ProgramError::Overflow),
    {
        match self.count.checked_add(1) {
            Some(c) => Ok(TradeState { count: c, last_amount: amount }),
            None => Err(ProgramError::Overflow),
        }
    }
}

} // verus!
