//! Two independent persisted records, a counter and a trade tally, each with
//! an initialize operation and an update operation.
//!
//! Each record lives in a slot addressed by a fixed seed tag. An operation
//! sees the slot's current contents (`None` where no record exists yet) and
//! either applies its single field mutation or fails and leaves the slot as
//! it was.

pub mod laws;
pub mod program;
pub mod records;

pub use program::{
    Instruction, ProgramState, Increment, InitCounter, InitTrades, Trade, increment, init_counter,
    init_trades, trade,
};
pub use records::{Counter, ProgramError, TradeState};
