use aegis_test::{
    Counter, Increment, InitCounter, InitTrades, Instruction, ProgramError, ProgramState, Trade,
    TradeState, increment, init_counter, init_trades, trade,
};

#[test]
fn counter_scenario_three_increments() {
    let mut init = InitCounter { counter: None };
    assert_eq!(init_counter(&mut init), Ok(()));
    assert_eq!(init.counter, Some(Counter { value: 0 }));
    let mut ctx = Increment { counter: init.counter };
    for _ in 0..3 {
        assert_eq!(increment(&mut ctx), Ok(()));
    }
    assert_eq!(ctx.counter, Some(Counter { value: 3 }));
}

#[test]
fn trades_scenario_two_trades() {
    let mut init = InitTrades { trades: None };
    assert_eq!(init_trades(&mut init), Ok(()));
    assert_eq!(init.trades, Some(TradeState { count: 0, last_amount: 0 }));
    let mut ctx = Trade { trades: init.trades };
    assert_eq!(trade(&mut ctx, 50), Ok(()));
    assert_eq!(ctx.trades, Some(TradeState { count: 1, last_amount: 50 }));
    assert_eq!(trade(&mut ctx, 7), Ok(()));
    assert_eq!(ctx.trades, Some(TradeState { count: 2, last_amount: 7 }));
}

#[test]
fn counter_value_equals_number_of_increments() {
    let mut s = ProgramState::new();
    assert_eq!(s.process(Instruction::InitializeCounter), Ok(()));
    for _ in 0..100 {
        assert_eq!(s.process(Instruction::IncrementCounter), Ok(()));
    }
    assert_eq!(s.counter, Some(Counter { value: 100 }));
    assert_eq!(s.trades, None);
}

#[test]
fn tally_keeps_count_and_most_recent_amount() {
    let mut s = ProgramState::new();
    assert_eq!(s.process(Instruction::InitializeTradeTally), Ok(()));
    let amounts: [u64; 5] = [3, 0, u64::MAX, 12, 9];
    for a in amounts {
        assert_eq!(s.process(Instruction::RecordTrade { amount: a }), Ok(()));
    }
    assert_eq!(s.trades, Some(TradeState { count: 5, last_amount: 9 }));
    assert_eq!(s.counter, None);
}

#[test]
fn counter_init_twice_is_already_initialized() {
    let mut ctx = InitCounter { counter: None };
    assert_eq!(init_counter(&mut ctx), Ok(()));
    let after_first = ctx;
    assert_eq!(init_counter(&mut ctx), Err(ProgramError::AlreadyInitialized));
    assert_eq!(ctx, after_first);
}

#[test]
fn counter_init_keeps_existing_value() {
    let mut ctx = InitCounter { counter: Some(Counter { value: 42 }) };
    assert_eq!(init_counter(&mut ctx), Err(ProgramError::AlreadyInitialized));
    assert_eq!(ctx.counter, Some(Counter { value: 42 }));
}

#[test]
fn tally_init_twice_is_already_initialized() {
    let mut s = ProgramState::new();
    assert_eq!(s.process(Instruction::InitializeTradeTally), Ok(()));
    assert_eq!(s.process(Instruction::RecordTrade { amount: 8 }), Ok(()));
    let before = s;
    assert_eq!(
        s.process(Instruction::InitializeTradeTally),
        Err(ProgramError::AlreadyInitialized)
    );
    assert_eq!(s, before);
}

#[test]
fn increment_before_init_is_not_found() {
    let mut ctx = Increment { counter: None };
    assert_eq!(increment(&mut ctx), Err(ProgramError::NotFound));
    assert_eq!(ctx.counter, None);
}

#[test]
fn trade_before_init_is_not_found() {
    let mut ctx = Trade { trades: None };
    assert_eq!(trade(&mut ctx, 50), Err(ProgramError::NotFound));
    assert_eq!(ctx.trades, None);
}

#[test]
fn tally_init_does_not_create_counter() {
    let mut s = ProgramState::new();
    assert_eq!(s.process(Instruction::InitializeTradeTally), Ok(()));
    assert_eq!(s.process(Instruction::IncrementCounter), Err(ProgramError::NotFound));
}

#[test]
fn increment_at_max_is_overflow() {
    let mut ctx = Increment { counter: Some(Counter { value: u64::MAX }) };
    assert_eq!(increment(&mut ctx), Err(ProgramError::Overflow));
    assert_eq!(ctx.counter, Some(Counter { value: u64::MAX }));
}

#[test]
fn increment_just_below_max_reaches_max() {
    let mut ctx = Increment { counter: Some(Counter { value: u64::MAX - 1 }) };
    assert_eq!(increment(&mut ctx), Ok(()));
    assert_eq!(ctx.counter, Some(Counter { value: u64::MAX }));
}

#[test]
fn trade_at_max_count_is_overflow() {
    let mut ctx = Trade { trades: Some(TradeState { count: u64::MAX, last_amount: 4 }) };
    assert_eq!(trade(&mut ctx, 99), Err(ProgramError::Overflow));
    assert_eq!(ctx.trades, Some(TradeState { count: u64::MAX, last_amount: 4 }));
}

#[test]
fn record_helpers_step_once() {
    assert_eq!(Counter { value: 9 }.incremented(), Ok(Counter { value: 10 }));
    assert_eq!(
        Counter { value: u64::MAX }.incremented(),
        Err(ProgramError::Overflow)
    );
    assert_eq!(
        TradeState { count: 2, last_amount: 1 }.recorded(77),
        Ok(TradeState { count: 3, last_amount: 77 })
    );
    assert_eq!(Counter::SPACE, 16);
    assert_eq!(TradeState::SPACE, 24);
}
