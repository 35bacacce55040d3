use solora::dispatch::settle_order;
use solora::error::Error;
use solora::outcome::Outcome;
use solora::settlement::{get_amount_to_user, get_bps_amount, get_earned_amount};
use solora::state::{Event, Order, Round};

#[test]
fn earned_amount_up_only() {
    let value = get_earned_amount(100, 0, Outcome::Up, 10, Outcome::Up).unwrap();
    assert_eq!(0, value);
}

#[test]
fn earned_amount_down_only() {
    let value = get_earned_amount(0, 100, Outcome::Up, 10, Outcome::Up).unwrap();
    assert_eq!(0, value);
}

#[test]
fn earned_amount_same_outcome() {
    let value = get_earned_amount(100, 100, Outcome::Same, 10, Outcome::Up).unwrap();
    assert_eq!(0, value);
}

#[test]
fn earned_amount_invalid_outcome() {
    let value = get_earned_amount(100, 100, Outcome::Invalid, 10, Outcome::Up).unwrap();
    assert_eq!(0, value);
}

#[test]
fn earned_amount_order_outcome_incorrect() {
    let value = get_earned_amount(100, 100, Outcome::Down, 10, Outcome::Up).unwrap();
    assert_eq!(0, value);
}

#[test]
fn earned_amount_win_all() {
    let value = get_earned_amount(100, 100, Outcome::Up, 100, Outcome::Up).unwrap();
    assert_eq!(100, value);
}

#[test]
fn earned_amount_win_some() {
    let value = get_earned_amount(100, 100, Outcome::Up, 50, Outcome::Up).unwrap();
    assert_eq!(50, value);
}

#[test]
fn earned_amount_win_down() {
    let value = get_earned_amount(100, 100, Outcome::Down, 100, Outcome::Down).unwrap();
    assert_eq!(100, value);
}

#[test]
fn earned_amount_win_all_uneven_pool_up() {
    let value = get_earned_amount(200, 100, Outcome::Up, 100, Outcome::Up).unwrap();
    assert_eq!(50, value);
}

#[test]
fn earned_amount_win_all_uneven_pool_down() {
    let value = get_earned_amount(100, 200, Outcome::Up, 100, Outcome::Up).unwrap();
    assert_eq!(200, value);
}

#[test]
fn earned_amount_win_all_partial_uneven_pool_down() {
    let value = get_earned_amount(100, 200, Outcome::Up, 50, Outcome::Up).unwrap();
    assert_eq!(100, value);
}

#[test]
fn fees_zero() {
    let value = get_bps_amount(0, 100).unwrap();
    assert_eq!(0, value);
}

#[test]
fn fees_valid() {
    let value = get_bps_amount(100, 100).unwrap();
    assert_eq!(1, value);
}

#[test]
fn fees_full() {
    let value = get_bps_amount(100, 10000).unwrap();
    assert_eq!(100, value);
}

#[test]
fn amount_to_user_invalid() {
    let value = get_amount_to_user(Outcome::Invalid, 100, 100, Outcome::Up, 10, 5, 2).unwrap();
    assert_eq!(10, value);
}

#[test]
fn amount_to_user_same() {
    let value = get_amount_to_user(Outcome::Same, 100, 100, Outcome::Up, 10, 5, 2).unwrap();
    assert_eq!(10, value);
}

#[test]
fn amount_to_user_one_sided() {
    let value = get_amount_to_user(Outcome::Down, 0, 100, Outcome::Down, 10, 5, 2).unwrap();
    assert_eq!(10, value);
}

#[test]
fn amount_to_user_lose() {
    let value = get_amount_to_user(Outcome::Down, 100, 100, Outcome::Up, 10, 5, 2).unwrap();
    assert_eq!(0, value);
}

#[test]
fn amount_to_user_lose_down() {
    let value = get_amount_to_user(Outcome::Up, 100, 100, Outcome::Down, 10, 5, 2).unwrap();
    assert_eq!(0, value);
}

#[test]
fn amount_to_user_win() {
    let value = get_amount_to_user(Outcome::Down, 100, 100, Outcome::Down, 10, 5, 2).unwrap();
    assert_eq!(13, value);
}

#[test]
fn amount_to_user_win_up() {
    let value = get_amount_to_user(Outcome::Up, 100, 100, Outcome::Up, 10, 5, 2).unwrap();
    assert_eq!(13, value);
}

#[test]
fn earned_amount_product_overflow() {
    let r = get_earned_amount(1, u128::MAX, Outcome::Up, u64::MAX, Outcome::Up);
    assert_eq!(Err(Error::OverflowError), r);
}

#[test]
fn earned_amount_quotient_overflow() {
    // The quotient itself no longer fits a u64.
    let r = get_earned_amount(1, (u64::MAX as u128) + 1, Outcome::Up, 1, Outcome::Up);
    assert_eq!(Err(Error::OverflowError), r);
}

#[test]
fn fees_quotient_overflow() {
    let r = get_bps_amount(u64::MAX, 20000);
    assert_eq!(Err(Error::OverflowError), r);
}

#[test]
fn amount_to_user_sum_overflow() {
    let r = get_amount_to_user(Outcome::Up, 1, 1, Outcome::Up, u64::MAX, 1, 0);
    assert_eq!(Err(Error::OverflowError), r);
}

#[test]
fn amount_to_user_fee_exceeds_sum() {
    let r = get_amount_to_user(Outcome::Up, 1, 1, Outcome::Up, 10, 5, 16);
    assert_eq!(Err(Error::OverflowError), r);
}

#[test]
fn example_winning_down_stake_with_fee() {
    // Pools 200 up / 100 down, outcome Down: a Down stake of 100 earns
    // floor(100 * 200 / 100) = 200; at 300 bps the fee is 6; the
    // participant receives 100 + 200 - 6 = 294.
    let earned = get_earned_amount(200, 100, Outcome::Down, 100, Outcome::Down).unwrap();
    assert_eq!(200, earned);
    let fee = get_bps_amount(earned, 300).unwrap();
    assert_eq!(6, fee);
    let to_user =
        get_amount_to_user(Outcome::Down, 200, 100, Outcome::Down, 100, earned, fee).unwrap();
    assert_eq!(294, to_user);
}

#[test]
fn example_losing_stake_gets_nothing() {
    // A 50 stake on the losing side of a two-sided pool forfeits its
    // principal.
    let earned = get_earned_amount(200, 100, Outcome::Up, 50, Outcome::Down).unwrap();
    assert_eq!(0, earned);
    let fee = get_bps_amount(earned, 300).unwrap();
    assert_eq!(0, fee);
    let to_user =
        get_amount_to_user(Outcome::Up, 200, 100, Outcome::Down, 50, earned, fee).unwrap();
    assert_eq!(0, to_user);
}

#[test]
fn example_one_sided_pool_refunds() {
    // Pools 100 up / 0 down: every stake refunds in full whatever the
    // outcome.
    for outcome in [Outcome::Up, Outcome::Down, Outcome::Invalid, Outcome::Same] {
        let earned = get_earned_amount(100, 0, outcome, 40, Outcome::Up).unwrap();
        assert_eq!(0, earned);
        let to_user = get_amount_to_user(outcome, 100, 0, Outcome::Up, 40, earned, 0).unwrap();
        assert_eq!(40, to_user);
    }
}

#[test]
fn refund_totality_concrete() {
    // Invalid or Same outcomes refund exactly the principal, fee-free, for
    // either side of the stake.
    for outcome in [Outcome::Invalid, Outcome::Same] {
        for side in [Outcome::Up, Outcome::Down] {
            let earned = get_earned_amount(70, 30, outcome, 25, side).unwrap();
            assert_eq!(0, earned);
            let fee = get_bps_amount(earned, 10000).unwrap();
            assert_eq!(0, fee);
            let to_user = get_amount_to_user(outcome, 70, 30, side, 25, earned, fee).unwrap();
            assert_eq!(25, to_user);
        }
    }
}

#[test]
fn conservation_concrete() {
    // Three Down winners covering the whole 100-unit Down pool against a
    // 200-unit Up pool, at 300 bps: everything paid out plus fees stays
    // within the pool, and the shortfall is below the number of winners.
    let stakes: [u64; 3] = [33, 33, 34];
    let up: u128 = 200;
    let down: u128 = 100;
    let mut paid: u128 = 0;
    for stake in stakes {
        let earned = get_earned_amount(up, down, Outcome::Down, stake, Outcome::Down).unwrap();
        let fee = get_bps_amount(earned, 300).unwrap();
        let to_user =
            get_amount_to_user(Outcome::Down, up, down, Outcome::Down, stake, earned, fee)
                .unwrap();
        paid += (to_user as u128) + (fee as u128);
    }
    assert!(paid <= up + down);
    assert!(up + down - paid < stakes.len() as u128);
}

#[test]
fn settlement_overflow_rejected_through_dispatch() {
    // A drawn round whose widened earnings computation no longer fits: the
    // dispatcher rejects it and retires nothing.
    let mut round = Round {
        event: Event {
            version: 1,
            event_config: 7,
            lock_thread: 8,
            settle_thread: 9,
            fee_account: 10,
            fee_bps: 0,
            fee_burn_bps: 0,
            start_time: 0,
            lock_time: 10,
            wait_period: 10,
            lock_price: 1,
            settle_price: 2,
            outcome: Outcome::Up,
            price_decimals: 0,
            up_amount: u64::MAX as u128,
            down_amount: u128::MAX / 2,
            up_count: 1,
            down_count: 0,
            orders_settled: 0,
        },
        orders: vec![Order { version: 1, authority: 501, outcome: Outcome::Up, amount: u64::MAX }],
    };
    let r = settle_order(&mut round, 501);
    assert_eq!(Err(Error::OverflowError), r);
    assert_eq!(1, round.orders.len());
    assert_eq!(0, round.event.orders_settled);
}
