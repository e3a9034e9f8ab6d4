use altusd::engine::{make_output, process, Input, Output};
use altusd::{Coin, Engine, Exchange};

/// Prices {100, 102, 101} (in fixed-point units) for one asset with its
/// supply already known at 1000 give a median of 101 and a market cap of
/// 101000; a fourth update from the first source at 99 leaves the median,
/// and with it the index, unchanged.
#[test]
fn median_and_cap_scenario() {
    let mut engine = Engine::init();

    // Fill the four other assets so that the index becomes defined: each
    // gets a market cap of exactly 1.
    for coin in [Coin::DOGE, Coin::DOT, Coin::ETH, Coin::SOL] {
        engine.update_supply(coin, 1);
        engine.update_price(coin, Exchange::Binance, 1);
        engine.update_price(coin, Exchange::Coinbase, 1);
        engine.update_price(coin, Exchange::Kraken, 1);
    }

    engine.update_supply(Coin::ADA, 1_000);
    engine.update_price(Coin::ADA, Exchange::Binance, 100);
    engine.update_price(Coin::ADA, Exchange::Coinbase, 102);
    let r = engine.update_price(Coin::ADA, Exchange::Kraken, 101);
    // Total market cap: 101 * 1000 + 4 = 101004, far below one divisor unit.
    assert_eq!(r, Some((0, 101_004)));

    // A newer price from the first source: median of {99, 102, 101} is still
    // 101, so the market cap, and the index, are unchanged.
    let r = engine.update_price(Coin::ADA, Exchange::Binance, 99);
    assert_eq!(r, Some((0, 101_004)));
}

/// The index is undefined until every asset has a supply and all three
/// prices; each last missing figure switches it on.
#[test]
fn index_defined_only_when_complete() {
    let mut engine = Engine::init();
    assert_eq!(engine.get_index(), None);

    for coin in [Coin::ADA, Coin::DOGE, Coin::DOT, Coin::ETH, Coin::SOL] {
        engine.update_supply(coin, 60_000);
        engine.update_price(coin, Exchange::Binance, 50_000);
        engine.update_price(coin, Exchange::Coinbase, 50_000);
    }
    // Every asset still misses its third price.
    assert_eq!(engine.get_index(), None);

    for coin in [Coin::ADA, Coin::DOGE, Coin::DOT, Coin::ETH] {
        engine.update_price(coin, Exchange::Kraken, 50_000);
    }
    assert_eq!(engine.get_index(), None);

    // The last figure: every cap is 60000 * 50000 = 3_000_000_000, the total
    // 15_000_000_000, and the index exactly 15 with no remainder.
    let r = engine.update_price(Coin::SOL, Exchange::Kraken, 50_000);
    assert_eq!(r, Some((15, 0)));
    assert_eq!(engine.get_index(), Some((15, 0)));
}

/// Re-processing an identical tick returns an identical index figure and
/// leaves the engine in the same state.
#[test]
fn identical_tick_is_idempotent() {
    let mut engine = Engine::init();
    engine.update_supply(Coin::ETH, 500);
    let tick = Input::price(Coin::ETH, Exchange::Kraken, 1_234);
    let first = process(&mut engine, tick);
    let second = process(&mut engine, tick);
    assert_eq!(first, second);
    assert_eq!(engine.get_index(), None);
}

/// A supply tick alone defines nothing: the median needs all three prices.
#[test]
fn supply_alone_defines_nothing() {
    let mut engine = Engine::init();
    let r = process(&mut engine, Input::supply(Coin::ADA, 45_000_000_000));
    assert_eq!(r, None);
}

/// A snapshot is produced exactly when the clock read succeeded; a failed
/// read skips that tick's publish.
#[test]
fn snapshot_needs_a_clock() {
    let index = Some((15u128, 0u64));
    let out = make_output(Some(1_700_000_000), index);
    assert!(out.is_some());
    let out = out.unwrap();
    assert_eq!(out.epoch, 1_700_000_000);
    assert_eq!(out.index, Some((15, 0)));

    assert!(make_output(None, index).is_none());
}

/// The very first snapshot carries an undefined index, not nothing.
#[test]
fn initial_snapshot_is_undefined() {
    let out = Output::init();
    assert_eq!(out.epoch, 0);
    assert_eq!(out.index, None);
}
