use altusd::engine::Input;
use altusd::supply::{supply_inputs, try_extract_for_coin, SupplyEntry};
use altusd::Coin;

fn entry(symbol: &str, supply: &str) -> SupplyEntry {
    SupplyEntry { symbol: symbol.to_owned(), circulating_supply: supply.to_owned() }
}

#[test]
fn extracts_matching_entry() {
    let data = vec![
        entry("BTC", "19000000"),
        entry("ADA", "35045020830.3234"),
        entry("ETH", "120000000"),
    ];
    assert_eq!(
        try_extract_for_coin(&data, Coin::ADA),
        Some(35_045_020_830_323_400)
    );
    assert_eq!(try_extract_for_coin(&data, Coin::ETH), Some(120_000_000_000_000));
}

#[test]
fn missing_symbol_yields_nothing() {
    let data = vec![entry("BTC", "19000000")];
    assert_eq!(try_extract_for_coin(&data, Coin::DOGE), None);
}

/// The first matching entry decides; an unparsable figure there is not
/// papered over by a later duplicate.
#[test]
fn first_matching_entry_decides() {
    let data = vec![entry("DOT", "not a number"), entry("DOT", "1000")];
    assert_eq!(try_extract_for_coin(&data, Coin::DOT), None);

    let data = vec![entry("DOT", "1000"), entry("DOT", "2000")];
    assert_eq!(try_extract_for_coin(&data, Coin::DOT), Some(1_000_000_000));
}

/// One response yields one supply tick per extractable coin, in basket
/// order; a missing or unparsable coin is skipped and the others still
/// arrive.
#[test]
fn response_yields_ticks_for_extractable_coins() {
    let data = vec![
        entry("SOL", "400000000"),
        entry("ADA", "35000000000"),
        entry("DOGE", "bad"),
        entry("ETH", "120000000"),
    ];
    let ticks = supply_inputs(&data);
    assert_eq!(
        ticks,
        vec![
            Input::Supply(Coin::ADA, 35_000_000_000_000_000),
            Input::Supply(Coin::ETH, 120_000_000_000_000),
            Input::Supply(Coin::SOL, 400_000_000_000_000),
        ]
    );
}
