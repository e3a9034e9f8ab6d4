use altusd::price::{median3, str_to_fixed, Quote};
use altusd::{binance, coinbase, kraken, Coin};

#[test]
fn fixed_point_whole_numbers() {
    assert_eq!(str_to_fixed("0"), Some(0));
    assert_eq!(str_to_fixed("101"), Some(101_000_000));
    assert_eq!(str_to_fixed("1000000000000"), Some(1_000_000_000_000_000_000));
}

#[test]
fn fixed_point_fractions() {
    assert_eq!(str_to_fixed("0.5"), Some(500_000));
    assert_eq!(str_to_fixed(".5"), Some(500_000));
    assert_eq!(str_to_fixed("5."), Some(5_000_000));
    assert_eq!(str_to_fixed("0.349"), Some(349_000));
    assert_eq!(str_to_fixed("35045020830.3234"), Some(35_045_020_830_323_400));
}

#[test]
fn fixed_point_truncates_below_resolution() {
    assert_eq!(str_to_fixed("1.2345678"), Some(1_234_567));
    assert_eq!(str_to_fixed("0.0000009"), Some(0));
}

#[test]
fn fixed_point_rejects_non_numbers() {
    assert_eq!(str_to_fixed(""), None);
    assert_eq!(str_to_fixed("."), None);
    assert_eq!(str_to_fixed("1.2.3"), None);
    assert_eq!(str_to_fixed("abc"), None);
    assert_eq!(str_to_fixed("-1"), None);
    assert_eq!(str_to_fixed("1e5"), None);
    assert_eq!(str_to_fixed("12 3"), None);
}

#[test]
fn fixed_point_rejects_out_of_range() {
    assert_eq!(str_to_fixed("10000000000000"), None);
    assert_eq!(str_to_fixed("1000000000000.000001"), None);
    assert_eq!(str_to_fixed("99999999999999999999999999"), None);
}

#[test]
fn median_of_three() {
    assert_eq!(median3(100, 102, 101), 101);
    assert_eq!(median3(99, 102, 101), 101);
    assert_eq!(median3(5, 5, 1), 5);
    assert_eq!(median3(7, 7, 7), 7);
}

#[test]
fn binance_ticker_decodes() {
    let raw = r#"{"e":"24hrTicker","E":123456789,"s":"ADAUSDT","c":"0.35","b":"0.349","a":"0.351"}"#;
    let q = binance::message_handler(raw);
    assert_eq!(
        q,
        Some(Quote { coin: Coin::ADA, last: 350_000, bid: 349_000, ask: 351_000 })
    );
}

/// A malformed frame decodes to nothing, and the next valid frame still
/// decodes correctly.
#[test]
fn binance_discards_malformed_frames() {
    assert_eq!(binance::message_handler("{not json"), None);
    assert_eq!(binance::message_handler("[1,2,3]"), None);
    let wrong_event = r#"{"e":"trade","s":"ADAUSDT","c":"1","b":"1","a":"1"}"#;
    assert_eq!(binance::message_handler(wrong_event), None);
    let unknown_symbol = r#"{"e":"24hrTicker","s":"BTCUSDT","c":"1","b":"1","a":"1"}"#;
    assert_eq!(binance::message_handler(unknown_symbol), None);
    let bad_number = r#"{"e":"24hrTicker","s":"ADAUSDT","c":"fast","b":"1","a":"1"}"#;
    assert_eq!(binance::message_handler(bad_number), None);
    let missing_field = r#"{"e":"24hrTicker","s":"ADAUSDT","c":"1","b":"1"}"#;
    assert_eq!(binance::message_handler(missing_field), None);

    let valid = r#"{"e":"24hrTicker","s":"DOGEUSDT","c":"0.1","b":"0.1","a":"0.1"}"#;
    let q = binance::message_handler(valid);
    assert_eq!(
        q,
        Some(Quote { coin: Coin::DOGE, last: 100_000, bid: 100_000, ask: 100_000 })
    );
}

#[test]
fn coinbase_ticker_decodes() {
    let raw = r#"{"type":"ticker","sequence":100,"product_id":"ETH-USD","price":"2000.25","best_bid":"2000","best_ask":"2000.5"}"#;
    let q = coinbase::message_handler(raw);
    assert_eq!(
        q,
        Some(
            Quote {
                coin: Coin::ETH,
                last: 2_000_250_000,
                bid: 2_000_000_000,
                ask: 2_000_500_000,
            }
        )
    );
}

#[test]
fn coinbase_discards_malformed_frames() {
    assert_eq!(coinbase::message_handler("null"), None);
    let wrong_type = r#"{"type":"subscriptions","product_id":"ETH-USD","price":"1","best_bid":"1","best_ask":"1"}"#;
    assert_eq!(coinbase::message_handler(wrong_type), None);
    let unknown_product = r#"{"type":"ticker","product_id":"BTC-USD","price":"1","best_bid":"1","best_ask":"1"}"#;
    assert_eq!(coinbase::message_handler(unknown_product), None);
}

#[test]
fn kraken_ticker_decodes() {
    let raw = r#"[340,{"a":["0.352",5,"5000"],"b":["0.348",2,"2000"],"c":["0.35","100"]},"ticker","ADA/USD"]"#;
    let q = kraken::message_handler(raw);
    assert_eq!(
        q,
        Some(Quote { coin: Coin::ADA, last: 350_000, bid: 348_000, ask: 352_000 })
    );
}

#[test]
fn kraken_maps_xdg_to_doge() {
    let raw = r#"[341,{"a":["0.2",1,"1"],"b":["0.1",1,"1"],"c":["0.15","9"]},"ticker","XDG/USD"]"#;
    let q = kraken::message_handler(raw);
    assert_eq!(
        q,
        Some(Quote { coin: Coin::DOGE, last: 150_000, bid: 100_000, ask: 200_000 })
    );
}

#[test]
fn kraken_discards_malformed_frames() {
    assert_eq!(kraken::message_handler("{}"), None);
    let heartbeat = r#"{"event":"heartbeat"}"#;
    assert_eq!(kraken::message_handler(heartbeat), None);
    let wrong_channel = r#"[340,{"a":["1",1,"1"],"b":["1",1,"1"],"c":["1","1"]},"trade","ADA/USD"]"#;
    assert_eq!(kraken::message_handler(wrong_channel), None);
    let unknown_pair = r#"[340,{"a":["1",1,"1"],"b":["1",1,"1"],"c":["1","1"]},"ticker","BTC/USD"]"#;
    assert_eq!(kraken::message_handler(unknown_pair), None);
}
