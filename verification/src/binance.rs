//! Decoding of the Binance ticker stream. A frame is a JSON object whose
//! `e` field discriminates the message kind, `s` names the symbol, and `c`,
//! `b`, `a` carry the last price, best bid, and best ask as decimal strings.

use vstd::prelude::*;

use crate::json::{json_get_text, json_text_field};
use crate::price::{fixed_of, str_is, str_to_fixed, Quote};
use crate::Coin;

verus! {

/// The coin a Binance ticker symbol names.
pub open spec fn coin_of(symbol: Seq<char>) -> Option<Coin> {
    if symbol == "ADAUSDT"@ {
        Some(Coin::ADA)
    } else if symbol == "DOGEUSDT"@ {
        Some(Coin::DOGE)
    } else if symbol == "DOTUSDT"@ {
        Some(Coin::DOT)
    } else if symbol == "ETHUSDT"@ {
        Some(Coin::ETH)
    } else if symbol == "SOLUSDT"@ {
        Some(Coin::SOL)
    } else {
        None
    }
}

/// Map a Binance ticker symbol to the canonical coin; a message about any
/// other symbol is discarded.
pub fn symbol_to_coin(symbol: &String) -> (r: Option<Coin>)
    ensures
        r == coin_of(symbol@),
{
    if str_is(symbol, "ADAUSDT") {
        Some(Coin::ADA)
    } else if str_is(symbol, "DOGEUSDT") {
        Some(Coin::DOGE)
    } else if str_is(symbol, "DOTUSDT") {
        Some(Coin::DOT)
    } else if str_is(symbol, "ETHUSDT") {
        Some(Coin::ETH)
    } else if str_is(symbol, "SOLUSDT") {
        Some(Coin::SOL)
    } else {
        None
    }
}

/// What a Binance ticker frame decodes to, from its five textual fields:
/// nothing unless the discriminator is `24hrTicker`, the symbol names a
/// basket coin, and all three quotes parse as fixed-point numbers.
pub open spec fn ticker_decoded(
    event: Seq<char>,
    symbol: Seq<char>,
    last: Seq<char>,
    bid: Seq<char>,
    ask: Seq<char>,
) -> Option<Quote> {
    if event != "24hrTicker"@ {
        None
    } else if coin_of(symbol).is_none() {
        None
    } else if fixed_of(last).is_some() && fixed_of(bid).is_some() && fixed_of(ask).is_some() {
        Some(
            Quote {
                coin: coin_of(symbol).unwrap(),
                last: fixed_of(last).unwrap(),
                bid: fixed_of(bid).unwrap(),
                ask: fixed_of(ask).unwrap(),
            },
        )
    } else {
        None
    }
}

/// Decode the five textual fields of a Binance ticker frame.
pub fn decode_fields(
    event: &String,
    symbol: &String,
    last: &String,
    bid: &String,
    ask: &String,
) -> (r: Option<Quote>)
    ensures
        r == ticker_decoded(event@, symbol@, last@, bid@, ask@),
        r.is_some() ==> r.unwrap().bounded(),
{
    if !str_is(event, "24hrTicker") {
        return None;
    }
    let coin = match symbol_to_coin(symbol) {
        Some(c) => c,
        None => {
            return None;
        },
    };
    let l = match str_to_fixed(last.as_str()) {
        Some(v) => v,
        None => {
            return None;
        },
    };
    let b = match str_to_fixed(bid.as_str()) {
        Some(v) => v,
        None => {
            return None;
        },
    };
    let a = match str_to_fixed(ask.as_str()) {
        Some(v) => v,
        None => {
            return None;
        },
    };
    Some(Quote { coin, last: l, bid: b, ask: a })
}

/// Try to decode one Binance websocket frame into a ticker quote. The result
/// is a function of the frame text alone: exactly [`ticker_decoded`] of the
/// frame's five named fields, or nothing where one of them is missing. A
/// frame that is not JSON, lacks a field, or fails [`decode_fields`] is
/// discarded; it alters no state anywhere.
pub fn message_handler(raw: &str) -> (r: Option<Quote>)
    ensures
        r == (match (
            json_text_field(raw@, "e"@),
            json_text_field(raw@, "s"@),
            json_text_field(raw@, "c"@),
            json_text_field(raw@, "b"@),
            json_text_field(raw@, "a"@),
        ) {
            (Some(e), Some(s), Some(c), Some(b), Some(a)) => ticker_decoded(e, s, c, b, a),
            _ => None,
        }),
        r.is_some() ==> r.unwrap().bounded(),
{
    let event = match json_get_text(raw, "e") {
        Some(s) => s,
        None => {
            return None;
        },
    };
    let symbol = match json_get_text(raw, "s") {
        Some(s) => s,
        None => {
            return None;
        },
    };
    let last = match json_get_text(raw, "c") {
        Some(s) => s,
        None => {
            return None;
        },
    };
    let bid = match json_get_text(raw, "b") {
        Some(s) => s,
        None => {
            return None;
        },
    };
    let ask = match json_get_text(raw, "a") {
        Some(s) => s,
        None => {
            return None;
        },
    };
    decode_fields(&event, &symbol, &last, &bid, &ask)
}

} // verus!
