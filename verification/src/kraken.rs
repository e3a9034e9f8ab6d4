//! Decoding of the Kraken ticker channel. A frame is a JSON array
//! `[channel_id, detail, channel_name, pair]`: the third element
//! discriminates the channel, the fourth names the pair, and the `detail`
//! object carries the quotes — the last price under `c`, the best bid under
//! `b`, the best ask under `a`, each a small array whose first element is
//! the decimal string.

use vstd::prelude::*;

use crate::json::{json_get_quote_text, json_get_text_at, json_quote_text, json_text_at};
use crate::price::{fixed_of, str_is, str_to_fixed, Quote};
use crate::Coin;

verus! {

/// The coin a Kraken pair names.
pub open spec fn coin_of(pair: Seq<char>) -> Option<Coin> {
    if pair == "ADA/USD"@ {
        Some(Coin::ADA)
    } else if pair == "XDG/USD"@ {
        Some(Coin::DOGE)
    } else if pair == "DOT/USD"@ {
        Some(Coin::DOT)
    } else if pair == "ETH/USD"@ {
        Some(Coin::ETH)
    } else if pair == "SOL/USD"@ {
        Some(Coin::SOL)
    } else {
        None
    }
}

/// Map a Kraken pair to the canonical coin; a message about any other pair
/// is discarded.
pub fn symbol_to_coin(pair: &String) -> (r: Option<Coin>)
    ensures
        r == coin_of(pair@),
{
    if str_is(pair, "ADA/USD") {
        Some(Coin::ADA)
    } else if str_is(pair, "XDG/USD") {
        Some(Coin::DOGE)
    } else if str_is(pair, "DOT/USD") {
        Some(Coin::DOT)
    } else if str_is(pair, "ETH/USD") {
        Some(Coin::ETH)
    } else if str_is(pair, "SOL/USD") {
        Some(Coin::SOL)
    } else {
        None
    }
}

/// What a Kraken ticker frame decodes to, from its five textual fields:
/// nothing unless the channel name is `ticker`, the pair names a basket
/// coin, and all three quotes parse as fixed-point numbers.
pub open spec fn ticker_decoded(
    channel: Seq<char>,
    pair: Seq<char>,
    last: Seq<char>,
    bid: Seq<char>,
    ask: Seq<char>,
) -> Option<Quote> {
    if channel != "ticker"@ {
        None
    } else if coin_of(pair).is_none() {
        None
    } else if fixed_of(last).is_some() && fixed_of(bid).is_some() && fixed_of(ask).is_some() {
        Some(
            Quote {
                coin: coin_of(pair).unwrap(),
                last: fixed_of(last).unwrap(),
                bid: fixed_of(bid).unwrap(),
                ask: fixed_of(ask).unwrap(),
            },
        )
    } else {
        None
    }
}

/// Decode the five textual fields of a Kraken ticker frame.
pub fn decode_fields(
    channel: &String,
    pair: &String,
    last: &String,
    bid: &String,
    ask: &String,
) -> (r: Option<Quote>)
    ensures
        r == ticker_decoded(channel@, pair@, last@, bid@, ask@),
        r.is_some() ==> r.unwrap().bounded(),
{
    if !str_is(channel, "ticker") {
        return None;
    }
    let coin = match symbol_to_coin(pair) {
        Some(c) => c,
        None => {
            return None;
        },
    };
    let l = match str_to_fixed(last.as_str()) {
        Some(v) => v,
        None => {
            return None;
        },
    };
    let b = match str_to_fixed(bid.as_str()) {
        Some(v) => v,
        None => {
            return None;
        },
    };
    let a = match str_to_fixed(ask.as_str()) {
        Some(v) => v,
        None => {
            return None;
        },
    };
    Some(Quote { coin, last: l, bid: b, ask: a })
}

/// Try to decode one Kraken websocket frame into a ticker quote. The result
/// is a function of the frame text alone: exactly [`ticker_decoded`] of the
/// channel name, the pair, and the three quote strings, or nothing where one
/// of them is missing. A frame that is not JSON, lacks an element, or fails
/// [`decode_fields`] is discarded; it alters no state anywhere.
pub fn message_handler(raw: &str) -> (r: Option<Quote>)
    ensures
        r == (match (
            json_text_at(raw@, 2),
            json_text_at(raw@, 3),
            json_quote_text(raw@, "c"@),
            json_quote_text(raw@, "b"@),
            json_quote_text(raw@, "a"@),
        ) {
            (Some(ch), Some(p), Some(l), Some(b), Some(a)) => ticker_decoded(ch, p, l, b, a),
            _ => None,
        }),
        r.is_some() ==> r.unwrap().bounded(),
{
    let channel = match json_get_text_at(raw, 2) {
        Some(s) => s,
        None => {
            return None;
        },
    };
    let pair = match json_get_text_at(raw, 3) {
        Some(s) => s,
        None => {
            return None;
        },
    };
    let last = match json_get_quote_text(raw, "c") {
        Some(s) => s,
        None => {
            return None;
        },
    };
    let bid = match json_get_quote_text(raw, "b") {
        Some(s) => s,
        None => {
            return None;
        },
    };
    let ask = match json_get_quote_text(raw, "a") {
        Some(s) => s,
        None => {
            return None;
        },
    };
    decode_fields(&channel, &pair, &last, &bid, &ask)
}

} // verus!
