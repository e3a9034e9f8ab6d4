//! Decoding of the Coinbase ticker channel. A frame is a JSON object whose
//! `type` field discriminates the message kind, `product_id` names the
//! product, and `price`, `best_bid`, `best_ask` carry the quotes as decimal
//! strings.

use vstd::prelude::*;

use crate::json::{json_get_text, json_text_field};
use crate::price::{fixed_of, str_is, str_to_fixed, Quote};
use crate::Coin;

verus! {

/// The coin a Coinbase product identifier names.
pub open spec fn coin_of(product: Seq<char>) -> Option<Coin> {
    if product == "ADA-USD"@ {
        Some(Coin::ADA)
    } else if product == "DOGE-USD"@ {
        Some(Coin::DOGE)
    } else if product == "DOT-USD"@ {
        Some(Coin::DOT)
    } else if product == "ETH-USD"@ {
        Some(Coin::ETH)
    } else if product == "SOL-USD"@ {
        Some(Coin::SOL)
    } else {
        None
    }
}

/// Map a Coinbase product identifier to the canonical coin; a message about
/// any other product is discarded.
pub fn symbol_to_coin(product: &String) -> (r: Option<Coin>)
    ensures
        r == coin_of(product@),
{
    if str_is(product, "ADA-USD") {
        Some(Coin::ADA)
    } else if str_is(product, "DOGE-USD") {
        Some(Coin::DOGE)
    } else if str_is(product, "DOT-USD") {
        Some(Coin::DOT)
    } else if str_is(product, "ETH-USD") {
        Some(Coin::ETH)
    } else if str_is(product, "SOL-USD") {
        Some(Coin::SOL)
    } else {
        None
    }
}

/// What a Coinbase ticker frame decodes to, from its five textual fields:
/// nothing unless the discriminator is `ticker`, the product names a basket
/// coin, and all three quotes parse as fixed-point numbers.
pub open spec fn ticker_decoded(
    event: Seq<char>,
    product: Seq<char>,
    last: Seq<char>,
    bid: Seq<char>,
    ask: Seq<char>,
) -> Option<Quote> {
    if event != "ticker"@ {
        None
    } else if coin_of(product).is_none() {
        None
    } else if fixed_of(last).is_some() && fixed_of(bid).is_some() && fixed_of(ask).is_some() {
        Some(
            Quote {
                coin: coin_of(product).unwrap(),
                last: fixed_of(last).unwrap(),
                bid: fixed_of(bid).unwrap(),
                ask: fixed_of(ask).unwrap(),
            },
        )
    } else {
        None
    }
}

/// Decode the five textual fields of a Coinbase ticker frame.
pub fn decode_fields(
    event: &String,
    product: &String,
    last: &String,
    bid: &String,
    ask: &String,
) -> (r: Option<Quote>)
    ensures
        r == ticker_decoded(event@, product@, last@, bid@, ask@),
        r.is_some() ==> r.unwrap().bounded(),
{
    if !str_is(event, "ticker") {
        return None;
    }
    let coin = match symbol_to_coin(product) {
        Some(c) => c,
        None => {
            return None;
        },
    };
    let l = match str_to_fixed(last.as_str()) {
        Some(v) => v,
        None => {
            return None;
        },
    };
    let b = match str_to_fixed(bid.as_str()) {
        Some(v) => v,
        None => {
            return None;
        },
    };
    let a = match str_to_fixed(ask.as_str()) {
        Some(v) => v,
        None => {
            return None;
        },
    };
    Some(Quote { coin, last: l, bid: b, ask: a })
}

/// Try to decode one Coinbase websocket frame into a ticker quote. The
/// result is a function of the frame text alone: exactly [`ticker_decoded`]
/// of the frame's five named fields, or nothing where one of them is
/// missing. A frame that is not JSON, lacks a field, or fails
/// [`decode_fields`] is discarded; it alters no state anywhere.
pub fn message_handler(raw: &str) -> (r: Option<Quote>)
    ensures
        r == (match (
            json_text_field(raw@, "type"@),
            json_text_field(raw@, "product_id"@),
            json_text_field(raw@, "price"@),
            json_text_field(raw@, "best_bid"@),
            json_text_field(raw@, "best_ask"@),
        ) {
            (Some(e), Some(p), Some(l), Some(b), Some(a)) => ticker_decoded(e, p, l, b, a),
            _ => None,
        }),
        r.is_some() ==> r.unwrap().bounded(),
{
    let event = match json_get_text(raw, "type") {
        Some(s) => s,
        None => {
            return None;
        },
    };
    let product = match json_get_text(raw, "product_id") {
        Some(s) => s,
        None => {
            return None;
        },
    };
    let last = match json_get_text(raw, "price") {
        Some(s) => s,
        None => {
            return None;
        },
    };
    let bid = match json_get_text(raw, "best_bid") {
        Some(s) => s,
        None => {
            return None;
        },
    };
    let ask = match json_get_text(raw, "best_ask") {
        Some(s) => s,
        None => {
            return None;
        },
    };
    decode_fields(&event, &product, &last, &bid, &ask)
}

} // verus!
