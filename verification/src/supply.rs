//! Extraction of circulating supplies from the supply endpoint's response.
//! The poll itself is plain HTTP done by the caller; what arrives is a list
//! of `{symbol, circulating_supply}` entries, and everything decided about it
//! is decided here.

use vstd::prelude::*;

use crate::engine::Input;
use crate::price::{fixed_of, str_is, str_to_fixed, MAX_UNITS};
use crate::Coin;

verus! {

/// The seconds between two polls of the supply endpoint.
pub const POLL_SECS: u64 = 60;

/// One entry of the supply endpoint's `data` array: a coin symbol and its
/// circulating supply as a decimal string.
#[derive(Debug)]
pub struct SupplyEntry {
    pub symbol: String,
    pub circulating_supply: String,
}

/// The symbol under which the supply endpoint lists a coin.
pub open spec fn spec_symbol(coin: Coin) -> Seq<char> {
    match coin {
        Coin::ADA => "ADA"@,
        Coin::DOGE => "DOGE"@,
        Coin::DOT => "DOT"@,
        Coin::ETH => "ETH"@,
        Coin::SOL => "SOL"@,
    }
}

/// The symbol under which the supply endpoint lists a coin.
pub fn symbol_for(coin: Coin) -> (r: String)
    ensures
        r@ == spec_symbol(coin),
{
    match coin {
        Coin::ADA => "ADA".to_owned(),
        Coin::DOGE => "DOGE".to_owned(),
        Coin::DOT => "DOT".to_owned(),
        Coin::ETH => "ETH".to_owned(),
        Coin::SOL => "SOL".to_owned(),
    }
}

/// The first entry that carries the target symbol, if any.
pub open spec fn first_match(entries: Seq<SupplyEntry>, target: Seq<char>) -> Option<SupplyEntry>
    decreases entries.len(),
{
    if entries.len() == 0 {
        None
    } else if entries[0].symbol@ == target {
        Some(entries[0])
    } else {
        first_match(entries.drop_first(), target)
    }
}

/// The supply figure a response holds for a coin: the parsed supply of the
/// first entry that carries the coin's symbol. Nothing if no entry does, and
/// nothing if that entry's figure does not parse — a later duplicate entry
/// is never consulted.
pub open spec fn extracted(entries: Seq<SupplyEntry>, coin: Coin) -> Option<u64> {
    match first_match(entries, spec_symbol(coin)) {
        Some(e) => fixed_of(e.circulating_supply@),
        None => None,
    }
}

/// Try to extract the circulating supply of one coin from the response
/// entries. A missing symbol or an unparsable figure yields nothing: only
/// that coin's update is dropped.
#[verifier::loop_isolation(false)]
pub fn try_extract_for_coin(entries: &Vec<SupplyEntry>, coin: Coin) -> (r: Option<u64>)
    ensures
        r == extracted(entries@, coin),
        r.is_some() ==> r.unwrap() <= MAX_UNITS,
{
    let target = symbol_for(coin);
    let n = entries.len();
    let mut i: usize = 0;
    proof {
        assert(entries@.skip(0) =~= entries@);
    }
    while i < n
        invariant
            0 <= i <= n,
            first_match(entries@, target@) == first_match(
                entries@.skip(i as int),
                target@,
            ),
        decreases n - i,
    {
        let entry = &entries[i];
        if str_is(&entry.symbol, target.as_str()) {
            proof {
                assert(entries@.skip(i as int)[0] == entries@[i as int]);
            }
            return str_to_fixed(entry.circulating_supply.as_str());
        }
        proof {
            assert(entries@.skip(i as int)[0] == entries@[i as int]);
            assert(entries@.skip(i as int).drop_first() =~= entries@.skip(i as int + 1));
        }
        i = i + 1;
    }
    proof {
        assert(entries@.skip(n as int).len() == 0);
    }
    None
}

/// The supply inputs one coin contributes: one tick, or none.
pub open spec fn coin_supply_inputs(entries: Seq<SupplyEntry>, coin: Coin) -> Seq<Input> {
    match extracted(entries, coin) {
        Some(s) => seq![Input::Supply(coin, s)],
        None => Seq::empty(),
    }
}

/// The supply inputs one response yields, coin by coin in basket order.
pub open spec fn supply_inputs_of(entries: Seq<SupplyEntry>) -> Seq<Input> {
    coin_supply_inputs(entries, Coin::ADA) + coin_supply_inputs(entries, Coin::DOGE)
        + coin_supply_inputs(entries, Coin::DOT) + coin_supply_inputs(entries, Coin::ETH)
        + coin_supply_inputs(entries, Coin::SOL)
}

/// Extract the supply ticks of all five basket coins from one response. A
/// coin whose entry is missing or unparsable is skipped; the other four are
/// still attempted.
pub fn supply_inputs(entries: &Vec<SupplyEntry>) -> (r: Vec<Input>)
    ensures
        r@ == supply_inputs_of(entries@),
        forall|i: int| 0 <= i < r@.len() ==> (#[trigger] r@[i]).bounded(),
{
    let mut out: Vec<Input> = Vec::new();
    if let Some(s) = try_extract_for_coin(entries, Coin::ADA) {
        out.push(Input::supply(Coin::ADA, s));
    }
    if let Some(s) = try_extract_for_coin(entries, Coin::DOGE) {
        out.push(Input::supply(Coin::DOGE, s));
    }
    if let Some(s) = try_extract_for_coin(entries, Coin::DOT) {
        out.push(Input::supply(Coin::DOT, s));
    }
    if let Some(s) = try_extract_for_coin(entries, Coin::ETH) {
        out.push(Input::supply(Coin::ETH, s));
    }
    if let Some(s) = try_extract_for_coin(entries, Coin::SOL) {
        out.push(Input::supply(Coin::SOL, s));
    }
    proof {
        assert(out@ =~= supply_inputs_of(entries@));
    }
    out
}

} // verus!
