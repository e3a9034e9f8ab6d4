//! The laws of the aggregation engine, stated over whole input streams: what
//! the per-asset figures derive to after any sequence of ticks, and how one
//! more tick changes a snapshot.

use vstd::prelude::*;

use crate::engine::{apply, Input};
use crate::price::med3;
use crate::{AssetView, Coin, EngineView, Exchange};

verus! {

/// The engine state a sequence of inputs leads to, first input first.
pub open spec fn apply_all(v: EngineView, inputs: Seq<Input>) -> EngineView
    decreases inputs.len(),
{
    if inputs.len() == 0 {
        v
    } else {
        apply(apply_all(v, inputs.drop_last()), inputs.last())
    }
}

/// The price an input stream most recently reported for a coin from an
/// exchange, if it ever did.
pub open spec fn last_price(inputs: Seq<Input>, coin: Coin, exchange: Exchange) -> Option<u64>
    decreases inputs.len(),
{
    if inputs.len() == 0 {
        None
    } else {
        match inputs.last() {
            Input::Price(c, e, p) => if c == coin && e == exchange {
                Some(p)
            } else {
                last_price(inputs.drop_last(), coin, exchange)
            },
            Input::Supply(_, _) => last_price(inputs.drop_last(), coin, exchange),
        }
    }
}

/// The supply an input stream most recently reported for a coin, if it ever
/// did.
pub open spec fn last_supply(inputs: Seq<Input>, coin: Coin) -> Option<u64>
    decreases inputs.len(),
{
    if inputs.len() == 0 {
        None
    } else {
        match inputs.last() {
            Input::Supply(c, s) => if c == coin {
                Some(s)
            } else {
                last_supply(inputs.drop_last(), coin)
            },
            Input::Price(_, _, _) => last_supply(inputs.drop_last(), coin),
        }
    }
}

/// After any input stream from the fresh state, each asset's primitive
/// figures are exactly the stream's most recent reports about it.
pub proof fn lemma_state_from_inputs(inputs: Seq<Input>, coin: Coin)
    ensures
        apply_all(EngineView::init(), inputs).asset(coin).price_binance == last_price(
            inputs,
            coin,
            Exchange::Binance,
        ),
        apply_all(EngineView::init(), inputs).asset(coin).price_coinbase == last_price(
            inputs,
            coin,
            Exchange::Coinbase,
        ),
        apply_all(EngineView::init(), inputs).asset(coin).price_kraken == last_price(
            inputs,
            coin,
            Exchange::Kraken,
        ),
        apply_all(EngineView::init(), inputs).asset(coin).supply == last_supply(inputs, coin),
    decreases inputs.len(),
{
    if inputs.len() > 0 {
        lemma_state_from_inputs(inputs.drop_last(), coin);
    }
}

/// For every sequence of ticks: an asset's median price is defined if and
/// only if all three exchanges have reported a price for it at least once,
/// and it is then the middle value of the three most recent per-exchange
/// prices.
pub proof fn lemma_median_characterization(inputs: Seq<Input>, coin: Coin)
    ensures
        ({
            let a = apply_all(EngineView::init(), inputs).asset(coin);
            let b = last_price(inputs, coin, Exchange::Binance);
            let c = last_price(inputs, coin, Exchange::Coinbase);
            let k = last_price(inputs, coin, Exchange::Kraken);
            &&& (a.median().is_some() <==> b.is_some() && c.is_some() && k.is_some())
            &&& (a.median().is_some() ==> a.median().unwrap() == med3(
                b.unwrap(),
                c.unwrap(),
                k.unwrap(),
            ))
        }),
{
    lemma_state_from_inputs(inputs, coin);
}

/// For every asset: market capitalization is defined if and only if both
/// the supply and the median price are defined, and it is then their
/// product.
pub proof fn lemma_cap_characterization(a: AssetView)
    ensures
        a.cap().is_some() <==> a.supply.is_some() && a.median().is_some(),
        a.cap().is_some() ==> a.cap().unwrap() == a.supply.unwrap() * a.median().unwrap(),
{
}

/// The index is defined if and only if all five assets have a defined
/// market capitalization, and it is then the sum of the five divided by the
/// fixed divisor — the division itself is stated exactly, as quotient and
/// remainder, in [`crate::index_reported`].
pub proof fn lemma_index_characterization(v: EngineView)
    ensures
        v.total_cap().is_some() <==> (v.ada.cap().is_some() && v.doge.cap().is_some()
            && v.dot.cap().is_some() && v.eth.cap().is_some() && v.sol.cap().is_some()),
        v.total_cap().is_some() ==> v.total_cap().unwrap() == v.ada.cap().unwrap()
            + v.doge.cap().unwrap() + v.dot.cap().unwrap() + v.eth.cap().unwrap()
            + v.sol.cap().unwrap(),
{
}

/// Re-applying an identical tick changes nothing: the engine state, and with
/// it the index of the resulting snapshot, is the same after the second
/// application as after the first. Only the snapshot's clock stamp can
/// differ.
pub proof fn lemma_tick_idempotent(v: EngineView, input: Input)
    ensures
        apply(apply(v, input), input) == apply(v, input),
{
}

/// One tick from the fresh state leaves the index undefined: a subscriber
/// connected before any tick first observes a snapshot whose index is
/// undefined, never an absence of a snapshot.
pub proof fn lemma_first_index_undefined(input: Input)
    ensures
        apply(EngineView::init(), input).total_cap().is_none(),
{
    let v = apply(EngineView::init(), input);
    assert(v.ada.cap().is_none());
}

} // verus!
