//! The messages the aggregation engine consumes and produces, and the serial
//! consume step itself. The engine is the sole consumer of the tick stream:
//! one call of [`process`] per tick, each followed by publishing the output
//! it returns.

use vstd::prelude::*;

use crate::price::MAX_UNITS;
use crate::{Coin, Engine, EngineView, Exchange};

verus! {

/// One observation fed to the engine: a price from one exchange for one coin,
/// or a circulating-supply figure for one coin.
#[derive(Clone, Copy, Debug, PartialEq, Eq, Structural)]
pub enum Input {
    Price(Coin, Exchange, u64),
    Supply(Coin, u64),
}

impl Input {
    /// Every value the input carries is within the fixed-point range.
    pub open spec fn bounded(self) -> bool {
        match self {
            Input::Price(_, _, p) => p <= MAX_UNITS,
            Input::Supply(_, s) => s <= MAX_UNITS,
        }
    }

    /// Constructor for the `Price` variant.
    pub fn price(coin: Coin, exchange: Exchange, price: u64) -> (r: Self)
        ensures
            r == Input::Price(coin, exchange, price),
    {
        Self::Price(coin, exchange, price)
    }

    /// Constructor for the `Supply` variant.
    pub fn supply(coin: Coin, supply: u64) -> (r: Self)
        ensures
            r == Input::Supply(coin, supply),
    {
        Self::Supply(coin, supply)
    }
}

/// The engine state an input leads to: the one figure the input carries
/// replaces the matching figure of the matching asset, and nothing else
/// changes.
pub open spec fn apply(v: EngineView, input: Input) -> EngineView {
    match input {
        Input::Price(coin, exchange, p) => v.with_asset(coin, v.asset(coin).with_price(exchange, p)),
        Input::Supply(coin, s) => v.with_asset(coin, v.asset(coin).with_supply(s)),
    }
}

/// One index snapshot: the wall-clock second it was computed at, and the
/// index figure, present exactly when the index is defined. The figure is the
/// quotient and remainder of the total market capitalization by
/// [`crate::DIVISOR`].
#[derive(Clone, Copy, Debug)]
pub struct Output {
    pub epoch: u64,
    pub index: Option<(u128, u64)>,
}

impl Output {
    /// The snapshot published before any tick has been consumed: the index is
    /// still undefined.
    pub fn init() -> (r: Self)
        ensures
            r.epoch == 0,
            r.index.is_none(),
    {
        Self { epoch: 0, index: None }
    }
}

/// Consume one tick: update the matching asset's figure, recompute the
/// derived figures, and report the resulting index.
pub fn process(engine: &mut Engine, input: Input) -> (r: Option<(u128, u64)>)
    requires
        old(engine).wf(),
        input.bounded(),
    ensures
        final(engine).wf(),
        final(engine)@ == apply(old(engine)@, input),
        crate::index_reported(final(engine)@, r),
{
    match input {
        Input::Price(coin, exchange, price) => engine.update_price(coin, exchange, price),
        Input::Supply(coin, supply) => engine.update_supply(coin, supply),
    }
}

/// Stamp an index figure into a snapshot. A clock read may fail; that tick's
/// publish step is then skipped, which a `None` here signals to the caller.
pub fn make_output(epoch: Option<u64>, index: Option<(u128, u64)>) -> (r: Option<Output>)
    ensures
        r.is_some() <==> epoch.is_some(),
        r.is_some() ==> r.unwrap() == (Output { epoch: epoch.unwrap(), index }),
{
    match epoch {
        Some(epoch) => Some(Output { epoch, index }),
        None => None,
    }
}

} // verus!
