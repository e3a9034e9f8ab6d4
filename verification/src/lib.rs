//! A continuously updated composite price index over a fixed basket of five
//! digital assets, priced from three exchange feeds plus a circulating-supply
//! poll.
//!
//! The library holds the aggregation engine, the wire-message decoders for the
//! three exchange feeds, the supply extraction, the latest-value broadcast
//! slot, and the reconnecting-feed state machine. Prices and supplies are
//! fixed-point integers: a value carries [`price::FRAC_DIGITS`] decimal
//! places, so one unit is a millionth. A figure that has never been observed
//! is `None`; `None` propagates through every derived figure.

use vstd::prelude::*;

pub mod binance;
pub mod coinbase;
pub mod engine;
pub mod json;
pub mod kraken;
pub mod laws;
pub mod price;
pub mod slot;
pub mod supply;

use crate::price::{med3, MAX_UNITS};

verus! {

/// The five altcoins whose market capitalizations make up the index.
#[derive(Clone, Copy, Debug, PartialEq, Eq, Structural)]
pub enum Coin {
    ADA,
    DOGE,
    DOT,
    ETH,
    SOL,
}

/// The three exchanges whose market prices are observed.
/// The median of the three per-exchange prices is taken.
#[derive(Clone, Copy, Debug, PartialEq, Eq, Structural)]
pub enum Exchange {
    Binance,
    Coinbase,
    Kraken,
}

/// The divisor that normalizes the index: the index is the total market
/// capitalization of the five altcoins in billionths of a unit.
pub const DIVISOR: u64 = 1_000_000_000;

/// The primitive inputs the engine has gathered for one asset: its
/// circulating supply and the most recent price from each exchange.
/// Everything the engine derives for the asset is a function of these four
/// figures.
pub struct AssetView {
    pub supply: Option<u64>,
    pub price_binance: Option<u64>,
    pub price_coinbase: Option<u64>,
    pub price_kraken: Option<u64>,
}

impl AssetView {
    /// The state before any observation: every figure undefined.
    pub open spec fn init() -> AssetView {
        AssetView { supply: None, price_binance: None, price_coinbase: None, price_kraken: None }
    }

    /// The most recent price observed from the given exchange.
    pub open spec fn price(self, exchange: Exchange) -> Option<u64> {
        match exchange {
            Exchange::Binance => self.price_binance,
            Exchange::Coinbase => self.price_coinbase,
            Exchange::Kraken => self.price_kraken,
        }
    }

    /// This asset after one price observation from the given exchange.
    pub open spec fn with_price(self, exchange: Exchange, p: u64) -> AssetView {
        match exchange {
            Exchange::Binance => AssetView { price_binance: Some(p), ..self },
            Exchange::Coinbase => AssetView { price_coinbase: Some(p), ..self },
            Exchange::Kraken => AssetView { price_kraken: Some(p), ..self },
        }
    }

    /// This asset after one supply observation.
    pub open spec fn with_supply(self, s: u64) -> AssetView {
        AssetView { supply: Some(s), ..self }
    }

    /// The asset's median price: defined exactly when all three exchanges
    /// have been observed, and then the middle of the three most recent
    /// per-exchange prices.
    pub open spec fn median(self) -> Option<u64> {
        if self.price_binance.is_some() && self.price_coinbase.is_some()
            && self.price_kraken.is_some() {
            Some(
                med3(
                    self.price_binance.unwrap(),
                    self.price_coinbase.unwrap(),
                    self.price_kraken.unwrap(),
                ),
            )
        } else {
            None
        }
    }

    /// The asset's market capitalization: defined exactly when both the
    /// supply and the median price are defined, and then their product.
    pub open spec fn cap(self) -> Option<int> {
        if self.supply.is_some() && self.median().is_some() {
            Some(self.supply.unwrap() * self.median().unwrap())
        } else {
            None
        }
    }

    /// Every defined figure stays within the fixed-point range.
    pub open spec fn bounded(self) -> bool {
        &&& (self.supply.is_some() ==> self.supply.unwrap() <= MAX_UNITS)
        &&& (self.price_binance.is_some() ==> self.price_binance.unwrap() <= MAX_UNITS)
        &&& (self.price_coinbase.is_some() ==> self.price_coinbase.unwrap() <= MAX_UNITS)
        &&& (self.price_kraken.is_some() ==> self.price_kraken.unwrap() <= MAX_UNITS)
    }
}

/// The engine's whole state, one [`AssetView`] per altcoin in the basket.
pub struct EngineView {
    pub ada: AssetView,
    pub doge: AssetView,
    pub dot: AssetView,
    pub eth: AssetView,
    pub sol: AssetView,
}

impl EngineView {
    /// The state before any observation.
    pub open spec fn init() -> EngineView {
        EngineView {
            ada: AssetView::init(),
            doge: AssetView::init(),
            dot: AssetView::init(),
            eth: AssetView::init(),
            sol: AssetView::init(),
        }
    }

    /// The state of one asset.
    pub open spec fn asset(self, coin: Coin) -> AssetView {
        match coin {
            Coin::ADA => self.ada,
            Coin::DOGE => self.doge,
            Coin::DOT => self.dot,
            Coin::ETH => self.eth,
            Coin::SOL => self.sol,
        }
    }

    /// This state with one asset's figures replaced.
    pub open spec fn with_asset(self, coin: Coin, a: AssetView) -> EngineView {
        match coin {
            Coin::ADA => EngineView { ada: a, ..self },
            Coin::DOGE => EngineView { doge: a, ..self },
            Coin::DOT => EngineView { dot: a, ..self },
            Coin::ETH => EngineView { eth: a, ..self },
            Coin::SOL => EngineView { sol: a, ..self },
        }
    }

    /// The index numerator: defined exactly when all five market
    /// capitalizations are defined, and then their sum. The index value is
    /// this figure divided by [`DIVISOR`].
    pub open spec fn total_cap(self) -> Option<int> {
        if self.ada.cap().is_some() && self.doge.cap().is_some() && self.dot.cap().is_some()
            && self.eth.cap().is_some() && self.sol.cap().is_some() {
            Some(
                self.ada.cap().unwrap() + self.doge.cap().unwrap() + self.dot.cap().unwrap()
                    + self.eth.cap().unwrap() + self.sol.cap().unwrap(),
            )
        } else {
            None
        }
    }

    /// Every defined figure of every asset stays within the fixed-point range.
    pub open spec fn bounded(self) -> bool {
        &&& self.ada.bounded()
        &&& self.doge.bounded()
        &&& self.dot.bounded()
        &&& self.eth.bounded()
        &&& self.sol.bounded()
    }
}

/// What a reported index figure means: it is present exactly when the index
/// is defined, and then it carries the exact quotient and remainder of the
/// total market capitalization by [`DIVISOR`].
pub open spec fn index_reported(v: EngineView, r: Option<(u128, u64)>) -> bool {
    &&& r.is_some() <==> v.total_cap().is_some()
    &&& r.is_some() ==> {
        &&& r.unwrap().0 * DIVISOR + r.unwrap().1 == v.total_cap().unwrap()
        &&& r.unwrap().1 < DIVISOR
    }
}

/// The cached market capitalization derived from a cached supply and a cached
/// median price: their product, exact because the product of two `u64` values
/// always fits in `u128`.
spec fn cached_cap(supply: Option<u64>, median: Option<u64>) -> Option<u128> {
    if supply.is_some() && median.is_some() {
        Some((supply.unwrap() * median.unwrap()) as u128)
    } else {
        None
    }
}

/// Cached figures for one altcoin: the four primitive inputs plus the
/// derived median price and market capitalization, recomputed after every
/// observation so that a read never recomputes them.
struct Cache {
    circulating_supply: Option<u64>,
    market_cap: Option<u128>,
    median_price: Option<u64>,
    price_binance: Option<u64>,
    price_coinbase: Option<u64>,
    price_kraken: Option<u64>,
}

impl View for Cache {
    type V = AssetView;

    closed spec fn view(&self) -> AssetView {
        AssetView {
            supply: self.circulating_supply,
            price_binance: self.price_binance,
            price_coinbase: self.price_coinbase,
            price_kraken: self.price_kraken,
        }
    }
}

impl Cache {
    /// The cached figures agree with what the primitive inputs derive to,
    /// and every figure is in range.
    spec fn wf(self) -> bool {
        &&& self@.bounded()
        &&& self.median_price == self@.median()
        &&& self.market_cap == cached_cap(self.circulating_supply, self.median_price)
    }

    /// Every figure starts undefined, until it gets updated.
    fn init() -> (r: Self)
        ensures
            r.wf(),
            r@ == AssetView::init(),
    {
        Self {
            circulating_supply: None,
            market_cap: None,
            median_price: None,
            price_binance: None,
            price_coinbase: None,
            price_kraken: None,
        }
    }

    /// Recompute the cached market capitalization from the cached supply and
    /// median price.
    fn update_market_cap(&mut self)
        ensures
            final(self)@ == old(self)@,
            final(self).median_price == old(self).median_price,
            final(self).market_cap == cached_cap(
                old(self).circulating_supply,
                old(self).median_price,
            ),
    {
        self.market_cap = match (self.circulating_supply, self.median_price) {
            (Some(s), Some(m)) => {
                proof {
                    assert((s as u128) * (m as u128) == (s * m) as u128) by (nonlinear_arith)
                        requires
                            s <= u64::MAX,
                            m <= u64::MAX,
                    ;
                }
                Some((s as u128) * (m as u128))
            },
            _ => None,
        };
    }

    /// A well-formed cache's market capitalization is the exact product of
    /// its supply and median price, and stays under `10 ^ 36`.
    proof fn lemma_cap_exact(self)
        requires
            self.wf(),
            self.market_cap.is_some(),
        ensures
            self@.cap().is_some(),
            self.market_cap.unwrap() as int == self@.cap().unwrap(),
            self.market_cap.unwrap() <= 1000000000000000000000000000000000000u128,
    {
        let s = self.circulating_supply.unwrap();
        let m = self.median_price.unwrap();
        assert(0 <= s * m <= 1000000000000000000000000000000000000int) by (nonlinear_arith)
            requires
                0 <= s <= 1000000000000000000,
                0 <= m <= 1000000000000000000,
        ;
    }

    /// Recompute the cached median price.
    ///
    /// The market price on all exchanges must be set. If an exchange price
    /// has not been set yet, the cached median price stays undefined.
    fn update_median_price(&mut self)
        requires
            old(self)@.median().is_none() ==> old(self).median_price.is_none(),
        ensures
            final(self)@ == old(self)@,
            final(self).market_cap == old(self).market_cap,
            final(self).median_price == old(self)@.median(),
    {
        match (self.price_binance, self.price_coinbase, self.price_kraken) {
            (Some(a), Some(b), Some(c)) => {
                self.median_price = Some(crate::price::median3(a, b, c));
            },
            _ => {},
        }
    }
}

/// The core engine of the altcoin index: it holds the per-asset figures and
/// all the business logic that derives the index from them. It is meant to
/// have a single owner — the one task that consumes the tick stream — so no
/// synchronization is required around it.
pub struct Engine {
    ada: Cache,
    doge: Cache,
    dot: Cache,
    eth: Cache,
    sol: Cache,
}

impl View for Engine {
    type V = EngineView;

    closed spec fn view(&self) -> EngineView {
        EngineView {
            ada: self.ada@,
            doge: self.doge@,
            dot: self.dot@,
            eth: self.eth@,
            sol: self.sol@,
        }
    }
}

impl Engine {
    /// The one cache the given coin lives in.
    closed spec fn spec_cache(self, coin: Coin) -> Cache {
        match coin {
            Coin::ADA => self.ada,
            Coin::DOGE => self.doge,
            Coin::DOT => self.dot,
            Coin::ETH => self.eth,
            Coin::SOL => self.sol,
        }
    }

    /// This engine with one coin's cache replaced.
    closed spec fn spec_with_cache(self, coin: Coin, c: Cache) -> Engine {
        match coin {
            Coin::ADA => Engine { ada: c, ..self },
            Coin::DOGE => Engine { doge: c, ..self },
            Coin::DOT => Engine { dot: c, ..self },
            Coin::ETH => Engine { eth: c, ..self },
            Coin::SOL => Engine { sol: c, ..self },
        }
    }

    /// Every cached figure agrees with the primitive inputs and is in range.
    pub closed spec fn wf(self) -> bool {
        &&& self.ada.wf()
        &&& self.doge.wf()
        &&& self.dot.wf()
        &&& self.eth.wf()
        &&& self.sol.wf()
    }

    /// Every figure starts undefined, until it gets updated.
    pub fn init() -> (r: Self)
        ensures
            r.wf(),
            r@ == EngineView::init(),
    {
        Self {
            ada: Cache::init(),
            doge: Cache::init(),
            dot: Cache::init(),
            eth: Cache::init(),
            sol: Cache::init(),
        }
    }

    /// Get a mutable reference to the cache for a given altcoin.
    fn get_mut_cache(&mut self, coin: Coin) -> (r: &mut Cache)
        ensures
            *r == old(self).spec_cache(coin),
            *final(self) == old(self).spec_with_cache(coin, *final(r)),
    {
        match coin {
            Coin::ADA => &mut self.ada,
            Coin::DOGE => &mut self.doge,
            Coin::DOT => &mut self.dot,
            Coin::ETH => &mut self.eth,
            Coin::SOL => &mut self.sol,
        }
    }

    /// The current index figure: present exactly when all five market
    /// capitalizations are defined, and then the quotient and remainder of
    /// their sum by [`DIVISOR`].
    pub fn get_index(&self) -> (r: Option<(u128, u64)>)
        requires
            self.wf(),
        ensures
            index_reported(self@, r),
    {
        let caps = (
            self.ada.market_cap,
            self.doge.market_cap,
            self.dot.market_cap,
            self.eth.market_cap,
            self.sol.market_cap,
        );
        match caps {
            (Some(a), Some(b), Some(c), Some(d), Some(e)) => {
                proof {
                    self.ada.lemma_cap_exact();
                    self.doge.lemma_cap_exact();
                    self.dot.lemma_cap_exact();
                    self.eth.lemma_cap_exact();
                    self.sol.lemma_cap_exact();
                }
                let total = a + b + c + d + e;
                let q = total / (DIVISOR as u128);
                let rem = (total % (DIVISOR as u128)) as u64;
                proof {
                    assert(total as int == self@.total_cap().unwrap());
                    assert(total as int == q * (DIVISOR as int) + (total as int) % (
                    DIVISOR as int));
                }
                Some((q, rem))
            },
            _ => None,
        }
    }

    /// Update the current price of an altcoin in the index for a particular
    /// exchange, and report the resulting index figure.
    pub fn update_price(&mut self, coin: Coin, exchange: Exchange, price: u64) -> (r: Option<
        (u128, u64),
    >)
        requires
            old(self).wf(),
            price <= MAX_UNITS,
        ensures
            final(self).wf(),
            final(self)@ == old(self)@.with_asset(
                coin,
                old(self)@.asset(coin).with_price(exchange, price),
            ),
            index_reported(final(self)@, r),
    {
        let ghost pre = *self;
        let cache = self.get_mut_cache(coin);
        match exchange {
            Exchange::Binance => cache.price_binance = Some(price),
            Exchange::Coinbase => cache.price_coinbase = Some(price),
            Exchange::Kraken => cache.price_kraken = Some(price),
        };
        cache.update_median_price();
        cache.update_market_cap();
        proof {
            assert(self@ == pre@.with_asset(coin, pre@.asset(coin).with_price(exchange, price)));
        }
        self.get_index()
    }

    /// Update the current circulating supply of an altcoin in the index, and
    /// report the resulting index figure.
    pub fn update_supply(&mut self, coin: Coin, supply: u64) -> (r: Option<(u128, u64)>)
        requires
            old(self).wf(),
            supply <= MAX_UNITS,
        ensures
            final(self).wf(),
            final(self)@ == old(self)@.with_asset(coin, old(self)@.asset(coin).with_supply(supply)),
            index_reported(final(self)@, r),
    {
        let ghost pre = *self;
        let cache = self.get_mut_cache(coin);
        cache.circulating_supply = Some(supply);
        cache.update_market_cap();
        proof {
            assert(self@ == pre@.with_asset(coin, pre@.asset(coin).with_supply(supply)));
        }
        self.get_index()
    }
}

} // verus!
