use altusd::engine::Input;
use altusd::price::{
    input_from_quote, FeedAction, FeedEvent, FeedState, Quote, WebSocketPriceFeed, RECONNECT_SECS,
};
use altusd::{Coin, Exchange};

/// Three adapters that disconnect at the same time each resume by
/// themselves: the timer elapses, the connection reopens, the subscribe
/// request goes out, and the feed streams again — none of the three depends
/// on another, and no restart appears anywhere.
#[test]
fn three_feeds_resume_independently() {
    let mut feeds = [
        WebSocketPriceFeed::init(Exchange::Binance),
        WebSocketPriceFeed::init(Exchange::Coinbase),
        WebSocketPriceFeed::init(Exchange::Kraken),
    ];
    // Bring all three up.
    for feed in feeds.iter_mut() {
        assert_eq!(feed.step(FeedEvent::TimerElapsed), FeedAction::OpenConnection);
        assert_eq!(feed.step(FeedEvent::Opened), FeedAction::SendSubscribe);
        assert_eq!(feed.state, FeedState::Connected);
    }
    // All three lose their connection at once.
    for feed in feeds.iter_mut() {
        assert_eq!(
            feed.step(FeedEvent::StreamEnded),
            FeedAction::StartTimer(RECONNECT_SECS)
        );
        assert_eq!(feed.state, FeedState::Reconnecting);
    }
    // Each resumes on its own once its own timer elapses.
    for feed in feeds.iter_mut() {
        assert_eq!(feed.step(FeedEvent::TimerElapsed), FeedAction::OpenConnection);
        assert_eq!(feed.step(FeedEvent::Opened), FeedAction::SendSubscribe);
        assert_eq!(feed.state, FeedState::Connected);
    }
}

/// A failed connection attempt starts the timer again instead of giving up.
#[test]
fn failed_reconnect_retries() {
    let mut feed = WebSocketPriceFeed::init(Exchange::Kraken);
    assert_eq!(feed.step(FeedEvent::TimerElapsed), FeedAction::OpenConnection);
    assert_eq!(
        feed.step(FeedEvent::OpenFailed),
        FeedAction::StartTimer(RECONNECT_SECS)
    );
    assert_eq!(feed.step(FeedEvent::TimerElapsed), FeedAction::OpenConnection);
    assert_eq!(feed.step(FeedEvent::Opened), FeedAction::SendSubscribe);
    assert_eq!(feed.exchange, Exchange::Kraken);
}

/// A decoded frame becomes a price tick carrying the median of its quotes.
#[test]
fn quote_becomes_median_tick() {
    let quote = Quote { coin: Coin::SOL, last: 100, bid: 102, ask: 101 };
    let tick = input_from_quote(Exchange::Coinbase, quote);
    assert_eq!(tick, Input::Price(Coin::SOL, Exchange::Coinbase, 101));
}
