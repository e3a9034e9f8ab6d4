//! Fixed-point prices and the price-feed abstraction: the numeric domain of
//! every observation, the median of the three per-exchange quotes, the
//! decimal-string parser that turns a feed's textual number into a
//! fixed-point value, and the reconnecting-feed state machine each exchange
//! adapter runs.

use vstd::prelude::*;

use crate::engine::Input;
use crate::{Coin, Exchange};

verus! {

/// Number of decimal places a fixed-point value carries.
pub const FRAC_DIGITS: u64 = 6;

/// One whole unit in fixed-point representation: `10 ^ FRAC_DIGITS`.
pub const SCALE: u64 = 1_000_000;

/// Largest admissible fixed-point value. Keeping every price and supply under
/// this bound keeps each market capitalization under `10 ^ 36` and the sum of
/// the five under `5 * 10 ^ 36`, comfortably inside `u128`. A textual number
/// beyond the bound fails to parse, and the observation is discarded.
pub const MAX_UNITS: u64 = 1_000_000_000_000_000_000;

/// Largest whole part a parsed number may have: `MAX_UNITS / SCALE`.
pub const MAX_WHOLE: u64 = 1_000_000_000_000;

/// The seconds an adapter waits after a connection error before it
/// reconnects.
pub const RECONNECT_SECS: u64 = 10;

/// The middle of three values: at least one of the three is `<=` it, and at
/// least one is `>=` it.
pub open spec fn med3(a: u64, b: u64, c: u64) -> u64 {
    if a <= b {
        if b <= c {
            b
        } else if a <= c {
            c
        } else {
            a
        }
    } else {
        if a <= c {
            a
        } else if b <= c {
            c
        } else {
            b
        }
    }
}

/// The median of three observed quotes (last trade, best bid, best ask).
pub fn median3(a: u64, b: u64, c: u64) -> (r: u64)
    ensures
        r == med3(a, b, c),
{
    if a <= b {
        if b <= c {
            b
        } else if a <= c {
            c
        } else {
            a
        }
    } else {
        if a <= c {
            a
        } else if b <= c {
            c
        } else {
            b
        }
    }
}

/// One decoded ticker frame: the coin it is about and its three quotes
/// (last trade, best bid, best ask) as fixed-point values.
#[derive(Clone, Copy, Debug, PartialEq, Eq, Structural)]
pub struct Quote {
    pub coin: Coin,
    pub last: u64,
    pub bid: u64,
    pub ask: u64,
}

impl Quote {
    /// Every quoted figure is within the fixed-point range.
    pub open spec fn bounded(self) -> bool {
        self.last <= MAX_UNITS && self.bid <= MAX_UNITS && self.ask <= MAX_UNITS
    }
}

/// The market price one feed message yields: the median of the message's
/// three quotes, as the engine input for this adapter's exchange.
pub fn input_from_quote(exchange: Exchange, quote: Quote) -> (r: Input)
    requires
        quote.bounded(),
    ensures
        r == Input::Price(quote.coin, exchange, med3(quote.last, quote.bid, quote.ask)),
        r.bounded(),
{
    let m = median3(quote.last, quote.bid, quote.ask);
    Input::price(quote.coin, exchange, m)
}

/// The two phases of a reconnecting feed connection: streaming messages, or
/// waiting out the reconnect delay after an error.
#[derive(Clone, Copy, Debug, PartialEq, Eq, Structural)]
pub enum FeedState {
    Connected,
    Reconnecting,
}

/// What the adapter's transport reports to the feed state machine.
#[derive(Clone, Copy, Debug, PartialEq, Eq, Structural)]
pub enum FeedEvent {
    Opened,
    OpenFailed,
    StreamEnded,
    TimerElapsed,
}

/// What the adapter must do next: send the subscribe request on the fresh
/// connection, wait out the reconnect delay, open a connection, or keep
/// doing what it was doing.
#[derive(Clone, Copy, Debug, PartialEq, Eq, Structural)]
pub enum FeedAction {
    SendSubscribe,
    StartTimer(u64),
    OpenConnection,
    Keep,
}

/// The one timed transition system of a feed: every connection error leads
/// to [`FeedState::Reconnecting`], and the elapsed reconnect timer leads to a
/// fresh connection attempt — the feed never terminates.
pub open spec fn feed_step(s: FeedState, e: FeedEvent) -> (FeedState, FeedAction) {
    match (s, e) {
        (FeedState::Reconnecting, FeedEvent::TimerElapsed) => (
            FeedState::Reconnecting,
            FeedAction::OpenConnection,
        ),
        (FeedState::Reconnecting, FeedEvent::Opened) => (
            FeedState::Connected,
            FeedAction::SendSubscribe,
        ),
        (FeedState::Reconnecting, FeedEvent::OpenFailed) => (
            FeedState::Reconnecting,
            FeedAction::StartTimer(RECONNECT_SECS),
        ),
        (FeedState::Connected, FeedEvent::StreamEnded) => (
            FeedState::Reconnecting,
            FeedAction::StartTimer(RECONNECT_SECS),
        ),
        (_, _) => (s, FeedAction::Keep),
    }
}

/// A reconnecting websocket price feed for one exchange: the state machine
/// the adapter task drives. The task performs each returned action — connect,
/// send the subscribe payload, sleep [`RECONNECT_SECS`] — and reports the
/// outcome as the next event; decoded frames flow through
/// [`input_from_quote`] while the feed is connected.
pub struct WebSocketPriceFeed {
    pub exchange: Exchange,
    pub state: FeedState,
}

impl WebSocketPriceFeed {
    /// A fresh feed: not yet connected, its reconnect delay already elapsed,
    /// so the first event to report is [`FeedEvent::TimerElapsed`].
    pub fn init(exchange: Exchange) -> (r: Self)
        ensures
            r.exchange == exchange,
            r.state == FeedState::Reconnecting,
    {
        Self { exchange, state: FeedState::Reconnecting }
    }

    /// Advance the feed by one transport event.
    pub fn step(&mut self, event: FeedEvent) -> (a: FeedAction)
        ensures
            (final(self).state, a) == feed_step(old(self).state, event),
            final(self).exchange == old(self).exchange,
    {
        let (next, action) = match (self.state, event) {
            (FeedState::Reconnecting, FeedEvent::TimerElapsed) => (
                FeedState::Reconnecting,
                FeedAction::OpenConnection,
            ),
            (FeedState::Reconnecting, FeedEvent::Opened) => (
                FeedState::Connected,
                FeedAction::SendSubscribe,
            ),
            (FeedState::Reconnecting, FeedEvent::OpenFailed) => (
                FeedState::Reconnecting,
                FeedAction::StartTimer(RECONNECT_SECS),
            ),
            (FeedState::Connected, FeedEvent::StreamEnded) => (
                FeedState::Reconnecting,
                FeedAction::StartTimer(RECONNECT_SECS),
            ),
            (s, _) => (s, FeedAction::Keep),
        };
        self.state = next;
        action
    }
}

/// A feed that loses its connection resumes by itself: the error starts the
/// reconnect timer, the elapsed timer opens a fresh connection, and a
/// successful open re-subscribes — no outside intervention appears anywhere
/// in the cycle.
pub proof fn lemma_feed_resumes()
    ensures
        feed_step(FeedState::Connected, FeedEvent::StreamEnded) == (
            FeedState::Reconnecting,
            FeedAction::StartTimer(RECONNECT_SECS),
        ),
        feed_step(FeedState::Reconnecting, FeedEvent::TimerElapsed) == (
            FeedState::Reconnecting,
            FeedAction::OpenConnection,
        ),
        feed_step(FeedState::Reconnecting, FeedEvent::Opened) == (
            FeedState::Connected,
            FeedAction::SendSubscribe,
        ),
{
}

/// Whether a string holds exactly the given text.
pub fn str_is(s: &String, text: &str) -> (r: bool)
    ensures
        r == (s@ == text@),
{
    let t: String = text.to_owned();
    *s == t
}

/// Whether a character is a decimal digit.
pub open spec fn is_digit(c: char) -> bool {
    48 <= c as u32 <= 57
}

/// The numeric value of a decimal digit.
pub open spec fn digit_val(c: char) -> int {
    c as u32 - 48
}

/// Every character of the sequence is a decimal digit.
pub open spec fn all_digits(s: Seq<char>) -> bool {
    forall|i: int| 0 <= i < s.len() ==> is_digit(#[trigger] s[i])
}

/// The number a sequence of decimal digits denotes, most significant first.
pub open spec fn digits_val(s: Seq<char>) -> int
    decreases s.len(),
{
    if s.len() == 0 {
        0
    } else {
        digits_val(s.drop_last()) * 10 + digit_val(s.last())
    }
}

/// `10 ^ n`.
pub open spec fn pow10(n: int) -> int
    decreases n,
{
    if n <= 0 {
        1
    } else {
        10 * pow10(n - 1)
    }
}

/// The index of the first `'.'` in the sequence, or `-1` if there is none.
pub open spec fn find_dot(s: Seq<char>) -> int
    decreases s.len(),
{
    if s.len() == 0 {
        -1
    } else if s[0] == '.' {
        0
    } else {
        let r = find_dot(s.drop_first());
        if r == -1 {
            -1
        } else {
            r + 1
        }
    }
}

/// The fixed-point value a whole part and a fractional part denote. A
/// fractional digit beyond [`FRAC_DIGITS`] is below the resolution and is
/// dropped.
pub open spec fn parts_val(whole: Seq<char>, frac: Seq<char>) -> int {
    digits_val(whole) * SCALE + frac_val(frac)
}

/// The value of the fractional part, scaled to [`FRAC_DIGITS`] digits.
pub open spec fn frac_val(frac: Seq<char>) -> int {
    if frac.len() >= FRAC_DIGITS {
        digits_val(frac.take(FRAC_DIGITS as int))
    } else {
        digits_val(frac) * pow10(FRAC_DIGITS - frac.len())
    }
}

/// The fixed-point value a decimal string denotes: an optional whole part and
/// an optional fractional part around at most one `'.'`, at least one digit
/// in all, everything else a digit, the value at most [`MAX_UNITS`]. Any
/// other string denotes nothing.
pub open spec fn fixed_of(s: Seq<char>) -> Option<u64> {
    let d = find_dot(s);
    if d == -1 {
        if s.len() > 0 && all_digits(s) && digits_val(s) * SCALE <= MAX_UNITS {
            Some((digits_val(s) * SCALE) as u64)
        } else {
            None
        }
    } else {
        let whole = s.take(d);
        let frac = s.skip(d + 1);
        if whole.len() + frac.len() > 0 && all_digits(whole) && all_digits(frac) && parts_val(
            whole,
            frac,
        ) <= MAX_UNITS {
            Some(parts_val(whole, frac) as u64)
        } else {
            None
        }
    }
}

/// A digit string denotes a number at least zero.
proof fn lemma_digits_nonneg(s: Seq<char>)
    requires
        all_digits(s),
    ensures
        digits_val(s) >= 0,
    decreases s.len(),
{
    if s.len() > 0 {
        assert(all_digits(s.drop_last()));
        lemma_digits_nonneg(s.drop_last());
    }
}

/// A digit string of length `n` denotes a number under `10 ^ n`.
proof fn lemma_digits_upper(s: Seq<char>)
    requires
        all_digits(s),
    ensures
        digits_val(s) < pow10(s.len() as int),
    decreases s.len(),
{
    if s.len() > 0 {
        assert(all_digits(s.drop_last()));
        lemma_digits_upper(s.drop_last());
    }
}

/// Extending a digit string does not shrink the number it denotes.
proof fn lemma_digits_prefix_le(s: Seq<char>, i: int)
    requires
        0 <= i <= s.len(),
        all_digits(s),
    ensures
        digits_val(s.take(i)) <= digits_val(s),
    decreases s.len() - i,
{
    if i < s.len() {
        assert(all_digits(s.take(i))) by {
            assert(forall|j: int| 0 <= j < i ==> #[trigger] s.take(i)[j] == s[j]);
        }
        lemma_digits_nonneg(s.take(i));
        assert(s.take(i + 1).drop_last() =~= s.take(i));
        assert(digits_val(s.take(i + 1)) == digits_val(s.take(i)) * 10 + digit_val(s[i]));
        lemma_digits_prefix_le(s, i + 1);
    } else {
        assert(s.take(i) =~= s);
    }
}

/// Characterization of [`find_dot`]: it names the first dot where there is
/// one, and `-1` exactly when there is none.
proof fn lemma_find_dot(s: Seq<char>)
    ensures
        find_dot(s) == -1 ==> (forall|i: int| 0 <= i < s.len() ==> #[trigger] s[i] != '.'),
        find_dot(s) != -1 ==> {
            &&& 0 <= find_dot(s) < s.len()
            &&& s[find_dot(s)] == '.'
            &&& forall|i: int| 0 <= i < find_dot(s) ==> #[trigger] s[i] != '.'
        },
    decreases s.len(),
{
    if s.len() > 0 && s[0] != '.' {
        let t = s.drop_first();
        lemma_find_dot(t);
        assert(forall|i: int| 1 <= i < s.len() ==> #[trigger] s[i] == t[i - 1]);
        if find_dot(t) != -1 {
            assert(s[find_dot(s)] == t[find_dot(t)]);
        }
    }
}

/// Parse a decimal string into a fixed-point value: the number scaled by
/// [`SCALE`] and truncated to the fixed-point resolution. `None` for a
/// string that is not a plain decimal number or whose value exceeds
/// [`MAX_UNITS`].
#[verifier::loop_isolation(false)]
#[verifier::rlimit(50)]
pub fn str_to_fixed(s: &str) -> (r: Option<u64>)
    ensures
        r == fixed_of(s@),
        r.is_some() ==> r.unwrap() <= MAX_UNITS,
{
    let n = s.unicode_len();
    proof {
        lemma_find_dot(s@);
    }

    // Find the first dot, if any.
    let mut dot: Option<usize> = None;
    let mut i: usize = 0;
    while i < n
        invariant
            0 <= i <= n,
            n == s@.len(),
            dot.is_none() ==> (forall|j: int| 0 <= j < i ==> #[trigger] s@[j] != '.'),
            dot.is_some() ==> dot.unwrap() < i && s@[dot.unwrap() as int] == '.' && (forall|j: int|
                0 <= j < dot.unwrap() ==> #[trigger] s@[j] != '.'),
        decreases n - i,
    {
        if dot.is_none() {
            let c = s.get_char(i);
            if c == '.' {
                dot = Some(i);
            }
        }
        i = i + 1;
    }
    proof {
        match dot {
            Some(d) => {
                assert(find_dot(s@) == d);
            },
            None => {
                assert(find_dot(s@) == -1);
            },
        }
    }

    // The whole part is `s[..whole_end]`, the fractional part `s[frac_start..]`.
    let (whole_end, frac_start) = match dot {
        Some(d) => (d, d + 1),
        None => (n, n),
    };
    if whole_end == 0 && frac_start >= n {
        // No digit at all: "" or ".".
        return None;
    }

    // Parse the whole part.
    let ghost whole = s@.take(whole_end as int);
    let mut acc: u64 = 0;
    i = 0;
    while i < whole_end
        invariant
            0 <= i <= whole_end <= n,
            n == s@.len(),
            whole == s@.take(whole_end as int),
            forall|j: int| 0 <= j < i ==> is_digit(#[trigger] whole[j]),
            acc == digits_val(whole.take(i as int)),
            acc <= MAX_WHOLE,
        decreases whole_end - i,
    {
        let c = s.get_char(i);
        let d = c as u32;
        if d < 48 || d > 57 {
            proof {
                assert(whole[i as int] == s@[i as int]);
                assert(!is_digit(s@[i as int]));
                if dot.is_none() {
                    assert(whole =~= s@);
                }
            }
            return None;
        }
        proof {
            assert(whole.take(i + 1).drop_last() =~= whole.take(i as int));
        }
        let next = acc * 10 + ((d - 48) as u64);
        if next > MAX_WHOLE {
            proof {
                if dot.is_none() {
                    assert(whole =~= s@);
                }
                if all_digits(whole) {
                    lemma_digits_prefix_le(whole, i + 1);
                    assert(digits_val(whole) * SCALE > MAX_UNITS) by (nonlinear_arith)
                        requires
                            digits_val(whole) > 1_000_000_000_000int,
                            SCALE == 1_000_000u64,
                            MAX_UNITS == 1_000_000_000_000_000_000u64,
                    ;
                    let frac_part = s@.skip(whole_end as int + 1);
                    if find_dot(s@) != -1 && all_digits(frac_part) {
                        lemma_frac_under_scale(frac_part);
                    }
                }
            }
            return None;
        }
        acc = next;
        i = i + 1;
    }
    proof {
        assert(whole.take(whole_end as int) =~= whole);
        assert(all_digits(whole));
    }

    // Parse the fractional part, keeping the first FRAC_DIGITS digits.
    let ghost frac = s@.skip(frac_start as int);
    let mut facc: u64 = 0;
    let mut kept: u64 = 0;
    i = frac_start;
    while i < n
        invariant
            frac_start <= i <= n,
            n == s@.len(),
            frac == s@.skip(frac_start as int),
            forall|j: int| 0 <= j < i - frac_start ==> is_digit(#[trigger] frac[j]),
            kept == if i - frac_start <= FRAC_DIGITS {
                i - frac_start
            } else {
                FRAC_DIGITS as int
            },
            facc == digits_val(frac.take(kept as int)),
            facc < pow10(kept as int),
            kept <= FRAC_DIGITS,
        decreases n - i,
    {
        let c = s.get_char(i);
        let d = c as u32;
        if d < 48 || d > 57 {
            proof {
                assert(frac[i as int - frac_start as int] == s@[i as int]);
                assert(!is_digit(frac[i as int - frac_start as int]));
            }
            return None;
        }
        if kept < FRAC_DIGITS {
            proof {
                assert(frac.take(kept + 1).drop_last() =~= frac.take(kept as int));
                reveal_with_fuel(pow10, 2);
                assert(pow10(kept as int + 1) == 10 * pow10(kept as int));
                assert(pow10(kept as int) <= 100_000) by {
                    lemma_pow10_vals();
                    if kept == 0 {
                    } else if kept == 1 {
                    } else if kept == 2 {
                    } else if kept == 3 {
                    } else if kept == 4 {
                    } else {
                        assert(kept == 5);
                    }
                };
            }
            facc = facc * 10 + ((d - 48) as u64);
            kept = kept + 1;
        }
        i = i + 1;
    }
    proof {
        assert(forall|j: int| 0 <= j < frac.len() ==> is_digit(#[trigger] frac[j]));
        assert(all_digits(frac));
    }

    // Scale the kept fractional digits up to the fixed-point resolution.
    let pad = pow10_small(FRAC_DIGITS - kept);
    proof {
        lemma_pow10_vals();
        lemma_pow10_split(kept as int);
        lemma_pow10_pos(FRAC_DIGITS as int - kept as int);
        lemma_digits_nonneg(frac.take(kept as int));
        assert(facc * pad < SCALE) by (nonlinear_arith)
            requires
                0 <= facc < pow10(kept as int),
                pad == pow10(FRAC_DIGITS as int - kept as int),
                pad >= 1,
                pow10(kept as int) * pow10(FRAC_DIGITS as int - kept as int) == SCALE,
                SCALE == 1_000_000u64,
        ;
        if frac.len() < FRAC_DIGITS {
            assert(frac.take(kept as int) =~= frac);
        }
        if dot.is_none() {
            assert(whole =~= s@);
            assert(frac =~= Seq::<char>::empty());
        }
        assert(facc * pad == frac_val(frac));
    }
    let fval = facc * pad;

    // Assemble, and enforce the global bound.
    proof {
        assert(acc * SCALE <= MAX_UNITS) by (nonlinear_arith)
            requires
                0 <= acc <= MAX_WHOLE,
                MAX_WHOLE == 1_000_000_000_000u64,
                SCALE == 1_000_000u64,
                MAX_UNITS == 1_000_000_000_000_000_000u64,
        ;
    }
    let total = acc * SCALE + fval;
    if total > MAX_UNITS {
        return None;
    }
    Some(total)
}

/// `10 ^ n` is at least one.
proof fn lemma_pow10_pos(n: int)
    ensures
        pow10(n) >= 1,
    decreases (if n <= 0 { 0int } else { n }),
{
    if n > 0 {
        lemma_pow10_pos(n - 1);
    }
}

/// The values of the small powers of ten.
proof fn lemma_pow10_vals()
    ensures
        pow10(0) == 1,
        pow10(1) == 10,
        pow10(2) == 100,
        pow10(3) == 1_000,
        pow10(4) == 10_000,
        pow10(5) == 100_000,
        pow10(6) == 1_000_000,
{
    reveal_with_fuel(pow10, 2);
    assert(pow10(0) == 1);
    assert(pow10(1) == 10 * pow10(0));
    assert(pow10(2) == 10 * pow10(1));
    assert(pow10(3) == 10 * pow10(2));
    assert(pow10(4) == 10 * pow10(3));
    assert(pow10(5) == 10 * pow10(4));
    assert(pow10(6) == 10 * pow10(5));
}

/// `10 ^ kept * 10 ^ (FRAC_DIGITS - kept) == SCALE` for `kept` up to
/// [`FRAC_DIGITS`].
proof fn lemma_pow10_split(kept: int)
    requires
        0 <= kept <= FRAC_DIGITS,
    ensures
        pow10(kept) * pow10(FRAC_DIGITS - kept) == SCALE,
{
    lemma_pow10_vals();
}

/// A fractional part denotes a value under [`SCALE`].
proof fn lemma_frac_under_scale(frac: Seq<char>)
    requires
        all_digits(frac),
    ensures
        0 <= frac_val(frac) < SCALE,
{
    lemma_pow10_vals();
    if frac.len() >= FRAC_DIGITS {
        let kept = frac.take(FRAC_DIGITS as int);
        assert(all_digits(kept)) by {
            assert(forall|j: int| 0 <= j < FRAC_DIGITS ==> #[trigger] kept[j] == frac[j]);
        }
        lemma_digits_nonneg(kept);
        lemma_digits_upper(kept);
    } else {
        lemma_digits_nonneg(frac);
        lemma_digits_upper(frac);
        lemma_pow10_split(frac.len() as int);
        lemma_pow10_pos(FRAC_DIGITS as int - frac.len() as int);
        assert(digits_val(frac) * pow10(FRAC_DIGITS as int - frac.len() as int) < SCALE)
            by (nonlinear_arith)
            requires
                0 <= digits_val(frac) < pow10(frac.len() as int),
                pow10(FRAC_DIGITS as int - frac.len() as int) >= 1,
                pow10(frac.len() as int) * pow10(FRAC_DIGITS as int - frac.len() as int) == SCALE,
                SCALE == 1_000_000u64,
        ;
    }
}

/// Exact power of ten, for scaling a short fractional part.
fn pow10_small(e: u64) -> (r: u64)
    requires
        e <= 6,
    ensures
        r == pow10(e as int),
{
    proof {
        lemma_pow10_vals();
    }
    match e {
        0 => 1,
        1 => 10,
        2 => 100,
        3 => 1_000,
        4 => 10_000,
        5 => 100_000,
        _ => 1_000_000,
    }
}

} // verus!
