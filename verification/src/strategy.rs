//! Trading strategies and the engine that runs them.

use vstd::prelude::*;
use vstd::string::StringExecFns;

use crate::fixed::{PERIOD_MAX, SCALE};
use crate::models::{Candle, OrderSide, Signal, Symbol};

verus! {

/// Confidence carried by a moving-average crossover signal: 0.8.
pub const CROSS_STRENGTH: u64 = 800_000;

/// Upper end of the RSI axis in ticks: the indicator lies in
/// `[0, 100 * SCALE]`.
pub const RSI_MAX: u64 = 100_000_000;

/// Configuration values a strategy can take over; an absent field
/// leaves the current parameter untouched, and so does a value outside
/// the parameter's valid range.
#[derive(Clone, Copy, Debug)]
pub struct StrategyParams {
    pub short_period: Option<usize>,
    pub long_period: Option<usize>,
    pub period: Option<usize>,
    pub oversold: Option<u64>,
    pub overbought: Option<u64>,
}

/// Stored configuration of a strategy.
#[derive(Debug)]
pub struct StrategyConfig {
    pub id: String,
    pub name: String,
    pub enabled: bool,
    pub parameters: StrategyParams,
}

/// Sum of the `close` of the first `n` candles of `s` (index 0 is the
/// newest bar).
pub open spec fn spec_close_sum(s: Seq<Candle>, n: int) -> int
    decreases n,
{
    if n <= 0 {
        0
    } else {
        spec_close_sum(s, n - 1) + s[n - 1].close
    }
}

/// Sum over the first `n` adjacent candle pairs of the positive close
/// deltas `close[i] - close[i+1]`.
pub open spec fn spec_gain_sum(s: Seq<Candle>, n: int) -> int
    decreases n,
{
    if n <= 0 {
        0
    } else {
        spec_gain_sum(s, n - 1) + if s[n - 1].close > s[n].close {
            s[n - 1].close - s[n].close
        } else {
            0
        }
    }
}

/// Sum over the first `n` adjacent candle pairs of the negative close
/// deltas, as a nonnegative quantity.
pub open spec fn spec_loss_sum(s: Seq<Candle>, n: int) -> int
    decreases n,
{
    if n <= 0 {
        0
    } else {
        spec_loss_sum(s, n - 1) + if s[n].close > s[n - 1].close {
            s[n].close - s[n - 1].close
        } else {
            0
        }
    }
}

/// Unsmoothed RSI over the first `period` candle pairs, on the scaled
/// axis `[0, 100 * SCALE]`: `100 * gain / (gain + loss)`, and 100 when
/// there is no loss.
pub open spec fn spec_rsi(s: Seq<Candle>, period: int) -> int {
    let g = spec_gain_sum(s, period);
    let l = spec_loss_sum(s, period);
    if l == 0 {
        RSI_MAX as int
    } else {
        (RSI_MAX as int) * g / (g + l)
    }
}

/// A strategy turns a candle window into at most one signal.
pub trait Strategy: Sized {
    /// Parameters lie in the ranges `analyze` is specified for.
    spec fn wf(&self) -> bool;

    /// The name under which the engine registers this strategy.
    spec fn spec_name(&self) -> Seq<char>;

    /// The directional decision on a candle window: side, strength and
    /// reason of the signal, or None.
    spec fn decision(&self, candles: Seq<Candle>) -> Option<(OrderSide, u64, Seq<char>)>;

    /// The strategy as reconfigured by `set_params`.
    spec fn with_params(&self, params: StrategyParams) -> Self;

    fn name(&self) -> (r: &'static str)
        ensures
            r@ == self.spec_name(),
    ;

    fn analyze(&self, candles: &Vec<Candle>) -> (r: Option<Signal>)
        requires
            self.wf(),
        ensures
            r is Some <==> self.decision(candles@) is Some,
            r is Some ==> candles@.len() > 0,
            r is Some ==> {
                let d = self.decision(candles@)->Some_0;
                let sig = r->Some_0;
                &&& sig.side == d.0
                &&& sig.strength == d.1
                &&& sig.strength <= SCALE
                &&& sig.reason@ == d.2
                &&& sig.symbol == candles@[0].symbol
            },
    ;

    fn set_params(&mut self, params: &StrategyParams)
        requires
            old(self).wf(),
        ensures
            *final(self) == old(self).with_params(*params),
            final(self).wf(),
    ;
}

/// Sum of the closes of `candles[start .. start + period]`, together
/// with the bound that makes downstream products fit.
fn window_close_sum(candles: &Vec<Candle>, start: usize, period: usize) -> (r: u128)
    requires
        start + period <= candles@.len(),
        period <= PERIOD_MAX,
    ensures
        r == spec_close_sum(candles@.skip(start as int), period as int),
        r <= period * (u64::MAX as int),
{
    let n: usize = candles.len();
    let mut acc: u128 = 0;
    let mut i: usize = 0;
    while i < period
        invariant
            i <= period,
            start + period <= n,
            n == candles@.len(),
            acc == spec_close_sum(candles@.skip(start as int), i as int),
            acc <= i * (u64::MAX as int),
        decreases period - i,
    {
        acc = acc + (candles[start + i].close as u128);
        proof {
            assert(candles@.skip(start as int)[i as int] == candles@[start + i]);
        }
        i = i + 1;
    }
    acc
}

/// Signals on a crossover of a short and a long simple moving average.
#[derive(Debug)]
pub struct SmaCrossoverStrategy {
    pub short_period: usize,
    pub long_period: usize,
}

impl SmaCrossoverStrategy {
    pub fn new(short_period: usize, long_period: usize) -> (r: SmaCrossoverStrategy)
        requires
            1 <= short_period <= PERIOD_MAX,
            1 <= long_period <= PERIOD_MAX,
        ensures
            r.short_period == short_period,
            r.long_period == long_period,
            r.wf(),
    {
        SmaCrossoverStrategy { short_period, long_period }
    }
}

impl Strategy for SmaCrossoverStrategy {
    open spec fn wf(&self) -> bool {
        &&& 1 <= self.short_period <= PERIOD_MAX
        &&& 1 <= self.long_period <= PERIOD_MAX
    }

    open spec fn spec_name(&self) -> Seq<char> {
        "sma_crossover"@
    }

    /// Golden cross: the short mean was at or below the long mean one
    /// bar ago and is strictly above it now; death cross dually. Mean
    /// comparisons are stated exactly by cross-multiplying the close
    /// sums with the positive window lengths.
    open spec fn decision(&self, candles: Seq<Candle>) -> Option<(OrderSide, u64, Seq<char>)> {
        let sp = self.short_period as int;
        let lp = self.long_period as int;
        if candles.len() < lp + 1 || candles.len() < sp + 1 {
            None
        } else {
            let cur_s = spec_close_sum(candles, sp);
            let cur_l = spec_close_sum(candles, lp);
            let prev_s = spec_close_sum(candles.skip(1), sp);
            let prev_l = spec_close_sum(candles.skip(1), lp);
            if prev_s * lp <= prev_l * sp && cur_s * lp > cur_l * sp {
                Some((OrderSide::Buy, CROSS_STRENGTH, "Golden cross"@))
            } else if prev_s * lp >= prev_l * sp && cur_s * lp < cur_l * sp {
                Some((OrderSide::Sell, CROSS_STRENGTH, "Death cross"@))
            } else {
                None
            }
        }
    }

    open spec fn with_params(&self, params: StrategyParams) -> SmaCrossoverStrategy {
        if params.short_period matches Some(s) && params.long_period matches Some(l) && 1 <= s
            <= PERIOD_MAX && 1 <= l <= PERIOD_MAX {
            SmaCrossoverStrategy {
                short_period: params.short_period->Some_0,
                long_period: params.long_period->Some_0,
            }
        } else {
            *self
        }
    }

    fn name(&self) -> (r: &'static str) {
        "sma_crossover"
    }

    fn analyze(&self, candles: &Vec<Candle>) -> (r: Option<Signal>) {
        if candles.len() < self.long_period + 1 || candles.len() < self.short_period + 1 {
            return None;
        }
        proof {
            assert(candles@.skip(0) =~= candles@);
        }
        let cur_s: u128 = window_close_sum(candles, 0, self.short_period);
        let cur_l: u128 = window_close_sum(candles, 0, self.long_period);
        let prev_s: u128 = window_close_sum(candles, 1, self.short_period);
        let prev_l: u128 = window_close_sum(candles, 1, self.long_period);
        let sp: u128 = self.short_period as u128;
        let lp: u128 = self.long_period as u128;
        proof {
            assert(cur_s * lp <= (PERIOD_MAX as int) * (u64::MAX as int) * (PERIOD_MAX as int)
                && cur_l * sp <= (PERIOD_MAX as int) * (u64::MAX as int) * (PERIOD_MAX as int)
                && prev_s * lp <= (PERIOD_MAX as int) * (u64::MAX as int) * (PERIOD_MAX as int)
                && prev_l * sp <= (PERIOD_MAX as int) * (u64::MAX as int) * (PERIOD_MAX as int))
                by (nonlinear_arith)
                requires
                    0 <= cur_s <= (PERIOD_MAX as int) * (u64::MAX as int),
                    0 <= cur_l <= (PERIOD_MAX as int) * (u64::MAX as int),
                    0 <= prev_s <= (PERIOD_MAX as int) * (u64::MAX as int),
                    0 <= prev_l <= (PERIOD_MAX as int) * (u64::MAX as int),
                    0 <= sp <= PERIOD_MAX as int,
                    0 <= lp <= PERIOD_MAX as int,
            ;
        }
        if prev_s * lp <= prev_l * sp && cur_s * lp > cur_l * sp {
            return Some(
                Signal::new(candles[0].symbol.duplicate(), OrderSide::Buy, CROSS_STRENGTH,
                    "Golden cross"),
            );
        }
        if prev_s * lp >= prev_l * sp && cur_s * lp < cur_l * sp {
            return Some(
                Signal::new(candles[0].symbol.duplicate(), OrderSide::Sell, CROSS_STRENGTH,
                    "Death cross"),
            );
        }
        None
    }

    fn set_params(&mut self, params: &StrategyParams) {
        if let (Some(s), Some(l)) = (params.short_period, params.long_period) {
            if 1 <= s && s <= PERIOD_MAX && 1 <= l && l <= PERIOD_MAX {
                self.short_period = s;
                self.long_period = l;
            }
        }
    }
}

/// Signals on the unsmoothed relative-strength index leaving the
/// oversold or overbought band.
#[derive(Debug)]
pub struct RsiStrategy {
    pub period: usize,
    pub oversold: u64,
    pub overbought: u64,
}

impl RsiStrategy {
    pub fn new(period: usize, oversold: u64, overbought: u64) -> (r: RsiStrategy)
        requires
            1 <= period <= PERIOD_MAX,
            0 < oversold,
            overbought < RSI_MAX,
        ensures
            r.period == period,
            r.oversold == oversold,
            r.overbought == overbought,
            r.wf(),
    {
        RsiStrategy { period, oversold, overbought }
    }
}

/// Scaled RSI over the most recent `period` candle pairs; None when
/// the window is too short.
fn calculate_rsi(candles: &Vec<Candle>, period: usize) -> (r: Option<u64>)
    requires
        1 <= period <= PERIOD_MAX,
    ensures
        r is Some <==> candles@.len() >= period + 1,
        r matches Some(v) ==> v == spec_rsi(candles@, period as int) && v <= RSI_MAX,
{
    if candles.len() < period + 1 {
        return None;
    }
    let mut gains: u128 = 0;
    let mut losses: u128 = 0;
    let mut i: usize = 0;
    while i < period
        invariant
            i <= period,
            period + 1 <= candles@.len(),
            gains == spec_gain_sum(candles@, i as int),
            losses == spec_loss_sum(candles@, i as int),
            gains <= i * (u64::MAX as int),
            losses <= i * (u64::MAX as int),
        decreases period - i,
    {
        let newer: u64 = candles[i].close;
        let older: u64 = candles[i + 1].close;
        if newer > older {
            gains = gains + ((newer - older) as u128);
        } else {
            losses = losses + ((older - newer) as u128);
        }
        i = i + 1;
    }
    if losses == 0 {
        return Some(RSI_MAX);
    }
    proof {
        assert(gains * (RSI_MAX as int) <= (PERIOD_MAX as int) * (u64::MAX as int) * (
        RSI_MAX as int)) by (nonlinear_arith)
            requires
                0 <= gains <= (PERIOD_MAX as int) * (u64::MAX as int),
        ;
        assert(gains * (RSI_MAX as int) / (gains + losses) <= RSI_MAX as int) by (nonlinear_arith)
            requires
                0 <= gains,
                0 < losses,
        ;
    }
    let rsi: u128 = gains * (RSI_MAX as u128) / (gains + losses);
    Some(rsi as u64)
}

impl Strategy for RsiStrategy {
    open spec fn wf(&self) -> bool {
        &&& 1 <= self.period <= PERIOD_MAX
        &&& 0 < self.oversold
        &&& self.overbought < RSI_MAX
    }

    open spec fn spec_name(&self) -> Seq<char> {
        "rsi"@
    }

    /// Buy when the RSI is below the oversold bound, with strength
    /// `(oversold - rsi) / oversold`; sell when it is above the
    /// overbought bound, with strength
    /// `(rsi - overbought) / (100 - overbought)`.
    open spec fn decision(&self, candles: Seq<Candle>) -> Option<(OrderSide, u64, Seq<char>)> {
        if candles.len() < self.period + 1 {
            None
        } else {
            let rsi = spec_rsi(candles, self.period as int);
            if rsi < self.oversold {
                Some(
                    (
                        OrderSide::Buy,
                        ((self.oversold - rsi) * (SCALE as int) / (self.oversold as int)) as u64,
                        "RSI oversold"@,
                    ),
                )
            } else if rsi > self.overbought {
                Some(
                    (
                        OrderSide::Sell,
                        ((rsi - self.overbought) * (SCALE as int) / (RSI_MAX
                            - self.overbought)) as u64,
                        "RSI overbought"@,
                    ),
                )
            } else {
                None
            }
        }
    }

    open spec fn with_params(&self, params: StrategyParams) -> RsiStrategy {
        RsiStrategy {
            period: if params.period matches Some(p) && 1 <= p <= PERIOD_MAX {
                params.period->Some_0
            } else {
                self.period
            },
            oversold: if params.oversold matches Some(v) && 0 < v {
                params.oversold->Some_0
            } else {
                self.oversold
            },
            overbought: if params.overbought matches Some(v) && v < RSI_MAX {
                params.overbought->Some_0
            } else {
                self.overbought
            },
        }
    }

    fn name(&self) -> (r: &'static str) {
        "rsi"
    }

    fn analyze(&self, candles: &Vec<Candle>) -> (r: Option<Signal>) {
        let rsi_opt = calculate_rsi(candles, self.period);
        let rsi: u64 = match rsi_opt {
            Some(v) => v,
            None => {
                return None;
            },
        };
        if rsi < self.oversold {
            proof {
                assert((self.oversold - rsi) * (SCALE as int) <= self.oversold * (SCALE as int)
                    && (self.oversold - rsi) * (SCALE as int) / (self.oversold as int) <= (
                SCALE as int)) by (nonlinear_arith)
                    requires
                        0 <= rsi < self.oversold,
                ;
            }
            let strength: u128 = ((self.oversold - rsi) as u128) * (SCALE as u128) / (
            self.oversold as u128);
            return Some(
                Signal::new(candles[0].symbol.duplicate(), OrderSide::Buy, strength as u64,
                    "RSI oversold"),
            );
        }
        if rsi > self.overbought {
            proof {
                assert((rsi - self.overbought) * (SCALE as int) <= (RSI_MAX - self.overbought) * (
                SCALE as int) && (rsi - self.overbought) * (SCALE as int) / ((RSI_MAX
                    - self.overbought) as int) <= (SCALE as int)) by (nonlinear_arith)
                    requires
                        self.overbought < rsi <= RSI_MAX,
                ;
            }
            let strength: u128 = ((rsi - self.overbought) as u128) * (SCALE as u128) / ((RSI_MAX
                - self.overbought) as u128);
            return Some(
                Signal::new(candles[0].symbol.duplicate(), OrderSide::Sell, strength as u64,
                    "RSI overbought"),
            );
        }
        None
    }

    fn set_params(&mut self, params: &StrategyParams) {
        if let Some(p) = params.period {
            if 1 <= p && p <= PERIOD_MAX {
                self.period = p;
            }
        }
        if let Some(v) = params.oversold {
            if 0 < v {
                self.oversold = v;
            }
        }
        if let Some(v) = params.overbought {
            if v < RSI_MAX {
                self.overbought = v;
            }
        }
    }
}

/// The closed set of strategies the engine can hold.
#[derive(Debug)]
pub enum AnyStrategy {
    SmaCrossover(SmaCrossoverStrategy),
    Rsi(RsiStrategy),
}

/// Whether two registry entries are the same strategy (and therefore
/// carry the same name).
pub open spec fn same_kind(a: AnyStrategy, b: AnyStrategy) -> bool {
    match (a, b) {
        (AnyStrategy::SmaCrossover(_), AnyStrategy::SmaCrossover(_)) => true,
        (AnyStrategy::Rsi(_), AnyStrategy::Rsi(_)) => true,
        _ => false,
    }
}

impl Strategy for AnyStrategy {
    open spec fn wf(&self) -> bool {
        match self {
            AnyStrategy::SmaCrossover(s) => s.wf(),
            AnyStrategy::Rsi(s) => s.wf(),
        }
    }

    open spec fn spec_name(&self) -> Seq<char> {
        match self {
            AnyStrategy::SmaCrossover(s) => s.spec_name(),
            AnyStrategy::Rsi(s) => s.spec_name(),
        }
    }

    open spec fn decision(&self, candles: Seq<Candle>) -> Option<(OrderSide, u64, Seq<char>)> {
        match self {
            AnyStrategy::SmaCrossover(s) => s.decision(candles),
            AnyStrategy::Rsi(s) => s.decision(candles),
        }
    }

    open spec fn with_params(&self, params: StrategyParams) -> AnyStrategy {
        match self {
            AnyStrategy::SmaCrossover(s) => AnyStrategy::SmaCrossover(s.with_params(params)),
            AnyStrategy::Rsi(s) => AnyStrategy::Rsi(s.with_params(params)),
        }
    }

    fn name(&self) -> (r: &'static str) {
        match self {
            AnyStrategy::SmaCrossover(s) => s.name(),
            AnyStrategy::Rsi(s) => s.name(),
        }
    }

    fn analyze(&self, candles: &Vec<Candle>) -> (r: Option<Signal>) {
        match self {
            AnyStrategy::SmaCrossover(s) => s.analyze(candles),
            AnyStrategy::Rsi(s) => s.analyze(candles),
        }
    }

    fn set_params(&mut self, params: &StrategyParams) {
        match self {
            AnyStrategy::SmaCrossover(s) => s.set_params(params),
            AnyStrategy::Rsi(s) => s.set_params(params),
        }
    }
}

/// Whether `a` and `b` are the same kind of strategy.
fn is_same_kind(a: &AnyStrategy, b: &AnyStrategy) -> (r: bool)
    ensures
        r == same_kind(*a, *b),
{
    match (a, b) {
        (AnyStrategy::SmaCrossover(_), AnyStrategy::SmaCrossover(_)) => true,
        (AnyStrategy::Rsi(_), AnyStrategy::Rsi(_)) => true,
        _ => false,
    }
}

/// Signals that running the strategies of `ss` over the window `cs`
/// yields, in registry order: side, strength and reason of each.
pub open spec fn spec_signals(ss: Seq<AnyStrategy>, cs: Seq<Candle>) -> Seq<
    (OrderSide, u64, Seq<char>),
>
    decreases ss.len(),
{
    if ss.len() == 0 {
        Seq::empty()
    } else {
        let rest = spec_signals(ss.drop_last(), cs);
        match ss.last().decision(cs) {
            Some(d) => rest.push(d),
            None => rest,
        }
    }
}

/// Registry of named strategies, run together over a candle window.
pub struct StrategyEngine {
    pub strategies: Vec<AnyStrategy>,
}

impl StrategyEngine {
    /// Every registered strategy is well-formed and no two entries are
    /// the same strategy, so names are unique.
    pub open spec fn wf(&self) -> bool {
        &&& forall|i: int|
            0 <= i < self.strategies@.len() ==> (#[trigger] self.strategies@[i]).wf()
        &&& forall|i: int, j: int|
            0 <= i < j < self.strategies@.len() ==> !same_kind(
                self.strategies@[i],
                self.strategies@[j],
            )
    }

    pub fn new() -> (r: StrategyEngine)
        ensures
            r.wf(),
            r.strategies@.len() == 0,
    {
        StrategyEngine { strategies: Vec::new() }
    }

    /// Adds a strategy; registering a second strategy under an
    /// existing name replaces it (last write wins).
    pub fn register(&mut self, strategy: AnyStrategy)
        requires
            old(self).wf(),
            strategy.wf(),
        ensures
            final(self).wf(),
            (exists|k: int|
                0 <= k < old(self).strategies@.len() && same_kind(
                    old(self).strategies@[k],
                    strategy,
                )) ==> exists|k: int|
                0 <= k < old(self).strategies@.len() && same_kind(
                    old(self).strategies@[k],
                    strategy,
                ) && final(self).strategies@ =~= old(self).strategies@.update(k, strategy),
            !(exists|k: int|
                0 <= k < old(self).strategies@.len() && same_kind(
                    old(self).strategies@[k],
                    strategy,
                )) ==> final(self).strategies@ =~= old(self).strategies@.push(strategy),
    {
        let mut i: usize = 0;
        while i < self.strategies.len()
            invariant
                i <= self.strategies@.len(),
                *self == *old(self),
                old(self).wf(),
                strategy.wf(),
                forall|k: int|
                    0 <= k < i ==> !same_kind(#[trigger] self.strategies@[k], strategy),
            decreases self.strategies@.len() - i,
        {
            if is_same_kind(&self.strategies[i], &strategy) {
                proof {
                    assert(same_kind(old(self).strategies@[i as int], strategy));
                }
                self.strategies.set(i, strategy);
                proof {
                    let olds = old(self).strategies@;
                    let news = self.strategies@;
                    assert(news =~= olds.update(i as int, strategy));
                    assert forall|a: int, b: int|
                        0 <= a < b < news.len() implies !same_kind(news[a], news[b]) by {
                        assert(!same_kind(olds[a], olds[b]));
                        assert(same_kind(olds[i as int], strategy));
                    }
                    assert forall|a: int| 0 <= a < news.len() implies (#[trigger] news[a]).wf() by {
                        if a != i as int {
                            assert(olds[a].wf());
                        }
                    }
                }
                return ;
            }
            i = i + 1;
        }
        proof {
            let olds = old(self).strategies@;
            let news = olds.push(strategy);
            assert forall|a: int, b: int|
                0 <= a < b < news.len() implies !same_kind(news[a], news[b]) by {
                if b == olds.len() as int {
                    assert(!same_kind(olds[a], strategy));
                } else {
                    assert(!same_kind(olds[a], olds[b]));
                }
            }
            assert forall|a: int| 0 <= a < news.len() implies (#[trigger] news[a]).wf() by {
                if a < olds.len() as int {
                    assert(olds[a].wf());
                }
            }
        }
        self.strategies.push(strategy);
    }

    /// Runs every registered strategy over the window and collects the
    /// signals they emit, in registry order.
    pub fn run(&self, symbol: &Symbol, candles: &Vec<Candle>) -> (r: Vec<Signal>)
        requires
            self.wf(),
        ensures
            r@.len() == spec_signals(self.strategies@, candles@).len(),
            forall|i: int|
                0 <= i < r@.len() ==> {
                    let d = spec_signals(self.strategies@, candles@)[i];
                    &&& (#[trigger] r@[i]).side == d.0
                    &&& r@[i].strength == d.1
                    &&& r@[i].strength <= SCALE
                    &&& r@[i].reason@ == d.2
                    &&& candles@.len() > 0
                    &&& r@[i].symbol == candles@[0].symbol
                },
    {
        let mut signals: Vec<Signal> = Vec::new();
        let mut i: usize = 0;
        while i < self.strategies.len()
            invariant
                i <= self.strategies@.len(),
                self.wf(),
                signals@.len() == spec_signals(self.strategies@.take(i as int), candles@).len(),
                forall|j: int|
                    0 <= j < signals@.len() ==> {
                        let d = spec_signals(self.strategies@.take(i as int), candles@)[j];
                        &&& (#[trigger] signals@[j]).side == d.0
                        &&& signals@[j].strength == d.1
                        &&& signals@[j].strength <= SCALE
                        &&& signals@[j].reason@ == d.2
                        &&& candles@.len() > 0
                        &&& signals@[j].symbol == candles@[0].symbol
                    },
            decreases self.strategies@.len() - i,
        {
            proof {
                assert(self.strategies@.take(i + 1).drop_last() =~= self.strategies@.take(
                    i as int,
                ));
                assert(self.strategies@.take(i + 1).last() == self.strategies@[i as int]);
            }
            if let Some(signal) = self.strategies[i].analyze(candles) {
                signals.push(signal);
            }
            i = i + 1;
        }
        proof {
            assert(self.strategies@.take(self.strategies@.len() as int) =~= self.strategies@);
        }
        signals
    }

    /// Names of the registered strategies, in registry order.
    pub fn list_strategies(&self) -> (r: Vec<String>)
        ensures
            r@.len() == self.strategies@.len(),
            forall|i: int|
                0 <= i < r@.len() ==> (#[trigger] r@[i])@ == self.strategies@[i].spec_name(),
    {
        let mut names: Vec<String> = Vec::new();
        let mut i: usize = 0;
        while i < self.strategies.len()
            invariant
                i <= self.strategies@.len(),
                names@.len() == i,
                forall|j: int|
                    0 <= j < i ==> (#[trigger] names@[j])@ == self.strategies@[j].spec_name(),
            decreases self.strategies@.len() - i,
        {
            names.push(String::from_str(self.strategies[i].name()));
            i = i + 1;
        }
        names
    }
}

/// Names in a well-formed registry are unique: two different entries
/// never answer to the same name, so the registry is keyed by name.
pub proof fn lemma_names_unique(engine: StrategyEngine, i: int, j: int)
    requires
        engine.wf(),
        0 <= i < j < engine.strategies@.len(),
    ensures
        engine.strategies@[i].spec_name() != engine.strategies@[j].spec_name(),
{
    reveal_strlit("sma_crossover");
    reveal_strlit("rsi");
    assert(!same_kind(engine.strategies@[i], engine.strategies@[j]));
    assert("sma_crossover"@.len() != "rsi"@.len());
}

impl Default for StrategyEngine {
    /// An engine with an empty registry.
    fn default() -> (r: StrategyEngine)
        ensures
            r.wf(),
            r.strategies@.len() == 0,
    {
        StrategyEngine::new()
    }
}

} // verus!
