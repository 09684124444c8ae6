//! Risk gating and position sizing.

use vstd::prelude::*;

use crate::fixed::{min_int, AMOUNT_MAX, SCALE};
use crate::models::{Order, OrderSide, Position, Signal};

verus! {

/// Accumulated daily P&L is clamped into `[-PNL_LIMIT, PNL_LIMIT]`.
pub const PNL_LIMIT: i128 = 1_000_000_000_000_000_000_000_000_000_000;

/// Risk limits; the percentage fields are fixed-point fractions of one,
/// so each lies in `(0, SCALE]`.
pub struct RiskConfig {
    pub max_position_size: u64,
    pub max_loss_per_trade: u64,
    pub max_daily_loss: u64,
    pub max_open_positions: usize,
    pub stop_loss_pct: u64,
    pub take_profit_pct: u64,
}

impl RiskConfig {
    /// All fractional limits lie in `(0, SCALE]` and at least one open
    /// position is allowed.
    pub open spec fn wf(&self) -> bool {
        &&& 0 < self.max_position_size <= SCALE
        &&& 0 < self.max_loss_per_trade <= SCALE
        &&& 0 < self.max_daily_loss <= SCALE
        &&& self.max_open_positions >= 1
        &&& 0 < self.stop_loss_pct <= SCALE
        &&& 0 < self.take_profit_pct <= SCALE
    }

    /// Stock configuration: 10% per position, 2% loss per trade, 5%
    /// daily loss, 5 open positions, 2% stop loss, 4% take profit.
    pub open spec fn spec_default() -> RiskConfig {
        RiskConfig {
            max_position_size: 100_000,
            max_loss_per_trade: 20_000,
            max_daily_loss: 50_000,
            max_open_positions: 5,
            stop_loss_pct: 20_000,
            take_profit_pct: 40_000,
        }
    }
}

impl Default for RiskConfig {
    fn default() -> (r: RiskConfig)
        ensures
            r == RiskConfig::spec_default(),
            r.wf(),
    {
        RiskConfig {
            max_position_size: 100_000,
            max_loss_per_trade: 20_000,
            max_daily_loss: 50_000,
            max_open_positions: 5,
            stop_loss_pct: 20_000,
            take_profit_pct: 40_000,
        }
    }
}

/// Tri-state risk decision; callers must branch on it explicitly.
#[derive(Debug, PartialEq)]
pub enum RiskCheckResult {
    Approved,
    Rejected(String),
    Reduced(u64),
}

/// Whether a configuration with `n` open positions admits one more
/// order.
pub open spec fn spec_admits(cfg: RiskConfig, n: nat) -> bool {
    n < cfg.max_open_positions
}

/// Stateful gatekeeper between signals and orders.
pub struct RiskManager {
    pub config: RiskConfig,
    pub daily_pnl: i128,
    pub daily_trades: u64,
}

impl RiskManager {
    /// The configuration is well-formed and the daily accumulator is
    /// inside its clamp range.
    pub open spec fn wf(&self) -> bool {
        &&& self.config.wf()
        &&& -PNL_LIMIT <= self.daily_pnl <= PNL_LIMIT
    }

    pub fn new(config: RiskConfig) -> (r: RiskManager)
        requires
            config.wf(),
        ensures
            r.wf(),
            r.config == config,
            r.daily_pnl == 0,
            r.daily_trades == 0,
    {
        RiskManager { config, daily_pnl: 0, daily_trades: 0 }
    }

    pub fn with_default_config() -> (r: RiskManager)
        ensures
            r.wf(),
            r.config == RiskConfig::spec_default(),
            r.daily_pnl == 0,
            r.daily_trades == 0,
    {
        RiskManager::new(RiskConfig::default())
    }

    /// A signal weaker than half strength is rejected; everything else
    /// is approved.
    pub fn check_signal(&self, signal: &Signal, portfolio_value: u64) -> (r: RiskCheckResult)
        ensures
            signal.strength < SCALE / 2 ==> (r matches RiskCheckResult::Rejected(m)
                && m@ == "Signal strength too low"@),
            signal.strength >= SCALE / 2 ==> r == RiskCheckResult::Approved,
    {
        if signal.strength < SCALE / 2 {
            return RiskCheckResult::Rejected("Signal strength too low".to_owned());
        }
        RiskCheckResult::Approved
    }

    /// Quantity that position sizing yields, in ticks: the smaller of
    /// the portfolio-percentage cap and the risk-per-trade notional,
    /// divided by the entry price, capped at `AMOUNT_MAX`. When the
    /// stop-loss distance truncates to zero the risk cap is unbounded
    /// and only the portfolio-percentage cap applies.
    pub open spec fn spec_position_size(cfg: RiskConfig, pv: int, entry: int) -> int {
        let max_amount = pv * cfg.max_position_size / SCALE as int;
        let risk_amount = pv * cfg.max_loss_per_trade / SCALE as int;
        let stop_loss_distance = entry * cfg.stop_loss_pct / SCALE as int;
        let risk_notional = if stop_loss_distance == 0 {
            max_amount
        } else {
            min_int(max_amount, risk_amount * entry / stop_loss_distance)
        };
        let quantity = risk_notional * SCALE as int / entry;
        if quantity > AMOUNT_MAX as int {
            AMOUNT_MAX as int
        } else {
            quantity
        }
    }

    /// Sizes an approved signal: enforces the hard percentage-of-
    /// portfolio cap and the risk-per-trade cap derived from the stop
    /// distance, and takes the more conservative of the two.
    pub fn calculate_position_size(
        &self,
        signal: &Signal,
        portfolio_value: u64,
        entry_price: u64,
    ) -> (r: u64)
        requires
            self.wf(),
            portfolio_value <= AMOUNT_MAX,
            1 <= entry_price <= AMOUNT_MAX,
        ensures
            r == RiskManager::spec_position_size(
                self.config,
                portfolio_value as int,
                entry_price as int,
            ),
            r <= AMOUNT_MAX,
    {
        let pv: u128 = portfolio_value as u128;
        let entry: u128 = entry_price as u128;
        let mps: u128 = self.config.max_position_size as u128;
        let mlpt: u128 = self.config.max_loss_per_trade as u128;
        let slp: u128 = self.config.stop_loss_pct as u128;
        proof {
            assert(pv * mps <= (AMOUNT_MAX as int) * (SCALE as int)) by (nonlinear_arith)
                requires
                    0 <= pv <= AMOUNT_MAX as int,
                    0 <= mps <= SCALE as int,
            ;
            assert(pv * mlpt <= (AMOUNT_MAX as int) * (SCALE as int)) by (nonlinear_arith)
                requires
                    0 <= pv <= AMOUNT_MAX as int,
                    0 <= mlpt <= SCALE as int,
            ;
            assert(entry * slp <= (AMOUNT_MAX as int) * (SCALE as int)) by (nonlinear_arith)
                requires
                    0 <= entry <= AMOUNT_MAX as int,
                    0 <= slp <= SCALE as int,
            ;
        }
        let max_amount: u128 = pv * mps / (SCALE as u128);
        let risk_amount: u128 = pv * mlpt / (SCALE as u128);
        let stop_loss_distance: u128 = entry * slp / (SCALE as u128);
        proof {
            assert(max_amount <= AMOUNT_MAX as int && risk_amount <= AMOUNT_MAX as int)
                by (nonlinear_arith)
                requires
                    max_amount == pv * mps / (SCALE as int),
                    risk_amount == pv * mlpt / (SCALE as int),
                    0 <= pv * mps <= (AMOUNT_MAX as int) * (SCALE as int),
                    0 <= pv * mlpt <= (AMOUNT_MAX as int) * (SCALE as int),
            ;
        }
        let risk_notional: u128 = if stop_loss_distance == 0 {
            max_amount
        } else {
            proof {
                assert(risk_amount * entry <= (AMOUNT_MAX as int) * (AMOUNT_MAX as int))
                    by (nonlinear_arith)
                    requires
                        0 <= risk_amount <= AMOUNT_MAX as int,
                        0 <= entry <= AMOUNT_MAX as int,
                ;
            }
            let by_risk: u128 = risk_amount * entry / stop_loss_distance;
            if max_amount <= by_risk {
                max_amount
            } else {
                by_risk
            }
        };
        proof {
            assert(risk_notional * (SCALE as int) <= (AMOUNT_MAX as int) * (SCALE as int))
                by (nonlinear_arith)
                requires
                    0 <= risk_notional <= AMOUNT_MAX as int,
            ;
        }
        let quantity: u128 = risk_notional * (SCALE as u128) / entry;
        if quantity > AMOUNT_MAX as u128 {
            AMOUNT_MAX
        } else {
            quantity as u64
        }
    }

    /// Admission check: rejects when the open-position book is full,
    /// approves otherwise. The decision depends only on the
    /// configuration and the snapshot handed in.
    pub fn check_order(&self, order: &Order, positions: &[Position]) -> (r: RiskCheckResult)
        ensures
            !spec_admits(self.config, positions@.len()) ==> (r
                matches RiskCheckResult::Rejected(m) && m@ == "Max open positions reached"@),
            spec_admits(self.config, positions@.len()) ==> r == RiskCheckResult::Approved,
    {
        if positions.len() >= self.config.max_open_positions {
            return RiskCheckResult::Rejected("Max open positions reached".to_owned());
        }
        RiskCheckResult::Approved
    }

    /// Forced-exit decision for a long position: Sell when the P&L
    /// fraction `(current - avg) / avg` has fallen to `-stop_loss_pct`
    /// or risen to `take_profit_pct`, stated exactly by
    /// cross-multiplication with the positive `avg` price.
    pub open spec fn spec_exit_signal(cfg: RiskConfig, p: Position) -> Option<OrderSide> {
        let delta_scaled = (p.current_price - p.avg_price) * SCALE;
        if delta_scaled <= -(cfg.stop_loss_pct * p.avg_price) {
            Some(OrderSide::Sell)
        } else if delta_scaled >= cfg.take_profit_pct * p.avg_price {
            Some(OrderSide::Sell)
        } else {
            None
        }
    }

    /// Checks stop-loss and take-profit bounds for one position.
    pub fn check_exit_conditions(&self, position: &Position) -> (r: Option<OrderSide>)
        requires
            self.wf(),
            position.avg_price >= 1,
        ensures
            r == RiskManager::spec_exit_signal(self.config, *position),
    {
        let delta: i128 = (position.current_price as i128) - (position.avg_price as i128);
        proof {
            assert(-(u64::MAX as int) * (SCALE as int) <= delta * (SCALE as int) <= (
            u64::MAX as int) * (SCALE as int)) by (nonlinear_arith)
                requires
                    -(u64::MAX as int) <= delta <= u64::MAX as int,
            ;
            assert(self.config.stop_loss_pct * position.avg_price <= (SCALE as int) * (
            u64::MAX as int)) by (nonlinear_arith)
                requires
                    0 <= self.config.stop_loss_pct <= SCALE as int,
                    0 <= position.avg_price <= u64::MAX as int,
            ;
            assert(self.config.take_profit_pct * position.avg_price <= (SCALE as int) * (
            u64::MAX as int)) by (nonlinear_arith)
                requires
                    0 <= self.config.take_profit_pct <= SCALE as int,
                    0 <= position.avg_price <= u64::MAX as int,
            ;
        }
        let delta_scaled: i128 = delta * (SCALE as i128);
        let stop_bound: i128 = (self.config.stop_loss_pct as i128) * (position.avg_price as i128);
        let profit_bound: i128 = (self.config.take_profit_pct as i128) * (
        position.avg_price as i128);
        if delta_scaled <= -stop_bound {
            return Some(OrderSide::Sell);
        }
        if delta_scaled >= profit_bound {
            return Some(OrderSide::Sell);
        }
        None
    }

    /// Value the accumulator holds after adding `pnl`: the sum clamped
    /// into `[-PNL_LIMIT, PNL_LIMIT]`.
    pub open spec fn spec_clamped_pnl(x: int) -> int {
        if x > PNL_LIMIT as int {
            PNL_LIMIT as int
        } else if x < -(PNL_LIMIT as int) {
            -(PNL_LIMIT as int)
        } else {
            x
        }
    }

    /// Accumulates one completed trade's P&L and counts the trade; to
    /// be called exactly once per completed trade.
    pub fn update_daily_pnl(&mut self, pnl: i64)
        requires
            old(self).wf(),
        ensures
            final(self).wf(),
            final(self).config == old(self).config,
            final(self).daily_pnl == RiskManager::spec_clamped_pnl(old(self).daily_pnl + pnl),
            final(self).daily_trades == if old(self).daily_trades == u64::MAX {
                u64::MAX as int
            } else {
                old(self).daily_trades + 1
            },
    {
        let sum: i128 = self.daily_pnl + (pnl as i128);
        self.daily_pnl = if sum > PNL_LIMIT {
            PNL_LIMIT
        } else if sum < -PNL_LIMIT {
            -PNL_LIMIT
        } else {
            sum
        };
        if self.daily_trades < u64::MAX {
            self.daily_trades = self.daily_trades + 1;
        }
    }

    /// Zeroes the daily accumulators; invoked at the day boundary.
    pub fn reset_daily(&mut self)
        requires
            old(self).wf(),
        ensures
            final(self).wf(),
            final(self).config == old(self).config,
            final(self).daily_pnl == 0,
            final(self).daily_trades == 0,
    {
        self.daily_pnl = 0;
        self.daily_trades = 0;
    }

    /// Whether the accumulated daily loss has reached the configured
    /// fraction of the portfolio: `daily_pnl / portfolio_value <=
    /// -max_daily_loss`, stated exactly by cross-multiplication with
    /// the positive portfolio value.
    pub fn daily_loss_limit_reached(&self, portfolio_value: u64) -> (r: bool)
        requires
            self.wf(),
            portfolio_value >= 1,
        ensures
            r == (self.daily_pnl * SCALE <= -(self.config.max_daily_loss * portfolio_value)),
    {
        proof {
            assert(-(PNL_LIMIT as int) * (SCALE as int) <= self.daily_pnl * (SCALE as int) <= (
            PNL_LIMIT as int) * (SCALE as int)) by (nonlinear_arith)
                requires
                    -(PNL_LIMIT as int) <= self.daily_pnl <= PNL_LIMIT as int,
            ;
            assert(self.config.max_daily_loss * portfolio_value <= (SCALE as int) * (
            u64::MAX as int)) by (nonlinear_arith)
                requires
                    0 <= self.config.max_daily_loss <= SCALE as int,
                    0 <= portfolio_value <= u64::MAX as int,
            ;
        }
        let scaled_pnl: i128 = self.daily_pnl * (SCALE as i128);
        let bound: i128 = (self.config.max_daily_loss as i128) * (portfolio_value as i128);
        scaled_pnl <= -bound
    }
}

/// Position sizing is a pure function of the configuration, the
/// portfolio value and the entry price: equal inputs always give equal
/// results, and the result lies in `[0, AMOUNT_MAX]`.
pub proof fn lemma_position_size_pure(cfg: RiskConfig, pv: int, entry: int)
    requires
        cfg.wf(),
        0 <= pv,
        1 <= entry,
    ensures
        0 <= RiskManager::spec_position_size(cfg, pv, entry) <= AMOUNT_MAX,
{
    let max_amount = pv * cfg.max_position_size / SCALE as int;
    let risk_amount = pv * cfg.max_loss_per_trade / SCALE as int;
    let stop_loss_distance = entry * cfg.stop_loss_pct / SCALE as int;
    assert(0 <= max_amount && 0 <= risk_amount && 0 <= stop_loss_distance) by (nonlinear_arith)
        requires
            0 <= pv,
            1 <= entry,
            0 < cfg.max_position_size,
            0 < cfg.max_loss_per_trade,
            0 < cfg.stop_loss_pct,
            max_amount == pv * cfg.max_position_size / SCALE as int,
            risk_amount == pv * cfg.max_loss_per_trade / SCALE as int,
            stop_loss_distance == entry * cfg.stop_loss_pct / SCALE as int,
    ;
    let risk_notional = if stop_loss_distance == 0 {
        max_amount
    } else {
        min_int(max_amount, risk_amount * entry / stop_loss_distance)
    };
    assert(0 <= risk_notional) by (nonlinear_arith)
        requires
            0 <= max_amount,
            0 <= risk_amount,
            1 <= entry,
            0 <= stop_loss_distance,
            risk_notional == if stop_loss_distance == 0 {
                max_amount
            } else {
                min_int(max_amount, risk_amount * entry / stop_loss_distance)
            },
    ;
    assert(0 <= risk_notional * SCALE as int / entry) by (nonlinear_arith)
        requires
            0 <= risk_notional,
            1 <= entry,
    ;
}

/// Admission is exclusive: whatever interleaving produced the
/// snapshot, every admission check that observes a full position book
/// is refused, so concurrent checks against the same full snapshot all
/// reject.
pub proof fn lemma_admission_is_exclusive(cfg: RiskConfig, n: nat)
    requires
        cfg.wf(),
        n >= cfg.max_open_positions,
    ensures
        !spec_admits(cfg, n),
{
}

} // verus!
