use vstd::prelude::*;
use crate::decimal::Fraction;

verus! {

/// Something a handler counts.
#[derive(Clone, Copy, Debug, PartialEq, Eq, Structural)]
pub enum StatsEvent {
    /// A pre-trade check, approved or blocked.
    PreTrade { approved: bool },
    MarginCalc,
    /// A circuit-breaker evaluation, triggered or not.
    CircuitBreaker { triggered: bool },
}

/// The counters as numbers.
pub struct Counters {
    pub total_checks: nat,
    pub total_margin_calcs: nat,
    pub total_alerts: nat,
    pub trades_blocked: nat,
}

impl Counters {
    pub open spec fn zero() -> Counters {
        Counters { total_checks: 0, total_margin_calcs: 0, total_alerts: 0, trades_blocked: 0 }
    }

    /// Every blocked trade was a check, and raised an alert.
    pub open spec fn wf(self) -> bool {
        self.trades_blocked <= self.total_checks && self.trades_blocked <= self.total_alerts
    }

    pub open spec fn fits(self) -> bool {
        &&& self.total_checks <= u64::MAX
        &&& self.total_margin_calcs <= u64::MAX
        &&& self.total_alerts <= u64::MAX
        &&& self.trades_blocked <= u64::MAX
    }

    pub open spec fn after(self, e: StatsEvent) -> Counters {
        match e {
            StatsEvent::PreTrade { approved } => Counters {
                total_checks: self.total_checks + 1,
                total_alerts: if approved { self.total_alerts } else { self.total_alerts + 1 },
                trades_blocked: if approved { self.trades_blocked } else { self.trades_blocked + 1 },
                ..self
            },
            StatsEvent::MarginCalc => Counters { total_margin_calcs: self.total_margin_calcs + 1, ..self },
            StatsEvent::CircuitBreaker { triggered } => Counters {
                total_alerts: if triggered { self.total_alerts + 1 } else { self.total_alerts },
                ..self
            },
        }
    }

    /// The counters after each event in turn.
    pub open spec fn after_all(self, events: Seq<StatsEvent>) -> Counters
        decreases events.len(),
    {
        if events.len() == 0 {
            self
        } else {
            self.after_all(events.drop_last()).after(events.last())
        }
    }
}

/// Number of pre-trade checks among the events.
pub open spec fn count_checks(events: Seq<StatsEvent>) -> nat
    decreases events.len(),
{
    if events.len() == 0 {
        0
    } else {
        count_checks(events.drop_last()) + if events.last() is PreTrade { 1nat } else { 0nat }
    }
}

/// Process-wide counters of the risk handlers.
pub struct Stats {
    total_checks: u64,
    total_margin_calcs: u64,
    total_alerts: u64,
    trades_blocked: u64,
}

impl View for Stats {
    type V = Counters;

    closed spec fn view(&self) -> Counters {
        Counters {
            total_checks: self.total_checks as nat,
            total_margin_calcs: self.total_margin_calcs as nat,
            total_alerts: self.total_alerts as nat,
            trades_blocked: self.trades_blocked as nat,
        }
    }
}

/// A consistent reading of the counters.
#[derive(Clone, Copy, Debug, PartialEq, Eq, Structural)]
pub struct StatsReport {
    pub total_checks: u64,
    pub total_margin_calcs: u64,
    pub total_alerts: u64,
    pub trades_blocked: u64,
    /// Share of checks that were blocked, in percent.
    pub block_rate_pct: Fraction,
}

/// `100 * trades_blocked / total_checks`, or 0 when nothing was checked.
pub open spec fn block_rate(c: Counters) -> (nat, nat) {
    if c.total_checks == 0 {
        (0, 1)
    } else {
        (100 * c.trades_blocked, c.total_checks)
    }
}

/// Each counter of `a` is at most the same counter of `b`.
pub open spec fn counters_le(a: Counters, b: Counters) -> bool {
    &&& a.total_checks <= b.total_checks
    &&& a.total_margin_calcs <= b.total_margin_calcs
    &&& a.total_alerts <= b.total_alerts
    &&& a.trades_blocked <= b.trades_blocked
}

/// No check is lost: after any run of events, each in its own call of
/// `Stats::record`, the check counter has grown by exactly the number of
/// pre-trade events among them. From zero, N pre-trade checks count N.
pub proof fn lemma_checks_counted(start: Counters, events: Seq<StatsEvent>)
    ensures
        start.after_all(events).total_checks == start.total_checks + count_checks(events),
        Counters::zero().after_all(events).total_checks == count_checks(events),
    decreases events.len(),
{
    if events.len() > 0 {
        lemma_checks_counted(start, events.drop_last());
        lemma_checks_counted(Counters::zero(), events.drop_last());
    }
}

/// Counters only grow: the counters after any first part of a run of events
/// are at most those after the whole run, and the invariant holds throughout.
pub proof fn lemma_counters_monotone(start: Counters, events: Seq<StatsEvent>, i: int)
    requires
        0 <= i <= events.len(),
    ensures
        counters_le(start.after_all(events.take(i)), start.after_all(events)),
        start.wf() ==> start.after_all(events).wf(),
    decreases events.len(),
{
    if events.len() > 0 {
        let prefix = events.drop_last();
        if i == events.len() {
            assert(events.take(i) =~= events);
        } else {
            assert(events.take(i) =~= prefix.take(i));
            lemma_counters_monotone(start, prefix, i);
        }
        lemma_counters_monotone(start, prefix, 0);
    } else {
        assert(events.take(i) =~= events);
    }
}

impl Stats {
    pub fn new() -> (r: Stats)
        ensures
            r@ == Counters::zero(),
            r@.wf(),
    {
        Stats { total_checks: 0, total_margin_calcs: 0, total_alerts: 0, trades_blocked: 0 }
    }

    /// Tells whether counting `e` keeps every counter within `u64`.
    pub fn can_record(&self, e: StatsEvent) -> (r: bool)
        ensures
            r == self@.after(e).fits(),
    {
        match e {
            StatsEvent::PreTrade { approved } => {
                self.total_checks < u64::MAX && (approved || (self.total_alerts < u64::MAX
                    && self.trades_blocked < u64::MAX))
            },
            StatsEvent::MarginCalc => self.total_margin_calcs < u64::MAX,
            StatsEvent::CircuitBreaker { triggered } => !triggered || self.total_alerts < u64::MAX,
        }
    }

    /// Counts one event; all of its increments happen in this one call.
    pub fn record(&mut self, e: StatsEvent)
        requires
            old(self)@.wf(),
            old(self)@.after(e).fits(),
        ensures
            final(self)@ == old(self)@.after(e),
            final(self)@.wf(),
    {
        match e {
            StatsEvent::PreTrade { approved } => {
                self.total_checks = self.total_checks + 1;
                if !approved {
                    self.trades_blocked = self.trades_blocked + 1;
                    self.total_alerts = self.total_alerts + 1;
                }
            },
            StatsEvent::MarginCalc => {
                self.total_margin_calcs = self.total_margin_calcs + 1;
            },
            StatsEvent::CircuitBreaker { triggered } => {
                if triggered {
                    self.total_alerts = self.total_alerts + 1;
                }
            },
        }
    }

    /// Operations served so far: checks plus margin calculations.
    pub fn total_ops(&self) -> (r: u64)
        requires
            self@.total_checks + self@.total_margin_calcs <= u64::MAX,
        ensures
            r == self@.total_checks + self@.total_margin_calcs,
    {
        self.total_checks + self.total_margin_calcs
    }

    pub fn report(&self) -> (r: StatsReport)
        ensures
            r.total_checks == self@.total_checks,
            r.total_margin_calcs == self@.total_margin_calcs,
            r.total_alerts == self@.total_alerts,
            r.trades_blocked == self@.trades_blocked,
            (r.block_rate_pct.numerator as nat, r.block_rate_pct.denominator as nat) == block_rate(self@),
    {
        let block_rate_pct = if self.total_checks == 0 {
            Fraction { numerator: 0, denominator: 1 }
        } else {
            Fraction { numerator: 100 * (self.trades_blocked as u128), denominator: self.total_checks }
        };
        StatsReport {
            total_checks: self.total_checks,
            total_margin_calcs: self.total_margin_calcs,
            total_alerts: self.total_alerts,
            trades_blocked: self.trades_blocked,
            block_rate_pct,
        }
    }
}

} // verus!
