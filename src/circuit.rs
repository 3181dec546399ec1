use vstd::prelude::*;

verus! {

/// Severity of a trading halt.
#[derive(Clone, Copy, Debug, PartialEq, Eq, Structural)]
pub enum Level {
    Normal,
    L1,
    L2,
    L3,
}

/// Thresholds on the absolute price change, in millionths of a percent.
pub const L3_THRESHOLD: i128 = 20_000_000;
pub const L2_THRESHOLD: i128 = 13_000_000;
pub const L1_THRESHOLD: i128 = 7_000_000;

impl Level {
    /// The level's name as reported to clients.
    pub open spec fn spec_name(self) -> Seq<char> {
        match self {
            Level::Normal => "none"@,
            Level::L1 => "L1"@,
            Level::L2 => "L2"@,
            Level::L3 => "L3"@,
        }
    }

    pub open spec fn spec_halt_secs(self) -> u64 {
        match self {
            Level::Normal => 0,
            Level::L1 => 300,
            Level::L2 => 900,
            Level::L3 => 3600,
        }
    }

    pub fn name(&self) -> (r: &'static str)
        ensures
            r@ == self.spec_name(),
    {
        match self {
            Level::Normal => "none",
            Level::L1 => "L1",
            Level::L2 => "L2",
            Level::L3 => "L3",
        }
    }

    pub fn halt_secs(&self) -> (r: u64)
        ensures
            r == self.spec_halt_secs(),
    {
        match self {
            Level::Normal => 0,
            Level::L1 => 300,
            Level::L2 => 900,
            Level::L3 => 3600,
        }
    }
}

pub open spec fn abs(x: int) -> int {
    if x < 0 { -x } else { x }
}

/// The ladder, highest threshold first: the first one reached decides.
pub open spec fn level_for(abs_change: int) -> Level {
    if abs_change >= L3_THRESHOLD {
        Level::L3
    } else if abs_change >= L2_THRESHOLD {
        Level::L2
    } else if abs_change >= L1_THRESHOLD {
        Level::L1
    } else {
        Level::Normal
    }
}

pub struct CircuitBreakerRequest {
    pub instrument: String,
    /// Signed price change, in millionths of a percent.
    pub price_change_pct: i64,
}

pub struct CircuitBreakerResponse {
    pub instrument: String,
    pub triggered: bool,
    pub level: Level,
    pub halt_duration_secs: u64,
    pub price_change_pct: i64,
}

/// Decides whether a price move halts trading, and for how long.
pub fn circuit_breaker(req: &CircuitBreakerRequest) -> (r: CircuitBreakerResponse)
    ensures
        r.instrument@ == req.instrument@,
        r.price_change_pct == req.price_change_pct,
        r.level == level_for(abs(req.price_change_pct as int)),
        r.triggered == (r.level != Level::Normal),
        r.halt_duration_secs == r.level.spec_halt_secs(),
{
    let change = req.price_change_pct as i128;
    let abs_change: i128 = if change < 0 { -change } else { change };
    let level = if abs_change >= L3_THRESHOLD {
        Level::L3
    } else if abs_change >= L2_THRESHOLD {
        Level::L2
    } else if abs_change >= L1_THRESHOLD {
        Level::L1
    } else {
        Level::Normal
    };
    let triggered = match level {
        Level::Normal => false,
        _ => true,
    };
    CircuitBreakerResponse {
        instrument: req.instrument.clone(),
        triggered,
        level,
        halt_duration_secs: level.halt_secs(),
        price_change_pct: req.price_change_pct,
    }
}

} // verus!
