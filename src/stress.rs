use vstd::prelude::*;
use crate::decimal::{is_dec, Decimal};

verus! {

/// A limit that a stress scenario breaks.
#[derive(Clone, Copy, Debug, PartialEq, Eq, Structural)]
pub enum Breach {
    VarLimit,
    MarginCall,
}

impl Breach {
    pub open spec fn spec_text(self) -> Seq<char> {
        match self {
            Breach::VarLimit => "VaR limit breach"@,
            Breach::MarginCall => "Margin call triggered"@,
        }
    }

    /// The breach as reported to clients.
    pub fn text(&self) -> (r: &'static str)
        ensures
            r@ == self.spec_text(),
    {
        match self {
            Breach::VarLimit => "VaR limit breach",
            Breach::MarginCall => "Margin call triggered",
        }
    }
}

/// Shock applied when the request names none: -20 percent, in millionths.
pub const DEFAULT_SHOCK: i64 = -20_000_000;

/// Shocks larger than 15 percent in magnitude break limits.
pub const BREACH_THRESHOLD: i128 = 15_000_000;

/// Fixed number of instruments a scenario is reported to affect.
pub const INSTRUMENTS_AFFECTED: u32 = 25;

pub struct StressTestRequest {
    pub scenario: Option<String>,
    /// In millionths of a percent.
    pub shock_pct: Option<i64>,
}

pub struct StressTestResponse {
    pub scenario: String,
    pub portfolio_impact: Decimal,
    pub worst_case_loss: Decimal,
    pub instruments_affected: u32,
    pub breaches: Vec<Breach>,
}

pub open spec fn scenario_of(req: &StressTestRequest) -> Seq<char> {
    match req.scenario {
        Some(s) => s@,
        None => "market-crash"@,
    }
}

pub open spec fn shock_of(req: &StressTestRequest) -> int {
    match req.shock_pct {
        Some(s) => s as int,
        None => DEFAULT_SHOCK as int,
    }
}

pub open spec fn breaches_for(shock: int) -> Seq<Breach> {
    if shock > BREACH_THRESHOLD || shock < -BREACH_THRESHOLD {
        seq![Breach::VarLimit, Breach::MarginCall]
    } else {
        seq![]
    }
}

/// Applies a uniform price shock to the book. The impact is the shock times
/// 10 000; a shock in millionths keeps its mantissa at scale 2. The worst case
/// is one and a half times the impact.
pub fn stress_test(req: &StressTestRequest) -> (r: StressTestResponse)
    ensures
        r.scenario@ == scenario_of(req),
        is_dec(r.portfolio_impact, shock_of(req), 2),
        is_dec(r.worst_case_loss, 15 * shock_of(req), 3),
        r.instruments_affected == INSTRUMENTS_AFFECTED,
        r.breaches@ == breaches_for(shock_of(req)),
{
    let scenario = match &req.scenario {
        Some(s) => s.clone(),
        None => String::from_str("market-crash"),
    };
    let shock: i128 = match req.shock_pct {
        Some(s) => s as i128,
        None => DEFAULT_SHOCK as i128,
    };
    let breaches = if shock > BREACH_THRESHOLD || shock < -BREACH_THRESHOLD {
        vec![Breach::VarLimit, Breach::MarginCall]
    } else {
        Vec::new()
    };
    assert(breaches@ =~= breaches_for(shock as int));
    StressTestResponse {
        scenario,
        portfolio_impact: Decimal::new(shock, 2),
        worst_case_loss: Decimal::new(15 * shock, 3),
        instruments_affected: INSTRUMENTS_AFFECTED,
        breaches,
    }
}

} // verus!
