use vstd::prelude::*;
use crate::decimal::{is_dec, Decimal};

verus! {

pub struct Position {
    pub instrument: String,
    /// In millionths of a unit; may be negative.
    pub quantity: i64,
    /// In millionths of a unit; may be negative.
    pub price: i64,
}

pub struct MarginRequest {
    pub account: String,
    /// Absent positions count as none.
    pub positions: Option<Vec<Position>>,
}

pub struct MarginResponse {
    pub account: String,
    pub initial_margin: Decimal,
    pub maintenance_margin: Decimal,
    pub available_margin: Decimal,
    pub margin_utilization_pct: Decimal,
    pub var_95: Decimal,
    pub var_99: Decimal,
}

/// Largest magnitude of a quantity or a price, in millionths (one billion units).
pub const MAX_MAGNITUDE: i64 = 1_000_000_000_000_000;

/// Largest number of positions in one request.
pub const MAX_POSITIONS: usize = 1_000_000;

/// Largest magnitude of one position's notional, at scale 12.
pub const MAX_POSITION_NOTIONAL: i128 = 1_000_000_000_000_000_000_000_000_000_000;

/// The margin account's capital, one million, at scale 13.
pub const CAPITAL: i128 = 10_000_000_000_000_000_000;

/// Sum of quantity times price over the positions, at scale 12.
pub open spec fn total_notional(ps: Seq<Position>) -> int
    decreases ps.len(),
{
    if ps.len() == 0 {
        0
    } else {
        total_notional(ps.drop_last()) + ps.last().quantity * ps.last().price
    }
}

pub open spec fn positions_of(req: &MarginRequest) -> Seq<Position> {
    match req.positions {
        Some(v) => v@,
        None => Seq::empty(),
    }
}

/// The request is within the range that exact arithmetic can hold.
pub open spec fn within_limits(ps: Seq<Position>) -> bool {
    &&& ps.len() <= MAX_POSITIONS
    &&& forall|i: int|
        0 <= i < ps.len() ==> -MAX_MAGNITUDE <= #[trigger] ps[i].quantity <= MAX_MAGNITUDE
            && -MAX_MAGNITUDE <= ps[i].price <= MAX_MAGNITUDE
}

/// Margin figures of a book with total notional `n` (at scale 12): initial
/// margin 10% of it, maintenance 5%, value at risk 2% (95%) and 3.5% (99%),
/// available margin the capital less the initial margin (negative when the
/// initial margin exceeds it), utilization the initial margin as a percentage
/// of the capital. Each is exact at the scale given.
pub open spec fn margins_of(r: MarginResponse, n: int) -> bool {
    &&& is_dec(r.initial_margin, n, 13)
    &&& is_dec(r.maintenance_margin, 5 * n, 14)
    &&& is_dec(r.available_margin, CAPITAL - n, 13)
    &&& is_dec(r.margin_utilization_pct, n, 17)
    &&& is_dec(r.var_95, 2 * n, 14)
    &&& is_dec(r.var_99, 35 * n, 15)
}

proof fn lemma_position_bound(q: int, p: int)
    requires
        -MAX_MAGNITUDE <= q <= MAX_MAGNITUDE,
        -MAX_MAGNITUDE <= p <= MAX_MAGNITUDE,
    ensures
        -MAX_POSITION_NOTIONAL <= q * p <= MAX_POSITION_NOTIONAL,
{
    assert(-1_000_000_000_000_000_000_000_000_000_000 <= q * p <= 1_000_000_000_000_000_000_000_000_000_000)
        by (nonlinear_arith)
        requires
            -1_000_000_000_000_000 <= q <= 1_000_000_000_000_000,
            -1_000_000_000_000_000 <= p <= 1_000_000_000_000_000,
    ;
}

/// Tells whether a request is within the range `margin_calc` accepts.
pub fn request_within_limits(req: &MarginRequest) -> (r: bool)
    ensures
        r == within_limits(positions_of(req)),
{
    match &req.positions {
        None => true,
        Some(v) => {
            if v.len() > MAX_POSITIONS {
                return false;
            }
            let mut i: usize = 0;
            while i < v.len()
                invariant
                    i <= v@.len(),
                    v@ == positions_of(req),
                    v@.len() <= MAX_POSITIONS,
                    forall|j: int|
                        0 <= j < i ==> -MAX_MAGNITUDE <= #[trigger] v@[j].quantity <= MAX_MAGNITUDE
                            && -MAX_MAGNITUDE <= v@[j].price <= MAX_MAGNITUDE,
                decreases v@.len() - i,
            {
                let q = v[i].quantity;
                let p = v[i].price;
                if q < -MAX_MAGNITUDE || q > MAX_MAGNITUDE || p < -MAX_MAGNITUDE || p > MAX_MAGNITUDE {
                    assert(v@[i as int].quantity == q);
                    return false;
                }
                i = i + 1;
            }
            true
        },
    }
}

/// Initial and maintenance margin, headroom and value at risk of a book.
pub fn margin_calc(req: &MarginRequest) -> (r: MarginResponse)
    requires
        within_limits(positions_of(req)),
    ensures
        r.account@ == req.account@,
        margins_of(r, total_notional(positions_of(req))),
{
    let mut total: i128 = 0;
    match &req.positions {
        None => {},
        Some(v) => {
            let mut i: usize = 0;
            while i < v.len()
                invariant
                    i <= v@.len(),
                    v@ == positions_of(req),
                    within_limits(v@),
                    total == total_notional(v@.take(i as int)),
                    -i * MAX_POSITION_NOTIONAL <= total <= i * MAX_POSITION_NOTIONAL,
                decreases v@.len() - i,
            {
                let q = v[i].quantity;
                let p = v[i].price;
                proof {
                    lemma_position_bound(q as int, p as int);
                    assert(v@.take(i + 1).drop_last() =~= v@.take(i as int));
                }
                total = total + (q as i128) * (p as i128);
                i = i + 1;
            }
            assert(v@.take(v@.len() as int) =~= v@);
        },
    }
    MarginResponse {
        account: req.account.clone(),
        initial_margin: Decimal::new(total, 13),
        maintenance_margin: Decimal::new(5 * total, 14),
        available_margin: Decimal::new(CAPITAL - total, 13),
        margin_utilization_pct: Decimal::new(total, 17),
        var_95: Decimal::new(2 * total, 14),
        var_99: Decimal::new(35 * total, 15),
    }
}

} // verus!
