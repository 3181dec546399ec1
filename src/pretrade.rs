use vstd::prelude::*;
use crate::decimal::{is_dec, Decimal};

verus! {

/// Why an order was flagged.
#[derive(Clone, Copy, Debug, PartialEq, Eq, Structural)]
pub enum Reason {
    PositionLimitExceeded,
    LargeOrder,
}

impl Reason {
    pub open spec fn spec_text(self) -> Seq<char> {
        match self {
            Reason::PositionLimitExceeded => "Position limit exceeded"@,
            Reason::LargeOrder => "Large order flag"@,
        }
    }

    /// The reason as reported to clients.
    pub fn text(&self) -> (r: &'static str)
        ensures
            r@ == self.spec_text(),
    {
        match self {
            Reason::PositionLimitExceeded => "Position limit exceeded",
            Reason::LargeOrder => "Large order flag",
        }
    }
}

/// Scale of a notional: a quantity and a price in millionths multiply to 10^-12.
pub const NOTIONAL_SCALE: u32 = 12;

/// Scale of the risk score. A notional divided by the one-million position limit
/// keeps the notional's mantissa at this scale.
pub const RISK_SCALE: u32 = 18;

/// A risk score of 1, at `RISK_SCALE`.
pub const RISK_CAP: i128 = 1_000_000_000_000_000_000;

/// Orders whose risk score reaches 0.8 are blocked.
pub const APPROVAL_LIMIT: i128 = 800_000_000_000_000_000;

/// A notional of 500 000, at `NOTIONAL_SCALE`: above it an order is large.
pub const LARGE_ORDER_NOTIONAL: i128 = 500_000_000_000_000_000;

/// Notional of an order, at `NOTIONAL_SCALE`.
pub open spec fn notional(quantity: int, price: int) -> int {
    quantity * price
}

/// `min(notional / 1 000 000, 1)`, at `RISK_SCALE`.
pub open spec fn risk_score(notional: int) -> int {
    if notional < RISK_CAP {
        notional
    } else {
        RISK_CAP as int
    }
}

pub open spec fn is_approved(notional: int) -> bool {
    risk_score(notional) < APPROVAL_LIMIT
}

pub open spec fn reasons_for(notional: int) -> Seq<Reason> {
    let limit: Seq<Reason> = if is_approved(notional) {
        seq![]
    } else {
        seq![Reason::PositionLimitExceeded]
    };
    let large: Seq<Reason> = if notional > LARGE_ORDER_NOTIONAL {
        seq![Reason::LargeOrder]
    } else {
        seq![]
    };
    limit + large
}

pub struct PreTradeCheckRequest {
    pub account: String,
    pub instrument: String,
    pub side: String,
    /// In millionths of a unit.
    pub quantity: i64,
    /// In millionths of a unit.
    pub price: i64,
}

pub struct PreTradeCheckResponse {
    pub check_id: String,
    pub approved: bool,
    pub reasons: Vec<Reason>,
    pub risk_score: Decimal,
    pub margin_impact: Decimal,
    pub position_limit_used_pct: Decimal,
}

/// What the response says of an order with the given notional, whatever its identifier.
pub open spec fn assesses(r: PreTradeCheckResponse, notional: int) -> bool {
    &&& r.approved == is_approved(notional)
    &&& r.reasons@ == reasons_for(notional)
    &&& is_dec(r.risk_score, risk_score(notional), RISK_SCALE as nat)
    &&& is_dec(r.margin_impact, notional, (NOTIONAL_SCALE + 1) as nat)
    &&& is_dec(r.position_limit_used_pct, risk_score(notional), (RISK_SCALE - 2) as nat)
}

/// Checks an order against the position limit and answers under the given identifier.
pub fn assess_pretrade(req: &PreTradeCheckRequest, check_id: String) -> (r: PreTradeCheckResponse)
    ensures
        r.check_id@ == check_id@,
        assesses(r, notional(req.quantity as int, req.price as int)),
{
    let q = req.quantity as i128;
    let p = req.price as i128;
    assert(-0x4000_0000_0000_0000_0000_0000_0000_0000 <= q * p <= 0x4000_0000_0000_0000_0000_0000_0000_0000)
        by (nonlinear_arith)
        requires
            -0x8000_0000_0000_0000 <= q <= 0x7fff_ffff_ffff_ffff,
            -0x8000_0000_0000_0000 <= p <= 0x7fff_ffff_ffff_ffff,
    ;
    let notional = q * p;
    let score = if notional < RISK_CAP {
        notional
    } else {
        RISK_CAP
    };
    let approved = score < APPROVAL_LIMIT;
    let mut reasons: Vec<Reason> = Vec::new();
    if !approved {
        reasons.push(Reason::PositionLimitExceeded);
    }
    if notional > LARGE_ORDER_NOTIONAL {
        reasons.push(Reason::LargeOrder);
    }
    assert(reasons@ =~= reasons_for(notional as int));
    PreTradeCheckResponse {
        check_id,
        approved,
        reasons,
        risk_score: Decimal::new(score, RISK_SCALE),
        margin_impact: Decimal::new(notional, NOTIONAL_SCALE + 1),
        position_limit_used_pct: Decimal::new(score, RISK_SCALE - 2),
    }
}

/// The risk score of an order of non-negative notional lies in [0, 1], and the
/// order is approved exactly when its score is below 0.8. (A negative quantity
/// or price gives a negative notional, whose score is that negative number.)
pub proof fn lemma_risk_score_range(req: &PreTradeCheckRequest, r: PreTradeCheckResponse)
    requires
        notional(req.quantity as int, req.price as int) >= 0,
        assesses(r, notional(req.quantity as int, req.price as int)),
    ensures
        r.risk_score.scale == RISK_SCALE,
        0 <= r.risk_score.mantissa <= RISK_CAP,
        r.approved <==> r.risk_score.mantissa < APPROVAL_LIMIT,
{
}

/// `s` is a UUID in hyphenated form: 36 characters, dashes at 8, 13, 18 and 23.
pub open spec fn is_hyphenated_uuid(s: Seq<char>) -> bool {
    &&& s.len() == 36
    &&& s[8] == '-'
    &&& s[13] == '-'
    &&& s[18] == '-'
    &&& s[23] == '-'
}

/// Relies on uuid::Uuid::new_v4, a random version-4 UUID, and on its `Display`,
/// which writes the 36-character hyphenated form. `new_v4` panics only where the
/// operating system gives no random bytes.
#[verifier::external_body]
fn random_check_id() -> (r: String)
    ensures
        is_hyphenated_uuid(r@),
{
    uuid::Uuid::new_v4().to_string()
}

/// Checks an order against the position limit under a fresh random identifier.
pub fn pretrade_check(req: &PreTradeCheckRequest) -> (r: PreTradeCheckResponse)
    ensures
        is_hyphenated_uuid(r.check_id@),
        assesses(r, notional(req.quantity as int, req.price as int)),
{
    let id = random_check_id();
    assess_pretrade(req, id)
}

} // verus!
