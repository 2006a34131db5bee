use vstd::prelude::*;
use crate::types::{Identity, RiskAssessment};

verus! {

pub const BASE_RISK: u8 = 10;
pub const INDUSTRY_RISK: u8 = 5;
pub const MAX_RISK: u8 = 50;
pub const BASE_YIELD_BPS: u16 = 500;

/// Add-on for the invoice's size, in minor units of the settlement asset.
pub open spec fn amount_risk(amount: int) -> int {
    if amount <= 10_000_000 {
        5
    } else if amount <= 50_000_000 {
        10
    } else if amount <= 100_000_000 {
        15
    } else if amount <= 500_000_000 {
        25
    } else {
        35
    }
}

/// Whole days from `now` to `due_date`, truncated toward zero.
pub open spec fn days_to_due(due_date: int, now: int) -> int {
    if due_date >= now {
        (due_date - now) / 86400
    } else {
        -((now - due_date) / 86400)
    }
}

/// Add-on for the invoice's term: shorter terms are riskier.
pub open spec fn term_risk(days: int) -> int {
    if days < 0 {
        0
    } else if days <= 7 {
        20
    } else if days <= 14 {
        15
    } else if days <= 30 {
        10
    } else if days <= 60 {
        5
    } else if days <= 90 {
        2
    } else {
        0
    }
}

/// Deterministic stand-in credit score, from the first byte of the identity.
pub open spec fn credit_score_of(owner: Identity) -> int {
    (owner.bytes@[0] * 3 + 600) % 850
}

/// Add-on for the credit score bracket.
pub open spec fn credit_risk(score: int) -> int {
    if score >= 800 {
        0
    } else if score >= 750 {
        2
    } else if score >= 700 {
        5
    } else if score >= 650 {
        10
    } else {
        15
    }
}

/// The composite risk score, capped at 50.
pub open spec fn risk_score_of(amount: int, due_date: int, owner: Identity, now: int) -> int {
    let total = 10 + amount_risk(amount) + term_risk(days_to_due(due_date, now)) + credit_risk(
        credit_score_of(owner),
    ) + 5;
    if total > 50 {
        50
    } else {
        total
    }
}

/// Estimated investor yield in basis points for a risk score.
pub open spec fn yield_of(risk_score: int) -> int {
    500 + risk_score * 20
}

fn amount_add_on(amount: u64) -> (r: u8)
    ensures
        r == amount_risk(amount as int),
{
    if amount <= 10_000_000 {
        5
    } else if amount <= 50_000_000 {
        10
    } else if amount <= 100_000_000 {
        15
    } else if amount <= 500_000_000 {
        25
    } else {
        35
    }
}

fn term_add_on(due_date: i64, now: i64) -> (r: u8)
    ensures
        r == term_risk(days_to_due(due_date as int, now as int)),
{
    let diff: i128 = due_date as i128 - now as i128;
    let days: i128 = if diff >= 0 {
        diff / 86400
    } else {
        -((-diff) / 86400)
    };
    if days < 0 {
        0
    } else if days <= 7 {
        20
    } else if days <= 14 {
        15
    } else if days <= 30 {
        10
    } else if days <= 60 {
        5
    } else if days <= 90 {
        2
    } else {
        0
    }
}

fn credit_add_on(score: u16) -> (r: u8)
    ensures
        r == credit_risk(score as int),
{
    if score >= 800 {
        0
    } else if score >= 750 {
        2
    } else if score >= 700 {
        5
    } else if score >= 650 {
        10
    } else {
        15
    }
}

/// Prices an invoice: risk score in [10, 50], pseudo-credit score, and yield.
pub fn calculate_enhanced_risk(amount: u64, due_date: i64, business_owner: &Identity, now: i64) -> (r:
    RiskAssessment)
    ensures
        r.risk_score == risk_score_of(amount as int, due_date as int, *business_owner, now as int),
        10 <= r.risk_score <= 50,
        r.industry_risk == 5,
        r.estimated_credit_score == credit_score_of(*business_owner),
        r.estimated_yield == yield_of(r.risk_score as int),
{
    let first: u16 = business_owner.bytes[0] as u16;
    let credit_score: u16 = (first * 3 + 600) % 850;
    let total: u8 = BASE_RISK + amount_add_on(amount) + term_add_on(due_date, now) + credit_add_on(
        credit_score,
    ) + INDUSTRY_RISK;
    let risk_score: u8 = if total > MAX_RISK {
        MAX_RISK
    } else {
        total
    };
    let estimated_yield: u16 = BASE_YIELD_BPS + (risk_score as u16) * 20;
    RiskAssessment {
        risk_score,
        industry_risk: INDUSTRY_RISK,
        estimated_credit_score: credit_score,
        estimated_yield,
    }
}

} // verus!
