//! Policy modes and the budget snapshot: the two gates consulted before a
//! tool or subcommand runs.

use vstd::prelude::*;

use crate::text::money_rep;

verus! {

/// Ordered permission level: read-only callers may not use engagement
/// tools.
#[derive(Clone, Copy, PartialEq, Eq, Structural, Debug)]
pub enum PolicyMode {
    ReadOnly,
    Engagement,
}

/// Rank in the policy order; a mode admits every requirement of equal or
/// lower rank.
pub open spec fn policy_rank(m: PolicyMode) -> int {
    match m {
        PolicyMode::ReadOnly => 0,
        PolicyMode::Engagement => 1,
    }
}

/// Whether a caller running under `mode` may use an operation that demands
/// `required`.
pub open spec fn spec_is_allowed(mode: PolicyMode, required: PolicyMode) -> bool {
    policy_rank(mode) >= policy_rank(required)
}

pub fn is_allowed(mode: PolicyMode, required: PolicyMode) -> (r: bool)
    ensures
        r == spec_is_allowed(mode, required),
{
    match (mode, required) {
        (PolicyMode::ReadOnly, PolicyMode::Engagement) => false,
        _ => true,
    }
}

/// The flag value naming each mode.
pub open spec fn spec_policy_str(m: PolicyMode) -> Seq<char> {
    match m {
        PolicyMode::ReadOnly => "read_only"@,
        PolicyMode::Engagement => "engagement"@,
    }
}

pub fn policy_as_str(m: PolicyMode) -> (r: &'static str)
    ensures
        r@ == spec_policy_str(m),
{
    match m {
        PolicyMode::ReadOnly => "read_only",
        PolicyMode::Engagement => "engagement",
    }
}

/// One reading of the cost tracker: whether more metered calls are allowed
/// today, and the day's spend against its limit, in cents.
#[derive(Clone, Copy, PartialEq, Eq, Structural, Debug)]
pub struct BudgetState {
    pub allowed: bool,
    pub spent_cents: u64,
    pub limit_cents: u64,
}

/// What is left of the budget: the limit minus the spend, clamped so that
/// it is never negative.
pub open spec fn spec_remaining_cents(b: BudgetState) -> int {
    if b.spent_cents >= b.limit_cents {
        0
    } else {
        b.limit_cents - b.spent_cents
    }
}

pub fn remaining_cents(b: &BudgetState) -> (r: u64)
    ensures
        r == spec_remaining_cents(*b),
{
    if b.spent_cents >= b.limit_cents {
        0
    } else {
        b.limit_cents - b.spent_cents
    }
}

/// Remaining budget written as dollars, for the denial message.
pub fn remaining_text(b: &BudgetState) -> (r: String)
    ensures
        r@ == money_rep(spec_remaining_cents(*b) as nat),
{
    let rem = remaining_cents(b);
    crate::text::cents_to_string(rem)
}

} // verus!
