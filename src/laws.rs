use vstd::prelude::*;
use crate::types::{ErrorCode, GlobalState, Identity, Invoice, InvoiceStatus};
use crate::risk::risk_score_of;
use crate::ledger::{
    claim_error, claim_payout, claimed_global, create_error, fund_error, funded_global,
    funded_invoice, late_fee_of, repaid_invoice, repay_error, GRACE_PERIOD_SECONDS,
};

verus! {

/// Every risk score the engine produces lies in [10, 50], whatever the
/// amount, term and owner.
pub proof fn lemma_risk_score_bounds(amount: int, due_date: int, owner: Identity, now: int)
    ensures
        10 <= risk_score_of(amount, due_date, owner, now) <= 50,
{
}

/// An invoice that passes the creation checks is priced with a risk score
/// in [10, 50].
pub proof fn lemma_created_risk_in_range(
    global: GlobalState,
    amount: u64,
    due_date: i64,
    debtor_info_len: nat,
    owner: Identity,
    now: i64,
)
    requires
        create_error(global, amount as int, due_date as int, debtor_info_len as int, now as int)
            is None,
    ensures
        10 <= risk_score_of(amount as int, due_date as int, owner, now as int) <= 50,
{
    lemma_risk_score_bounds(amount as int, due_date as int, owner, now as int);
}

/// Once an invoice has been funded, any further funding attempt is refused
/// as unavailable, so the principal is counted in `total_funded` once.
pub proof fn lemma_funding_happens_once(
    global: GlobalState,
    invoice: Invoice,
    investor: Identity,
    amount: u64,
    investor_balance: u64,
    now: i64,
    second_amount: u64,
    second_balance: u64,
)
    requires
        invoice.wf(),
        fund_error(global, invoice, amount as int, investor_balance as int) is None,
    ensures
        funded_global(global, invoice).total_funded == global.total_funded + amount,
        fund_error(
            funded_global(global, invoice),
            funded_invoice(invoice, investor, now),
            second_amount as int,
            second_balance as int,
        ) == Some(ErrorCode::InvoiceNotAvailable),
{
}

/// Funding credits the pool with exactly the invoice's premium.
pub proof fn lemma_funding_credits_pool(
    global: GlobalState,
    invoice: Invoice,
    amount: u64,
    investor_balance: u64,
)
    requires
        fund_error(global, invoice, amount as int, investor_balance as int) is None,
    ensures
        funded_global(global, invoice).insurance_pool_balance == global.insurance_pool_balance
            + invoice.insurance_premium,
{
}

/// A claim that is paid never exceeds the pool, and debits it by exactly the
/// payout.
pub proof fn lemma_claim_debits_pool(
    global: GlobalState,
    invoice: Invoice,
    claimant: Identity,
    pool_account_balance: u64,
    now: i64,
)
    requires
        claim_error(global, invoice, claimant, pool_account_balance as int, now as int) is None,
    ensures
        claim_payout(invoice) <= global.insurance_pool_balance,
        claimed_global(global, invoice).insurance_pool_balance == global.insurance_pool_balance
            - claim_payout(invoice),
{
}

/// Repaying on or before the due date carries no late fee: the total paid is
/// the repayment amount itself.
pub proof fn lemma_on_time_repayment_has_no_fee(
    invoice: Invoice,
    repayment_amount: u64,
    now: i64,
)
    requires
        now <= invoice.due_date,
    ensures
        late_fee_of(invoice.funded_amount as int, invoice.due_date as int, now as int) == 0,
        repaid_invoice(invoice, repayment_amount as int, now).late_fee == Some(0u64),
        repaid_invoice(invoice, repayment_amount as int, now).final_repayment_amount == Some(
            repayment_amount,
        ),
{
}

/// Repayment is accepted only up to the end of the grace period and a claim
/// only after it, so no invoice can both be repaid and claimed at one time.
pub proof fn lemma_repay_and_claim_windows_disjoint(
    global: GlobalState,
    invoice: Invoice,
    repayment_amount: u64,
    business_balance: u64,
    claimant: Identity,
    pool_account_balance: u64,
    now: i64,
)
    ensures
        repay_error(invoice, repayment_amount as int, business_balance as int, now as int) is None
            ==> now <= invoice.due_date + GRACE_PERIOD_SECONDS,
        claim_error(global, invoice, claimant, pool_account_balance as int, now as int) is None
            ==> now > invoice.due_date + GRACE_PERIOD_SECONDS,
        !(repay_error(invoice, repayment_amount as int, business_balance as int, now as int) is None
            && claim_error(global, invoice, claimant, pool_account_balance as int, now as int) is None),
{
}

/// A settled invoice accepts no further transition.
pub proof fn lemma_terminal_states_are_final(
    global: GlobalState,
    invoice: Invoice,
    amount: u64,
    balance: u64,
    claimant: Identity,
    now: i64,
)
    requires
        invoice.status == InvoiceStatus::Repaid || invoice.status == InvoiceStatus::Defaulted,
    ensures
        fund_error(global, invoice, amount as int, balance as int) == Some(ErrorCode::InvoiceNotAvailable),
        repay_error(invoice, amount as int, balance as int, now as int) == Some(ErrorCode::InvoiceNotFunded),
        claim_error(global, invoice, claimant, balance as int, now as int) == Some(ErrorCode::InvoiceNotFunded),
{
}

} // verus!
