use vstd::prelude::*;
use vstd::string::*;
use crate::types::{
    ErrorCode, GlobalState, Identity, InsuranceClaimed, Invoice, InvoiceCreated, InvoiceDetails,
    InvoiceFunded, InvoiceRepaid, InvoiceStatus,
};
use crate::risk::{calculate_enhanced_risk, risk_score_of, credit_score_of, yield_of};

verus! {

/// Largest principal an invoice may request, in minor units.
pub const MAX_INVOICE_AMOUNT: u64 = 10_000_000_000;

/// Longest term from creation to due date: 365 days, in seconds.
pub const MAX_TERM_SECONDS: i64 = 31_536_000;

/// Repayment grace period after the due date: 30 days, in seconds.
pub const GRACE_PERIOD_SECONDS: i64 = 2_592_000;

pub const MIN_DEBTOR_INFO_CHARS: usize = 10;

pub const MAX_DEBTOR_INFO_CHARS: usize = 200;

/// Premium paid into the insurance pool at funding: 0.1% per risk point.
pub open spec fn premium_of(amount: int, risk_score: int) -> int {
    amount * risk_score / 1000
}

/// What the investor expects back: principal plus 0.2% per risk point.
pub open spec fn expected_return_of(amount: int, risk_score: int) -> int {
    amount + amount * risk_score / 500
}

/// Whole days past the due date, or 0 when not late.
pub open spec fn days_overdue_of(due_date: int, now: int) -> int {
    if now > due_date {
        (now - due_date) / 86400
    } else {
        0
    }
}

/// Late fee: 0.05% of the funded amount per whole day overdue, uncompounded.
pub open spec fn late_fee_of(funded_amount: int, due_date: int, now: int) -> int {
    funded_amount * days_overdue_of(due_date, now) * 5 / 10000
}

/// Insurance coverage percentage by risk tier.
pub open spec fn coverage_of(risk_score: int) -> int {
    if risk_score <= 20 {
        90
    } else if risk_score <= 35 {
        80
    } else if risk_score <= 50 {
        70
    } else {
        60
    }
}

/// Insurance payout for a defaulted invoice.
pub open spec fn payout_of(funded_amount: int, risk_score: int) -> int {
    funded_amount * coverage_of(risk_score) / 100
}

impl Invoice {
    /// The fields every funded-or-later invoice carries.
    pub open spec fn funding_recorded(self) -> bool {
        &&& self.funded_amount == self.amount
        &&& self.funding_date is Some
        &&& self.expected_return == Some(
            expected_return_of(self.amount as int, self.risk_score as int) as u64,
        )
    }

    pub open spec fn no_repayment_recorded(self) -> bool {
        &&& self.repayment_date is None
        &&& self.final_repayment_amount is None
        &&& self.late_fee is None
    }

    pub open spec fn no_claim_recorded(self) -> bool {
        &&& self.insurance_claim_date is None
        &&& self.insurance_payout is None
    }

    /// Well-formedness: the priced fields agree with each other, and the
    /// optional fields that are populated are exactly those of the status.
    pub open spec fn wf(self) -> bool {
        &&& 0 < self.amount <= MAX_INVOICE_AMOUNT
        &&& self.risk_score <= 50
        &&& self.insurance_premium == premium_of(self.amount as int, self.risk_score as int)
        &&& match self.status {
            InvoiceStatus::PendingFunding => {
                &&& self.funded_amount == 0
                &&& self.funding_date is None
                &&& self.expected_return is None
                &&& self.no_repayment_recorded()
                &&& self.no_claim_recorded()
            },
            InvoiceStatus::Funded => {
                &&& self.funding_recorded()
                &&& self.no_repayment_recorded()
                &&& self.no_claim_recorded()
            },
            InvoiceStatus::Repaid => {
                &&& self.funding_recorded()
                &&& self.repayment_date is Some
                &&& self.final_repayment_amount is Some
                &&& self.late_fee is Some
                &&& self.no_claim_recorded()
            },
            InvoiceStatus::Defaulted => {
                &&& self.funding_recorded()
                &&& self.no_repayment_recorded()
                &&& self.insurance_claim_date is Some
                &&& self.insurance_payout is Some
            },
        }
    }
}

impl Invoice {
    /// Decides `wf`, for records that come from storage.
    pub fn is_well_formed(&self) -> (r: bool)
        ensures
            r == self.wf(),
    {
        if self.amount == 0 || self.amount > MAX_INVOICE_AMOUNT || self.risk_score > 50 {
            return false;
        }
        assert(self.amount * self.risk_score <= 10_000_000_000 * 50) by (nonlinear_arith)
            requires
                self.amount <= 10_000_000_000,
                self.risk_score <= 50,
        ;
        let risk: u64 = self.risk_score as u64;
        if self.insurance_premium != self.amount * risk / 1000 {
            return false;
        }
        let expected: u64 = self.amount + self.amount * risk / 500;
        let funding_recorded: bool = self.funded_amount == self.amount && self.funding_date.is_some()
            && match self.expected_return {
            Some(e) => e == expected,
            None => false,
        };
        let no_repayment: bool = self.repayment_date.is_none()
            && self.final_repayment_amount.is_none() && self.late_fee.is_none();
        let no_claim: bool = self.insurance_claim_date.is_none() && self.insurance_payout.is_none();
        match self.status {
            InvoiceStatus::PendingFunding => self.funded_amount == 0 && self.funding_date.is_none()
                && self.expected_return.is_none() && no_repayment && no_claim,
            InvoiceStatus::Funded => funding_recorded && no_repayment && no_claim,
            InvoiceStatus::Repaid => funding_recorded && self.repayment_date.is_some()
                && self.final_repayment_amount.is_some() && self.late_fee.is_some() && no_claim,
            InvoiceStatus::Defaulted => funding_recorded && no_repayment
                && self.insurance_claim_date.is_some() && self.insurance_payout.is_some(),
        }
    }
}

/// The first creation check that fails, in the order they are made.
pub open spec fn create_error(
    global: GlobalState,
    amount: int,
    due_date: int,
    debtor_info_len: int,
    now: int,
) -> Option<ErrorCode> {
    if amount <= 0 {
        Some(ErrorCode::InvalidAmount)
    } else if amount > MAX_INVOICE_AMOUNT {
        Some(ErrorCode::AmountTooLarge)
    } else if due_date <= now {
        Some(ErrorCode::InvalidDueDate)
    } else if due_date > now + MAX_TERM_SECONDS {
        Some(ErrorCode::DueDateTooFar)
    } else if debtor_info_len > MAX_DEBTOR_INFO_CHARS {
        Some(ErrorCode::DebtorInfoTooLong)
    } else if debtor_info_len < MIN_DEBTOR_INFO_CHARS {
        Some(ErrorCode::DebtorInfoTooShort)
    } else if global.total_invoices == u64::MAX {
        Some(ErrorCode::ArithmeticOverflow)
    } else {
        None
    }
}

/// The first funding check that fails, in the order they are made.
pub open spec fn fund_error(
    global: GlobalState,
    invoice: Invoice,
    amount: int,
    investor_balance: int,
) -> Option<ErrorCode> {
    if invoice.status != InvoiceStatus::PendingFunding {
        Some(ErrorCode::InvoiceNotAvailable)
    } else if amount != invoice.amount {
        Some(ErrorCode::InvalidFundingAmount)
    } else if investor_balance < amount + invoice.insurance_premium {
        Some(ErrorCode::InsufficientFunds)
    } else if global.total_funded + amount > u64::MAX || global.insurance_pool_balance
        + invoice.insurance_premium > u64::MAX {
        Some(ErrorCode::ArithmeticOverflow)
    } else {
        None
    }
}

/// The invoice once `investor` has funded it at time `now`.
pub open spec fn funded_invoice(invoice: Invoice, investor: Identity, now: i64) -> Invoice {
    Invoice {
        status: InvoiceStatus::Funded,
        funded_amount: invoice.amount,
        investor,
        funding_date: Some(now),
        expected_return: Some(
            expected_return_of(invoice.amount as int, invoice.risk_score as int) as u64,
        ),
        ..invoice
    }
}

/// The registry once `invoice` is funded: principal counted, premium pooled.
pub open spec fn funded_global(global: GlobalState, invoice: Invoice) -> GlobalState {
    GlobalState {
        total_funded: (global.total_funded + invoice.amount) as u64,
        insurance_pool_balance: (global.insurance_pool_balance + invoice.insurance_premium) as u64,
        ..global
    }
}

/// The first repayment check that fails, in the order they are made.
pub open spec fn repay_error(
    invoice: Invoice,
    repayment_amount: int,
    business_balance: int,
    now: int,
) -> Option<ErrorCode> {
    let total = repayment_amount + late_fee_of(
        invoice.funded_amount as int,
        invoice.due_date as int,
        now,
    );
    if invoice.status != InvoiceStatus::Funded {
        Some(ErrorCode::InvoiceNotFunded)
    } else if repayment_amount < invoice.funded_amount {
        Some(ErrorCode::InsufficientRepayment)
    } else if now > invoice.due_date + GRACE_PERIOD_SECONDS {
        Some(ErrorCode::RepaymentPeriodExpired)
    } else if total > u64::MAX {
        Some(ErrorCode::ArithmeticOverflow)
    } else if business_balance < total {
        Some(ErrorCode::InsufficientRepaymentFunds)
    } else {
        None
    }
}

/// The invoice once repaid with `repayment_amount` at time `now`.
pub open spec fn repaid_invoice(invoice: Invoice, repayment_amount: int, now: i64) -> Invoice {
    let fee = late_fee_of(invoice.funded_amount as int, invoice.due_date as int, now as int);
    Invoice {
        status: InvoiceStatus::Repaid,
        repayment_date: Some(now),
        final_repayment_amount: Some((repayment_amount + fee) as u64),
        late_fee: Some(fee as u64),
        ..invoice
    }
}

/// The payout that a claim on `invoice` draws from the pool.
pub open spec fn claim_payout(invoice: Invoice) -> int {
    payout_of(invoice.funded_amount as int, invoice.risk_score as int)
}

/// The first claim check that fails, in the order they are made.
pub open spec fn claim_error(
    global: GlobalState,
    invoice: Invoice,
    claimant: Identity,
    pool_account_balance: int,
    now: int,
) -> Option<ErrorCode> {
    if invoice.status != InvoiceStatus::Funded {
        Some(ErrorCode::InvoiceNotFunded)
    } else if claimant.bytes@ != invoice.investor.bytes@ {
        Some(ErrorCode::UnauthorizedInsuranceClaim)
    } else if now <= invoice.due_date + GRACE_PERIOD_SECONDS {
        Some(ErrorCode::NotEligibleForClaim)
    } else if claim_payout(invoice) > pool_account_balance || claim_payout(invoice)
        > global.insurance_pool_balance {
        Some(ErrorCode::InsufficientInsurancePool)
    } else {
        None
    }
}

/// The invoice once its insurance claim is paid at time `now`.
pub open spec fn claimed_invoice(invoice: Invoice, now: i64) -> Invoice {
    Invoice {
        status: InvoiceStatus::Defaulted,
        insurance_claim_date: Some(now),
        insurance_payout: Some(claim_payout(invoice) as u64),
        ..invoice
    }
}

/// The registry once the claim on `invoice` is paid out of the pool.
pub open spec fn claimed_global(global: GlobalState, invoice: Invoice) -> GlobalState {
    GlobalState {
        insurance_pool_balance: (global.insurance_pool_balance - claim_payout(invoice)) as u64,
        ..global
    }
}

/// Sets up the process-wide registry with empty counters.
pub fn initialize(authority: Identity, usdc_mint: Identity) -> (r: GlobalState)
    ensures
        r.total_invoices == 0,
        r.total_funded == 0,
        r.insurance_pool_balance == 0,
        r.authority == authority,
        r.usdc_mint == usdc_mint,
{
    GlobalState { total_invoices: 0, total_funded: 0, insurance_pool_balance: 0, authority, usdc_mint }
}

/// Validates and prices a new invoice owned by `business_owner`, and counts
/// it in the registry. On error nothing changes.
pub fn create_invoice(
    global: &mut GlobalState,
    invoice_id: u64,
    amount: u64,
    due_date: i64,
    debtor_info: String,
    business_owner: Identity,
    now: i64,
) -> (r: Result<(Invoice, InvoiceCreated), ErrorCode>)
    ensures
        match r {
            Ok((inv, ev)) => {
                let risk = risk_score_of(amount as int, due_date as int, business_owner, now as int);
                &&& create_error(*old(global), amount as int, due_date as int, debtor_info@.len() as int, now as int) is None
                &&& *final(global) == (GlobalState { total_invoices: (old(global).total_invoices + 1) as u64, ..*old(global) })
                &&& inv.wf()
                &&& inv.invoice_id == invoice_id
                &&& inv.business_owner == business_owner
                &&& inv.investor.is_zero()
                &&& inv.amount == amount
                &&& inv.due_date == due_date
                &&& inv.debtor_info == debtor_info
                &&& inv.status == InvoiceStatus::PendingFunding
                &&& inv.risk_score == risk
                &&& 10 <= inv.risk_score <= 50
                &&& inv.insurance_premium == premium_of(amount as int, risk)
                &&& inv.created_at == now
                &&& inv.industry_risk == 5
                &&& inv.credit_score == credit_score_of(business_owner)
                &&& inv.payment_terms_days == (due_date - now) / 86400
                &&& ev == (InvoiceCreated {
                    invoice_id,
                    business_owner,
                    amount,
                    risk_score: inv.risk_score,
                    insurance_premium: inv.insurance_premium,
                    estimated_yield: yield_of(risk) as u16,
                })
            },
            Err(e) => {
                &&& create_error(*old(global), amount as int, due_date as int, debtor_info@.len() as int, now as int) == Some(e)
                &&& *final(global) == *old(global)
            },
        },
{
    if amount == 0 {
        return Err(ErrorCode::InvalidAmount);
    }
    if amount > MAX_INVOICE_AMOUNT {
        return Err(ErrorCode::AmountTooLarge);
    }
    if due_date <= now {
        return Err(ErrorCode::InvalidDueDate);
    }
    if due_date as i128 > now as i128 + MAX_TERM_SECONDS as i128 {
        return Err(ErrorCode::DueDateTooFar);
    }
    let info_len: usize = debtor_info.as_str().unicode_len();
    if info_len > MAX_DEBTOR_INFO_CHARS {
        return Err(ErrorCode::DebtorInfoTooLong);
    }
    if info_len < MIN_DEBTOR_INFO_CHARS {
        return Err(ErrorCode::DebtorInfoTooShort);
    }
    if global.total_invoices == u64::MAX {
        return Err(ErrorCode::ArithmeticOverflow);
    }
    let assessment = calculate_enhanced_risk(amount, due_date, &business_owner, now);
    let risk_score: u8 = assessment.risk_score;
    assert(amount * risk_score <= 10_000_000_000 * 50) by (nonlinear_arith)
        requires
            amount <= 10_000_000_000,
            risk_score <= 50,
    ;
    let insurance_premium: u64 = amount * (risk_score as u64) / 1000;
    let payment_terms_days: u16 = ((due_date - now) / 86400) as u16;
    let invoice = Invoice {
        invoice_id,
        business_owner,
        investor: Identity::zero(),
        amount,
        funded_amount: 0,
        due_date,
        debtor_info,
        status: InvoiceStatus::PendingFunding,
        risk_score,
        insurance_premium,
        created_at: now,
        funding_date: None,
        repayment_date: None,
        expected_return: None,
        final_repayment_amount: None,
        late_fee: None,
        insurance_claim_date: None,
        insurance_payout: None,
        industry_risk: assessment.industry_risk,
        credit_score: assessment.estimated_credit_score,
        payment_terms_days,
    };
    global.total_invoices = global.total_invoices + 1;
    let event = InvoiceCreated {
        invoice_id,
        business_owner,
        amount,
        risk_score,
        insurance_premium,
        estimated_yield: assessment.estimated_yield,
    };
    Ok((invoice, event))
}

/// Funds a pending invoice in full. The investor, holding `investor_balance`,
/// pays the principal to the business owner and the premium to the pool, as
/// the returned event lists. On error nothing changes.
pub fn fund_invoice(
    global: &mut GlobalState,
    invoice: &mut Invoice,
    investor: Identity,
    amount: u64,
    investor_balance: u64,
    now: i64,
) -> (r: Result<InvoiceFunded, ErrorCode>)
    requires
        old(invoice).wf(),
    ensures
        final(invoice).wf(),
        match r {
            Ok(ev) => {
                &&& fund_error(*old(global), *old(invoice), amount as int, investor_balance as int) is None
                &&& *final(invoice) == funded_invoice(*old(invoice), investor, now)
                &&& *final(global) == funded_global(*old(global), *old(invoice))
                &&& ev == (InvoiceFunded {
                    invoice_id: old(invoice).invoice_id,
                    investor,
                    amount,
                    insurance_premium: old(invoice).insurance_premium,
                    expected_return: expected_return_of(amount as int, old(invoice).risk_score as int) as u64,
                })
            },
            Err(e) => {
                &&& fund_error(*old(global), *old(invoice), amount as int, investor_balance as int) == Some(e)
                &&& *final(invoice) == *old(invoice)
                &&& *final(global) == *old(global)
            },
        },
{
    if invoice.status != InvoiceStatus::PendingFunding {
        return Err(ErrorCode::InvoiceNotAvailable);
    }
    if amount != invoice.amount {
        return Err(ErrorCode::InvalidFundingAmount);
    }
    assert(invoice.amount * invoice.risk_score <= 10_000_000_000 * 50) by (nonlinear_arith)
        requires
            invoice.amount <= 10_000_000_000,
            invoice.risk_score <= 50,
    ;
    let premium: u64 = invoice.insurance_premium;
    if investor_balance < amount + premium {
        return Err(ErrorCode::InsufficientFunds);
    }
    if global.total_funded > u64::MAX - amount || global.insurance_pool_balance > u64::MAX
        - premium {
        return Err(ErrorCode::ArithmeticOverflow);
    }
    let expected_return: u64 = amount + amount * (invoice.risk_score as u64) / 500;
    invoice.status = InvoiceStatus::Funded;
    invoice.funded_amount = amount;
    invoice.investor = investor;
    invoice.funding_date = Some(now);
    invoice.expected_return = Some(expected_return);
    global.total_funded = global.total_funded + amount;
    global.insurance_pool_balance = global.insurance_pool_balance + premium;
    Ok(
        InvoiceFunded {
            invoice_id: invoice.invoice_id,
            investor,
            amount,
            insurance_premium: premium,
            expected_return,
        },
    )
}

/// Repays a funded invoice at time `now`: up to the due date at face value,
/// then with a late fee until the grace period ends. The business owner,
/// holding `business_balance`, pays the event's `amount` to the investor.
/// On error nothing changes.
pub fn repay_invoice(
    invoice: &mut Invoice,
    repayment_amount: u64,
    business_balance: u64,
    now: i64,
) -> (r: Result<InvoiceRepaid, ErrorCode>)
    requires
        old(invoice).wf(),
    ensures
        final(invoice).wf(),
        match r {
            Ok(ev) => {
                let fee = late_fee_of(old(invoice).funded_amount as int, old(invoice).due_date as int, now as int);
                &&& repay_error(*old(invoice), repayment_amount as int, business_balance as int, now as int) is None
                &&& *final(invoice) == repaid_invoice(*old(invoice), repayment_amount as int, now)
                &&& ev == (InvoiceRepaid {
                    invoice_id: old(invoice).invoice_id,
                    amount: (repayment_amount + fee) as u64,
                    late_fee: fee as u64,
                    days_overdue: days_overdue_of(old(invoice).due_date as int, now as int) as u16,
                })
            },
            Err(e) => {
                &&& repay_error(*old(invoice), repayment_amount as int, business_balance as int, now as int) == Some(e)
                &&& *final(invoice) == *old(invoice)
            },
        },
{
    if invoice.status != InvoiceStatus::Funded {
        return Err(ErrorCode::InvoiceNotFunded);
    }
    if repayment_amount < invoice.funded_amount {
        return Err(ErrorCode::InsufficientRepayment);
    }
    let due: i128 = invoice.due_date as i128;
    let current: i128 = now as i128;
    if current > due + GRACE_PERIOD_SECONDS as i128 {
        return Err(ErrorCode::RepaymentPeriodExpired);
    }
    let days_overdue: u64 = if current > due {
        ((current - due) / 86400) as u64
    } else {
        0
    };
    assert(days_overdue <= 30);
    let funded: u64 = invoice.funded_amount;
    assert(funded * days_overdue * 5 <= 10_000_000_000 * 30 * 5) by (nonlinear_arith)
        requires
            funded <= 10_000_000_000,
            days_overdue <= 30,
    ;
    let late_fee: u64 = funded * days_overdue * 5 / 10000;
    if repayment_amount > u64::MAX - late_fee {
        return Err(ErrorCode::ArithmeticOverflow);
    }
    let total_repayment: u64 = repayment_amount + late_fee;
    if business_balance < total_repayment {
        return Err(ErrorCode::InsufficientRepaymentFunds);
    }
    invoice.status = InvoiceStatus::Repaid;
    invoice.repayment_date = Some(now);
    invoice.final_repayment_amount = Some(total_repayment);
    invoice.late_fee = Some(late_fee);
    Ok(
        InvoiceRepaid {
            invoice_id: invoice.invoice_id,
            amount: total_repayment,
            late_fee,
            days_overdue: days_overdue as u16,
        },
    )
}

/// Coverage percentage for a risk score.
pub fn coverage_percentage(risk_score: u8) -> (r: u64)
    ensures
        r == coverage_of(risk_score as int),
{
    if risk_score <= 20 {
        90
    } else if risk_score <= 35 {
        80
    } else if risk_score <= 50 {
        70
    } else {
        60
    }
}

/// Pays the investor's insurance claim on a funded invoice once the grace
/// period has fully elapsed. The pool's token account holds
/// `pool_account_balance`; the pool pays the event's `payout_amount` to the
/// investor. On error nothing changes.
pub fn claim_insurance(
    global: &mut GlobalState,
    invoice: &mut Invoice,
    claimant: Identity,
    pool_account_balance: u64,
    now: i64,
) -> (r: Result<InsuranceClaimed, ErrorCode>)
    requires
        old(invoice).wf(),
    ensures
        final(invoice).wf(),
        match r {
            Ok(ev) => {
                &&& claim_error(*old(global), *old(invoice), claimant, pool_account_balance as int, now as int) is None
                &&& *final(invoice) == claimed_invoice(*old(invoice), now)
                &&& *final(global) == claimed_global(*old(global), *old(invoice))
                &&& ev == (InsuranceClaimed {
                    invoice_id: old(invoice).invoice_id,
                    investor: old(invoice).investor,
                    payout_amount: claim_payout(*old(invoice)) as u64,
                    coverage_percentage: coverage_of(old(invoice).risk_score as int) as u64,
                })
            },
            Err(e) => {
                &&& claim_error(*old(global), *old(invoice), claimant, pool_account_balance as int, now as int) == Some(e)
                &&& *final(invoice) == *old(invoice)
                &&& *final(global) == *old(global)
            },
        },
{
    if invoice.status != InvoiceStatus::Funded {
        return Err(ErrorCode::InvoiceNotFunded);
    }
    if !claimant.same_as(&invoice.investor) {
        return Err(ErrorCode::UnauthorizedInsuranceClaim);
    }
    if now as i128 <= invoice.due_date as i128 + GRACE_PERIOD_SECONDS as i128 {
        return Err(ErrorCode::NotEligibleForClaim);
    }
    let coverage: u64 = coverage_percentage(invoice.risk_score);
    let funded: u64 = invoice.funded_amount;
    assert(funded * coverage <= 10_000_000_000 * 90) by (nonlinear_arith)
        requires
            funded <= 10_000_000_000,
            coverage <= 90,
    ;
    let payout: u64 = funded * coverage / 100;
    if payout > pool_account_balance || payout > global.insurance_pool_balance {
        return Err(ErrorCode::InsufficientInsurancePool);
    }
    invoice.status = InvoiceStatus::Defaulted;
    invoice.insurance_claim_date = Some(now);
    invoice.insurance_payout = Some(payout);
    global.insurance_pool_balance = global.insurance_pool_balance - payout;
    Ok(
        InsuranceClaimed {
            invoice_id: invoice.invoice_id,
            investor: invoice.investor,
            payout_amount: payout,
            coverage_percentage: coverage,
        },
    )
}

/// Read-only projection of an invoice record.
pub fn get_invoice_details(invoice: &Invoice) -> (r: InvoiceDetails)
    ensures
        r == (InvoiceDetails {
            invoice_id: invoice.invoice_id,
            business_owner: invoice.business_owner,
            investor: invoice.investor,
            amount: invoice.amount,
            funded_amount: invoice.funded_amount,
            due_date: invoice.due_date,
            status: invoice.status,
            risk_score: invoice.risk_score,
            insurance_premium: invoice.insurance_premium,
            created_at: invoice.created_at,
            funding_date: invoice.funding_date,
            repayment_date: invoice.repayment_date,
            expected_return: invoice.expected_return,
        }),
{
    InvoiceDetails {
        invoice_id: invoice.invoice_id,
        business_owner: invoice.business_owner,
        investor: invoice.investor,
        amount: invoice.amount,
        funded_amount: invoice.funded_amount,
        due_date: invoice.due_date,
        status: invoice.status,
        risk_score: invoice.risk_score,
        insurance_premium: invoice.insurance_premium,
        created_at: invoice.created_at,
        funding_date: invoice.funding_date,
        repayment_date: invoice.repayment_date,
        expected_return: invoice.expected_return,
    }
}

} // verus!
