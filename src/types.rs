use vstd::prelude::*;

verus! {

/// A 32-byte account identity (a public key).
#[derive(Clone, Copy, Debug)]
pub struct Identity {
    pub bytes: [u8; 32],
}

impl Identity {
    /// Whether every byte is zero.
    pub open spec fn is_zero(self) -> bool {
        forall|i: int| 0 <= i < 32 ==> self.bytes@[i] == 0u8
    }

    /// The all-zero identity, used for "no investor yet".
    pub fn zero() -> (r: Identity)
        ensures
            r.is_zero(),
    {
        Identity { bytes: [0u8; 32] }
    }

    /// Byte-wise comparison of two identities.
    pub fn same_as(&self, other: &Identity) -> (r: bool)
        ensures
            r == (self.bytes@ == other.bytes@),
    {
        let mut i: usize = 0;
        while i < 32
            invariant
                i <= 32,
                forall|j: int| 0 <= j < i ==> self.bytes@[j] == other.bytes@[j],
            decreases 32 - i,
        {
            if self.bytes[i] != other.bytes[i] {
                return false;
            }
            i = i + 1;
        }
        assert(self.bytes@ =~= other.bytes@);
        true
    }
}

impl PartialEq for Identity {
    fn eq(&self, other: &Identity) -> (r: bool) {
        self.same_as(other)
    }
}

impl Eq for Identity {
}

impl vstd::std_specs::cmp::PartialEqSpecImpl for Identity {
    open spec fn obeys_eq_spec() -> bool {
        true
    }

    open spec fn eq_spec(&self, other: &Identity) -> bool {
        self.bytes@ == other.bytes@
    }
}

/// Output of the risk engine for one invoice.
#[derive(Clone, Copy, Debug, PartialEq, Eq, Structural)]
pub struct RiskAssessment {
    pub risk_score: u8,
    pub industry_risk: u8,
    pub estimated_credit_score: u16,
    /// Basis points.
    pub estimated_yield: u16,
}

/// Lifecycle state of an invoice. `Repaid` and `Defaulted` are terminal.
#[derive(Clone, Copy, Debug, PartialEq, Eq, Structural)]
pub enum InvoiceStatus {
    PendingFunding,
    Funded,
    Repaid,
    Defaulted,
}

/// Process-wide counters and configuration.
#[derive(Clone, Copy, Debug)]
pub struct GlobalState {
    pub total_invoices: u64,
    pub total_funded: u64,
    pub insurance_pool_balance: u64,
    pub authority: Identity,
    pub usdc_mint: Identity,
}

/// One invoice record. The optional fields are populated by the lifecycle
/// transitions; `Invoice::wf` ties them to `status`.
#[derive(Clone, Debug)]
pub struct Invoice {
    pub invoice_id: u64,
    pub business_owner: Identity,
    pub investor: Identity,
    pub amount: u64,
    pub funded_amount: u64,
    pub due_date: i64,
    pub debtor_info: String,
    pub status: InvoiceStatus,
    pub risk_score: u8,
    pub insurance_premium: u64,
    pub created_at: i64,
    pub funding_date: Option<i64>,
    pub repayment_date: Option<i64>,
    pub expected_return: Option<u64>,
    pub final_repayment_amount: Option<u64>,
    pub late_fee: Option<u64>,
    pub insurance_claim_date: Option<i64>,
    pub insurance_payout: Option<u64>,
    pub industry_risk: u8,
    pub credit_score: u16,
    pub payment_terms_days: u16,
}

/// Read-only projection of an invoice.
#[derive(Clone, Copy, Debug)]
pub struct InvoiceDetails {
    pub invoice_id: u64,
    pub business_owner: Identity,
    pub investor: Identity,
    pub amount: u64,
    pub funded_amount: u64,
    pub due_date: i64,
    pub status: InvoiceStatus,
    pub risk_score: u8,
    pub insurance_premium: u64,
    pub created_at: i64,
    pub funding_date: Option<i64>,
    pub repayment_date: Option<i64>,
    pub expected_return: Option<u64>,
}

/// Emitted when an invoice is created.
#[derive(Clone, Copy, Debug)]
pub struct InvoiceCreated {
    pub invoice_id: u64,
    pub business_owner: Identity,
    pub amount: u64,
    pub risk_score: u8,
    pub insurance_premium: u64,
    pub estimated_yield: u16,
}

/// Emitted when an invoice is funded. The investor pays `amount` to the
/// business owner and `insurance_premium` to the insurance pool.
#[derive(Clone, Copy, Debug)]
pub struct InvoiceFunded {
    pub invoice_id: u64,
    pub investor: Identity,
    pub amount: u64,
    pub insurance_premium: u64,
    pub expected_return: u64,
}

/// Emitted when an invoice is repaid. The business owner pays `amount`
/// (late fee included) to the investor.
#[derive(Clone, Copy, Debug)]
pub struct InvoiceRepaid {
    pub invoice_id: u64,
    pub amount: u64,
    pub late_fee: u64,
    pub days_overdue: u16,
}

/// Emitted when an insurance claim is paid. The pool pays `payout_amount`
/// to the investor.
#[derive(Clone, Copy, Debug)]
pub struct InsuranceClaimed {
    pub invoice_id: u64,
    pub investor: Identity,
    pub payout_amount: u64,
    pub coverage_percentage: u64,
}

/// Every way a ledger operation can be refused.
#[derive(Clone, Copy, Debug, PartialEq, Eq, Structural)]
pub enum ErrorCode {
    InvalidAmount,
    AmountTooLarge,
    InvalidDueDate,
    DueDateTooFar,
    DebtorInfoTooLong,
    DebtorInfoTooShort,
    InvoiceNotAvailable,
    InvalidFundingAmount,
    InsufficientFunds,
    InvoiceNotFunded,
    InsufficientRepayment,
    InsufficientRepaymentFunds,
    RepaymentPeriodExpired,
    NotEligibleForClaim,
    UnauthorizedInsuranceClaim,
    InsufficientInsurancePool,
    ArithmeticOverflow,
}

} // verus!
