//! Invoice-factoring ledger: invoice lifecycle, risk pricing, insurance pool
//! accounting, and the laws that tie them together.
//!
//! Everything here works on plain values. The caller supplies the current
//! time and the token balances it has read, performs the transfers that the
//! returned events describe, and stores the records.
pub mod types;
pub mod risk;
pub mod ledger;
pub mod laws;

pub use types::{
    ErrorCode, GlobalState, Identity, InsuranceClaimed, Invoice, InvoiceCreated, InvoiceDetails,
    InvoiceFunded, InvoiceRepaid, InvoiceStatus, RiskAssessment,
};
pub use risk::calculate_enhanced_risk;
pub use ledger::{
    claim_insurance, coverage_percentage, create_invoice, fund_invoice, get_invoice_details,
    initialize, repay_invoice, GRACE_PERIOD_SECONDS, MAX_DEBTOR_INFO_CHARS, MAX_INVOICE_AMOUNT,
    MAX_TERM_SECONDS, MIN_DEBTOR_INFO_CHARS,
};
