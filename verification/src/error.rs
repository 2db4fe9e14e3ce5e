use vstd::prelude::*;

use crate::format::{amount_text, append_amount};
use vstd::string::StringExecFns;

verus! {

/// Why a billing operation was refused. Amounts are in ten-thousandths of the
/// currency unit.
#[derive(Debug)]
pub enum BillingError {
    /// No row has the given key (the text names what was looked up).
    AccountNotFound(String),
    /// A debit asked for more than the balance holds.
    InsufficientBalance { available: i64, required: i64 },
    /// An account with the same id, MSISDN or IMSI exists (the text is the MSISDN).
    DuplicateAccount(String),
    /// The store refused a write (the text says which constraint failed).
    Database(String),
    InvalidMsisdn(String),
    /// The account's status does not allow the operation (the text is its id).
    AccountSuspended(String),
}

/// `e` reports that `what` was not found.
pub open spec fn is_not_found(e: BillingError, what: Seq<char>) -> bool {
    e matches BillingError::AccountNotFound(s) && s@ == what
}

/// `e` reports that the status of account `id` forbids the operation.
pub open spec fn is_suspended(e: BillingError, id: Seq<char>) -> bool {
    e matches BillingError::AccountSuspended(s) && s@ == id
}

/// `e` reports a duplicate account with MSISDN `msisdn`.
pub open spec fn is_duplicate(e: BillingError, msisdn: Seq<char>) -> bool {
    e matches BillingError::DuplicateAccount(s) && s@ == msisdn
}

/// `e` reports that the store refused a write because of `constraint`.
pub open spec fn is_database(e: BillingError, constraint: Seq<char>) -> bool {
    e matches BillingError::Database(s) && s@ == constraint
}

} // verus!

verus! {

/// The text that describes `e`, as shown to an operator.
pub open spec fn error_text(e: BillingError) -> Seq<char> {
    match e {
        BillingError::AccountNotFound(s) => "Account not found: "@ + s@,
        BillingError::InsufficientBalance { available, required } => "Insufficient balance: available "@
            + amount_text(available as int) + ", required "@ + amount_text(required as int),
        BillingError::DuplicateAccount(s) => "Duplicate account: "@ + s@,
        BillingError::Database(s) => "Database error: "@ + s@,
        BillingError::InvalidMsisdn(s) => "Invalid MSISDN format: "@ + s@,
        BillingError::AccountSuspended(s) => "Account suspended: "@ + s@,
    }
}

impl BillingError {
    /// The text that describes the error.
    pub fn message(&self) -> (s: String)
        ensures
            s@ == error_text(*self),
    {
        let mut s = String::new();
        self.append_message(&mut s);
        s
    }

    /// Appends the text that describes the error to `out`.
    pub fn append_message(&self, out: &mut String)
        ensures
            final(out)@ == old(out)@ + error_text(*self),
    {
        let ghost start = out@;
        match self {
            BillingError::AccountNotFound(s) => {
                out.append("Account not found: ");
                out.append(s.as_str());
            },
            BillingError::InsufficientBalance { available, required } => {
                out.append("Insufficient balance: available ");
                append_amount(out, *available);
                out.append(", required ");
                append_amount(out, *required);
            },
            BillingError::DuplicateAccount(s) => {
                out.append("Duplicate account: ");
                out.append(s.as_str());
            },
            BillingError::Database(s) => {
                out.append("Database error: ");
                out.append(s.as_str());
            },
            BillingError::InvalidMsisdn(s) => {
                out.append("Invalid MSISDN format: ");
                out.append(s.as_str());
            },
            BillingError::AccountSuspended(s) => {
                out.append("Account suspended: ");
                out.append(s.as_str());
            },
        }
        assert(out@ =~= start + error_text(*self));
    }
}

} // verus!
