use vstd::prelude::*;

use crate::clock::{current_micros, fresh_id, is_uuid_text};
use crate::text::str_equals;

verus! {

/// Lifecycle state of a subscriber account.
#[derive(Debug, Clone, Copy, PartialEq, Eq, Structural)]
pub enum AccountStatus {
    Active,
    Suspended,
    Closed,
}

impl AccountStatus {
    /// The text under which the status is stored.
    pub open spec fn spec_as_str(self) -> Seq<char> {
        match self {
            AccountStatus::Active => "active"@,
            AccountStatus::Suspended => "suspended"@,
            AccountStatus::Closed => "closed"@,
        }
    }

    /// The status that a stored text stands for; unknown text reads as `Active`.
    pub open spec fn spec_from_str(s: Seq<char>) -> AccountStatus {
        if s == "suspended"@ {
            AccountStatus::Suspended
        } else if s == "closed"@ {
            AccountStatus::Closed
        } else {
            AccountStatus::Active
        }
    }

    pub fn as_str(&self) -> (s: &'static str)
        ensures
            s@ == self.spec_as_str(),
    {
        match self {
            AccountStatus::Active => "active",
            AccountStatus::Suspended => "suspended",
            AccountStatus::Closed => "closed",
        }
    }

    pub fn from_str(s: &str) -> (r: AccountStatus)
        ensures
            r == AccountStatus::spec_from_str(s@),
    {
        if str_equals(s, "suspended") {
            AccountStatus::Suspended
        } else if str_equals(s, "closed") {
            AccountStatus::Closed
        } else {
            AccountStatus::Active
        }
    }

    /// Reading back the stored text of a status gives the same status.
    pub proof fn lemma_roundtrip(self)
        ensures
            AccountStatus::spec_from_str(self.spec_as_str()) == self,
    {
        reveal_strlit("active");
        reveal_strlit("suspended");
        reveal_strlit("closed");
        assert("active"@.len() != "suspended"@.len());
        assert("active"@[0] != "closed"@[0]);
        assert("suspended"@.len() != "closed"@.len());
    }
}

/// A prepaid subscriber account. Amounts are integers in ten-thousandths of the
/// currency unit; timestamps are microseconds since the Unix epoch (UTC).
#[derive(Debug)]
pub struct Account {
    pub id: String,
    pub name: String,
    pub msisdn: String,
    pub imsi: String,
    pub balance: i64,
    pub currency: String,
    pub status: AccountStatus,
    pub created_at: i64,
    pub updated_at: i64,
}

impl Clone for Account {
    fn clone(&self) -> (r: Self)
        ensures
            r == *self,
    {
        Account {
            id: self.id.clone(),
            name: self.name.clone(),
            msisdn: self.msisdn.clone(),
            imsi: self.imsi.clone(),
            balance: self.balance,
            currency: self.currency.clone(),
            status: self.status,
            created_at: self.created_at,
            updated_at: self.updated_at,
        }
    }
}

impl Account {
    /// A fresh account with a new identifier, zero balance in USD, active, and
    /// both timestamps set to the current time.
    pub fn new(name: String, msisdn: String, imsi: String) -> (a: Account)
        ensures
            is_uuid_text(a.id@),
            a.name == name,
            a.msisdn == msisdn,
            a.imsi == imsi,
            a.balance == 0,
            a.currency@ == "USD"@,
            a.status == AccountStatus::Active,
            a.created_at == a.updated_at,
    {
        let id = fresh_id();
        let now = current_micros();
        Account::with_identity(id, now, name, msisdn, imsi)
    }

    /// The account that `new` builds, for a given identifier and creation time.
    pub fn with_identity(id: String, now: i64, name: String, msisdn: String, imsi: String) -> (a: Account)
        ensures
            a.id == id,
            a.name == name,
            a.msisdn == msisdn,
            a.imsi == imsi,
            a.balance == 0,
            a.currency@ == "USD"@,
            a.status == AccountStatus::Active,
            a.created_at == now,
            a.updated_at == now,
    {
        Account {
            id,
            name,
            msisdn,
            imsi,
            balance: 0,
            currency: "USD".to_owned(),
            status: AccountStatus::Active,
            created_at: now,
            updated_at: now,
        }
    }
}

} // verus!
