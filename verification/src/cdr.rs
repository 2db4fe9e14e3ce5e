use vstd::prelude::*;

use crate::clock::{current_micros, fresh_id, is_uuid_text};
use crate::text::str_equals;

verus! {

/// Kind of charging event a call detail record describes.
#[derive(Debug, Clone, Copy, PartialEq, Eq, Structural)]
pub enum CallType {
    MobileOriginating,
    MobileTerminating,
    SMSOriginating,
    SMSTerminating,
    Data,
    USSD,
}

impl CallType {
    /// The text under which the value is stored.
    pub open spec fn spec_as_str(self) -> Seq<char> {
        match self {
            CallType::MobileOriginating => "MO_CALL"@,
            CallType::MobileTerminating => "MT_CALL"@,
            CallType::SMSOriginating => "MO_SMS"@,
            CallType::SMSTerminating => "MT_SMS"@,
            CallType::Data => "DATA"@,
            CallType::USSD => "USSD"@,
        }
    }

    /// The value that a stored text stands for; unknown text reads as `MobileOriginating`.
    pub open spec fn spec_from_str(s: Seq<char>) -> CallType {
        if s == "MT_CALL"@ {
            CallType::MobileTerminating
        } else if s == "MO_SMS"@ {
            CallType::SMSOriginating
        } else if s == "MT_SMS"@ {
            CallType::SMSTerminating
        } else if s == "DATA"@ {
            CallType::Data
        } else if s == "USSD"@ {
            CallType::USSD
        } else {
            CallType::MobileOriginating
        }
    }

    pub fn as_str(&self) -> (s: &'static str)
        ensures
            s@ == self.spec_as_str(),
    {
        match self {
            CallType::MobileOriginating => "MO_CALL",
            CallType::MobileTerminating => "MT_CALL",
            CallType::SMSOriginating => "MO_SMS",
            CallType::SMSTerminating => "MT_SMS",
            CallType::Data => "DATA",
            CallType::USSD => "USSD",
        }
    }

    pub fn from_str(s: &str) -> (r: CallType)
        ensures
            r == CallType::spec_from_str(s@),
    {
        if str_equals(s, "MT_CALL") {
            CallType::MobileTerminating
        } else if str_equals(s, "MO_SMS") {
            CallType::SMSOriginating
        } else if str_equals(s, "MT_SMS") {
            CallType::SMSTerminating
        } else if str_equals(s, "DATA") {
            CallType::Data
        } else if str_equals(s, "USSD") {
            CallType::USSD
        } else {
            CallType::MobileOriginating
        }
    }

    /// Reading back the stored text of a value gives the same value.
    pub proof fn lemma_roundtrip(self)
        ensures
            CallType::spec_from_str(self.spec_as_str()) == self,
    {
        reveal_strlit("MO_CALL");
        reveal_strlit("MT_CALL");
        reveal_strlit("MO_SMS");
        reveal_strlit("MT_SMS");
        reveal_strlit("DATA");
        reveal_strlit("USSD");
        assert("MO_CALL"@[1] != "MT_CALL"@[1]);
        assert("MO_CALL"@.len() != "MO_SMS"@.len());
        assert("MO_CALL"@.len() != "MT_SMS"@.len());
        assert("MO_CALL"@.len() != "DATA"@.len());
        assert("MO_CALL"@.len() != "USSD"@.len());
        assert("MT_CALL"@.len() != "MO_SMS"@.len());
        assert("MT_CALL"@.len() != "MT_SMS"@.len());
        assert("MT_CALL"@.len() != "DATA"@.len());
        assert("MT_CALL"@.len() != "USSD"@.len());
        assert("MO_SMS"@[1] != "MT_SMS"@[1]);
        assert("MO_SMS"@.len() != "DATA"@.len());
        assert("MO_SMS"@.len() != "USSD"@.len());
        assert("MT_SMS"@.len() != "DATA"@.len());
        assert("MT_SMS"@.len() != "USSD"@.len());
        assert("DATA"@[0] != "USSD"@[0]);
    }
}

/// A call detail record. `start_time` is in microseconds since the Unix epoch
/// (UTC); `charge` is in ten-thousandths of the currency unit.
#[derive(Debug)]
pub struct CallDetailRecord {
    pub id: String,
    pub account_id: String,
    pub call_type: CallType,
    pub calling_party: String,
    pub called_party: String,
    pub start_time: i64,
    pub duration_seconds: u32,
    pub charge: i64,
    pub msc_address: String,
    pub cell_id: String,
}

impl Clone for CallDetailRecord {
    fn clone(&self) -> (r: Self)
        ensures
            r == *self,
    {
        CallDetailRecord {
            id: self.id.clone(),
            account_id: self.account_id.clone(),
            call_type: self.call_type,
            calling_party: self.calling_party.clone(),
            called_party: self.called_party.clone(),
            start_time: self.start_time,
            duration_seconds: self.duration_seconds,
            charge: self.charge,
            msc_address: self.msc_address.clone(),
            cell_id: self.cell_id.clone(),
        }
    }
}

impl CallDetailRecord {
    /// A fresh, not yet rated record with a new identifier, starting now.
    pub fn new(
        account_id: String,
        call_type: CallType,
        calling_party: String,
        called_party: String,
        duration_seconds: u32,
        msc_address: String,
        cell_id: String,
    ) -> (r: CallDetailRecord)
        ensures
            is_uuid_text(r.id@),
            r.account_id == account_id,
            r.call_type == call_type,
            r.calling_party == calling_party,
            r.called_party == called_party,
            r.duration_seconds == duration_seconds,
            r.charge == 0,
            r.msc_address == msc_address,
            r.cell_id == cell_id,
    {
        let id = fresh_id();
        let now = current_micros();
        CallDetailRecord::with_identity(
            id,
            now,
            account_id,
            call_type,
            calling_party,
            called_party,
            duration_seconds,
            msc_address,
            cell_id,
        )
    }

    /// The record that `new` builds, for a given identifier and start time.
    pub fn with_identity(
        id: String,
        start_time: i64,
        account_id: String,
        call_type: CallType,
        calling_party: String,
        called_party: String,
        duration_seconds: u32,
        msc_address: String,
        cell_id: String,
    ) -> (r: CallDetailRecord)
        ensures
            r == (CallDetailRecord {
                id,
                account_id,
                call_type,
                calling_party,
                called_party,
                start_time,
                duration_seconds,
                charge: 0,
                msc_address,
                cell_id,
            }),
    {
        CallDetailRecord {
            id,
            account_id,
            call_type,
            calling_party,
            called_party,
            start_time,
            duration_seconds,
            charge: 0,
            msc_address,
            cell_id,
        }
    }
}

} // verus!
