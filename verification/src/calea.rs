use vstd::prelude::*;

use crate::clock::{current_micros, fresh_id, is_uuid_text};
use crate::format::{append_digits, digits_of};
use crate::text::str_equals;
use vstd::string::StringExecFns;

verus! {

/// Whether an intercept target is in force.
#[derive(Debug, Clone, Copy, PartialEq, Eq, Structural)]
pub enum InterceptStatus {
    Active,
    Inactive,
}

impl InterceptStatus {
    /// The text under which the value is stored.
    pub open spec fn spec_as_str(self) -> Seq<char> {
        match self {
            InterceptStatus::Active => "active"@,
            InterceptStatus::Inactive => "inactive"@,
        }
    }

    /// The value that a stored text stands for; unknown text reads as `Active`.
    pub open spec fn spec_from_str(s: Seq<char>) -> InterceptStatus {
        if s == "inactive"@ {
            InterceptStatus::Inactive
        } else {
            InterceptStatus::Active
        }
    }

    pub fn as_str(&self) -> (s: &'static str)
        ensures
            s@ == self.spec_as_str(),
    {
        match self {
            InterceptStatus::Active => "active",
            InterceptStatus::Inactive => "inactive",
        }
    }

    pub fn from_str(s: &str) -> (r: InterceptStatus)
        ensures
            r == InterceptStatus::spec_from_str(s@),
    {
        if str_equals(s, "inactive") {
            InterceptStatus::Inactive
        } else {
            InterceptStatus::Active
        }
    }

    /// Reading back the stored text of a value gives the same value.
    pub proof fn lemma_roundtrip(self)
        ensures
            InterceptStatus::spec_from_str(self.spec_as_str()) == self,
    {
        reveal_strlit("active");
        reveal_strlit("inactive");
        assert("active"@.len() != "inactive"@.len());
    }
}

/// What an intercept target mirrors to the mediation device.
#[derive(Debug, Clone, Copy, PartialEq, Eq, Structural)]
pub enum InterceptType {
    /// Full content intercept (voice + signaling)
    Full,
    /// Signaling/metadata only (call records, location updates)
    SignalingOnly,
    /// SMS content intercept
    Sms,
    /// Data session intercept
    Data,
}

impl InterceptType {
    /// The text under which the value is stored.
    pub open spec fn spec_as_str(self) -> Seq<char> {
        match self {
            InterceptType::Full => "full"@,
            InterceptType::SignalingOnly => "signaling"@,
            InterceptType::Sms => "sms"@,
            InterceptType::Data => "data"@,
        }
    }

    /// The value that a stored text stands for; unknown text reads as `Full`.
    pub open spec fn spec_from_str(s: Seq<char>) -> InterceptType {
        if s == "signaling"@ {
            InterceptType::SignalingOnly
        } else if s == "sms"@ {
            InterceptType::Sms
        } else if s == "data"@ {
            InterceptType::Data
        } else {
            InterceptType::Full
        }
    }

    pub fn as_str(&self) -> (s: &'static str)
        ensures
            s@ == self.spec_as_str(),
    {
        match self {
            InterceptType::Full => "full",
            InterceptType::SignalingOnly => "signaling",
            InterceptType::Sms => "sms",
            InterceptType::Data => "data",
        }
    }

    pub fn from_str(s: &str) -> (r: InterceptType)
        ensures
            r == InterceptType::spec_from_str(s@),
    {
        if str_equals(s, "signaling") {
            InterceptType::SignalingOnly
        } else if str_equals(s, "sms") {
            InterceptType::Sms
        } else if str_equals(s, "data") {
            InterceptType::Data
        } else {
            InterceptType::Full
        }
    }

    /// Human-readable name of the intercept type.
    pub open spec fn spec_label(self) -> Seq<char> {
        match self {
            InterceptType::Full => "Full (Voice+Signaling)"@,
            InterceptType::SignalingOnly => "Signaling Only"@,
            InterceptType::Sms => "SMS Content"@,
            InterceptType::Data => "Data Sessions"@,
        }
    }

    /// Human-readable name of the intercept type.
    pub fn label(&self) -> (s: &'static str)
        ensures
            s@ == self.spec_label(),
    {
        match self {
            InterceptType::Full => "Full (Voice+Signaling)",
            InterceptType::SignalingOnly => "Signaling Only",
            InterceptType::Sms => "SMS Content",
            InterceptType::Data => "Data Sessions",
        }
    }

    /// Reading back the stored text of a value gives the same value.
    pub proof fn lemma_roundtrip(self)
        ensures
            InterceptType::spec_from_str(self.spec_as_str()) == self,
    {
        reveal_strlit("full");
        reveal_strlit("signaling");
        reveal_strlit("sms");
        reveal_strlit("data");
        assert("full"@.len() != "signaling"@.len());
        assert("full"@.len() != "sms"@.len());
        assert("full"@[0] != "data"@[0]);
        assert("signaling"@.len() != "sms"@.len());
        assert("signaling"@.len() != "data"@.len());
        assert("sms"@.len() != "data"@.len());
    }
}

/// A lawful intercept target: traffic of `account_id` is mirrored to the
/// mediation device at `dest_ip:dest_port`. Timestamps are microseconds since
/// the Unix epoch (UTC).
#[derive(Debug)]
pub struct InterceptTarget {
    pub id: String,
    pub account_id: String,
    /// Warrant or authorization reference number
    pub warrant_id: String,
    pub intercept_type: InterceptType,
    /// Destination IP for the mediation/collection device
    pub dest_ip: String,
    /// Destination port on the mediation device
    pub dest_port: u16,
    pub status: InterceptStatus,
    pub created_at: i64,
    pub updated_at: i64,
}

impl Clone for InterceptTarget {
    fn clone(&self) -> (r: Self)
        ensures
            r == *self,
    {
        InterceptTarget {
            id: self.id.clone(),
            account_id: self.account_id.clone(),
            warrant_id: self.warrant_id.clone(),
            intercept_type: self.intercept_type,
            dest_ip: self.dest_ip.clone(),
            dest_port: self.dest_port,
            status: self.status,
            created_at: self.created_at,
            updated_at: self.updated_at,
        }
    }
}

impl InterceptTarget {
    /// A fresh, active target with a new identifier, created now.
    pub fn new(
        account_id: String,
        warrant_id: String,
        intercept_type: InterceptType,
        dest_ip: String,
        dest_port: u16,
    ) -> (t: InterceptTarget)
        ensures
            is_uuid_text(t.id@),
            t.account_id == account_id,
            t.warrant_id == warrant_id,
            t.intercept_type == intercept_type,
            t.dest_ip == dest_ip,
            t.dest_port == dest_port,
            t.status == InterceptStatus::Active,
            t.created_at == t.updated_at,
    {
        let id = fresh_id();
        let now = current_micros();
        InterceptTarget::with_identity(id, now, account_id, warrant_id, intercept_type, dest_ip, dest_port)
    }

    /// The target that `new` builds, for a given identifier and creation time.
    pub fn with_identity(
        id: String,
        now: i64,
        account_id: String,
        warrant_id: String,
        intercept_type: InterceptType,
        dest_ip: String,
        dest_port: u16,
    ) -> (t: InterceptTarget)
        ensures
            t == (InterceptTarget {
                id,
                account_id,
                warrant_id,
                intercept_type,
                dest_ip,
                dest_port,
                status: InterceptStatus::Active,
                created_at: now,
                updated_at: now,
            }),
    {
        InterceptTarget {
            id,
            account_id,
            warrant_id,
            intercept_type,
            dest_ip,
            dest_port,
            status: InterceptStatus::Active,
            created_at: now,
            updated_at: now,
        }
    }
}

/// The SS7 action that carries out intercept `t`: a MAP trace of the
/// subscriber towards the mediation device.
pub open spec fn trace_text(t: InterceptTarget) -> Seq<char> {
    "MAP-TRACE subscriber="@ + t.account_id@ + " -> "@ + t.dest_ip@ + ":"@ + digits_of(
        t.dest_port as nat,
    )
}

/// The SS7 action line shown for intercept `t`.
pub fn map_trace_text(t: &InterceptTarget) -> (s: String)
    ensures
        s@ == trace_text(*t),
{
    let mut s = "MAP-TRACE subscriber=".to_owned();
    s.append(t.account_id.as_str());
    s.append(" -> ");
    s.append(t.dest_ip.as_str());
    s.append(":");
    append_digits(&mut s, t.dest_port as u64);
    s
}

} // verus!
