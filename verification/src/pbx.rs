use vstd::prelude::*;

use crate::clock::{current_micros, fresh_id, is_uuid_text};
use crate::text::str_equals;
use vstd::string::StringExecFns;

verus! {

/// Condition under which calls are forwarded.
#[derive(Debug, Clone, Copy, PartialEq, Eq, Structural)]
pub enum ForwardingType {
    /// Always forward (CFU - Call Forward Unconditional)
    Unconditional,
    /// Forward when busy (CFB)
    Busy,
    /// Forward on no answer (CFNA)
    NoAnswer,
    /// Forward when not reachable (CFNRc)
    NotReachable,
}

impl ForwardingType {
    /// The text under which the value is stored.
    pub open spec fn spec_as_str(self) -> Seq<char> {
        match self {
            ForwardingType::Unconditional => "unconditional"@,
            ForwardingType::Busy => "busy"@,
            ForwardingType::NoAnswer => "no_answer"@,
            ForwardingType::NotReachable => "not_reachable"@,
        }
    }

    /// The value that a stored text stands for; unknown text reads as `Unconditional`.
    pub open spec fn spec_from_str(s: Seq<char>) -> ForwardingType {
        if s == "busy"@ {
            ForwardingType::Busy
        } else if s == "no_answer"@ {
            ForwardingType::NoAnswer
        } else if s == "not_reachable"@ {
            ForwardingType::NotReachable
        } else {
            ForwardingType::Unconditional
        }
    }

    pub fn as_str(&self) -> (s: &'static str)
        ensures
            s@ == self.spec_as_str(),
    {
        match self {
            ForwardingType::Unconditional => "unconditional",
            ForwardingType::Busy => "busy",
            ForwardingType::NoAnswer => "no_answer",
            ForwardingType::NotReachable => "not_reachable",
        }
    }

    pub fn from_str(s: &str) -> (r: ForwardingType)
        ensures
            r == ForwardingType::spec_from_str(s@),
    {
        if str_equals(s, "busy") {
            ForwardingType::Busy
        } else if str_equals(s, "no_answer") {
            ForwardingType::NoAnswer
        } else if str_equals(s, "not_reachable") {
            ForwardingType::NotReachable
        } else {
            ForwardingType::Unconditional
        }
    }

    /// Human-readable name of the forwarding condition.
    pub open spec fn spec_label(self) -> Seq<char> {
        match self {
            ForwardingType::Unconditional => "Unconditional (CFU)"@,
            ForwardingType::Busy => "On Busy (CFB)"@,
            ForwardingType::NoAnswer => "No Answer (CFNA)"@,
            ForwardingType::NotReachable => "Not Reachable (CFNRc)"@,
        }
    }

    /// Human-readable name of the forwarding condition.
    pub fn label(&self) -> (s: &'static str)
        ensures
            s@ == self.spec_label(),
    {
        match self {
            ForwardingType::Unconditional => "Unconditional (CFU)",
            ForwardingType::Busy => "On Busy (CFB)",
            ForwardingType::NoAnswer => "No Answer (CFNA)",
            ForwardingType::NotReachable => "Not Reachable (CFNRc)",
        }
    }

    /// The MAP supplementary-service operation that registers the condition.
    pub open spec fn spec_ss7_opcode(self) -> Seq<char> {
        match self {
            ForwardingType::Unconditional => "RegisterSS(CFU)"@,
            ForwardingType::Busy => "RegisterSS(CFB)"@,
            ForwardingType::NoAnswer => "RegisterSS(CFNA)"@,
            ForwardingType::NotReachable => "RegisterSS(CFNRc)"@,
        }
    }

    /// The MAP supplementary-service operation that registers the condition.
    pub fn ss7_opcode(&self) -> (s: &'static str)
        ensures
            s@ == self.spec_ss7_opcode(),
    {
        match self {
            ForwardingType::Unconditional => "RegisterSS(CFU)",
            ForwardingType::Busy => "RegisterSS(CFB)",
            ForwardingType::NoAnswer => "RegisterSS(CFNA)",
            ForwardingType::NotReachable => "RegisterSS(CFNRc)",
        }
    }

    /// Reading back the stored text of a value gives the same value.
    pub proof fn lemma_roundtrip(self)
        ensures
            ForwardingType::spec_from_str(self.spec_as_str()) == self,
    {
        reveal_strlit("unconditional");
        reveal_strlit("busy");
        reveal_strlit("no_answer");
        reveal_strlit("not_reachable");
        assert("unconditional"@.len() != "busy"@.len());
        assert("unconditional"@.len() != "no_answer"@.len());
        assert("unconditional"@[0] != "not_reachable"@[0]);
        assert("busy"@.len() != "no_answer"@.len());
        assert("busy"@.len() != "not_reachable"@.len());
        assert("no_answer"@.len() != "not_reachable"@.len());
    }
}

/// Whether a forwarding rule is in force.
#[derive(Debug, Clone, Copy, PartialEq, Eq, Structural)]
pub enum ForwardingStatus {
    Active,
    Inactive,
}

impl ForwardingStatus {
    /// The text under which the value is stored.
    pub open spec fn spec_as_str(self) -> Seq<char> {
        match self {
            ForwardingStatus::Active => "active"@,
            ForwardingStatus::Inactive => "inactive"@,
        }
    }

    /// The value that a stored text stands for; unknown text reads as `Active`.
    pub open spec fn spec_from_str(s: Seq<char>) -> ForwardingStatus {
        if s == "inactive"@ {
            ForwardingStatus::Inactive
        } else {
            ForwardingStatus::Active
        }
    }

    pub fn as_str(&self) -> (s: &'static str)
        ensures
            s@ == self.spec_as_str(),
    {
        match self {
            ForwardingStatus::Active => "active",
            ForwardingStatus::Inactive => "inactive",
        }
    }

    pub fn from_str(s: &str) -> (r: ForwardingStatus)
        ensures
            r == ForwardingStatus::spec_from_str(s@),
    {
        if str_equals(s, "inactive") {
            ForwardingStatus::Inactive
        } else {
            ForwardingStatus::Active
        }
    }

    /// Reading back the stored text of a value gives the same value.
    pub proof fn lemma_roundtrip(self)
        ensures
            ForwardingStatus::spec_from_str(self.spec_as_str()) == self,
    {
        reveal_strlit("active");
        reveal_strlit("inactive");
        assert("active"@.len() != "inactive"@.len());
    }
}

/// A call forwarding rule for the subscriber `source_account_id`.
/// Timestamps are microseconds since the Unix epoch (UTC).
#[derive(Debug)]
pub struct ForwardingRule {
    pub id: String,
    /// Source account (subscriber whose calls are forwarded)
    pub source_account_id: String,
    /// Source MSISDN
    pub source_msisdn: String,
    /// Destination MSISDN or SIP URI for VoIP endpoint
    pub dest_address: String,
    pub forwarding_type: ForwardingType,
    /// No-answer timeout in seconds (only relevant for CFNA)
    pub no_answer_timeout: u32,
    pub status: ForwardingStatus,
    pub created_at: i64,
    pub updated_at: i64,
}

impl Clone for ForwardingRule {
    fn clone(&self) -> (r: Self)
        ensures
            r == *self,
    {
        ForwardingRule {
            id: self.id.clone(),
            source_account_id: self.source_account_id.clone(),
            source_msisdn: self.source_msisdn.clone(),
            dest_address: self.dest_address.clone(),
            forwarding_type: self.forwarding_type,
            no_answer_timeout: self.no_answer_timeout,
            status: self.status,
            created_at: self.created_at,
            updated_at: self.updated_at,
        }
    }
}

/// The MAP operation text for forwarding of type `t` to `dest`.
pub open spec fn map_operation_text(t: ForwardingType, dest: Seq<char>) -> Seq<char> {
    t.spec_ss7_opcode() + " ForwardedToNumber="@ + dest + " BasicService=allServices"@
}

impl ForwardingRule {
    /// A fresh, active rule with a new identifier, created now.
    pub fn new(
        source_account_id: String,
        source_msisdn: String,
        dest_address: String,
        forwarding_type: ForwardingType,
        no_answer_timeout: u32,
    ) -> (r: ForwardingRule)
        ensures
            is_uuid_text(r.id@),
            r.source_account_id == source_account_id,
            r.source_msisdn == source_msisdn,
            r.dest_address == dest_address,
            r.forwarding_type == forwarding_type,
            r.no_answer_timeout == no_answer_timeout,
            r.status == ForwardingStatus::Active,
            r.created_at == r.updated_at,
    {
        let id = fresh_id();
        let now = current_micros();
        ForwardingRule::with_identity(
            id,
            now,
            source_account_id,
            source_msisdn,
            dest_address,
            forwarding_type,
            no_answer_timeout,
        )
    }

    /// The rule that `new` builds, for a given identifier and creation time.
    pub fn with_identity(
        id: String,
        now: i64,
        source_account_id: String,
        source_msisdn: String,
        dest_address: String,
        forwarding_type: ForwardingType,
        no_answer_timeout: u32,
    ) -> (r: ForwardingRule)
        ensures
            r == (ForwardingRule {
                id,
                source_account_id,
                source_msisdn,
                dest_address,
                forwarding_type,
                no_answer_timeout,
                status: ForwardingStatus::Active,
                created_at: now,
                updated_at: now,
            }),
    {
        ForwardingRule {
            id,
            source_account_id,
            source_msisdn,
            dest_address,
            forwarding_type,
            no_answer_timeout,
            status: ForwardingStatus::Active,
            created_at: now,
            updated_at: now,
        }
    }

    /// The SS7 MAP operation that would be sent to the HLR for this rule.
    pub fn ss7_map_operation(&self) -> (s: String)
        ensures
            s@ == map_operation_text(self.forwarding_type, self.dest_address@),
    {
        let mut s = self.forwarding_type.ss7_opcode().to_owned();
        s.append(" ForwardedToNumber=");
        s.append(self.dest_address.as_str());
        s.append(" BasicService=allServices");
        s
    }
}

/// The preview of the MAP operation that the create form would send for
/// forwarding of type `t` to `dest`; an empty destination shows as
/// `<destination>`.
pub open spec fn preview_text(t: ForwardingType, dest: Seq<char>) -> Seq<char> {
    "  SS7 MAP: "@ + map_operation_text(
        t,
        if dest.len() == 0 {
            "<destination>"@
        } else {
            dest
        },
    )
}

/// The live preview of the MAP operation on the forwarding-rule form.
pub fn map_preview_text(t: ForwardingType, dest: &str) -> (s: String)
    ensures
        s@ == preview_text(t, dest@),
{
    let mut s = "  SS7 MAP: ".to_owned();
    s.append(t.ss7_opcode());
    s.append(" ForwardedToNumber=");
    if dest.unicode_len() == 0 {
        s.append("<destination>");
    } else {
        s.append(dest);
    }
    s.append(" BasicService=allServices");
    s
}

} // verus!
