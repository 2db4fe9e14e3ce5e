use vstd::prelude::*;

use crate::cdr::{CallDetailRecord, CallType};

verus! {

/// Tariffs of the rating engine, in ten-thousandths of the currency unit:
/// voice calls per started minute, SMS and USSD per event, data per MiB.
pub struct RatingEngine {
    pub mo_call_per_minute: i64,
    pub mt_call_per_minute: i64,
    pub mo_sms_flat: i64,
    pub mt_sms_flat: i64,
    pub data_per_mb: i64,
    pub ussd_flat: i64,
}

impl Default for RatingEngine {
    /// The standard tariff: 0.05 per MO minute, MT calls free, 0.02 per MO SMS,
    /// MT SMS free, 0.01 per MiB of data, 0.005 per USSD session.
    fn default() -> (e: Self)
        ensures
            e.mo_call_per_minute == 500,
            e.mt_call_per_minute == 0,
            e.mo_sms_flat == 200,
            e.mt_sms_flat == 0,
            e.data_per_mb == 100,
            e.ussd_flat == 50,
    {
        RatingEngine {
            mo_call_per_minute: 500,
            mt_call_per_minute: 0,
            mo_sms_flat: 200,
            mt_sms_flat: 0,
            data_per_mb: 100,
            ussd_flat: 50,
        }
    }
}

/// Number of started minutes in `seconds` (seconds / 60, rounded up).
pub open spec fn started_minutes(seconds: int) -> int {
    (seconds + 59) / 60
}

/// `n / d` rounded to the nearest integer, halves away from zero (`d > 0`).
pub open spec fn round_div(n: int, d: int) -> int {
    if n >= 0 {
        (2 * n + d) / (2 * d)
    } else {
        -((2 * (-n) + d) / (2 * d))
    }
}

impl RatingEngine {
    /// The charge, in ten-thousandths, of an event of type `call_type` that
    /// lasted `duration` seconds (for data events, `duration` counts KiB).
    pub open spec fn spec_charge(&self, call_type: CallType, duration: u32) -> int {
        match call_type {
            CallType::MobileOriginating => started_minutes(duration as int) * self.mo_call_per_minute,
            CallType::MobileTerminating => started_minutes(duration as int) * self.mt_call_per_minute,
            CallType::SMSOriginating => self.mo_sms_flat as int,
            CallType::SMSTerminating => self.mt_sms_flat as int,
            CallType::Data => round_div(duration * self.data_per_mb, 1024),
            CallType::USSD => self.ussd_flat as int,
        }
    }

    /// Sets the record's charge by the tariff; nothing else changes.
    pub fn rate(&self, cdr: &mut CallDetailRecord)
        requires
            i64::MIN <= self.spec_charge(old(cdr).call_type, old(cdr).duration_seconds) <= i64::MAX,
        ensures
            *final(cdr) == (CallDetailRecord {
                charge: self.spec_charge(old(cdr).call_type, old(cdr).duration_seconds) as i64,
                ..*old(cdr)
            }),
    {
        let d = cdr.duration_seconds;
        let charge: i128 = match cdr.call_type {
            CallType::MobileOriginating => {
                let minutes: i128 = ((d as i128) + 59) / 60;
                let rate: i128 = self.mo_call_per_minute as i128;
                proof {
                    lemma_product_fits(minutes as int, rate as int);
                }
                minutes * rate
            },
            CallType::MobileTerminating => {
                let minutes: i128 = ((d as i128) + 59) / 60;
                let rate: i128 = self.mt_call_per_minute as i128;
                proof {
                    lemma_product_fits(minutes as int, rate as int);
                }
                minutes * rate
            },
            CallType::SMSOriginating => self.mo_sms_flat as i128,
            CallType::SMSTerminating => self.mt_sms_flat as i128,
            CallType::Data => {
                let rate: i128 = self.data_per_mb as i128;
                proof {
                    lemma_product_fits(d as int, rate as int);
                }
                let n: i128 = (d as i128) * rate;
                if n >= 0 {
                    (2 * n + 1024) / 2048
                } else {
                    -((2 * (-n) + 1024) / 2048)
                }
            },
            CallType::USSD => self.ussd_flat as i128,
        };
        cdr.charge = charge as i64;
    }
}

/// A count below 2^32 times a tariff that fits in `i64` stays far inside `i128`.
proof fn lemma_product_fits(a: int, b: int)
    requires
        0 <= a <= 0xffff_ffff,
        i64::MIN <= b <= i64::MAX,
    ensures
        -0x1_0000_0000_0000_0000_0000_0000 <= a * b <= 0x1_0000_0000_0000_0000_0000_0000,
{
    assert(-0x1_0000_0000_0000_0000_0000_0000 <= a * b <= 0x1_0000_0000_0000_0000_0000_0000)
        by (nonlinear_arith)
        requires
            0 <= a <= 0xffff_ffff,
            i64::MIN <= b <= i64::MAX,
    ;
}

} // verus!
