use ss7_billing::calea::{InterceptStatus, InterceptTarget, InterceptType};
use ss7_billing::pbx::{ForwardingRule, ForwardingStatus, ForwardingType};
use ss7_billing::{Account, AccountStatus, BillingDb, BillingError, CallDetailRecord, CallType, RatingEngine};

fn account(id: &str, name: &str, msisdn: &str, imsi: &str) -> Account {
    Account::with_identity(id.to_string(), 1_000, name.to_string(), msisdn.to_string(), imsi.to_string())
}

fn cdr(id: &str, account_id: &str, call_type: CallType, duration: u32, start: i64) -> CallDetailRecord {
    CallDetailRecord::with_identity(
        id.to_string(),
        start,
        account_id.to_string(),
        call_type,
        "+1001".to_string(),
        "+1002".to_string(),
        duration,
        "MSC".to_string(),
        "CELL".to_string(),
    )
}

fn is_uuid_text(s: &str) -> bool {
    let b: Vec<char> = s.chars().collect();
    b.len() == 36
        && b[8] == '-'
        && b[13] == '-'
        && b[18] == '-'
        && b[23] == '-'
        && b[14] == '4'
        && b.iter().enumerate().all(|(i, c)| {
            [8, 13, 18, 23].contains(&i) || c.is_ascii_digit() || ('a'..='f').contains(c)
        })
}

#[test]
fn new_records_get_fresh_uuid_ids() {
    let a = Account::new("A".into(), "+1".into(), "1".into());
    let b = Account::new("B".into(), "+2".into(), "2".into());
    assert!(is_uuid_text(&a.id));
    assert!(is_uuid_text(&b.id));
    assert_ne!(a.id, b.id);
    assert_eq!(a.currency, "USD");
    assert_eq!(a.balance, 0);
    assert_eq!(a.created_at, a.updated_at);
    let t = InterceptTarget::new("acct".into(), "W".into(), InterceptType::Data, "10.0.0.9".into(), 1);
    assert!(is_uuid_text(&t.id));
    let r = ForwardingRule::new("acct".into(), "+1".into(), "+2".into(), ForwardingType::NoAnswer, 30);
    assert!(is_uuid_text(&r.id));
    let c = CallDetailRecord::new("acct".into(), CallType::Data, "+1".into(), "+2".into(), 5, "M".into(), "C".into());
    assert!(is_uuid_text(&c.id));
    assert_eq!(c.charge, 0);
}

#[test]
fn status_texts_and_defaults() {
    assert_eq!(AccountStatus::Active.as_str(), "active");
    assert_eq!(AccountStatus::Suspended.as_str(), "suspended");
    assert_eq!(AccountStatus::Closed.as_str(), "closed");
    assert_eq!(AccountStatus::from_str("closed"), AccountStatus::Closed);
    assert_eq!(AccountStatus::from_str("CLOSED"), AccountStatus::Active);
    assert_eq!(AccountStatus::from_str(""), AccountStatus::Active);
    assert_eq!(CallType::from_str("USSD"), CallType::USSD);
    assert_eq!(CallType::from_str("bogus"), CallType::MobileOriginating);
    assert_eq!(CallType::SMSTerminating.as_str(), "MT_SMS");
    assert_eq!(InterceptStatus::from_str("inactive"), InterceptStatus::Inactive);
    assert_eq!(InterceptStatus::from_str("x"), InterceptStatus::Active);
    assert_eq!(InterceptType::from_str("nope"), InterceptType::Full);
    assert_eq!(InterceptType::SignalingOnly.label(), "Signaling Only");
    assert_eq!(ForwardingType::from_str("?"), ForwardingType::Unconditional);
    assert_eq!(ForwardingType::NotReachable.label(), "Not Reachable (CFNRc)");
    assert_eq!(ForwardingStatus::Inactive.as_str(), "inactive");
}

#[test]
fn every_status_roundtrips() {
    for s in [AccountStatus::Active, AccountStatus::Suspended, AccountStatus::Closed] {
        assert_eq!(AccountStatus::from_str(s.as_str()), s);
    }
    for t in [
        CallType::MobileOriginating,
        CallType::MobileTerminating,
        CallType::SMSOriginating,
        CallType::SMSTerminating,
        CallType::Data,
        CallType::USSD,
    ] {
        assert_eq!(CallType::from_str(t.as_str()), t);
    }
    for s in [InterceptStatus::Active, InterceptStatus::Inactive] {
        assert_eq!(InterceptStatus::from_str(s.as_str()), s);
    }
    for s in [ForwardingStatus::Active, ForwardingStatus::Inactive] {
        assert_eq!(ForwardingStatus::from_str(s.as_str()), s);
    }
}

#[test]
fn map_operation_text_is_exact() {
    let rule = ForwardingRule::with_identity(
        "r1".into(),
        5,
        "a".into(),
        "+1".into(),
        "+1099".into(),
        ForwardingType::Unconditional,
        20,
    );
    assert_eq!(
        rule.ss7_map_operation(),
        "RegisterSS(CFU) ForwardedToNumber=+1099 BasicService=allServices"
    );
}

#[test]
fn rating_formulas() {
    let engine = RatingEngine::default();
    let mut c = cdr("c1", "a", CallType::MobileOriginating, 60, 0);
    engine.rate(&mut c);
    assert_eq!(c.charge, 500);
    let mut c = cdr("c2", "a", CallType::MobileOriginating, 61, 0);
    engine.rate(&mut c);
    assert_eq!(c.charge, 1000);
    let mut c = cdr("c3", "a", CallType::MobileOriginating, 0, 0);
    engine.rate(&mut c);
    assert_eq!(c.charge, 0);
    // 1000 KiB at 0.01 per MiB: 0.009765625, rounded to 0.0098
    let mut c = cdr("c4", "a", CallType::Data, 1000, 0);
    engine.rate(&mut c);
    assert_eq!(c.charge, 98);
    let mut c = cdr("c5", "a", CallType::USSD, 7, 0);
    engine.rate(&mut c);
    assert_eq!(c.charge, 50);
    let mut c = cdr("c6", "a", CallType::SMSTerminating, 7, 0);
    engine.rate(&mut c);
    assert_eq!(c.charge, 0);
    assert_eq!(c.duration_seconds, 7);
    assert_eq!(c.id, "c6");
    // Halves round away from zero: 512 KiB at 0.0001 per MiB is 0.00005.
    let custom = RatingEngine {
        mo_call_per_minute: 0,
        mt_call_per_minute: 0,
        mo_sms_flat: 0,
        mt_sms_flat: 0,
        data_per_mb: 2,
        ussd_flat: 0,
    };
    let mut c = cdr("c7", "a", CallType::Data, 256, 0);
    custom.rate(&mut c);
    assert_eq!(c.charge, 1);
    let negative = RatingEngine { data_per_mb: -2, ..custom };
    let mut c = cdr("c8", "a", CallType::Data, 256, 0);
    negative.rate(&mut c);
    assert_eq!(c.charge, -1);
}

#[test]
fn duplicate_account_error_names_msisdn() {
    let mut db = BillingDb::open_in_memory().unwrap();
    db.create_account(&account("id1", "A", "+1", "1")).unwrap();
    match db.create_account(&account("id1", "B", "+2", "2")) {
        Err(BillingError::DuplicateAccount(m)) => assert_eq!(m, "+2"),
        other => panic!("unexpected {:?}", other),
    }
    assert_eq!(db.get_account_count().unwrap(), 1);
}

#[test]
fn debit_reports_balances() {
    let mut db = BillingDb::open_in_memory().unwrap();
    db.create_account(&account("id1", "A", "+1", "1")).unwrap();
    db.credit_at("id1", 100_000, 7).unwrap();
    match db.debit_at("id1", 500_000, 8) {
        Err(BillingError::InsufficientBalance { available, required }) => {
            assert_eq!(available, 100_000);
            assert_eq!(required, 500_000);
        }
        other => panic!("unexpected {:?}", other),
    }
    let e = db.debit_at("id1", 500_000, 8).unwrap_err();
    assert_eq!(e.message(), "Insufficient balance: available 10, required 50");
    let a = db.get_account("id1").unwrap();
    assert_eq!(a.balance, 100_000);
    assert_eq!(a.updated_at, 7);
}

#[test]
fn credit_then_debit_restores_balance() {
    let mut db = BillingDb::open_in_memory().unwrap();
    db.create_account(&account("id1", "A", "+1", "1")).unwrap();
    db.credit_at("id1", 12_345, 2).unwrap();
    let before = db.get_account("id1").unwrap().balance;
    db.credit_at("id1", 6_000, 3).unwrap();
    let after = db.debit_at("id1", 6_000, 4).unwrap();
    assert_eq!(after, before);
    assert!(after >= 0);
}

#[test]
fn status_rules_for_credit_and_debit() {
    let mut db = BillingDb::open_in_memory().unwrap();
    db.create_account(&account("id1", "A", "+1", "1")).unwrap();
    db.update_status_at("id1", AccountStatus::Suspended, 5).unwrap();
    // A suspended account can be credited but not debited.
    assert_eq!(db.credit_at("id1", 10, 6).unwrap(), 10);
    match db.debit_at("id1", 5, 7) {
        Err(BillingError::AccountSuspended(id)) => assert_eq!(id, "id1"),
        other => panic!("unexpected {:?}", other),
    }
    db.update_status_at("id1", AccountStatus::Closed, 8).unwrap();
    let e = db.credit_at("id1", 10, 9).unwrap_err();
    assert_eq!(e.message(), "Account suspended: id1");
    let e = db.credit_at("nobody", 10, 9).unwrap_err();
    assert_eq!(e.message(), "Account not found: nobody");
    assert!(db.update_status("nobody", AccountStatus::Closed).is_err());
    assert!(db.update_balance("nobody", 5).is_err());
}

#[test]
fn search_by_name_is_like_matching() {
    let mut db = BillingDb::open_in_memory().unwrap();
    db.create_account(&account("1", "alice cooper", "+1", "1")).unwrap();
    db.create_account(&account("2", "ALICE", "+2", "2")).unwrap();
    db.create_account(&account("3", "Bob", "+3", "3")).unwrap();
    db.create_account(&account("4", "Alicia", "+4", "4")).unwrap();
    let found = db.search_accounts_by_name("alice").unwrap();
    let names: Vec<&str> = found.iter().map(|a| a.name.as_str()).collect();
    assert_eq!(names, vec!["ALICE", "alice cooper"]);
    let found = db.search_accounts_by_name("Alic_").unwrap();
    assert_eq!(found.len(), 3);
    let found = db.search_accounts_by_name("A%a").unwrap();
    let names: Vec<&str> = found.iter().map(|a| a.name.as_str()).collect();
    assert_eq!(names, vec!["Alicia"]);
    assert_eq!(db.search_accounts_by_name("").unwrap().len(), 4);
    assert_eq!(db.search_accounts_by_name("zed").unwrap().len(), 0);
}

#[test]
fn balance_search_orders_largest_first() {
    let mut db = BillingDb::open_in_memory().unwrap();
    db.create_account(&account("1", "A", "+1", "1")).unwrap();
    db.create_account(&account("2", "B", "+2", "2")).unwrap();
    db.create_account(&account("3", "C", "+3", "3")).unwrap();
    db.update_balance_at("1", 100, 1).unwrap();
    db.update_balance_at("2", 300, 1).unwrap();
    db.update_balance_at("3", 200, 1).unwrap();
    let found = db.search_accounts_by_balance(100, 300).unwrap();
    let balances: Vec<i64> = found.iter().map(|a| a.balance).collect();
    assert_eq!(balances, vec![300, 200, 100]);
    assert_eq!(db.search_accounts_by_balance(101, 199).unwrap().len(), 0);
    assert_eq!(db.get_total_balance().unwrap(), 600);
}

#[test]
fn listings_are_newest_first() {
    let mut db = BillingDb::open_in_memory().unwrap();
    db.create_account(&account("a", "A", "+1", "1")).unwrap();
    db.create_account(&account("b", "B", "+2", "2")).unwrap();
    db.insert_cdr(&cdr("c1", "a", CallType::Data, 1, 10)).unwrap();
    db.insert_cdr(&cdr("c2", "a", CallType::Data, 1, 30)).unwrap();
    db.insert_cdr(&cdr("c3", "b", CallType::Data, 1, 20)).unwrap();
    db.insert_cdr(&cdr("c4", "a", CallType::Data, 1, 20)).unwrap();
    let ids: Vec<String> = db.get_cdrs_for_account("a").unwrap().into_iter().map(|c| c.id).collect();
    assert_eq!(ids, vec!["c2", "c4", "c1"]);
    let e = db.insert_cdr(&cdr("c1", "z", CallType::Data, 1, 1)).unwrap_err();
    assert_eq!(e.message(), "Database error: UNIQUE constraint failed: cdrs.id");

    let t1 = InterceptTarget::with_identity("t1".into(), 5, "a".into(), "W".into(), InterceptType::Full, "ip".into(), 1);
    let t2 = InterceptTarget::with_identity("t2".into(), 9, "a".into(), "W".into(), InterceptType::Sms, "ip".into(), 2);
    db.create_intercept(&t1).unwrap();
    db.create_intercept(&t2).unwrap();
    let ids: Vec<String> = db.list_intercepts().unwrap().into_iter().map(|t| t.id).collect();
    assert_eq!(ids, vec!["t2", "t1"]);
    assert!(db.create_intercept(&t1).is_err());

    let r1 = ForwardingRule::with_identity("r1".into(), 9, "a".into(), "+1".into(), "+2".into(), ForwardingType::Busy, 20);
    let r2 = ForwardingRule::with_identity("r2".into(), 5, "a".into(), "+1".into(), "+3".into(), ForwardingType::Busy, 20);
    db.create_forwarding_rule(&r1).unwrap();
    db.create_forwarding_rule(&r2).unwrap();
    let ids: Vec<String> = db.list_forwarding_rules().unwrap().into_iter().map(|r| r.id).collect();
    assert_eq!(ids, vec!["r1", "r2"]);
    let e = db.create_forwarding_rule(&r2).unwrap_err();
    assert_eq!(e.message(), "Database error: UNIQUE constraint failed: pbx_forwarding.id");
}

#[test]
fn missing_intercepts_and_rules_are_named() {
    let mut db = BillingDb::open_in_memory().unwrap();
    assert_eq!(db.get_intercept("x").unwrap_err().message(), "Account not found: intercept x");
    assert_eq!(db.delete_intercept("x").unwrap_err().message(), "Account not found: intercept x");
    assert!(db.update_intercept_status("x", InterceptStatus::Inactive).is_err());
    assert_eq!(
        db.get_forwarding_rule("y").unwrap_err().message(),
        "Account not found: forwarding rule y"
    );
    assert!(db.delete_forwarding_rule("y").is_err());
    assert!(db.update_forwarding_status("y", ForwardingStatus::Inactive).is_err());
    assert!(db.delete_account("z").is_err());
}

#[test]
fn delete_account_keeps_other_rows() {
    let mut db = BillingDb::open_in_memory().unwrap();
    db.create_account(&account("a", "A", "+1", "1")).unwrap();
    db.create_account(&account("b", "B", "+2", "2")).unwrap();
    db.insert_cdr(&cdr("c1", "a", CallType::Data, 1, 1)).unwrap();
    db.insert_cdr(&cdr("c2", "b", CallType::Data, 1, 1)).unwrap();
    let t = InterceptTarget::with_identity("t".into(), 1, "a".into(), "W".into(), InterceptType::Full, "ip".into(), 1);
    db.create_intercept(&t).unwrap();
    // An intercept still names the account: its records go, the account stays.
    let e = db.delete_account("a").unwrap_err();
    assert_eq!(e.message(), "Database error: FOREIGN KEY constraint failed");
    assert_eq!(db.get_account_count().unwrap(), 2);
    assert_eq!(db.get_cdrs_for_account("a").unwrap().len(), 0);
    assert_eq!(db.get_cdrs_for_account("b").unwrap().len(), 1);
    db.delete_intercept("t").unwrap();
    db.delete_account("a").unwrap();
    assert_eq!(db.get_account_count().unwrap(), 1);
    assert_eq!(db.get_cdrs_for_account("b").unwrap().len(), 1);
    // The MSISDN is free again.
    db.create_account(&account("c", "C", "+1", "1")).unwrap();
    assert_eq!(db.get_account_by_msisdn("+1").unwrap().id, "c");
    assert!(db.get_account_by_msisdn("+9").is_err());
}

#[test]
fn counting_active_rows() {
    let mut db = BillingDb::open_in_memory().unwrap();
    db.create_account(&account("a", "A", "+1", "1")).unwrap();
    let t = InterceptTarget::with_identity("t".into(), 1, "a".into(), "W".into(), InterceptType::Full, "ip".into(), 1);
    db.create_intercept(&t).unwrap();
    assert_eq!(db.get_intercept_count().unwrap(), 1);
    db.update_intercept_status_at("t", InterceptStatus::Inactive, 42).unwrap();
    assert_eq!(db.get_intercept_count().unwrap(), 0);
    assert_eq!(db.get_intercept("t").unwrap().updated_at, 42);
    db.delete_intercept("t").unwrap();
    assert_eq!(db.list_intercepts().unwrap().len(), 0);
    let r = ForwardingRule::with_identity("r".into(), 1, "a".into(), "+1".into(), "+2".into(), ForwardingType::Busy, 20);
    db.create_forwarding_rule(&r).unwrap();
    db.update_forwarding_status_at("r", ForwardingStatus::Inactive, 43).unwrap();
    assert_eq!(db.get_forwarding_count().unwrap(), 0);
    assert_eq!(db.get_forwarding_rule("r").unwrap().updated_at, 43);
}

#[test]
fn error_messages() {
    assert_eq!(BillingError::AccountNotFound("x".into()).message(), "Account not found: x");
    assert_eq!(BillingError::DuplicateAccount("+1".into()).message(), "Duplicate account: +1");
    assert_eq!(BillingError::InvalidMsisdn("zz".into()).message(), "Invalid MSISDN format: zz");
    assert_eq!(
        BillingError::InsufficientBalance { available: -25, required: 695_000 }.message(),
        "Insufficient balance: available -0.0025, required 69.5"
    );
}

#[test]
fn rows_must_name_a_stored_account() {
    let mut db = BillingDb::open_in_memory().unwrap();
    let e = db.insert_cdr(&cdr("c1", "ghost", CallType::Data, 1, 1)).unwrap_err();
    assert_eq!(e.message(), "Database error: FOREIGN KEY constraint failed");
    let t = InterceptTarget::with_identity("t".into(), 1, "ghost".into(), "W".into(), InterceptType::Full, "ip".into(), 1);
    assert_eq!(
        db.create_intercept(&t).unwrap_err().message(),
        "Database error: FOREIGN KEY constraint failed"
    );
    let r = ForwardingRule::with_identity("r".into(), 1, "ghost".into(), "+1".into(), "+2".into(), ForwardingType::Busy, 20);
    assert_eq!(
        db.create_forwarding_rule(&r).unwrap_err().message(),
        "Database error: FOREIGN KEY constraint failed"
    );
    db.create_account(&account("a", "A", "+1", "1")).unwrap();
    let r = ForwardingRule::with_identity("r".into(), 1, "a".into(), "+1".into(), "+2".into(), ForwardingType::Busy, 20);
    db.create_forwarding_rule(&r).unwrap();
    assert_eq!(
        db.delete_account("a").unwrap_err().message(),
        "Database error: FOREIGN KEY constraint failed"
    );
    assert_eq!(db.get_account_count().unwrap(), 1);
}
