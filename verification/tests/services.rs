use ss7_billing::access::credentials_accepted;
use ss7_billing::calea::{map_trace_text, InterceptStatus, InterceptTarget, InterceptType};
use ss7_billing::console::{App, InputField, KeyAction, Screen};
use ss7_billing::pbx::{map_preview_text, ForwardingStatus, ForwardingType};
use ss7_billing::text::parse_u32_text;
use ss7_billing::{Account, BillingDb};

fn db_with_alice() -> BillingDb {
    let mut db = BillingDb::open_in_memory().unwrap();
    let a = Account::with_identity(
        "acct-1".to_string(),
        1,
        "Alice".to_string(),
        "+14155550100".to_string(),
        "310260000000001".to_string(),
    );
    db.create_account(&a).unwrap();
    db
}

fn press(app: &mut App, db: &mut BillingDb, bytes: &str) {
    for b in bytes.bytes() {
        let action = app.key_action(b);
        app.perform(db, action, None, None, None);
    }
}

fn open_alice(app: &mut App, db: &mut BillingDb) {
    press(app, db, "1");
    assert_eq!(app.screen, Screen::AccountList);
    press(app, db, "\r");
    assert_eq!(app.screen, Screen::AccountDetail);
}

#[test]
fn dashboard_keys_open_their_screens() {
    let mut db = db_with_alice();
    let mut app = App::new(&db);
    assert_eq!(app.key_action(b'5'), KeyAction::ToIntercepts);
    assert_eq!(app.key_action(b'6'), KeyAction::ToForwardingRules);
    press(&mut app, &mut db, "5");
    assert_eq!(app.screen, Screen::CaleaList);
    press(&mut app, &mut db, "\x1b");
    assert_eq!(app.screen, Screen::Dashboard);
    press(&mut app, &mut db, "6");
    assert_eq!(app.screen, Screen::PbxList);
    press(&mut app, &mut db, "\x1b2");
    assert_eq!(app.screen, Screen::CreateAccount);
    assert_eq!(app.active_field, InputField::Name);
    press(&mut app, &mut db, "\x1b3");
    assert_eq!(app.screen, Screen::SearchByName);
    press(&mut app, &mut db, "\x1b4");
    assert_eq!(app.screen, Screen::SearchByBalance);
}

#[test]
fn intercept_lifecycle_from_console() {
    let mut db = db_with_alice();
    let mut app = App::new(&db);
    open_alice(&mut app, &mut db);
    press(&mut app, &mut db, "i");
    assert_eq!(app.screen, Screen::CaleaCreate);
    app.create_intercept_at(&mut db, "t-1".to_string(), 7);
    assert_eq!(app.status_message, "All fields are required");
    press(&mut app, &mut db, "W-42\t10.0.0.9\t99999");
    app.create_intercept_at(&mut db, "t-1".to_string(), 7);
    assert_eq!(app.status_message, "Invalid port");
    press(&mut app, &mut db, "\x7f\x7f\x7f\x7f\x7f5060\t");
    assert_eq!(app.active_field, InputField::CaleaType);
    press(&mut app, &mut db, "xx");
    assert_eq!(app.calea_type_index, 2);
    app.create_intercept_at(&mut db, "t-1".to_string(), 7);
    assert_eq!(app.status_message, "Intercept created: MAP-TRACE subscriber=acct-1 -> 10.0.0.9:5060");
    assert_eq!(app.screen, Screen::CaleaList);
    assert_eq!(app.intercept_count, 1);
    let t = db.get_intercept("t-1").unwrap();
    assert_eq!(t.intercept_type, InterceptType::Sms);
    assert_eq!(t.warrant_id, "W-42");
    assert_eq!(t.dest_port, 5060);
    assert_eq!(t.created_at, 7);

    press(&mut app, &mut db, "\r");
    assert_eq!(app.screen, Screen::CaleaDetail);
    app.toggle_intercept_at(&mut db, 8);
    assert_eq!(app.status_message, "Intercept deactivated");
    assert_eq!(app.intercept_count, 0);
    assert_eq!(app.selected_intercept.as_ref().unwrap().status, InterceptStatus::Inactive);
    assert_eq!(db.get_intercept("t-1").unwrap().updated_at, 8);
    app.toggle_intercept_at(&mut db, 9);
    assert_eq!(app.status_message, "Intercept activated");
    assert_eq!(app.intercept_count, 1);
    press(&mut app, &mut db, "d");
    assert_eq!(app.status_message, "Intercept deleted");
    assert_eq!(app.screen, Screen::CaleaList);
    assert_eq!(app.intercepts.len(), 0);
    assert_eq!(db.get_intercept_count().unwrap(), 0);
}

#[test]
fn forwarding_lifecycle_from_console() {
    let mut db = db_with_alice();
    let mut app = App::new(&db);
    open_alice(&mut app, &mut db);
    press(&mut app, &mut db, "f");
    assert_eq!(app.screen, Screen::PbxCreate);
    assert_eq!(app.input_pbx_timeout, "20");
    app.create_forwarding_rule_at(&mut db, "r-1".to_string(), 3);
    assert_eq!(app.status_message, "All fields are required");
    press(&mut app, &mut db, "sip:desk@pbx.example\tz\t\x7f\x7fabc");
    app.create_forwarding_rule_at(&mut db, "r-1".to_string(), 3);
    assert_eq!(app.status_message, "Invalid timeout");
    press(&mut app, &mut db, "\x7f\x7f\x7f30");
    app.create_forwarding_rule_at(&mut db, "r-1".to_string(), 3);
    assert_eq!(
        app.status_message,
        "Forwarding rule created: RegisterSS(CFB) ForwardedToNumber=sip:desk@pbx.example BasicService=allServices"
    );
    assert_eq!(app.screen, Screen::PbxList);
    assert_eq!(app.forwarding_count, 1);
    let r = db.get_forwarding_rule("r-1").unwrap();
    assert_eq!(r.forwarding_type, ForwardingType::Busy);
    assert_eq!(r.no_answer_timeout, 30);
    assert_eq!(r.source_msisdn, "+14155550100");
    assert_eq!(r.source_account_id, "acct-1");

    press(&mut app, &mut db, " ");
    assert_eq!(app.screen, Screen::PbxDetail);
    app.toggle_rule_at(&mut db, 4);
    assert_eq!(app.status_message, "Forwarding rule deactivated");
    assert_eq!(app.forwarding_count, 0);
    assert_eq!(
        app.selected_forwarding.as_ref().unwrap().status,
        ForwardingStatus::Inactive
    );
    press(&mut app, &mut db, "\x1b");
    assert_eq!(app.screen, Screen::PbxList);
    press(&mut app, &mut db, "\rd");
    assert_eq!(app.status_message, "Forwarding rule deleted");
    assert_eq!(db.list_forwarding_rules().unwrap().len(), 0);
}

#[test]
fn forms_refuse_without_account() {
    let mut db = db_with_alice();
    let mut app = App::new(&db);
    app.go_to_create_intercept();
    app.create_intercept_at(&mut db, "t-1".to_string(), 1);
    assert_eq!(app.status_message, "No account selected");
    app.go_to_create_rule();
    app.create_forwarding_rule_at(&mut db, "r-1".to_string(), 1);
    assert_eq!(app.status_message, "No account selected");
}

#[test]
fn trace_and_preview_texts() {
    let t = InterceptTarget::with_identity(
        "t-1".to_string(),
        0,
        "acct-9".to_string(),
        "W-1".to_string(),
        InterceptType::Full,
        "192.0.2.1".to_string(),
        443,
    );
    assert_eq!(map_trace_text(&t), "MAP-TRACE subscriber=acct-9 -> 192.0.2.1:443");
    assert_eq!(
        map_preview_text(ForwardingType::NoAnswer, ""),
        "  SS7 MAP: RegisterSS(CFNA) ForwardedToNumber=<destination> BasicService=allServices"
    );
    assert_eq!(
        map_preview_text(ForwardingType::Unconditional, "+15550001"),
        "  SS7 MAP: RegisterSS(CFU) ForwardedToNumber=+15550001 BasicService=allServices"
    );
}

#[test]
fn credentials() {
    assert!(credentials_accepted("root", "apple"));
    assert!(!credentials_accepted("root", "apples"));
    assert!(!credentials_accepted("admin", "apple"));
}

#[test]
fn decimal_parsing() {
    assert_eq!(parse_u32_text("0"), Some(0));
    assert_eq!(parse_u32_text("4294967295"), Some(4294967295));
    assert_eq!(parse_u32_text("4294967296"), None);
    assert_eq!(parse_u32_text(""), None);
    assert_eq!(parse_u32_text("12a"), None);
    assert_eq!(parse_u32_text("+5"), None);
}

#[test]
fn perform_reports_store_changes() {
    let mut db = db_with_alice();
    let mut app = App::new(&db);
    assert!(!app.perform(&mut db, KeyAction::ToAccountList, None, None, None));
    assert!(!app.perform(&mut db, KeyAction::SelectAccount, None, None, None));
    assert!(!app.perform(&mut db, KeyAction::ToCredit, None, None, None));
    assert!(app.perform(&mut db, KeyAction::ApplyAmount, Some(25000), None, None));
    assert_eq!(db.get_account("acct-1").unwrap().balance, 25000);
    assert_eq!(app.status_message, "Credited $2.50. New balance: $2.50");
}

#[test]
fn name_search_folds_ascii_case() {
    let db = db_with_alice();
    assert_eq!(db.search_accounts_by_name("ALI").unwrap().len(), 1);
    assert_eq!(db.search_accounts_by_name("lic").unwrap().len(), 1);
    assert_eq!(db.search_accounts_by_name("").unwrap().len(), 1);
    assert_eq!(db.search_accounts_by_name("Bob").unwrap().len(), 0);
}
