use ss7_billing::console::{arrow_action_exec, App, InputField, KeyAction, Screen};
use ss7_billing::{Account, AccountStatus, BillingDb};

fn db_with(names: &[(&str, &str)]) -> BillingDb {
    let mut db = BillingDb::open_in_memory().unwrap();
    for (i, (id, name)) in names.iter().enumerate() {
        let a = Account::with_identity(
            id.to_string(),
            1,
            name.to_string(),
            format!("+{}", i),
            format!("{}", i),
        );
        db.create_account(&a).unwrap();
    }
    db
}

fn type_text(app: &mut App, text: &str) {
    for c in text.chars() {
        app.type_char(c);
    }
}

#[test]
fn create_account_from_form() {
    let mut db = db_with(&[]);
    let mut app = App::new(&db);
    assert_eq!(app.screen, Screen::Dashboard);
    app.go_to_create_account();
    app.create_account_at(&mut db, "id-1".to_string(), 5);
    assert_eq!(app.status_message, "All fields are required");
    assert_eq!(db.get_account_count().unwrap(), 0);
    type_text(&mut app, "Alice");
    app.next_field();
    assert_eq!(app.active_field, InputField::Msisdn);
    type_text(&mut app, "+1001");
    app.next_field();
    type_text(&mut app, "001x");
    app.backspace();
    app.create_account_at(&mut db, "id-1".to_string(), 5);
    assert_eq!(app.status_message, "Account 'Alice' created successfully");
    assert_eq!(app.screen, Screen::AccountList);
    assert_eq!(app.account_count, 1);
    assert_eq!(app.accounts.len(), 1);
    let a = db.get_account("id-1").unwrap();
    assert_eq!(a.imsi, "001");
    assert_eq!(a.created_at, 5);
    app.go_to_create_account();
    type_text(&mut app, "Bob");
    app.next_field();
    type_text(&mut app, "+1001");
    app.next_field();
    type_text(&mut app, "002");
    app.create_account_at(&mut db, "id-2".to_string(), 6);
    assert_eq!(app.status_message, "Error: Duplicate account: +1001");
}

#[test]
fn credit_and_debit_from_detail() {
    let mut db = db_with(&[("a", "Alice")]);
    let mut app = App::new(&db);
    app.go_to_account_list(&db);
    app.select_account();
    assert_eq!(app.screen, Screen::AccountDetail);
    app.go_to_credit_debit(true);
    app.apply_credit_debit_at(&mut db, None, 1);
    assert_eq!(app.status_message, "Invalid amount");
    app.apply_credit_debit_at(&mut db, Some(0), 1);
    assert_eq!(app.status_message, "Invalid amount");
    app.apply_credit_debit_at(&mut db, Some(1_000_000), 2);
    assert_eq!(app.status_message, "Credited $100.00. New balance: $100.00");
    assert_eq!(app.screen, Screen::AccountDetail);
    assert_eq!(app.total_balance, 1_000_000);
    assert_eq!(app.selected_account.as_ref().unwrap().balance, 1_000_000);
    app.go_to_credit_debit(false);
    app.apply_credit_debit_at(&mut db, Some(305_000), 3);
    assert_eq!(app.status_message, "Debited $30.50. New balance: $69.50");
    app.go_to_credit_debit(false);
    app.apply_credit_debit_at(&mut db, Some(5_000_000), 4);
    assert_eq!(app.status_message, "Error: Insufficient balance: available 69.5, required 500");
}

#[test]
fn confirm_status_change_and_delete() {
    let mut db = db_with(&[("a", "Alice"), ("b", "Bob")]);
    let mut app = App::new(&db);
    app.go_to_account_list(&db);
    app.move_selection_down();
    app.move_selection_down();
    assert_eq!(app.selected_index, 1);
    app.move_selection_up();
    app.move_selection_up();
    assert_eq!(app.selected_index, 0);
    app.select_account();
    app.request_status_change(AccountStatus::Suspended);
    assert_eq!(app.screen, Screen::Confirm);
    assert_eq!(app.confirm_action, "Suspend account 'Alice'?");
    app.execute_confirm_at(&mut db, 9);
    assert_eq!(app.status_message, "Account suspended");
    assert_eq!(app.screen, Screen::AccountDetail);
    assert_eq!(db.get_account("a").unwrap().status, AccountStatus::Suspended);
    assert_eq!(app.selected_account.as_ref().unwrap().status, AccountStatus::Suspended);
    app.request_delete();
    assert_eq!(app.confirm_action, "Delete account 'Alice'?");
    app.decline();
    assert_eq!(app.screen, Screen::AccountDetail);
    app.request_delete();
    app.execute_confirm_at(&mut db, 10);
    assert_eq!(app.status_message, "Account deleted");
    assert_eq!(app.screen, Screen::AccountList);
    assert!(app.selected_account.is_none());
    assert_eq!(app.account_count, 1);
    app.execute_confirm_at(&mut db, 11);
    assert_eq!(app.screen, Screen::AccountDetail);
}

#[test]
fn searches_from_console() {
    let db = db_with(&[("a", "Alice Smith"), ("b", "Bob"), ("c", "alice j")]);
    let mut app = App::new(&db);
    app.go_to_search_by_name();
    type_text(&mut app, "ALICE");
    app.do_search_by_name(&db);
    assert_eq!(app.accounts.len(), 2);
    assert_eq!(app.status_message, "Found 2 account(s)");
    app.go_to_search_by_balance();
    app.do_search_by_balance(&db, None, None);
    assert_eq!(app.accounts.len(), 3);
    assert!(app.status_message.starts_with("Found 3 account(s) in range $0.00 - $"));
    app.do_search_by_balance(&db, Some(1), Some(20_000));
    assert_eq!(app.status_message, "Found 0 account(s) in range $0.00 - $2.00");
}

#[test]
fn key_bindings() {
    let db = db_with(&[("a", "Alice")]);
    let mut app = App::new(&db);
    assert_eq!(app.key_action(b'1'), KeyAction::ToAccountList);
    assert_eq!(app.key_action(b'q'), KeyAction::Quit);
    assert_eq!(app.key_action(3), KeyAction::Interrupt);
    assert_eq!(app.key_action(b' '), KeyAction::TypeChar(' '));
    assert_eq!(app.key_action(b'z'), KeyAction::Ignore);
    app.go_to_account_list(&db);
    assert_eq!(app.key_action(13), KeyAction::SelectAccount);
    assert_eq!(app.key_action(b'C'), KeyAction::ToCreateAccount);
    app.select_account();
    assert_eq!(app.key_action(b'+'), KeyAction::ToCredit);
    assert_eq!(app.key_action(b'x'), KeyAction::RequestStatus(AccountStatus::Closed));
    app.escape(&db);
    assert_eq!(app.screen, Screen::AccountList);
    app.escape(&db);
    assert_eq!(app.screen, Screen::Dashboard);
    assert_eq!(arrow_action_exec(&[27, b'[', b'A']), Some(KeyAction::MoveUp));
    assert_eq!(arrow_action_exec(&[27, b'[', b'B']), Some(KeyAction::MoveDown));
    assert_eq!(arrow_action_exec(&[27, b'[', b'C']), Some(KeyAction::Ignore));
    assert_eq!(arrow_action_exec(&[27]), None);
}
