use vstd::prelude::*;

use crate::account::Account;
use crate::clock::is_uuid_text;
use crate::console::{
    App, InputField, KeyAction, Screen, backspaced, confirm_applied, escaped, form_submitted,
    found_in_range_text, next_field_of, shown_len, status_action, status_verb, transfer_applied,
    typed,
};
use crate::console::ConfirmAction;
use crate::console_services::{
    intercept_deleted, intercept_form_submitted, intercept_toggled, intercepts_shown,
    rule_deleted, rule_form_submitted, rule_toggled, rules_shown,
};
use crate::db::{
    AccountsByBalanceDesc, AccountsByName, BillingDb, BillingState, balance_between, lists_sorted,
    named_like,
};
use crate::format::digits_of;

verus! {

/// The key actions that may change the store.
pub open spec fn changes_store(action: KeyAction) -> bool {
    match action {
        KeyAction::CreateAccount | KeyAction::ApplyAmount | KeyAction::Confirm
        | KeyAction::CreateIntercept | KeyAction::CreateRule | KeyAction::ToggleIntercept
        | KeyAction::DeleteIntercept | KeyAction::ToggleRule | KeyAction::DeleteRule => true,
        _ => false,
    }
}

/// `post` and `db_post` are the console and the store after carrying out
/// `action` on `app` and `db`. `amount` is the parsed amount text, `min` and
/// `max` the parsed balance bounds (`None` where the text did not parse).
pub open spec fn performed(
    app: App,
    post: App,
    db: BillingState,
    db_post: BillingState,
    action: KeyAction,
    amount: Option<i64>,
    min: Option<i64>,
    max: Option<i64>,
) -> bool {
    match action {
        KeyAction::Ignore | KeyAction::Interrupt | KeyAction::Quit => post == app && db_post == db,
        KeyAction::Escape => escaped(app, post, db) && db_post == db,
        KeyAction::MoveUp => {
            &&& db_post == db
            &&& app.selected_index > 0 ==> post == (App {
                selected_index: (app.selected_index - 1) as usize,
                ..app
            })
            &&& app.selected_index == 0 ==> post == app
        },
        KeyAction::MoveDown => {
            &&& db_post == db
            &&& app.selected_index + 1 < shown_len(app) ==> post == (App {
                selected_index: (app.selected_index + 1) as usize,
                ..app
            })
            &&& app.selected_index + 1 >= shown_len(app) ==> post == app
        },
        KeyAction::NextField => db_post == db && post == (App {
            active_field: next_field_of(app.screen, app.active_field),
            ..app
        }),
        KeyAction::Backspace => db_post == db && backspaced(app, post),
        KeyAction::TypeChar(c) => db_post == db && typed(app, post, c),
        KeyAction::SelectAccount => {
            &&& db_post == db
            &&& app.selected_index < app.accounts@.len() ==> post == (App {
                selected_account: Some(app.accounts@[app.selected_index as int]),
                previous_screen: app.screen,
                screen: Screen::AccountDetail,
                ..app
            })
            &&& app.selected_index >= app.accounts@.len() ==> post == app
        },
        KeyAction::CreateAccount => exists|id: Seq<char>, now: i64|
            is_uuid_text(id) && #[trigger] form_submitted(app, post, db, db_post, id, now),
        KeyAction::SearchByName => {
            &&& db_post == db
            &&& post == (App {
                accounts: post.accounts,
                selected_index: 0,
                status_message: post.status_message,
                ..app
            })
            &&& lists_sorted::<Account, AccountsByName>(post.accounts@, named_like(db.accounts, app.input_search@))
            &&& post.status_message@ == "Found "@ + digits_of(post.accounts@.len()) + " account(s)"@
        },
        KeyAction::SearchBalance => {
            let lo = match min {
                Some(v) => v,
                None => 0,
            };
            let hi = match max {
                Some(v) => v,
                None => i64::MAX,
            };
            &&& db_post == db
            &&& post == (App {
                accounts: post.accounts,
                selected_index: 0,
                status_message: post.status_message,
                ..app
            })
            &&& lists_sorted::<Account, AccountsByBalanceDesc>(
                post.accounts@,
                balance_between(db.accounts, lo, hi),
            )
            &&& post.status_message@ == found_in_range_text(post.accounts@.len(), lo, hi)
        },
        KeyAction::ApplyAmount => exists|now: i64| #[trigger] transfer_applied(app, post, db, db_post, amount, now),
        KeyAction::ToAccountList => {
            &&& db_post == db
            &&& post == (App {
                accounts: post.accounts,
                selected_index: 0,
                scroll_offset: 0,
                screen: Screen::AccountList,
                ..app
            })
            &&& lists_sorted::<Account, AccountsByName>(post.accounts@, db.accounts)
        },
        KeyAction::ToCreateAccount => {
            &&& db_post == db
            &&& post == (App {
                input_name: post.input_name,
                input_msisdn: post.input_msisdn,
                input_imsi: post.input_imsi,
                active_field: InputField::Name,
                screen: Screen::CreateAccount,
                ..app
            })
            &&& post.input_name@.len() == 0
            &&& post.input_msisdn@.len() == 0
            &&& post.input_imsi@.len() == 0
        },
        KeyAction::ToSearchByName => {
            &&& db_post == db
            &&& post == (App {
                input_search: post.input_search,
                accounts: post.accounts,
                selected_index: 0,
                active_field: InputField::SearchQuery,
                screen: Screen::SearchByName,
                ..app
            })
            &&& post.input_search@.len() == 0
            &&& post.accounts@.len() == 0
        },
        KeyAction::ToSearchByBalance => {
            &&& db_post == db
            &&& post == (App {
                input_balance_min: post.input_balance_min,
                input_balance_max: post.input_balance_max,
                accounts: post.accounts,
                selected_index: 0,
                active_field: InputField::BalanceMin,
                screen: Screen::SearchByBalance,
                ..app
            })
            &&& post.input_balance_min@.len() == 0
            &&& post.input_balance_max@.len() == 0
            &&& post.accounts@.len() == 0
        },
        KeyAction::ToCredit | KeyAction::ToDebit => {
            &&& db_post == db
            &&& post == (App {
                is_credit: action == KeyAction::ToCredit,
                input_amount: post.input_amount,
                active_field: InputField::Amount,
                screen: Screen::CreditDebit,
                ..app
            })
            &&& post.input_amount@.len() == 0
        },
        KeyAction::RequestStatus(status) => {
            &&& db_post == db
            &&& app.selected_account matches Some(a) ==> {
                &&& post == (App {
                    confirm_action: post.confirm_action,
                    confirm_callback: Some(status_action(status, a.id)),
                    screen: Screen::Confirm,
                    ..app
                })
                &&& post.confirm_action@ == status_verb(status) + " account '"@ + a.name@ + "'?"@
            }
            &&& app.selected_account is None ==> post == app
        },
        KeyAction::RequestDelete => {
            &&& db_post == db
            &&& app.selected_account matches Some(a) ==> {
                &&& post == (App {
                    confirm_action: post.confirm_action,
                    confirm_callback: Some(ConfirmAction::DeleteAccount(a.id)),
                    screen: Screen::Confirm,
                    ..app
                })
                &&& post.confirm_action@ == "Delete account '"@ + a.name@ + "'?"@
            }
            &&& app.selected_account is None ==> post == app
        },
        KeyAction::Confirm => exists|now: i64| #[trigger] confirm_applied(app, post, db, db_post, now),
        KeyAction::Decline => db_post == db && post == (App { screen: Screen::AccountDetail, ..app }),
        KeyAction::ToIntercepts => db_post == db && intercepts_shown(app, post, db),
        KeyAction::ToForwardingRules => db_post == db && rules_shown(app, post, db),
        KeyAction::ToCreateIntercept => {
            &&& db_post == db
            &&& post == (App {
                input_warrant_id: post.input_warrant_id,
                input_dest_ip: post.input_dest_ip,
                input_dest_port: post.input_dest_port,
                calea_type_index: 0,
                active_field: InputField::CaleaWarrantId,
                screen: Screen::CaleaCreate,
                ..app
            })
            &&& post.input_warrant_id@.len() == 0
            &&& post.input_dest_ip@.len() == 0
            &&& post.input_dest_port@.len() == 0
        },
        KeyAction::ToCreateRule => {
            &&& db_post == db
            &&& post == (App {
                input_pbx_dest: post.input_pbx_dest,
                input_pbx_timeout: post.input_pbx_timeout,
                pbx_type_index: 0,
                active_field: InputField::PbxDestAddress,
                screen: Screen::PbxCreate,
                ..app
            })
            &&& post.input_pbx_dest@.len() == 0
            &&& post.input_pbx_timeout@ == "20"@
        },
        KeyAction::SelectIntercept => {
            &&& db_post == db
            &&& app.selected_index < app.intercepts@.len() ==> post == (App {
                selected_intercept: Some(app.intercepts@[app.selected_index as int]),
                screen: Screen::CaleaDetail,
                ..app
            })
            &&& app.selected_index >= app.intercepts@.len() ==> post == app
        },
        KeyAction::SelectRule => {
            &&& db_post == db
            &&& app.selected_index < app.forwarding_rules@.len() ==> post == (App {
                selected_forwarding: Some(app.forwarding_rules@[app.selected_index as int]),
                screen: Screen::PbxDetail,
                ..app
            })
            &&& app.selected_index >= app.forwarding_rules@.len() ==> post == app
        },
        KeyAction::CreateIntercept => exists|id: Seq<char>, now: i64|
            is_uuid_text(id) && #[trigger] intercept_form_submitted(app, post, db, db_post, id, now),
        KeyAction::CreateRule => exists|id: Seq<char>, now: i64|
            is_uuid_text(id) && #[trigger] rule_form_submitted(app, post, db, db_post, id, now),
        KeyAction::ToggleIntercept => exists|now: i64| #[trigger] intercept_toggled(app, post, db, db_post, now),
        KeyAction::DeleteIntercept => intercept_deleted(app, post, db, db_post),
        KeyAction::ToggleRule => exists|now: i64| #[trigger] rule_toggled(app, post, db, db_post, now),
        KeyAction::DeleteRule => rule_deleted(app, post, db, db_post),
    }
}

impl App {
    /// Carries out key action `action` on the console and the store; returns
    /// whether the action is one that may change the store. `amount` is the
    /// parsed amount text, `min` and `max` the parsed balance bounds, each
    /// `None` where its text did not parse. `Quit` and `Interrupt` change
    /// nothing here: closing the session is the host's part.
    pub fn perform(
        &mut self,
        db: &mut BillingDb,
        action: KeyAction,
        amount: Option<i64>,
        min: Option<i64>,
        max: Option<i64>,
    ) -> (changed: bool)
        requires
            old(db).wf(),
        ensures
            final(db).wf(),
            changed == changes_store(action),
            performed(*old(self), *final(self), old(db)@, final(db)@, action, amount, min, max),
    {
        match action {
            KeyAction::Ignore | KeyAction::Interrupt | KeyAction::Quit => false,
            KeyAction::Escape => {
                self.escape(db);
                false
            },
            KeyAction::MoveUp => {
                self.move_selection_up();
                false
            },
            KeyAction::MoveDown => {
                self.move_selection_down();
                false
            },
            KeyAction::NextField => {
                self.next_field();
                false
            },
            KeyAction::Backspace => {
                self.backspace();
                false
            },
            KeyAction::TypeChar(c) => {
                self.type_char(c);
                false
            },
            KeyAction::SelectAccount => {
                self.select_account();
                false
            },
            KeyAction::CreateAccount => {
                self.create_account(db);
                true
            },
            KeyAction::SearchByName => {
                self.do_search_by_name(db);
                false
            },
            KeyAction::SearchBalance => {
                self.do_search_by_balance(db, min, max);
                false
            },
            KeyAction::ApplyAmount => {
                self.apply_credit_debit(db, amount);
                true
            },
            KeyAction::ToAccountList => {
                self.go_to_account_list(db);
                false
            },
            KeyAction::ToCreateAccount => {
                self.go_to_create_account();
                false
            },
            KeyAction::ToSearchByName => {
                self.go_to_search_by_name();
                false
            },
            KeyAction::ToSearchByBalance => {
                self.go_to_search_by_balance();
                false
            },
            KeyAction::ToCredit => {
                self.go_to_credit_debit(true);
                false
            },
            KeyAction::ToDebit => {
                self.go_to_credit_debit(false);
                false
            },
            KeyAction::RequestStatus(status) => {
                self.request_status_change(status);
                false
            },
            KeyAction::RequestDelete => {
                self.request_delete();
                false
            },
            KeyAction::Confirm => {
                self.execute_confirm(db);
                true
            },
            KeyAction::Decline => {
                self.decline();
                false
            },
            KeyAction::ToIntercepts => {
                self.go_to_intercepts(db);
                false
            },
            KeyAction::ToForwardingRules => {
                self.go_to_forwarding_rules(db);
                false
            },
            KeyAction::ToCreateIntercept => {
                self.go_to_create_intercept();
                false
            },
            KeyAction::ToCreateRule => {
                self.go_to_create_rule();
                false
            },
            KeyAction::SelectIntercept => {
                self.select_intercept();
                false
            },
            KeyAction::SelectRule => {
                self.select_rule();
                false
            },
            KeyAction::CreateIntercept => {
                self.create_intercept(db);
                true
            },
            KeyAction::CreateRule => {
                self.create_forwarding_rule(db);
                true
            },
            KeyAction::ToggleIntercept => {
                self.toggle_intercept(db);
                true
            },
            KeyAction::DeleteIntercept => {
                self.delete_intercept(db);
                true
            },
            KeyAction::ToggleRule => {
                self.toggle_rule(db);
                true
            },
            KeyAction::DeleteRule => {
                self.delete_rule(db);
                true
            },
        }
    }
}

} // verus!
