use vstd::prelude::*;

use crate::account::{Account, AccountStatus};
use crate::clock::{current_micros, fresh_id, is_uuid_text};
use crate::calea::InterceptTarget;
use crate::pbx::ForwardingRule;
use crate::db::{
    AccountsByBalanceDesc, AccountsByName, BillingDb, BillingState, InterceptsNewestFirst,
    RulesNewestFirst, account_conflicts, active_intercepts, active_rules, has_services,
    balance_between, balance_total, cdrs_not_of, credit_outcome, debit_outcome, fits_i64, lists_sorted,
    named_like, status_set,
};
use crate::error::{BillingError, error_text};
use crate::format::{
    amount_text_2dp, append_amount_2dp, count_text, digits_of, push_char,
};
use crate::rows::{find_key, has_key, lemma_key_unique};
use vstd::string::StringExecFns;

verus! {

/// The screens of the operator console.
#[derive(Debug, Clone, Copy, PartialEq, Eq, Structural)]
pub enum Screen {
    Dashboard,
    AccountList,
    CreateAccount,
    AccountDetail,
    SearchByName,
    SearchByBalance,
    CreditDebit,
    Confirm,
    CaleaList,
    CaleaCreate,
    CaleaDetail,
    PbxList,
    PbxCreate,
    PbxDetail,
}

/// The text input that receives typed characters.
#[derive(Debug, Clone, Copy, PartialEq, Eq, Structural)]
pub enum InputField {
    Name,
    Msisdn,
    Imsi,
    Amount,
    SearchQuery,
    BalanceMin,
    BalanceMax,
    CaleaWarrantId,
    CaleaDestIp,
    CaleaDestPort,
    CaleaType,
    PbxDestAddress,
    PbxForwardType,
    PbxTimeout,
}

/// An action that waits for the operator's confirmation; each names an account id.
#[derive(Debug)]
pub enum ConfirmAction {
    DeleteAccount(String),
    SuspendAccount(String),
    ActivateAccount(String),
    CloseAccount(String),
}

impl Clone for ConfirmAction {
    fn clone(&self) -> (r: Self)
        ensures
            r == *self,
    {
        match self {
            ConfirmAction::DeleteAccount(id) => ConfirmAction::DeleteAccount(id.clone()),
            ConfirmAction::SuspendAccount(id) => ConfirmAction::SuspendAccount(id.clone()),
            ConfirmAction::ActivateAccount(id) => ConfirmAction::ActivateAccount(id.clone()),
            ConfirmAction::CloseAccount(id) => ConfirmAction::CloseAccount(id.clone()),
        }
    }
}

/// State of one operator's console session. Amounts are in ten-thousandths
/// of the currency unit.
pub struct App {
    pub screen: Screen,
    pub previous_screen: Screen,
    pub accounts: Vec<Account>,
    pub selected_index: usize,
    pub selected_account: Option<Account>,
    pub input_name: String,
    pub input_msisdn: String,
    pub input_imsi: String,
    pub input_amount: String,
    pub input_search: String,
    pub input_balance_min: String,
    pub input_balance_max: String,
    pub active_field: InputField,
    pub is_credit: bool,
    pub status_message: String,
    pub confirm_action: String,
    pub confirm_callback: Option<ConfirmAction>,
    pub account_count: usize,
    pub total_balance: i128,
    pub scroll_offset: usize,
    pub intercepts: Vec<InterceptTarget>,
    pub forwarding_rules: Vec<ForwardingRule>,
    pub selected_intercept: Option<InterceptTarget>,
    pub selected_forwarding: Option<ForwardingRule>,
    pub input_warrant_id: String,
    pub input_dest_ip: String,
    pub input_dest_port: String,
    /// Position of the chosen intercept type in `intercept_type_at`.
    pub calea_type_index: usize,
    pub input_pbx_dest: String,
    pub input_pbx_timeout: String,
    /// Position of the chosen forwarding type in `forwarding_type_at`.
    pub pbx_type_index: usize,
    pub intercept_count: usize,
    pub forwarding_count: usize,
}

/// The dashboard figures of `app` are those of the store `db`.
pub open spec fn shows_totals(app: App, db: BillingState) -> bool {
    &&& app.account_count == db.accounts.len()
    &&& app.total_balance == balance_total(db.accounts)
    &&& app.intercept_count == active_intercepts(db.intercepts).len()
    &&& app.forwarding_count == active_rules(db.forwarding).len()
}

/// `a` is the account that the create form of `app` describes, with id `id`
/// and creation time `now`.
pub open spec fn is_form_account(a: Account, app: App, id: Seq<char>, now: i64) -> bool {
    &&& a.id@ == id
    &&& a.name == app.input_name
    &&& a.msisdn == app.input_msisdn
    &&& a.imsi == app.input_imsi
    &&& a.balance == 0
    &&& a.currency@ == "USD"@
    &&& a.status == AccountStatus::Active
    &&& a.created_at == now
    &&& a.updated_at == now
}

/// The effect of submitting the create form of `app` for an account with id
/// `id` created at time `now`: refused unless all three fields are filled;
/// otherwise the account is stored unless it clashes with one already stored,
/// and the console shows the account list.
pub open spec fn form_submitted(
    app: App,
    post: App,
    db: BillingState,
    db_post: BillingState,
    id: Seq<char>,
    now: i64,
) -> bool {
    if app.input_name@.len() == 0 || app.input_msisdn@.len() == 0 || app.input_imsi@.len() == 0 {
        &&& post == (App { status_message: post.status_message, ..app })
        &&& post.status_message@ == "All fields are required"@
        &&& db_post == db
    } else {
        exists|a: Account|
            #![trigger account_conflicts(db.accounts, a)]
            {
                &&& is_form_account(a, app, id, now)
                &&& account_conflicts(db.accounts, a) ==> {
                    &&& post == (App { status_message: post.status_message, ..app })
                    &&& post.status_message@ == "Error: "@ + "Duplicate account: "@ + a.msisdn@
                    &&& db_post == db
                }
                &&& !account_conflicts(db.accounts, a) ==> {
                    &&& db_post == (BillingState { accounts: db.accounts.push(a), ..db })
                    &&& post == (App {
                        status_message: post.status_message,
                        account_count: post.account_count,
                        total_balance: post.total_balance,
                        intercept_count: post.intercept_count,
                        forwarding_count: post.forwarding_count,
                        accounts: post.accounts,
                        selected_index: 0,
                        scroll_offset: 0,
                        screen: Screen::AccountList,
                        ..app
                    })
                    &&& post.status_message@ == "Account '"@ + a.name@ + "' created successfully"@
                    &&& shows_totals(post, db_post)
                    &&& lists_sorted::<Account, AccountsByName>(post.accounts@, db_post.accounts)
                }
            }
    }
}

/// The verb shown when asking to set an account to `status`.
pub open spec fn status_verb(status: AccountStatus) -> Seq<char> {
    match status {
        AccountStatus::Active => "Activate"@,
        AccountStatus::Suspended => "Suspend"@,
        AccountStatus::Closed => "Close"@,
    }
}

/// The message shown after an account was set to `status`.
pub open spec fn status_done_text(status: AccountStatus) -> Seq<char> {
    match status {
        AccountStatus::Active => "Account activated"@,
        AccountStatus::Suspended => "Account suspended"@,
        AccountStatus::Closed => "Account closed"@,
    }
}

/// The message after a credit (`is_credit`) or debit of `amount` leaving `balance`.
pub open spec fn transfer_text(is_credit: bool, amount: i64, balance: i64) -> Seq<char> {
    (if is_credit {
        "Credited"@
    } else {
        "Debited"@
    }) + " $"@ + amount_text_2dp(amount as int) + ". New balance: $"@ + amount_text_2dp(
        balance as int,
    )
}

/// The message after a balance search over `[min, max]` that found `count` accounts.
pub open spec fn found_in_range_text(count: nat, min: i64, max: i64) -> Seq<char> {
    "Found "@ + digits_of(count) + " account(s) in range $"@ + amount_text_2dp(min as int) + " - $"@
        + amount_text_2dp(max as int)
}

/// The effect of a credit or debit of `amount` at time `now` from `pre` on the
/// console (`app` becomes `post`) and on the store (`db` becomes `db_post`).
pub open spec fn transfer_applied(
    app: App,
    post: App,
    db: BillingState,
    db_post: BillingState,
    amount: Option<i64>,
    now: i64,
) -> bool {
    let refused = {
        &&& post == (App { status_message: post.status_message, ..app })
        &&& post.status_message@ == "Invalid amount"@
        &&& db_post == db
    };
    match amount {
        Some(v) => if v <= 0 {
            refused
        } else {
            match app.selected_account {
                None => post == app && db_post == db,
                Some(sel) => {
                    let id = sel.id@;
                    let delta = if app.is_credit {
                        v as int
                    } else {
                        -v
                    };
                    if find_key(db.accounts, id) matches Some(cur) && !fits_i64(cur.balance + delta) {
                        refused
                    } else {
                        exists|r: Result<i64, BillingError>|
                            #![trigger credit_outcome(db, db_post, id, v, now, r)]
                            #![trigger debit_outcome(db, db_post, id, v, now, r)]
                            {
                                &&& app.is_credit ==> credit_outcome(db, db_post, id, v, now, r)
                                &&& !app.is_credit ==> debit_outcome(db, db_post, id, v, now, r)
                                &&& match r {
                                    Ok(nb) => {
                                        &&& post == (App {
                                            status_message: post.status_message,
                                            selected_account: post.selected_account,
                                            account_count: post.account_count,
                                            total_balance: post.total_balance,
                                            intercept_count: post.intercept_count,
                                            forwarding_count: post.forwarding_count,
                                            screen: Screen::AccountDetail,
                                            ..app
                                        })
                                        &&& post.status_message@ == transfer_text(app.is_credit, v, nb)
                                        &&& post.selected_account == find_key(db_post.accounts, id)
                                        &&& shows_totals(post, db_post)
                                    },
                                    Err(e) => {
                                        &&& post == (App { status_message: post.status_message, ..app })
                                        &&& post.status_message@ == "Error: "@ + error_text(e)
                                    },
                                }
                            }
                    }
                },
            }
        },
        None => refused,
    }
}

/// `post` is `app` after leaving its screen with Escape, given store `db`.
pub open spec fn escaped(app: App, post: App, db: BillingState) -> bool {
    match app.screen {
        Screen::Dashboard => post == app,
        Screen::Confirm | Screen::CreditDebit | Screen::CaleaCreate | Screen::PbxCreate => post == (App {
            screen: Screen::AccountDetail,
            ..app
        }),
        Screen::CaleaDetail => {
            &&& post == (App { screen: Screen::CaleaList, intercepts: post.intercepts, ..app })
            &&& lists_sorted::<InterceptTarget, InterceptsNewestFirst>(post.intercepts@, db.intercepts)
        },
        Screen::PbxDetail => {
            &&& post == (App { screen: Screen::PbxList, forwarding_rules: post.forwarding_rules, ..app })
            &&& lists_sorted::<ForwardingRule, RulesNewestFirst>(post.forwarding_rules@, db.forwarding)
        },
        Screen::AccountDetail => if app.previous_screen == Screen::AccountList {
            &&& post == (App { screen: Screen::AccountList, accounts: post.accounts, ..app })
            &&& lists_sorted::<Account, AccountsByName>(post.accounts@, db.accounts)
        } else {
            post == (App { screen: app.previous_screen, ..app })
        },
        _ => {
            &&& post == (App {
                screen: Screen::Dashboard,
                account_count: post.account_count,
                total_balance: post.total_balance,
                intercept_count: post.intercept_count,
                forwarding_count: post.forwarding_count,
                ..app
            })
            &&& shows_totals(post, db)
        },
    }
}

/// The confirmation that sets the account with id `id` to `status`.
pub open spec fn status_action(status: AccountStatus, id: String) -> ConfirmAction {
    match status {
        AccountStatus::Active => ConfirmAction::ActivateAccount(id),
        AccountStatus::Suspended => ConfirmAction::SuspendAccount(id),
        AccountStatus::Closed => ConfirmAction::CloseAccount(id),
    }
}

/// The input that follows `field` on `screen` when Tab is pressed.
pub open spec fn next_field_of(screen: Screen, field: InputField) -> InputField {
    match (screen, field) {
        (Screen::CreateAccount, InputField::Name) => InputField::Msisdn,
        (Screen::CreateAccount, InputField::Msisdn) => InputField::Imsi,
        (Screen::CreateAccount, InputField::Imsi) => InputField::Name,
        (Screen::SearchByBalance, InputField::BalanceMin) => InputField::BalanceMax,
        (Screen::SearchByBalance, InputField::BalanceMax) => InputField::BalanceMin,
        (Screen::CaleaCreate, InputField::CaleaWarrantId) => InputField::CaleaDestIp,
        (Screen::CaleaCreate, InputField::CaleaDestIp) => InputField::CaleaDestPort,
        (Screen::CaleaCreate, InputField::CaleaDestPort) => InputField::CaleaType,
        (Screen::CaleaCreate, InputField::CaleaType) => InputField::CaleaWarrantId,
        (Screen::PbxCreate, InputField::PbxDestAddress) => InputField::PbxForwardType,
        (Screen::PbxCreate, InputField::PbxForwardType) => InputField::PbxTimeout,
        (Screen::PbxCreate, InputField::PbxTimeout) => InputField::PbxDestAddress,
        _ => field,
    }
}

/// `post` is `app` with the active input changed by `f` and nothing else.
pub open spec fn edited(app: App, post: App, f: spec_fn(Seq<char>) -> Seq<char>) -> bool {
    match app.active_field {
        InputField::Name => post == (App { input_name: post.input_name, ..app }) && post.input_name@
            == f(app.input_name@),
        InputField::Msisdn => post == (App { input_msisdn: post.input_msisdn, ..app })
            && post.input_msisdn@ == f(app.input_msisdn@),
        InputField::Imsi => post == (App { input_imsi: post.input_imsi, ..app }) && post.input_imsi@
            == f(app.input_imsi@),
        InputField::Amount => post == (App { input_amount: post.input_amount, ..app })
            && post.input_amount@ == f(app.input_amount@),
        InputField::SearchQuery => post == (App { input_search: post.input_search, ..app })
            && post.input_search@ == f(app.input_search@),
        InputField::BalanceMin => post == (App { input_balance_min: post.input_balance_min, ..app })
            && post.input_balance_min@ == f(app.input_balance_min@),
        InputField::BalanceMax => post == (App { input_balance_max: post.input_balance_max, ..app })
            && post.input_balance_max@ == f(app.input_balance_max@),
        InputField::CaleaWarrantId => post == (App { input_warrant_id: post.input_warrant_id, ..app })
            && post.input_warrant_id@ == f(app.input_warrant_id@),
        InputField::CaleaDestIp => post == (App { input_dest_ip: post.input_dest_ip, ..app })
            && post.input_dest_ip@ == f(app.input_dest_ip@),
        InputField::CaleaDestPort => post == (App { input_dest_port: post.input_dest_port, ..app })
            && post.input_dest_port@ == f(app.input_dest_port@),
        InputField::PbxDestAddress => post == (App { input_pbx_dest: post.input_pbx_dest, ..app })
            && post.input_pbx_dest@ == f(app.input_pbx_dest@),
        InputField::PbxTimeout => post == (App { input_pbx_timeout: post.input_pbx_timeout, ..app })
            && post.input_pbx_timeout@ == f(app.input_pbx_timeout@),
        InputField::CaleaType | InputField::PbxForwardType => post == app,
    }
}

/// `field` chooses among fixed values instead of holding text.
pub open spec fn is_selector(field: InputField) -> bool {
    field == InputField::CaleaType || field == InputField::PbxForwardType
}

/// The position after `i` among the four choices of a type selector.
pub open spec fn next_type_index(i: usize) -> usize {
    ((i % 4 + 1) % 4) as usize
}

/// `post` is `app` after the key `c` was typed: a type selector moves to its
/// next choice; a text input gets `c` appended.
pub open spec fn typed(app: App, post: App, c: char) -> bool {
    match app.active_field {
        InputField::CaleaType => post == (App {
            calea_type_index: next_type_index(app.calea_type_index),
            ..app
        }),
        InputField::PbxForwardType => post == (App {
            pbx_type_index: next_type_index(app.pbx_type_index),
            ..app
        }),
        _ => edited(app, post, |t: Seq<char>| t.push(c)),
    }
}

/// `post` is `app` with the last character of the active text input, if
/// any, removed.
pub open spec fn backspaced(app: App, post: App) -> bool {
    edited(
        app,
        post,
        |t: Seq<char>|
            if t.len() > 0 {
                t.drop_last()
            } else {
                t
            },
    )
}

/// Number of rows in the list that the current screen shows.
pub open spec fn shown_len(app: App) -> nat {
    match app.screen {
        Screen::CaleaList => app.intercepts@.len(),
        Screen::PbxList => app.forwarding_rules@.len(),
        _ => app.accounts@.len(),
    }
}

/// The effect of setting account `id` to `status` after confirmation.
pub open spec fn status_confirmed(
    app: App,
    post: App,
    db: BillingState,
    db_post: BillingState,
    id: Seq<char>,
    status: AccountStatus,
    now: i64,
) -> bool {
    exists|r: Result<(), BillingError>|
        #![trigger status_set(db, db_post, id, status, now, r)]
        {
            &&& status_set(db, db_post, id, status, now, r)
            &&& match r {
                Ok(()) => {
                    &&& post == (App {
                        status_message: post.status_message,
                        selected_account: find_key(db_post.accounts, id),
                        ..app
                    })
                    &&& post.status_message@ == status_done_text(status)
                },
                Err(e) => {
                    &&& post == (App { status_message: post.status_message, ..app })
                    &&& post.status_message@ == "Error: "@ + error_text(e)
                },
            }
        }
}

/// The effect of carrying out the confirmed action of `app` at time `now`.
pub open spec fn confirm_applied(app: App, post: App, db: BillingState, db_post: BillingState, now: i64) -> bool {
    let cleared = App { confirm_callback: None, ..app };
    match app.confirm_callback {
        None => post == (App { screen: Screen::AccountDetail, ..app }) && db_post == db,
        Some(ConfirmAction::DeleteAccount(id)) => {
            &&& db_post.cdrs == cdrs_not_of(db.cdrs, id@)
            &&& db_post.intercepts == db.intercepts
            &&& db_post.forwarding == db.forwarding
            &&& if has_key(db.accounts, id@) && !has_services(db, id@) {
                &&& db_post.accounts == db.accounts.filter(|a: Account| a.id@ != id@)
                &&& post == (App {
                    status_message: post.status_message,
                    selected_account: None,
                    account_count: post.account_count,
                    total_balance: post.total_balance,
                    intercept_count: post.intercept_count,
                    forwarding_count: post.forwarding_count,
                    accounts: post.accounts,
                    selected_index: 0,
                    scroll_offset: 0,
                    screen: Screen::AccountList,
                    ..cleared
                })
                &&& post.status_message@ == "Account deleted"@
                &&& shows_totals(post, db_post)
                &&& lists_sorted::<Account, AccountsByName>(post.accounts@, db_post.accounts)
            } else {
                &&& db_post.accounts == db.accounts
                &&& post == (App {
                    status_message: post.status_message,
                    screen: Screen::AccountDetail,
                    ..cleared
                })
                &&& post.status_message@ == if has_key(db.accounts, id@) {
                    "Error: "@ + "Database error: "@ + "FOREIGN KEY constraint failed"@
                } else {
                    "Error: "@ + "Account not found: "@ + id@
                }
            }
        },
        Some(ConfirmAction::SuspendAccount(id)) => status_confirmed(
            cleared,
            App { screen: cleared.screen, ..post },
            db,
            db_post,
            id@,
            AccountStatus::Suspended,
            now,
        ) && post.screen == Screen::AccountDetail,
        Some(ConfirmAction::ActivateAccount(id)) => status_confirmed(
            cleared,
            App { screen: cleared.screen, ..post },
            db,
            db_post,
            id@,
            AccountStatus::Active,
            now,
        ) && post.screen == Screen::AccountDetail,
        Some(ConfirmAction::CloseAccount(id)) => status_confirmed(
            cleared,
            App { screen: cleared.screen, ..post },
            db,
            db_post,
            id@,
            AccountStatus::Closed,
            now,
        ) && post.screen == Screen::AccountDetail,
    }
}

/// What a key asks the console to do. Each action other than `Ignore`,
/// `Interrupt` and `Quit` is carried out by the `App` method of the same name
/// (`ApplyAmount` and `SearchBalance` after the host has parsed the amounts).
#[derive(Debug, Clone, Copy, PartialEq, Eq, Structural)]
pub enum KeyAction {
    Ignore,
    /// Close the session at once, ignoring the rest of the input.
    Interrupt,
    /// Close the session once the input has been handled.
    Quit,
    Escape,
    MoveUp,
    MoveDown,
    NextField,
    Backspace,
    TypeChar(char),
    SelectAccount,
    CreateAccount,
    SearchByName,
    SearchBalance,
    ApplyAmount,
    ToAccountList,
    ToCreateAccount,
    ToSearchByName,
    ToSearchByBalance,
    ToCredit,
    ToDebit,
    RequestStatus(AccountStatus),
    RequestDelete,
    Confirm,
    Decline,
    ToIntercepts,
    ToForwardingRules,
    ToCreateIntercept,
    ToCreateRule,
    SelectIntercept,
    SelectRule,
    CreateIntercept,
    CreateRule,
    ToggleIntercept,
    DeleteIntercept,
    ToggleRule,
    DeleteRule,
}

/// The action of the printable key `c` (other than space) on `screen`.
pub open spec fn char_action(screen: Screen, c: char) -> KeyAction {
    match screen {
        Screen::Dashboard => if c == '1' {
            KeyAction::ToAccountList
        } else if c == '2' {
            KeyAction::ToCreateAccount
        } else if c == '3' {
            KeyAction::ToSearchByName
        } else if c == '4' {
            KeyAction::ToSearchByBalance
        } else if c == '5' {
            KeyAction::ToIntercepts
        } else if c == '6' {
            KeyAction::ToForwardingRules
        } else if c == 'q' || c == 'Q' {
            KeyAction::Quit
        } else {
            KeyAction::Ignore
        },
        Screen::AccountList => if c == 'c' || c == 'C' {
            KeyAction::ToCreateAccount
        } else {
            KeyAction::Ignore
        },
        Screen::AccountDetail => if c == '+' {
            KeyAction::ToCredit
        } else if c == '-' {
            KeyAction::ToDebit
        } else if c == 's' || c == 'S' {
            KeyAction::RequestStatus(AccountStatus::Suspended)
        } else if c == 'a' || c == 'A' {
            KeyAction::RequestStatus(AccountStatus::Active)
        } else if c == 'x' || c == 'X' {
            KeyAction::RequestStatus(AccountStatus::Closed)
        } else if c == 'd' || c == 'D' {
            KeyAction::RequestDelete
        } else if c == 'i' || c == 'I' {
            KeyAction::ToCreateIntercept
        } else if c == 'f' || c == 'F' {
            KeyAction::ToCreateRule
        } else {
            KeyAction::Ignore
        },
        Screen::Confirm => if c == 'y' || c == 'Y' {
            KeyAction::Confirm
        } else if c == 'n' || c == 'N' {
            KeyAction::Decline
        } else {
            KeyAction::Ignore
        },
        Screen::CaleaList | Screen::PbxList => KeyAction::Ignore,
        Screen::CaleaDetail => if c == 't' || c == 'T' {
            KeyAction::ToggleIntercept
        } else if c == 'd' || c == 'D' {
            KeyAction::DeleteIntercept
        } else {
            KeyAction::Ignore
        },
        Screen::PbxDetail => if c == 't' || c == 'T' {
            KeyAction::ToggleRule
        } else if c == 'd' || c == 'D' {
            KeyAction::DeleteRule
        } else {
            KeyAction::Ignore
        },
        _ => KeyAction::TypeChar(c),
    }
}

/// The action of input byte `b` on `screen`; `has_rows` tells whether the
/// list that the screen shows holds any row.
pub open spec fn byte_action(screen: Screen, has_rows: bool, b: u8) -> KeyAction {
    if b == 3 || b == 4 {
        KeyAction::Interrupt
    } else if b == 27 {
        KeyAction::Escape
    } else if b == 13 {
        match screen {
            Screen::CreateAccount => KeyAction::CreateAccount,
            Screen::SearchByName => KeyAction::SearchByName,
            Screen::SearchByBalance => KeyAction::SearchBalance,
            Screen::CreditDebit => KeyAction::ApplyAmount,
            Screen::CaleaCreate => KeyAction::CreateIntercept,
            Screen::PbxCreate => KeyAction::CreateRule,
            Screen::AccountList => if has_rows {
                KeyAction::SelectAccount
            } else {
                KeyAction::Ignore
            },
            Screen::CaleaList => if has_rows {
                KeyAction::SelectIntercept
            } else {
                KeyAction::Ignore
            },
            Screen::PbxList => if has_rows {
                KeyAction::SelectRule
            } else {
                KeyAction::Ignore
            },
            _ => KeyAction::Ignore,
        }
    } else if b == 9 {
        KeyAction::NextField
    } else if b == 127 || b == 8 {
        KeyAction::Backspace
    } else if b == 32 {
        match screen {
            Screen::AccountList | Screen::SearchByName | Screen::SearchByBalance => if has_rows {
                KeyAction::SelectAccount
            } else {
                KeyAction::Ignore
            },
            Screen::CaleaList => if has_rows {
                KeyAction::SelectIntercept
            } else {
                KeyAction::Ignore
            },
            Screen::PbxList => if has_rows {
                KeyAction::SelectRule
            } else {
                KeyAction::Ignore
            },
            Screen::CaleaDetail | Screen::PbxDetail => KeyAction::Ignore,
            _ => KeyAction::TypeChar(' '),
        }
    } else if 32 < b < 127 {
        char_action(screen, b as char)
    } else {
        KeyAction::Ignore
    }
}

/// The action of an arrow-key escape sequence (`ESC [ X`), if `data` is one.
pub open spec fn arrow_action(data: Seq<u8>) -> Option<KeyAction> {
    if data.len() >= 3 && data[0] == 27 && data[1] == 91 {
        Some(
            if data[2] == 65 {
                KeyAction::MoveUp
            } else if data[2] == 66 {
                KeyAction::MoveDown
            } else {
                KeyAction::Ignore
            },
        )
    } else {
        None
    }
}

/// The action of the printable key `c` (other than space) on `screen`.
pub fn char_action_exec(screen: Screen, c: char) -> (a: KeyAction)
    ensures
        a == char_action(screen, c),
{
    match screen {
        Screen::Dashboard => if c == '1' {
            KeyAction::ToAccountList
        } else if c == '2' {
            KeyAction::ToCreateAccount
        } else if c == '3' {
            KeyAction::ToSearchByName
        } else if c == '4' {
            KeyAction::ToSearchByBalance
        } else if c == '5' {
            KeyAction::ToIntercepts
        } else if c == '6' {
            KeyAction::ToForwardingRules
        } else if c == 'q' || c == 'Q' {
            KeyAction::Quit
        } else {
            KeyAction::Ignore
        },
        Screen::AccountList => if c == 'c' || c == 'C' {
            KeyAction::ToCreateAccount
        } else {
            KeyAction::Ignore
        },
        Screen::AccountDetail => if c == '+' {
            KeyAction::ToCredit
        } else if c == '-' {
            KeyAction::ToDebit
        } else if c == 's' || c == 'S' {
            KeyAction::RequestStatus(AccountStatus::Suspended)
        } else if c == 'a' || c == 'A' {
            KeyAction::RequestStatus(AccountStatus::Active)
        } else if c == 'x' || c == 'X' {
            KeyAction::RequestStatus(AccountStatus::Closed)
        } else if c == 'd' || c == 'D' {
            KeyAction::RequestDelete
        } else if c == 'i' || c == 'I' {
            KeyAction::ToCreateIntercept
        } else if c == 'f' || c == 'F' {
            KeyAction::ToCreateRule
        } else {
            KeyAction::Ignore
        },
        Screen::Confirm => if c == 'y' || c == 'Y' {
            KeyAction::Confirm
        } else if c == 'n' || c == 'N' {
            KeyAction::Decline
        } else {
            KeyAction::Ignore
        },
        Screen::CaleaList | Screen::PbxList => KeyAction::Ignore,
        Screen::CaleaDetail => if c == 't' || c == 'T' {
            KeyAction::ToggleIntercept
        } else if c == 'd' || c == 'D' {
            KeyAction::DeleteIntercept
        } else {
            KeyAction::Ignore
        },
        Screen::PbxDetail => if c == 't' || c == 'T' {
            KeyAction::ToggleRule
        } else if c == 'd' || c == 'D' {
            KeyAction::DeleteRule
        } else {
            KeyAction::Ignore
        },
        _ => KeyAction::TypeChar(c),
    }
}

/// The action of input byte `b` on `screen`.
pub fn byte_action_exec(screen: Screen, has_rows: bool, b: u8) -> (a: KeyAction)
    ensures
        a == byte_action(screen, has_rows, b),
{
    if b == 3 || b == 4 {
        KeyAction::Interrupt
    } else if b == 27 {
        KeyAction::Escape
    } else if b == 13 {
        match screen {
            Screen::CreateAccount => KeyAction::CreateAccount,
            Screen::SearchByName => KeyAction::SearchByName,
            Screen::SearchByBalance => KeyAction::SearchBalance,
            Screen::CreditDebit => KeyAction::ApplyAmount,
            Screen::CaleaCreate => KeyAction::CreateIntercept,
            Screen::PbxCreate => KeyAction::CreateRule,
            Screen::AccountList => if has_rows {
                KeyAction::SelectAccount
            } else {
                KeyAction::Ignore
            },
            Screen::CaleaList => if has_rows {
                KeyAction::SelectIntercept
            } else {
                KeyAction::Ignore
            },
            Screen::PbxList => if has_rows {
                KeyAction::SelectRule
            } else {
                KeyAction::Ignore
            },
            _ => KeyAction::Ignore,
        }
    } else if b == 9 {
        KeyAction::NextField
    } else if b == 127 || b == 8 {
        KeyAction::Backspace
    } else if b == 32 {
        match screen {
            Screen::AccountList | Screen::SearchByName | Screen::SearchByBalance => if has_rows {
                KeyAction::SelectAccount
            } else {
                KeyAction::Ignore
            },
            Screen::CaleaList => if has_rows {
                KeyAction::SelectIntercept
            } else {
                KeyAction::Ignore
            },
            Screen::PbxList => if has_rows {
                KeyAction::SelectRule
            } else {
                KeyAction::Ignore
            },
            Screen::CaleaDetail | Screen::PbxDetail => KeyAction::Ignore,
            _ => KeyAction::TypeChar(' '),
        }
    } else if 32 < b && b < 127 {
        char_action_exec(screen, b as char)
    } else {
        KeyAction::Ignore
    }
}

/// The action of an arrow-key escape sequence, if `data` is one.
pub fn arrow_action_exec(data: &[u8]) -> (a: Option<KeyAction>)
    ensures
        a == arrow_action(data@),
{
    if data.len() >= 3 && data[0] == 27 && data[1] == 91 {
        Some(
            if data[2] == 65 {
                KeyAction::MoveUp
            } else if data[2] == 66 {
                KeyAction::MoveDown
            } else {
                KeyAction::Ignore
            },
        )
    } else {
        None
    }
}

fn clear_string(s: &mut String)
    ensures
        final(s)@ == Seq::<char>::empty(),
{
    *s = String::new();
}

/// Calls `String::pop`: removes the last character of `s`, if any.
#[verifier::external_body]
fn pop_char(s: &mut String)
    ensures
        final(s)@ == if old(s)@.len() > 0 {
            old(s)@.drop_last()
        } else {
            old(s)@
        },
{
    s.pop();
}

impl App {
    /// A session on the dashboard, with empty inputs and the figures of `db`.
    pub fn new(db: &BillingDb) -> (app: App)
        ensures
            app.screen == Screen::Dashboard,
            app.previous_screen == Screen::Dashboard,
            app.accounts@.len() == 0,
            app.selected_index == 0,
            app.selected_account is None,
            app.input_name@.len() == 0,
            app.input_msisdn@.len() == 0,
            app.input_imsi@.len() == 0,
            app.input_amount@.len() == 0,
            app.input_search@.len() == 0,
            app.input_balance_min@.len() == 0,
            app.input_balance_max@.len() == 0,
            app.active_field == InputField::Name,
            app.is_credit,
            app.status_message@.len() == 0,
            app.confirm_action@.len() == 0,
            app.confirm_callback is None,
            shows_totals(app, db@),
            app.scroll_offset == 0,
            app.intercepts@.len() == 0,
            app.forwarding_rules@.len() == 0,
            app.selected_intercept is None,
            app.selected_forwarding is None,
            app.input_warrant_id@.len() == 0,
            app.input_dest_ip@.len() == 0,
            app.input_dest_port@.len() == 0,
            app.calea_type_index == 0,
            app.input_pbx_dest@.len() == 0,
            app.input_pbx_timeout@.len() == 0,
            app.pbx_type_index == 0,
    {
        let account_count = match db.get_account_count() {
            Ok(n) => n,
            Err(_) => 0,
        };
        let total_balance = match db.get_total_balance() {
            Ok(t) => t,
            Err(_) => 0,
        };
        let intercept_count = match db.get_intercept_count() {
            Ok(n) => n,
            Err(_) => 0,
        };
        let forwarding_count = match db.get_forwarding_count() {
            Ok(n) => n,
            Err(_) => 0,
        };
        App {
            screen: Screen::Dashboard,
            previous_screen: Screen::Dashboard,
            accounts: Vec::new(),
            selected_index: 0,
            selected_account: None,
            input_name: String::new(),
            input_msisdn: String::new(),
            input_imsi: String::new(),
            input_amount: String::new(),
            input_search: String::new(),
            input_balance_min: String::new(),
            input_balance_max: String::new(),
            active_field: InputField::Name,
            is_credit: true,
            status_message: String::new(),
            confirm_action: String::new(),
            confirm_callback: None,
            account_count,
            total_balance,
            scroll_offset: 0,
            intercepts: Vec::new(),
            forwarding_rules: Vec::new(),
            selected_intercept: None,
            selected_forwarding: None,
            input_warrant_id: String::new(),
            input_dest_ip: String::new(),
            input_dest_port: String::new(),
            calea_type_index: 0,
            input_pbx_dest: String::new(),
            input_pbx_timeout: String::new(),
            pbx_type_index: 0,
            intercept_count,
            forwarding_count,
        }
    }

    /// Reloads the dashboard figures from `db`.
    pub fn refresh_dashboard(&mut self, db: &BillingDb)
        ensures
            *final(self) == (App {
                account_count: final(self).account_count,
                total_balance: final(self).total_balance,
                intercept_count: final(self).intercept_count,
                forwarding_count: final(self).forwarding_count,
                ..*old(self)
            }),
            shows_totals(*final(self), db@),
    {
        self.account_count = match db.get_account_count() {
            Ok(n) => n,
            Err(_) => 0,
        };
        self.total_balance = match db.get_total_balance() {
            Ok(t) => t,
            Err(_) => 0,
        };
        self.intercept_count = match db.get_intercept_count() {
            Ok(n) => n,
            Err(_) => 0,
        };
        self.forwarding_count = match db.get_forwarding_count() {
            Ok(n) => n,
            Err(_) => 0,
        };
    }

    /// Reloads the account list from `db`, in order of name.
    pub fn refresh_accounts(&mut self, db: &BillingDb)
        ensures
            *final(self) == (App { accounts: final(self).accounts, ..*old(self) }),
            lists_sorted::<Account, AccountsByName>(final(self).accounts@, db@.accounts),
    {
        match db.list_accounts() {
            Ok(v) => {
                self.accounts = v;
            },
            Err(_) => {
                self.accounts = Vec::new();
            },
        }
    }

    /// Shows all accounts of `db`, the first one selected.
    pub fn go_to_account_list(&mut self, db: &BillingDb)
        ensures
            *final(self) == (App {
                accounts: final(self).accounts,
                selected_index: 0,
                scroll_offset: 0,
                screen: Screen::AccountList,
                ..*old(self)
            }),
            lists_sorted::<Account, AccountsByName>(final(self).accounts@, db@.accounts),
    {
        self.refresh_accounts(db);
        self.selected_index = 0;
        self.scroll_offset = 0;
        self.screen = Screen::AccountList;
    }

    /// Opens an empty create-account form.
    pub fn go_to_create_account(&mut self)
        ensures
            *final(self) == (App {
                input_name: final(self).input_name,
                input_msisdn: final(self).input_msisdn,
                input_imsi: final(self).input_imsi,
                active_field: InputField::Name,
                screen: Screen::CreateAccount,
                ..*old(self)
            }),
            final(self).input_name@.len() == 0,
            final(self).input_msisdn@.len() == 0,
            final(self).input_imsi@.len() == 0,
    {
        clear_string(&mut self.input_name);
        clear_string(&mut self.input_msisdn);
        clear_string(&mut self.input_imsi);
        self.active_field = InputField::Name;
        self.screen = Screen::CreateAccount;
    }

    /// Opens an empty search by name.
    pub fn go_to_search_by_name(&mut self)
        ensures
            *final(self) == (App {
                input_search: final(self).input_search,
                accounts: final(self).accounts,
                selected_index: 0,
                active_field: InputField::SearchQuery,
                screen: Screen::SearchByName,
                ..*old(self)
            }),
            final(self).input_search@.len() == 0,
            final(self).accounts@.len() == 0,
    {
        clear_string(&mut self.input_search);
        self.accounts = Vec::new();
        self.selected_index = 0;
        self.active_field = InputField::SearchQuery;
        self.screen = Screen::SearchByName;
    }

    /// Opens an empty search by balance range.
    pub fn go_to_search_by_balance(&mut self)
        ensures
            *final(self) == (App {
                input_balance_min: final(self).input_balance_min,
                input_balance_max: final(self).input_balance_max,
                accounts: final(self).accounts,
                selected_index: 0,
                active_field: InputField::BalanceMin,
                screen: Screen::SearchByBalance,
                ..*old(self)
            }),
            final(self).input_balance_min@.len() == 0,
            final(self).input_balance_max@.len() == 0,
            final(self).accounts@.len() == 0,
    {
        clear_string(&mut self.input_balance_min);
        clear_string(&mut self.input_balance_max);
        self.accounts = Vec::new();
        self.selected_index = 0;
        self.active_field = InputField::BalanceMin;
        self.screen = Screen::SearchByBalance;
    }

    /// Opens the detail view of the selected account of the list, if there is one.
    pub fn select_account(&mut self)
        ensures
            old(self).selected_index < old(self).accounts@.len() ==> *final(self) == (App {
                selected_account: Some(old(self).accounts@[old(self).selected_index as int]),
                previous_screen: old(self).screen,
                screen: Screen::AccountDetail,
                ..*old(self)
            }),
            old(self).selected_index >= old(self).accounts@.len() ==> *final(self) == *old(self),
    {
        if self.selected_index < self.accounts.len() {
            let a = self.accounts[self.selected_index].clone();
            self.selected_account = Some(a);
            self.previous_screen = self.screen;
            self.screen = Screen::AccountDetail;
        }
    }

    /// Creates the account that the form describes, with id `id` and creation
    /// time `now`, and shows the account list; all three fields must be filled.
    pub fn create_account_at(&mut self, db: &mut BillingDb, id: String, now: i64)
        requires
            old(db).wf(),
        ensures
            final(db).wf(),
            form_submitted(*old(self), *final(self), old(db)@, final(db)@, id@, now),
    {
        if self.input_name.as_str().is_empty() || self.input_msisdn.as_str().is_empty()
            || self.input_imsi.as_str().is_empty() {
            self.status_message = "All fields are required".to_owned();
            return;
        }
        let account = Account::with_identity(
            id,
            now,
            self.input_name.clone(),
            self.input_msisdn.clone(),
            self.input_imsi.clone(),
        );
        match db.create_account(&account) {
            Ok(()) => {
                let mut msg = "Account '".to_owned();
                msg.append(account.name.as_str());
                msg.append("' created successfully");
                self.status_message = msg;
                self.refresh_dashboard(db);
                self.go_to_account_list(db);
            },
            Err(e) => {
                let mut msg = "Error: ".to_owned();
                e.append_message(&mut msg);
                self.status_message = msg;
            },
        }
        assert(is_form_account(account, *old(self), id@, now));
        assert(account_conflicts(old(db)@.accounts, account) ==> {
            &&& *self == (App { status_message: self.status_message, ..*old(self) })
            &&& self.status_message@ == "Error: "@ + "Duplicate account: "@ + account.msisdn@
            &&& db@ == old(db)@
        });
        assert(!account_conflicts(old(db)@.accounts, account) ==> {
            &&& db@ == (BillingState { accounts: old(db)@.accounts.push(account), ..old(db)@ })
            &&& *self == (App {
                status_message: self.status_message,
                account_count: self.account_count,
                total_balance: self.total_balance,
                intercept_count: self.intercept_count,
                forwarding_count: self.forwarding_count,
                accounts: self.accounts,
                selected_index: 0,
                scroll_offset: 0,
                screen: Screen::AccountList,
                ..*old(self)
            })
            &&& self.status_message@ == "Account '"@ + account.name@ + "' created successfully"@
            &&& shows_totals(*self, db@)
            &&& lists_sorted::<Account, AccountsByName>(self.accounts@, db@.accounts)
        });
    }

    /// Creates the account that the form describes, with a fresh id and the
    /// current time, and shows the account list; all three fields must be filled.
    pub fn create_account(&mut self, db: &mut BillingDb)
        requires
            old(db).wf(),
        ensures
            final(db).wf(),
            exists|id: Seq<char>, now: i64|
                is_uuid_text(id) && #[trigger] form_submitted(
                    *old(self),
                    *final(self),
                    old(db)@,
                    final(db)@,
                    id,
                    now,
                ),
    {
        let id = fresh_id();
        let now = current_micros();
        self.create_account_at(db, id, now);
    }

    /// Lists the accounts whose name matches the search text, in order of name.
    pub fn do_search_by_name(&mut self, db: &BillingDb)
        ensures
            *final(self) == (App {
                accounts: final(self).accounts,
                selected_index: 0,
                status_message: final(self).status_message,
                ..*old(self)
            }),
            lists_sorted::<Account, AccountsByName>(
                final(self).accounts@,
                named_like(db@.accounts, old(self).input_search@),
            ),
            final(self).status_message@ == "Found "@ + digits_of(final(self).accounts@.len())
                + " account(s)"@,
    {
        match db.search_accounts_by_name(self.input_search.as_str()) {
            Ok(accounts) => {
                let count = accounts.len();
                self.accounts = accounts;
                self.selected_index = 0;
                let mut msg = "Found ".to_owned();
                msg.append(count_text(count).as_str());
                msg.append(" account(s)");
                self.status_message = msg;
            },
            Err(e) => {
                let mut msg = "Search error: ".to_owned();
                e.append_message(&mut msg);
                self.status_message = msg;
            },
        }
    }

    /// Lists the accounts whose balance lies between the bounds, largest first.
    /// A bound that is `None` (its text did not parse) defaults to zero for
    /// the minimum and to the largest amount for the maximum.
    pub fn do_search_by_balance(&mut self, db: &BillingDb, min: Option<i64>, max: Option<i64>)
        ensures
            ({
                let lo = match min {
                    Some(v) => v,
                    None => 0,
                };
                let hi = match max {
                    Some(v) => v,
                    None => i64::MAX,
                };
                &&& *final(self) == (App {
                    accounts: final(self).accounts,
                    selected_index: 0,
                    status_message: final(self).status_message,
                    ..*old(self)
                })
                &&& lists_sorted::<Account, AccountsByBalanceDesc>(
                    final(self).accounts@,
                    balance_between(db@.accounts, lo, hi),
                )
                &&& final(self).status_message@ == found_in_range_text(
                    final(self).accounts@.len(),
                    lo,
                    hi,
                )
            }),
    {
        let lo = match min {
            Some(v) => v,
            None => 0,
        };
        let hi = match max {
            Some(v) => v,
            None => i64::MAX,
        };
        match db.search_accounts_by_balance(lo, hi) {
            Ok(accounts) => {
                let count = accounts.len();
                self.accounts = accounts;
                self.selected_index = 0;
                let mut msg = "Found ".to_owned();
                msg.append(count_text(count).as_str());
                msg.append(" account(s) in range $");
                append_amount_2dp(&mut msg, lo);
                msg.append(" - $");
                append_amount_2dp(&mut msg, hi);
                self.status_message = msg;
            },
            Err(e) => {
                let mut msg = "Search error: ".to_owned();
                e.append_message(&mut msg);
                self.status_message = msg;
            },
        }
    }

    /// Opens the credit (`is_credit`) or debit form with an empty amount.
    pub fn go_to_credit_debit(&mut self, is_credit: bool)
        ensures
            *final(self) == (App {
                is_credit,
                input_amount: final(self).input_amount,
                active_field: InputField::Amount,
                screen: Screen::CreditDebit,
                ..*old(self)
            }),
            final(self).input_amount@.len() == 0,
    {
        self.is_credit = is_credit;
        clear_string(&mut self.input_amount);
        self.active_field = InputField::Amount;
        self.screen = Screen::CreditDebit;
    }

    /// Credits or debits the selected account by `amount` (the parsed amount
    /// text; `None` when it did not parse). Amounts that are missing, not
    /// positive, or that would carry the balance out of range are refused as
    /// invalid.
    pub fn apply_credit_debit_at(&mut self, db: &mut BillingDb, amount: Option<i64>, now: i64)
        requires
            old(db).wf(),
        ensures
            final(db).wf(),
            transfer_applied(*old(self), *final(self), old(db)@, final(db)@, amount, now),
    {
        let v = match amount {
            Some(v) => v,
            None => 0,
        };
        if v <= 0 {
            self.status_message = "Invalid amount".to_owned();
            return;
        }
        let id = match &self.selected_account {
            Some(a) => a.id.clone(),
            None => {
                return;
            },
        };
        let ghost s = old(db)@.accounts;
        let fits = match db.get_account(id.as_str()) {
            Ok(current) => if self.is_credit {
                current.balance.checked_add(v).is_some()
            } else {
                current.balance.checked_sub(v).is_some()
            },
            Err(_) => true,
        };
        if !fits {
            self.status_message = "Invalid amount".to_owned();
            return;
        }
        proof {
            assert forall|i: int| 0 <= i < s.len() && (#[trigger] s[i]).id@ == id@ implies fits_i64(
                s[i].balance + (if self.is_credit {
                    v as int
                } else {
                    -v
                }),
            ) by {
                lemma_key_unique(s, id@, i);
            }
        }
        let result = if self.is_credit {
            db.credit_at(id.as_str(), v, now)
        } else {
            db.debit_at(id.as_str(), v, now)
        };
        let ghost r = result;
        let ghost db_mid = db@;
        match result {
            Ok(new_balance) => {
                proof {
                    crate::laws::law_balance_read_back(s, id@, new_balance, now);
                }
                let mut msg = if self.is_credit {
                    "Credited".to_owned()
                } else {
                    "Debited".to_owned()
                };
                msg.append(" $");
                append_amount_2dp(&mut msg, v);
                msg.append(". New balance: $");
                append_amount_2dp(&mut msg, new_balance);
                self.status_message = msg;
                match db.get_account(id.as_str()) {
                    Ok(updated) => {
                        self.selected_account = Some(updated);
                    },
                    Err(_) => {},
                }
                self.refresh_dashboard(db);
                self.screen = Screen::AccountDetail;
            },
            Err(e) => {
                let mut msg = "Error: ".to_owned();
                e.append_message(&mut msg);
                self.status_message = msg;
            },
        }
        assert(db@ == db_mid);
        assert(self.is_credit ==> credit_outcome(old(db)@, db@, id@, v, now, r));
        assert(!self.is_credit ==> debit_outcome(old(db)@, db@, id@, v, now, r));
    }

    /// Credits or debits the selected account by `amount`, stamped with the
    /// current time (see `apply_credit_debit_at`).
    pub fn apply_credit_debit(&mut self, db: &mut BillingDb, amount: Option<i64>)
        requires
            old(db).wf(),
        ensures
            final(db).wf(),
            exists|now: i64| #[trigger]
                transfer_applied(*old(self), *final(self), old(db)@, final(db)@, amount, now),
    {
        let now = current_micros();
        self.apply_credit_debit_at(db, amount, now);
    }

    /// Asks to confirm the deletion of the selected account, if there is one.
    pub fn request_delete(&mut self)
        ensures
            old(self).selected_account matches Some(a) ==> {
                &&& *final(self) == (App {
                    confirm_action: final(self).confirm_action,
                    confirm_callback: Some(ConfirmAction::DeleteAccount(a.id)),
                    screen: Screen::Confirm,
                    ..*old(self)
                })
                &&& final(self).confirm_action@ == "Delete account '"@ + a.name@ + "'?"@
            },
            old(self).selected_account is None ==> *final(self) == *old(self),
    {
        match &self.selected_account {
            Some(a) => {
                let mut msg = "Delete account '".to_owned();
                msg.append(a.name.as_str());
                msg.append("'?");
                let id = a.id.clone();
                self.confirm_action = msg;
                self.confirm_callback = Some(ConfirmAction::DeleteAccount(id));
                self.screen = Screen::Confirm;
            },
            None => {},
        }
    }

    /// Asks to confirm setting the selected account, if there is one, to `status`.
    pub fn request_status_change(&mut self, status: AccountStatus)
        ensures
            old(self).selected_account matches Some(a) ==> {
                &&& *final(self) == (App {
                    confirm_action: final(self).confirm_action,
                    confirm_callback: Some(status_action(status, a.id)),
                    screen: Screen::Confirm,
                    ..*old(self)
                })
                &&& final(self).confirm_action@ == status_verb(status) + " account '"@ + a.name@
                    + "'?"@
            },
            old(self).selected_account is None ==> *final(self) == *old(self),
    {
        match &self.selected_account {
            Some(a) => {
                let mut msg = match status {
                    AccountStatus::Active => "Activate".to_owned(),
                    AccountStatus::Suspended => "Suspend".to_owned(),
                    AccountStatus::Closed => "Close".to_owned(),
                };
                msg.append(" account '");
                msg.append(a.name.as_str());
                msg.append("'?");
                let id = a.id.clone();
                let action = match status {
                    AccountStatus::Active => ConfirmAction::ActivateAccount(id),
                    AccountStatus::Suspended => ConfirmAction::SuspendAccount(id),
                    AccountStatus::Closed => ConfirmAction::CloseAccount(id),
                };
                self.confirm_action = msg;
                self.confirm_callback = Some(action);
                self.screen = Screen::Confirm;
            },
            None => {},
        }
    }

    /// Carries out the confirmed action, if any, stamping changes with time `now`.
    pub fn execute_confirm_at(&mut self, db: &mut BillingDb, now: i64)
        requires
            old(db).wf(),
        ensures
            final(db).wf(),
            confirm_applied(*old(self), *final(self), old(db)@, final(db)@, now),
    {
        let action = self.confirm_callback.take();
        match action {
            Some(ConfirmAction::DeleteAccount(id)) => {
                match db.delete_account(id.as_str()) {
                    Ok(()) => {
                        self.status_message = "Account deleted".to_owned();
                        self.selected_account = None;
                        self.refresh_dashboard(db);
                        self.go_to_account_list(db);
                        return;
                    },
                    Err(e) => {
                        let mut msg = "Error: ".to_owned();
                        e.append_message(&mut msg);
                        self.status_message = msg;
                        assert(has_key(old(db)@.accounts, id@) ==> self.status_message@ =~= "Error: "@
                            + "Database error: "@ + "FOREIGN KEY constraint failed"@);
                        assert(!has_key(old(db)@.accounts, id@) ==> self.status_message@ =~= "Error: "@
                            + "Account not found: "@ + id@);
                    },
                }
            },
            Some(ConfirmAction::SuspendAccount(id)) => {
                self.set_status_confirmed(db, id, AccountStatus::Suspended, now);
            },
            Some(ConfirmAction::ActivateAccount(id)) => {
                self.set_status_confirmed(db, id, AccountStatus::Active, now);
            },
            Some(ConfirmAction::CloseAccount(id)) => {
                self.set_status_confirmed(db, id, AccountStatus::Closed, now);
            },
            None => {},
        }
        self.screen = Screen::AccountDetail;
    }

    fn set_status_confirmed(&mut self, db: &mut BillingDb, id: String, status: AccountStatus, now: i64)
        requires
            old(db).wf(),
        ensures
            final(db).wf(),
            status_confirmed(*old(self), *final(self), old(db)@, final(db)@, id@, status, now),
    {
        let r = db.update_status_at(id.as_str(), status, now);
        match r {
            Ok(()) => {
                self.status_message = match status {
                    AccountStatus::Active => "Account activated".to_owned(),
                    AccountStatus::Suspended => "Account suspended".to_owned(),
                    AccountStatus::Closed => "Account closed".to_owned(),
                };
                proof {
                    crate::laws::law_status_read_back(old(db)@.accounts, id@, status, now);
                }
                match db.get_account(id.as_str()) {
                    Ok(updated) => {
                        self.selected_account = Some(updated);
                    },
                    Err(_) => {},
                }
            },
            Err(e) => {
                let mut msg = "Error: ".to_owned();
                e.append_message(&mut msg);
                self.status_message = msg;
            },
        }
    }

    /// Carries out the confirmed action, if any, stamped with the current time.
    pub fn execute_confirm(&mut self, db: &mut BillingDb)
        requires
            old(db).wf(),
        ensures
            final(db).wf(),
            exists|now: i64| #[trigger] confirm_applied(*old(self), *final(self), old(db)@, final(db)@, now),
    {
        let now = current_micros();
        self.execute_confirm_at(db, now);
    }

    /// Moves the list selection one up, if it is not at the top.
    pub fn move_selection_up(&mut self)
        ensures
            old(self).selected_index > 0 ==> *final(self) == (App {
                selected_index: (old(self).selected_index - 1) as usize,
                ..*old(self)
            }),
            old(self).selected_index == 0 ==> *final(self) == *old(self),
    {
        if self.selected_index > 0 {
            self.selected_index = self.selected_index - 1;
        }
    }

    /// Number of rows in the list that the current screen shows.
    pub fn shown_count(&self) -> (n: usize)
        ensures
            n == shown_len(*self),
    {
        match self.screen {
            Screen::CaleaList => self.intercepts.len(),
            Screen::PbxList => self.forwarding_rules.len(),
            _ => self.accounts.len(),
        }
    }

    /// Moves the list selection one down, if it is not at the last row.
    pub fn move_selection_down(&mut self)
        ensures
            old(self).selected_index + 1 < shown_len(*old(self)) ==> *final(self) == (App {
                selected_index: (old(self).selected_index + 1) as usize,
                ..*old(self)
            }),
            old(self).selected_index + 1 >= shown_len(*old(self)) ==> *final(self) == *old(self),
    {
        let n = self.shown_count();
        if n > 0 && self.selected_index < n - 1 {
            self.selected_index = self.selected_index + 1;
        }
    }

    /// Moves to the next input of the create form or of the balance search.
    pub fn next_field(&mut self)
        ensures
            *final(self) == (App {
                active_field: next_field_of(old(self).screen, old(self).active_field),
                ..*old(self)
            }),
    {
        self.active_field = match (self.screen, self.active_field) {
            (Screen::CreateAccount, InputField::Name) => InputField::Msisdn,
            (Screen::CreateAccount, InputField::Msisdn) => InputField::Imsi,
            (Screen::CreateAccount, InputField::Imsi) => InputField::Name,
            (Screen::SearchByBalance, InputField::BalanceMin) => InputField::BalanceMax,
            (Screen::SearchByBalance, InputField::BalanceMax) => InputField::BalanceMin,
            (Screen::CaleaCreate, InputField::CaleaWarrantId) => InputField::CaleaDestIp,
            (Screen::CaleaCreate, InputField::CaleaDestIp) => InputField::CaleaDestPort,
            (Screen::CaleaCreate, InputField::CaleaDestPort) => InputField::CaleaType,
            (Screen::CaleaCreate, InputField::CaleaType) => InputField::CaleaWarrantId,
            (Screen::PbxCreate, InputField::PbxDestAddress) => InputField::PbxForwardType,
            (Screen::PbxCreate, InputField::PbxForwardType) => InputField::PbxTimeout,
            (Screen::PbxCreate, InputField::PbxTimeout) => InputField::PbxDestAddress,
            _ => self.active_field,
        };
    }

    /// Appends `c` to the active input.
    pub fn type_char(&mut self, c: char)
        ensures
            typed(*old(self), *final(self), c),
    {
        match self.active_field {
            InputField::CaleaType => {
                self.calea_type_index = (self.calea_type_index % 4 + 1) % 4;
            },
            InputField::PbxForwardType => {
                self.pbx_type_index = (self.pbx_type_index % 4 + 1) % 4;
            },
            InputField::CaleaWarrantId => push_char(&mut self.input_warrant_id, c),
            InputField::CaleaDestIp => push_char(&mut self.input_dest_ip, c),
            InputField::CaleaDestPort => push_char(&mut self.input_dest_port, c),
            InputField::PbxDestAddress => push_char(&mut self.input_pbx_dest, c),
            InputField::PbxTimeout => push_char(&mut self.input_pbx_timeout, c),
            InputField::Name => push_char(&mut self.input_name, c),
            InputField::Msisdn => push_char(&mut self.input_msisdn, c),
            InputField::Imsi => push_char(&mut self.input_imsi, c),
            InputField::Amount => push_char(&mut self.input_amount, c),
            InputField::SearchQuery => push_char(&mut self.input_search, c),
            InputField::BalanceMin => push_char(&mut self.input_balance_min, c),
            InputField::BalanceMax => push_char(&mut self.input_balance_max, c),
        }
    }

    /// Removes the last character of the active input, if any.
    pub fn backspace(&mut self)
        ensures
            backspaced(*old(self), *final(self)),
    {
        match self.active_field {
            InputField::Name => pop_char(&mut self.input_name),
            InputField::Msisdn => pop_char(&mut self.input_msisdn),
            InputField::Imsi => pop_char(&mut self.input_imsi),
            InputField::Amount => pop_char(&mut self.input_amount),
            InputField::SearchQuery => pop_char(&mut self.input_search),
            InputField::BalanceMin => pop_char(&mut self.input_balance_min),
            InputField::BalanceMax => pop_char(&mut self.input_balance_max),
            InputField::CaleaWarrantId => pop_char(&mut self.input_warrant_id),
            InputField::CaleaDestIp => pop_char(&mut self.input_dest_ip),
            InputField::CaleaDestPort => pop_char(&mut self.input_dest_port),
            InputField::PbxDestAddress => pop_char(&mut self.input_pbx_dest),
            InputField::PbxTimeout => pop_char(&mut self.input_pbx_timeout),
            InputField::CaleaType | InputField::PbxForwardType => {},
        }
    }

    /// The action of input byte `b` on the current screen.
    pub fn key_action(&self, b: u8) -> (a: KeyAction)
        ensures
            a == byte_action(self.screen, shown_len(*self) > 0, b),
    {
        byte_action_exec(self.screen, self.shown_count() > 0, b)
    }

    /// Leaves the current screen: back to the account from its forms, back to
    /// the screen an account was opened from, or back to the dashboard.
    pub fn escape(&mut self, db: &BillingDb)
        ensures
            escaped(*old(self), *final(self), db@),
    {
        match self.screen {
            Screen::Dashboard => {},
            Screen::Confirm | Screen::CreditDebit | Screen::CaleaCreate | Screen::PbxCreate => {
                self.screen = Screen::AccountDetail;
            },
            Screen::CaleaDetail => {
                self.screen = Screen::CaleaList;
                self.refresh_intercepts(db);
            },
            Screen::PbxDetail => {
                self.screen = Screen::PbxList;
                self.refresh_forwarding_rules(db);
            },
            Screen::AccountDetail => {
                self.screen = self.previous_screen;
                if self.screen == Screen::AccountList {
                    self.refresh_accounts(db);
                }
            },
            _ => {
                self.screen = Screen::Dashboard;
                self.refresh_dashboard(db);
            },
        }
    }

    /// Declines the pending confirmation and returns to the account.
    pub fn decline(&mut self)
        ensures
            *final(self) == (App { screen: Screen::AccountDetail, ..*old(self) }),
    {
        self.screen = Screen::AccountDetail;
    }
}

} // verus!
