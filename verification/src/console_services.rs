use vstd::prelude::*;

use crate::calea::{InterceptStatus, InterceptTarget, InterceptType, map_trace_text, trace_text};
use crate::clock::{current_micros, fresh_id, is_uuid_text};
use crate::console::{App, InputField, Screen, shows_totals};
use crate::db::{
    BillingDb, BillingState, InterceptsNewestFirst, RulesNewestFirst, lists_sorted,
    with_intercept_status, with_rule_status,
};
use crate::error::error_text;
use crate::pbx::{ForwardingRule, ForwardingStatus, ForwardingType, map_operation_text};
use crate::rows::{find_key, has_key};
use crate::text::{parse_u32_text, parsed_u32};
use vstd::string::StringExecFns;

verus! {

/// The intercept type at position `i` of the type selector (positions count
/// modulo four): full, signaling only, SMS, data.
pub open spec fn intercept_type_at(i: usize) -> InterceptType {
    if i % 4 == 0 {
        InterceptType::Full
    } else if i % 4 == 1 {
        InterceptType::SignalingOnly
    } else if i % 4 == 2 {
        InterceptType::Sms
    } else {
        InterceptType::Data
    }
}

/// The intercept type at position `i` of the type selector.
pub fn intercept_type_choice(i: usize) -> (t: InterceptType)
    ensures
        t == intercept_type_at(i),
{
    let k = i % 4;
    if k == 0 {
        InterceptType::Full
    } else if k == 1 {
        InterceptType::SignalingOnly
    } else if k == 2 {
        InterceptType::Sms
    } else {
        InterceptType::Data
    }
}

/// The forwarding type at position `i` of the type selector (positions count
/// modulo four): unconditional, busy, no answer, not reachable.
pub open spec fn forwarding_type_at(i: usize) -> ForwardingType {
    if i % 4 == 0 {
        ForwardingType::Unconditional
    } else if i % 4 == 1 {
        ForwardingType::Busy
    } else if i % 4 == 2 {
        ForwardingType::NoAnswer
    } else {
        ForwardingType::NotReachable
    }
}

/// The forwarding type at position `i` of the type selector.
pub fn forwarding_type_choice(i: usize) -> (t: ForwardingType)
    ensures
        t == forwarding_type_at(i),
{
    let k = i % 4;
    if k == 0 {
        ForwardingType::Unconditional
    } else if k == 1 {
        ForwardingType::Busy
    } else if k == 2 {
        ForwardingType::NoAnswer
    } else {
        ForwardingType::NotReachable
    }
}

/// The port that `s` spells, if it is a decimal number below 65536.
pub open spec fn port_value(s: Seq<char>) -> Option<u16> {
    match parsed_u32(s) {
        Some(v) => if v <= 0xffff {
            Some(v as u16)
        } else {
            None
        },
        None => None,
    }
}

/// Reads `s` as a port number.
pub fn parse_port(s: &str) -> (r: Option<u16>)
    ensures
        r == port_value(s@),
{
    match parse_u32_text(s) {
        Some(v) => if v <= 0xffff {
            Some(v as u16)
        } else {
            None
        },
        None => None,
    }
}

/// The console shows message `msg` and nothing else changes.
pub open spec fn refused_with(app: App, post: App, db: BillingState, db_post: BillingState, msg: Seq<char>) -> bool {
    &&& post == (App { status_message: post.status_message, ..app })
    &&& post.status_message@ == msg
    &&& db_post == db
}

/// `post` is `app` showing all intercept targets of `db`, newest first, the
/// first one selected.
pub open spec fn intercepts_shown(app: App, post: App, db: BillingState) -> bool {
    &&& post == (App {
        intercepts: post.intercepts,
        selected_index: 0,
        scroll_offset: 0,
        screen: Screen::CaleaList,
        ..app
    })
    &&& lists_sorted::<InterceptTarget, InterceptsNewestFirst>(post.intercepts@, db.intercepts)
}

/// `post` is `app` showing all forwarding rules of `db`, newest first, the
/// first one selected.
pub open spec fn rules_shown(app: App, post: App, db: BillingState) -> bool {
    &&& post == (App {
        forwarding_rules: post.forwarding_rules,
        selected_index: 0,
        scroll_offset: 0,
        screen: Screen::PbxList,
        ..app
    })
    &&& lists_sorted::<ForwardingRule, RulesNewestFirst>(post.forwarding_rules@, db.forwarding)
}

/// `t` is the intercept target that the create form of `app` describes, with
/// id `id`, creation time `now` and port `port`.
pub open spec fn is_intercept_form(t: InterceptTarget, app: App, id: Seq<char>, now: i64, port: u16) -> bool {
    &&& app.selected_account matches Some(a) && t.account_id == a.id
    &&& t.id@ == id
    &&& t.warrant_id == app.input_warrant_id
    &&& t.intercept_type == intercept_type_at(app.calea_type_index)
    &&& t.dest_ip == app.input_dest_ip
    &&& t.dest_port == port
    &&& t.status == InterceptStatus::Active
    &&& t.created_at == now
    &&& t.updated_at == now
}

/// The effect of submitting the intercept form of `app` for a target with id
/// `id` created at time `now`.
pub open spec fn intercept_form_submitted(
    app: App,
    post: App,
    db: BillingState,
    db_post: BillingState,
    id: Seq<char>,
    now: i64,
) -> bool {
    if app.selected_account is None {
        refused_with(app, post, db, db_post, "No account selected"@)
    } else if app.input_warrant_id@.len() == 0 || app.input_dest_ip@.len() == 0
        || app.input_dest_port@.len() == 0 {
        refused_with(app, post, db, db_post, "All fields are required"@)
    } else if port_value(app.input_dest_port@) is None {
        refused_with(app, post, db, db_post, "Invalid port"@)
    } else {
        exists|t: InterceptTarget|
            #![trigger is_intercept_form(t, app, id, now, port_value(app.input_dest_port@)->Some_0)]
            {
                &&& is_intercept_form(t, app, id, now, port_value(app.input_dest_port@)->Some_0)
                &&& has_key(db.intercepts, id) ==> refused_with(
                    app,
                    post,
                    db,
                    db_post,
                    "Error: "@ + "Database error: "@ + "UNIQUE constraint failed: calea_intercepts.id"@,
                )
                &&& !has_key(db.intercepts, id) && !has_key(db.accounts, t.account_id@) ==> refused_with(
                    app,
                    post,
                    db,
                    db_post,
                    "Error: "@ + "Database error: "@ + "FOREIGN KEY constraint failed"@,
                )
                &&& !has_key(db.intercepts, id) && has_key(db.accounts, t.account_id@) ==> {
                    &&& db_post == (BillingState { intercepts: db.intercepts.push(t), ..db })
                    &&& post == (App {
                        status_message: post.status_message,
                        account_count: post.account_count,
                        total_balance: post.total_balance,
                        intercept_count: post.intercept_count,
                        forwarding_count: post.forwarding_count,
                        intercepts: post.intercepts,
                        selected_index: 0,
                        scroll_offset: 0,
                        screen: Screen::CaleaList,
                        ..app
                    })
                    &&& post.status_message@ == "Intercept created: "@ + trace_text(t)
                    &&& shows_totals(post, db_post)
                    &&& lists_sorted::<InterceptTarget, InterceptsNewestFirst>(
                        post.intercepts@,
                        db_post.intercepts,
                    )
                }
            }
    }
}

/// The effect of toggling the shown intercept target at time `now`.
pub open spec fn intercept_toggled(app: App, post: App, db: BillingState, db_post: BillingState, now: i64) -> bool {
    match app.selected_intercept {
        None => post == app && db_post == db,
        Some(t) => {
            let st = if t.status == InterceptStatus::Active {
                InterceptStatus::Inactive
            } else {
                InterceptStatus::Active
            };
            if has_key(db.intercepts, t.id@) {
                &&& db_post == (BillingState {
                    intercepts: with_intercept_status(db.intercepts, t.id@, st, now),
                    ..db
                })
                &&& post == (App {
                    status_message: post.status_message,
                    selected_intercept: find_key(db_post.intercepts, t.id@),
                    account_count: post.account_count,
                    total_balance: post.total_balance,
                    intercept_count: post.intercept_count,
                    forwarding_count: post.forwarding_count,
                    ..app
                })
                &&& post.selected_intercept is Some
                &&& post.status_message@ == (if st == InterceptStatus::Active {
                    "Intercept activated"@
                } else {
                    "Intercept deactivated"@
                })
                &&& shows_totals(post, db_post)
            } else {
                refused_with(app, post, db, db_post, "Error: "@ + "Account not found: "@ + "intercept "@ + t.id@)
            }
        },
    }
}

/// The effect of deleting the shown intercept target.
pub open spec fn intercept_deleted(app: App, post: App, db: BillingState, db_post: BillingState) -> bool {
    match app.selected_intercept {
        None => post == app && db_post == db,
        Some(t) => if has_key(db.intercepts, t.id@) {
            &&& db_post == (BillingState {
                intercepts: db.intercepts.filter(|x: InterceptTarget| x.id@ != t.id@),
                ..db
            })
            &&& post == (App {
                status_message: post.status_message,
                selected_intercept: None,
                account_count: post.account_count,
                total_balance: post.total_balance,
                intercept_count: post.intercept_count,
                forwarding_count: post.forwarding_count,
                intercepts: post.intercepts,
                selected_index: 0,
                scroll_offset: 0,
                screen: Screen::CaleaList,
                ..app
            })
            &&& post.status_message@ == "Intercept deleted"@
            &&& shows_totals(post, db_post)
            &&& lists_sorted::<InterceptTarget, InterceptsNewestFirst>(post.intercepts@, db_post.intercepts)
        } else {
            refused_with(app, post, db, db_post, "Error: "@ + "Account not found: "@ + "intercept "@ + t.id@)
        },
    }
}

/// `r` is the forwarding rule that the create form of `app` describes, with
/// id `id`, creation time `now` and no-answer timeout `timeout`.
pub open spec fn is_rule_form(r: ForwardingRule, app: App, id: Seq<char>, now: i64, timeout: u32) -> bool {
    &&& app.selected_account matches Some(a) && r.source_account_id == a.id && r.source_msisdn
        == a.msisdn
    &&& r.id@ == id
    &&& r.dest_address == app.input_pbx_dest
    &&& r.forwarding_type == forwarding_type_at(app.pbx_type_index)
    &&& r.no_answer_timeout == timeout
    &&& r.status == ForwardingStatus::Active
    &&& r.created_at == now
    &&& r.updated_at == now
}

/// The effect of submitting the forwarding-rule form of `app` for a rule with
/// id `id` created at time `now`.
pub open spec fn rule_form_submitted(
    app: App,
    post: App,
    db: BillingState,
    db_post: BillingState,
    id: Seq<char>,
    now: i64,
) -> bool {
    if app.selected_account is None {
        refused_with(app, post, db, db_post, "No account selected"@)
    } else if app.input_pbx_dest@.len() == 0 {
        refused_with(app, post, db, db_post, "All fields are required"@)
    } else if parsed_u32(app.input_pbx_timeout@) is None {
        refused_with(app, post, db, db_post, "Invalid timeout"@)
    } else {
        exists|r: ForwardingRule|
            #![trigger is_rule_form(r, app, id, now, parsed_u32(app.input_pbx_timeout@)->Some_0)]
            {
                &&& is_rule_form(r, app, id, now, parsed_u32(app.input_pbx_timeout@)->Some_0)
                &&& has_key(db.forwarding, id) ==> refused_with(
                    app,
                    post,
                    db,
                    db_post,
                    "Error: "@ + "Database error: "@ + "UNIQUE constraint failed: pbx_forwarding.id"@,
                )
                &&& !has_key(db.forwarding, id) && !has_key(db.accounts, r.source_account_id@) ==> refused_with(
                    app,
                    post,
                    db,
                    db_post,
                    "Error: "@ + "Database error: "@ + "FOREIGN KEY constraint failed"@,
                )
                &&& !has_key(db.forwarding, id) && has_key(db.accounts, r.source_account_id@) ==> {
                    &&& db_post == (BillingState { forwarding: db.forwarding.push(r), ..db })
                    &&& post == (App {
                        status_message: post.status_message,
                        account_count: post.account_count,
                        total_balance: post.total_balance,
                        intercept_count: post.intercept_count,
                        forwarding_count: post.forwarding_count,
                        forwarding_rules: post.forwarding_rules,
                        selected_index: 0,
                        scroll_offset: 0,
                        screen: Screen::PbxList,
                        ..app
                    })
                    &&& post.status_message@ == "Forwarding rule created: "@ + map_operation_text(
                        r.forwarding_type,
                        r.dest_address@,
                    )
                    &&& shows_totals(post, db_post)
                    &&& lists_sorted::<ForwardingRule, RulesNewestFirst>(
                        post.forwarding_rules@,
                        db_post.forwarding,
                    )
                }
            }
    }
}

/// The effect of toggling the shown forwarding rule at time `now`.
pub open spec fn rule_toggled(app: App, post: App, db: BillingState, db_post: BillingState, now: i64) -> bool {
    match app.selected_forwarding {
        None => post == app && db_post == db,
        Some(x) => {
            let st = if x.status == ForwardingStatus::Active {
                ForwardingStatus::Inactive
            } else {
                ForwardingStatus::Active
            };
            if has_key(db.forwarding, x.id@) {
                &&& db_post == (BillingState {
                    forwarding: with_rule_status(db.forwarding, x.id@, st, now),
                    ..db
                })
                &&& post == (App {
                    status_message: post.status_message,
                    selected_forwarding: find_key(db_post.forwarding, x.id@),
                    account_count: post.account_count,
                    total_balance: post.total_balance,
                    intercept_count: post.intercept_count,
                    forwarding_count: post.forwarding_count,
                    ..app
                })
                &&& post.selected_forwarding is Some
                &&& post.status_message@ == (if st == ForwardingStatus::Active {
                    "Forwarding rule activated"@
                } else {
                    "Forwarding rule deactivated"@
                })
                &&& shows_totals(post, db_post)
            } else {
                refused_with(
                    app,
                    post,
                    db,
                    db_post,
                    "Error: "@ + "Account not found: "@ + "forwarding rule "@ + x.id@,
                )
            }
        },
    }
}

/// The effect of deleting the shown forwarding rule.
pub open spec fn rule_deleted(app: App, post: App, db: BillingState, db_post: BillingState) -> bool {
    match app.selected_forwarding {
        None => post == app && db_post == db,
        Some(x) => if has_key(db.forwarding, x.id@) {
            &&& db_post == (BillingState {
                forwarding: db.forwarding.filter(|y: ForwardingRule| y.id@ != x.id@),
                ..db
            })
            &&& post == (App {
                status_message: post.status_message,
                selected_forwarding: None,
                account_count: post.account_count,
                total_balance: post.total_balance,
                intercept_count: post.intercept_count,
                forwarding_count: post.forwarding_count,
                forwarding_rules: post.forwarding_rules,
                selected_index: 0,
                scroll_offset: 0,
                screen: Screen::PbxList,
                ..app
            })
            &&& post.status_message@ == "Forwarding rule deleted"@
            &&& shows_totals(post, db_post)
            &&& lists_sorted::<ForwardingRule, RulesNewestFirst>(post.forwarding_rules@, db_post.forwarding)
        } else {
            refused_with(
                app,
                post,
                db,
                db_post,
                "Error: "@ + "Account not found: "@ + "forwarding rule "@ + x.id@,
            )
        },
    }
}

impl App {
    /// Reloads the shown intercept targets from `db`, newest first.
    pub fn refresh_intercepts(&mut self, db: &BillingDb)
        ensures
            *final(self) == (App { intercepts: final(self).intercepts, ..*old(self) }),
            lists_sorted::<InterceptTarget, InterceptsNewestFirst>(final(self).intercepts@, db@.intercepts),
    {
        match db.list_intercepts() {
            Ok(v) => {
                self.intercepts = v;
            },
            Err(_) => {
                self.intercepts = Vec::new();
            },
        }
    }

    /// Reloads the shown forwarding rules from `db`, newest first.
    pub fn refresh_forwarding_rules(&mut self, db: &BillingDb)
        ensures
            *final(self) == (App { forwarding_rules: final(self).forwarding_rules, ..*old(self) }),
            lists_sorted::<ForwardingRule, RulesNewestFirst>(final(self).forwarding_rules@, db@.forwarding),
    {
        match db.list_forwarding_rules() {
            Ok(v) => {
                self.forwarding_rules = v;
            },
            Err(_) => {
                self.forwarding_rules = Vec::new();
            },
        }
    }

    /// Shows all intercept targets of `db`, the first one selected.
    pub fn go_to_intercepts(&mut self, db: &BillingDb)
        ensures
            intercepts_shown(*old(self), *final(self), db@),
    {
        self.refresh_intercepts(db);
        self.selected_index = 0;
        self.scroll_offset = 0;
        self.screen = Screen::CaleaList;
    }

    /// Shows all forwarding rules of `db`, the first one selected.
    pub fn go_to_forwarding_rules(&mut self, db: &BillingDb)
        ensures
            rules_shown(*old(self), *final(self), db@),
    {
        self.refresh_forwarding_rules(db);
        self.selected_index = 0;
        self.scroll_offset = 0;
        self.screen = Screen::PbxList;
    }

    /// Opens the detail view of the selected intercept target, if there is one.
    pub fn select_intercept(&mut self)
        ensures
            old(self).selected_index < old(self).intercepts@.len() ==> *final(self) == (App {
                selected_intercept: Some(old(self).intercepts@[old(self).selected_index as int]),
                screen: Screen::CaleaDetail,
                ..*old(self)
            }),
            old(self).selected_index >= old(self).intercepts@.len() ==> *final(self) == *old(self),
    {
        if self.selected_index < self.intercepts.len() {
            let t = self.intercepts[self.selected_index].clone();
            self.selected_intercept = Some(t);
            self.screen = Screen::CaleaDetail;
        }
    }

    /// Opens the detail view of the selected forwarding rule, if there is one.
    pub fn select_rule(&mut self)
        ensures
            old(self).selected_index < old(self).forwarding_rules@.len() ==> *final(self) == (App {
                selected_forwarding: Some(old(self).forwarding_rules@[old(self).selected_index as int]),
                screen: Screen::PbxDetail,
                ..*old(self)
            }),
            old(self).selected_index >= old(self).forwarding_rules@.len() ==> *final(self) == *old(self),
    {
        if self.selected_index < self.forwarding_rules.len() {
            let x = self.forwarding_rules[self.selected_index].clone();
            self.selected_forwarding = Some(x);
            self.screen = Screen::PbxDetail;
        }
    }

    /// Opens an empty intercept form for the shown account.
    pub fn go_to_create_intercept(&mut self)
        ensures
            *final(self) == (App {
                input_warrant_id: final(self).input_warrant_id,
                input_dest_ip: final(self).input_dest_ip,
                input_dest_port: final(self).input_dest_port,
                calea_type_index: 0,
                active_field: InputField::CaleaWarrantId,
                screen: Screen::CaleaCreate,
                ..*old(self)
            }),
            final(self).input_warrant_id@.len() == 0,
            final(self).input_dest_ip@.len() == 0,
            final(self).input_dest_port@.len() == 0,
    {
        self.input_warrant_id = String::new();
        self.input_dest_ip = String::new();
        self.input_dest_port = String::new();
        self.calea_type_index = 0;
        self.active_field = InputField::CaleaWarrantId;
        self.screen = Screen::CaleaCreate;
    }

    /// Opens a forwarding-rule form for the shown account, with an empty
    /// destination and the standard no-answer timeout of 20 seconds.
    pub fn go_to_create_rule(&mut self)
        ensures
            *final(self) == (App {
                input_pbx_dest: final(self).input_pbx_dest,
                input_pbx_timeout: final(self).input_pbx_timeout,
                pbx_type_index: 0,
                active_field: InputField::PbxDestAddress,
                screen: Screen::PbxCreate,
                ..*old(self)
            }),
            final(self).input_pbx_dest@.len() == 0,
            final(self).input_pbx_timeout@ == "20"@,
    {
        self.input_pbx_dest = String::new();
        self.input_pbx_timeout = "20".to_owned();
        self.pbx_type_index = 0;
        self.active_field = InputField::PbxDestAddress;
        self.screen = Screen::PbxCreate;
    }

    /// Creates the intercept target that the form describes on the shown
    /// account, with id `id` and creation time `now`, and shows the list of
    /// intercept targets.
    pub fn create_intercept_at(&mut self, db: &mut BillingDb, id: String, now: i64)
        requires
            old(db).wf(),
        ensures
            final(db).wf(),
            intercept_form_submitted(*old(self), *final(self), old(db)@, final(db)@, id@, now),
    {
        let account_id = match &self.selected_account {
            Some(a) => a.id.clone(),
            None => {
                self.status_message = "No account selected".to_owned();
                return;
            },
        };
        if self.input_warrant_id.as_str().is_empty() || self.input_dest_ip.as_str().is_empty()
            || self.input_dest_port.as_str().is_empty() {
            self.status_message = "All fields are required".to_owned();
            return;
        }
        let port = match parse_port(self.input_dest_port.as_str()) {
            Some(p) => p,
            None => {
                self.status_message = "Invalid port".to_owned();
                return;
            },
        };
        let target = InterceptTarget::with_identity(
            id,
            now,
            account_id,
            self.input_warrant_id.clone(),
            intercept_type_choice(self.calea_type_index),
            self.input_dest_ip.clone(),
            port,
        );
        match db.create_intercept(&target) {
            Ok(()) => {
                let mut msg = "Intercept created: ".to_owned();
                let line = map_trace_text(&target);
                msg.append(line.as_str());
                self.status_message = msg;
                self.refresh_dashboard(db);
                self.go_to_intercepts(db);
            },
            Err(e) => {
                let mut msg = "Error: ".to_owned();
                e.append_message(&mut msg);
                self.status_message = msg;
                assert(has_key(old(db)@.intercepts, id@) ==> self.status_message@ =~= "Error: "@
                    + "Database error: "@ + "UNIQUE constraint failed: calea_intercepts.id"@);
                assert(!has_key(old(db)@.intercepts, id@) ==> self.status_message@ =~= "Error: "@
                    + "Database error: "@ + "FOREIGN KEY constraint failed"@);
            },
        }
        assert(is_intercept_form(target, *old(self), id@, now, port));
    }

    /// Creates the intercept target that the form describes, with a fresh id
    /// and the current time.
    pub fn create_intercept(&mut self, db: &mut BillingDb)
        requires
            old(db).wf(),
        ensures
            final(db).wf(),
            exists|id: Seq<char>, now: i64|
                is_uuid_text(id) && #[trigger] intercept_form_submitted(
                    *old(self),
                    *final(self),
                    old(db)@,
                    final(db)@,
                    id,
                    now,
                ),
    {
        let id = fresh_id();
        let now = current_micros();
        self.create_intercept_at(db, id, now);
    }

    /// Switches the shown intercept target between active and inactive,
    /// stamping the change with time `now`.
    pub fn toggle_intercept_at(&mut self, db: &mut BillingDb, now: i64)
        requires
            old(db).wf(),
        ensures
            final(db).wf(),
            intercept_toggled(*old(self), *final(self), old(db)@, final(db)@, now),
    {
        let (id, st) = match &self.selected_intercept {
            Some(t) => (
                t.id.clone(),
                if t.status == InterceptStatus::Active {
                    InterceptStatus::Inactive
                } else {
                    InterceptStatus::Active
                },
            ),
            None => {
                return;
            },
        };
        match db.update_intercept_status_at(id.as_str(), st, now) {
            Ok(()) => {
                proof {
                    crate::laws::law_intercept_status_read_back(old(db)@.intercepts, id@, st, now);
                }
                self.status_message = match st {
                    InterceptStatus::Active => "Intercept activated".to_owned(),
                    InterceptStatus::Inactive => "Intercept deactivated".to_owned(),
                };
                match db.get_intercept(id.as_str()) {
                    Ok(t) => {
                        self.selected_intercept = Some(t);
                    },
                    Err(_) => {},
                }
                self.refresh_dashboard(db);
            },
            Err(e) => {
                let mut msg = "Error: ".to_owned();
                e.append_message(&mut msg);
                self.status_message = msg;
                assert(self.status_message@ =~= "Error: "@ + "Account not found: "@ + "intercept "@ + id@);
            },
        }
    }

    /// Switches the shown intercept target between active and inactive,
    /// stamped with the current time.
    pub fn toggle_intercept(&mut self, db: &mut BillingDb)
        requires
            old(db).wf(),
        ensures
            final(db).wf(),
            exists|now: i64| #[trigger] intercept_toggled(*old(self), *final(self), old(db)@, final(db)@, now),
    {
        let now = current_micros();
        self.toggle_intercept_at(db, now);
    }

    /// Deletes the shown intercept target and shows the remaining ones.
    pub fn delete_intercept(&mut self, db: &mut BillingDb)
        requires
            old(db).wf(),
        ensures
            final(db).wf(),
            intercept_deleted(*old(self), *final(self), old(db)@, final(db)@),
    {
        let id = match &self.selected_intercept {
            Some(t) => t.id.clone(),
            None => {
                return;
            },
        };
        match db.delete_intercept(id.as_str()) {
            Ok(()) => {
                self.status_message = "Intercept deleted".to_owned();
                self.selected_intercept = None;
                self.refresh_dashboard(db);
                self.go_to_intercepts(db);
            },
            Err(e) => {
                let mut msg = "Error: ".to_owned();
                e.append_message(&mut msg);
                self.status_message = msg;
                assert(self.status_message@ =~= "Error: "@ + "Account not found: "@ + "intercept "@ + id@);
            },
        }
    }

    /// Creates the forwarding rule that the form describes on the shown
    /// account, with id `id` and creation time `now`, and shows the list of
    /// forwarding rules.
    pub fn create_forwarding_rule_at(&mut self, db: &mut BillingDb, id: String, now: i64)
        requires
            old(db).wf(),
        ensures
            final(db).wf(),
            rule_form_submitted(*old(self), *final(self), old(db)@, final(db)@, id@, now),
    {
        let (account_id, msisdn) = match &self.selected_account {
            Some(a) => (a.id.clone(), a.msisdn.clone()),
            None => {
                self.status_message = "No account selected".to_owned();
                return;
            },
        };
        if self.input_pbx_dest.as_str().is_empty() {
            self.status_message = "All fields are required".to_owned();
            return;
        }
        let timeout = match parse_u32_text(self.input_pbx_timeout.as_str()) {
            Some(v) => v,
            None => {
                self.status_message = "Invalid timeout".to_owned();
                return;
            },
        };
        let rule = ForwardingRule::with_identity(
            id,
            now,
            account_id,
            msisdn,
            self.input_pbx_dest.clone(),
            forwarding_type_choice(self.pbx_type_index),
            timeout,
        );
        match db.create_forwarding_rule(&rule) {
            Ok(()) => {
                let mut msg = "Forwarding rule created: ".to_owned();
                let op = rule.ss7_map_operation();
                msg.append(op.as_str());
                self.status_message = msg;
                self.refresh_dashboard(db);
                self.go_to_forwarding_rules(db);
            },
            Err(e) => {
                let mut msg = "Error: ".to_owned();
                e.append_message(&mut msg);
                self.status_message = msg;
                assert(has_key(old(db)@.forwarding, id@) ==> self.status_message@ =~= "Error: "@
                    + "Database error: "@ + "UNIQUE constraint failed: pbx_forwarding.id"@);
                assert(!has_key(old(db)@.forwarding, id@) ==> self.status_message@ =~= "Error: "@
                    + "Database error: "@ + "FOREIGN KEY constraint failed"@);
            },
        }
        assert(is_rule_form(rule, *old(self), id@, now, timeout));
    }

    /// Creates the forwarding rule that the form describes, with a fresh id
    /// and the current time.
    pub fn create_forwarding_rule(&mut self, db: &mut BillingDb)
        requires
            old(db).wf(),
        ensures
            final(db).wf(),
            exists|id: Seq<char>, now: i64|
                is_uuid_text(id) && #[trigger] rule_form_submitted(
                    *old(self),
                    *final(self),
                    old(db)@,
                    final(db)@,
                    id,
                    now,
                ),
    {
        let id = fresh_id();
        let now = current_micros();
        self.create_forwarding_rule_at(db, id, now);
    }

    /// Switches the shown forwarding rule between active and inactive,
    /// stamping the change with time `now`.
    pub fn toggle_rule_at(&mut self, db: &mut BillingDb, now: i64)
        requires
            old(db).wf(),
        ensures
            final(db).wf(),
            rule_toggled(*old(self), *final(self), old(db)@, final(db)@, now),
    {
        let (id, st) = match &self.selected_forwarding {
            Some(x) => (
                x.id.clone(),
                if x.status == ForwardingStatus::Active {
                    ForwardingStatus::Inactive
                } else {
                    ForwardingStatus::Active
                },
            ),
            None => {
                return;
            },
        };
        match db.update_forwarding_status_at(id.as_str(), st, now) {
            Ok(()) => {
                proof {
                    crate::laws::law_rule_status_read_back(old(db)@.forwarding, id@, st, now);
                }
                self.status_message = match st {
                    ForwardingStatus::Active => "Forwarding rule activated".to_owned(),
                    ForwardingStatus::Inactive => "Forwarding rule deactivated".to_owned(),
                };
                match db.get_forwarding_rule(id.as_str()) {
                    Ok(x) => {
                        self.selected_forwarding = Some(x);
                    },
                    Err(_) => {},
                }
                self.refresh_dashboard(db);
            },
            Err(e) => {
                let mut msg = "Error: ".to_owned();
                e.append_message(&mut msg);
                self.status_message = msg;
                assert(self.status_message@ =~= "Error: "@ + "Account not found: "@ + "forwarding rule "@ + id@);
            },
        }
    }

    /// Switches the shown forwarding rule between active and inactive,
    /// stamped with the current time.
    pub fn toggle_rule(&mut self, db: &mut BillingDb)
        requires
            old(db).wf(),
        ensures
            final(db).wf(),
            exists|now: i64| #[trigger] rule_toggled(*old(self), *final(self), old(db)@, final(db)@, now),
    {
        let now = current_micros();
        self.toggle_rule_at(db, now);
    }

    /// Deletes the shown forwarding rule and shows the remaining ones.
    pub fn delete_rule(&mut self, db: &mut BillingDb)
        requires
            old(db).wf(),
        ensures
            final(db).wf(),
            rule_deleted(*old(self), *final(self), old(db)@, final(db)@),
    {
        let id = match &self.selected_forwarding {
            Some(x) => x.id.clone(),
            None => {
                return;
            },
        };
        match db.delete_forwarding_rule(id.as_str()) {
            Ok(()) => {
                self.status_message = "Forwarding rule deleted".to_owned();
                self.selected_forwarding = None;
                self.refresh_dashboard(db);
                self.go_to_forwarding_rules(db);
            },
            Err(e) => {
                let mut msg = "Error: ".to_owned();
                e.append_message(&mut msg);
                self.status_message = msg;
                assert(self.status_message@ =~= "Error: "@ + "Account not found: "@ + "forwarding rule "@ + id@);
            },
        }
    }
}

} // verus!
