use vstd::prelude::*;

use crate::account::{Account, AccountStatus};
use crate::calea::{InterceptStatus, InterceptTarget};
use crate::cdr::CallDetailRecord;
use crate::db::{
    AccountsByName, InterceptsNewestFirst, RulesNewestFirst, lists_sorted,
    BillingState, account_conflicts, change_fits, fits_i64, active_intercepts, active_rules, balance_total, cdrs_not_of,
    cdrs_of, credit_outcome, debit_outcome, find_by_msisdn, named_like, with_balance,
    with_intercept_status, with_rule_status, with_status,
};
use crate::pbx::{ForwardingRule, ForwardingStatus};
use crate::rows::{Row, find_key, has_key, keys_distinct, lemma_key_unique};
use crate::console::{App, InputField, Screen, backspaced, byte_action, edited, is_selector, shown_len, typed};
use crate::dispatch::performed;
use crate::text::{
    all_digits, contains_pattern, decimal_value, fold_ascii, folded, folded_contains, is_digit, like_match,
    parsed_u32, text_le,
};
use crate::format::{digit_char, digits_of};
use crate::cdr::CallType;
use crate::rating::RatingEngine;
use crate::console::ConfirmAction;
use crate::console_services::{
    intercept_deleted, intercept_form_submitted, intercept_toggled, port_value, rule_deleted,
    rule_form_submitted, rule_toggled,
};
use crate::clock::is_uuid_text;

verus! {

broadcast use {vstd::seq_lib::group_filter_ensures, vstd::seq_lib::group_to_multiset_ensures};

/// A created account can be read back, by id and by MSISDN.
pub proof fn law_created_account_is_found(pre: BillingState, a: Account)
    requires
        pre.wf(),
        !account_conflicts(pre.accounts, a),
    ensures
        find_key(pre.accounts.push(a), a.id@) == Some(a),
        find_by_msisdn(pre.accounts.push(a), a.msisdn@) == Some(a),
{
    let s = pre.accounts.push(a);
    let n = pre.accounts.len() as int;
    assert(s[n] == a);
    assert forall|i: int| 0 <= i < n implies s[i].id@ != a.id@ && s[i].msisdn@ != a.msisdn@ by {
        assert(s[i] == pre.accounts[i]);
        if s[i].id@ == a.id@ || s[i].msisdn@ == a.msisdn@ {
            assert(account_conflicts(pre.accounts, a));
        }
    }
    assert(keys_distinct(s)) by {
        assert forall|i: int, j: int| 0 <= i < j < s.len() implies (|x: Account| x.key())(
            #[trigger] s[i],
        ) != (|x: Account| x.key())(#[trigger] s[j]) by {
            if j < n {
                assert(s[i] == pre.accounts[i] && s[j] == pre.accounts[j]);
            }
        }
    }
    lemma_key_unique(s, a.id@, n);
    assert(exists|i: int| 0 <= i < s.len() && (#[trigger] s[i]).msisdn@ == a.msisdn@) by {
        assert(s[n].msisdn@ == a.msisdn@);
    }
    let k = choose|k: int| 0 <= k < s.len() && (#[trigger] s[k]).msisdn@ == a.msisdn@;
    assert(k == n);
}

/// Setting the balance of an account is what a later read gives back.
pub proof fn law_balance_read_back(s: Seq<Account>, id: Seq<char>, balance: i64, now: i64)
    requires
        keys_distinct(s),
        has_key(s, id),
    ensures
        find_key(with_balance(s, id, balance, now), id) matches Some(b) && find_key(s, id) matches Some(
            a,
        ) && b == (Account { balance, updated_at: now, ..a }),
{
    let i = choose|i: int| 0 <= i < s.len() && #[trigger] s[i].key() == id;
    lemma_key_unique(s, id, i);
    let t = with_balance(s, id, balance, now);
    assert(keys_distinct(t)) by {
        assert forall|p: int, q: int| 0 <= p < q < t.len() implies (|x: Account| x.key())(
            #[trigger] t[p],
        ) != (|x: Account| x.key())(#[trigger] t[q]) by {
            assert((|x: Account| x.key())(s[p]) != (|x: Account| x.key())(s[q]));
        }
    }
    lemma_key_unique(t, id, i);
}

/// Setting the status of an account is what a later read gives back.
pub proof fn law_status_read_back(s: Seq<Account>, id: Seq<char>, status: AccountStatus, now: i64)
    requires
        keys_distinct(s),
        has_key(s, id),
    ensures
        find_key(with_status(s, id, status, now), id) matches Some(b) && find_key(s, id) matches Some(
            a,
        ) && b == (Account { status, updated_at: now, ..a }),
{
    let i = choose|i: int| 0 <= i < s.len() && #[trigger] s[i].key() == id;
    lemma_key_unique(s, id, i);
    let t = with_status(s, id, status, now);
    assert(keys_distinct(t)) by {
        assert forall|p: int, q: int| 0 <= p < q < t.len() implies (|x: Account| x.key())(
            #[trigger] t[p],
        ) != (|x: Account| x.key())(#[trigger] t[q]) by {
            assert((|x: Account| x.key())(s[p]) != (|x: Account| x.key())(s[q]));
        }
    }
    lemma_key_unique(t, id, i);
}

/// Setting the status of an intercept target is what a later read gives back.
pub proof fn law_intercept_status_read_back(s: Seq<InterceptTarget>, id: Seq<char>, status: InterceptStatus, now: i64)
    requires
        keys_distinct(s),
        has_key(s, id),
    ensures
        find_key(with_intercept_status(s, id, status, now), id) matches Some(b) && find_key(s, id) matches Some(
            a,
        ) && b == (InterceptTarget { status, updated_at: now, ..a }),
{
    let i = choose|i: int| 0 <= i < s.len() && #[trigger] s[i].key() == id;
    lemma_key_unique(s, id, i);
    let t = with_intercept_status(s, id, status, now);
    assert(keys_distinct(t)) by {
        assert forall|p: int, q: int| 0 <= p < q < t.len() implies (|x: InterceptTarget| x.key())(
            #[trigger] t[p],
        ) != (|x: InterceptTarget| x.key())(#[trigger] t[q]) by {
            assert((|x: InterceptTarget| x.key())(s[p]) != (|x: InterceptTarget| x.key())(s[q]));
        }
    }
    lemma_key_unique(t, id, i);
}

/// Setting the status of a forwarding rule is what a later read gives back.
pub proof fn law_rule_status_read_back(s: Seq<ForwardingRule>, id: Seq<char>, status: ForwardingStatus, now: i64)
    requires
        keys_distinct(s),
        has_key(s, id),
    ensures
        find_key(with_rule_status(s, id, status, now), id) matches Some(b) && find_key(s, id) matches Some(
            a,
        ) && b == (ForwardingRule { status, updated_at: now, ..a }),
{
    let i = choose|i: int| 0 <= i < s.len() && #[trigger] s[i].key() == id;
    lemma_key_unique(s, id, i);
    let t = with_rule_status(s, id, status, now);
    assert(keys_distinct(t)) by {
        assert forall|p: int, q: int| 0 <= p < q < t.len() implies (|x: ForwardingRule| x.key())(
            #[trigger] t[p],
        ) != (|x: ForwardingRule| x.key())(#[trigger] t[q]) by {
            assert((|x: ForwardingRule| x.key())(s[p]) != (|x: ForwardingRule| x.key())(s[q]));
        }
    }
    lemma_key_unique(t, id, i);
}

/// A successful debit never leaves the account overdrawn.
pub proof fn law_debit_never_overdraws(
    pre: BillingState,
    post: BillingState,
    id: Seq<char>,
    amount: i64,
    now: i64,
    r: Result<i64, crate::error::BillingError>,
)
    requires
        pre.wf(),
        change_fits(pre.accounts, id, -amount),
        debit_outcome(pre, post, id, amount, now, r),
        r is Ok,
    ensures
        r->Ok_0 >= 0,
        find_key(post.accounts, id) matches Some(b) && b.balance >= 0,
{
    let a = find_key(pre.accounts, id)->Some_0;
    let i = choose|i: int| 0 <= i < pre.accounts.len() && #[trigger] pre.accounts[i].key() == id;
    assert(pre.accounts[i] == a);
    assert(a.balance >= amount);
    assert(fits_i64(a.balance - amount));
    law_balance_read_back(pre.accounts, id, (a.balance - amount) as i64, now);
}

/// Crediting an active account with a non-negative balance and then debiting
/// the same amount succeeds and restores the balance.
pub proof fn law_credit_then_debit_restores(
    s0: BillingState,
    s1: BillingState,
    s2: BillingState,
    id: Seq<char>,
    amount: i64,
    t1: i64,
    t2: i64,
    r1: Result<i64, crate::error::BillingError>,
    r2: Result<i64, crate::error::BillingError>,
)
    requires
        s0.wf(),
        change_fits(s0.accounts, id, amount as int),
        find_key(s0.accounts, id) matches Some(a) && a.status == AccountStatus::Active && a.balance
            >= 0,
        credit_outcome(s0, s1, id, amount, t1, r1),
        debit_outcome(s1, s2, id, amount, t2, r2),
    ensures
        r2 is Ok,
        find_key(s0.accounts, id) matches Some(a) && find_key(s2.accounts, id) matches Some(c)
            && c.balance == a.balance,
{
    let a = find_key(s0.accounts, id)->Some_0;
    assert(has_key(s0.accounts, id));
    let i0 = choose|i: int| 0 <= i < s0.accounts.len() && #[trigger] s0.accounts[i].key() == id;
    assert(s0.accounts[i0] == a);
    assert(fits_i64(a.balance + amount));
    assert(s1.accounts == with_balance(s0.accounts, id, (a.balance + amount) as i64, t1));
    law_balance_read_back(s0.accounts, id, (a.balance + amount) as i64, t1);
    let b = find_key(s1.accounts, id)->Some_0;
    assert(keys_distinct(s1.accounts)) by {
        let t = s1.accounts;
        let s = s0.accounts;
        assert forall|p: int, q: int| 0 <= p < q < t.len() implies (|x: Account| x.key())(
            #[trigger] t[p],
        ) != (|x: Account| x.key())(#[trigger] t[q]) by {
            assert((|x: Account| x.key())(s[p]) != (|x: Account| x.key())(s[q]));
        }
    }
    assert(has_key(s1.accounts, id)) by {
        let i = choose|i: int| 0 <= i < s0.accounts.len() && #[trigger] s0.accounts[i].key() == id;
        assert(s1.accounts[i].key() == id);
    }
    law_balance_read_back(s1.accounts, id, (b.balance - amount) as i64, t2);
}

/// Every account that a search by name returns matches the pattern `%query%`.
pub proof fn law_search_results_match(v: Seq<Account>, s: Seq<Account>, query: Seq<char>)
    requires
        v.to_multiset() == named_like(s, query).to_multiset(),
    ensures
        forall|i: int| 0 <= i < v.len() ==> like_match(contains_pattern(query), (#[trigger] v[i]).name@),
{
    let pred = |a: Account| like_match(contains_pattern(query), a.name@);
    assert forall|i: int| 0 <= i < v.len() implies like_match(
        contains_pattern(query),
        (#[trigger] v[i]).name@,
    ) by {
        assert(v.contains(v[i]));
        assert(v.to_multiset().count(v[i]) > 0);
        assert(s.filter(pred).contains(v[i]));
        let k = choose|k: int| 0 <= k < s.filter(pred).len() && s.filter(pred)[k] == v[i];
        assert(pred(s.filter(pred)[k]));
    }
}

/// After an account is deleted, no call detail record of it remains, and it
/// can no longer be found.
pub proof fn law_delete_cascades(accounts: Seq<Account>, cdrs: Seq<CallDetailRecord>, id: Seq<char>)
    ensures
        cdrs_of(cdrs_not_of(cdrs, id), id).len() == 0,
        !has_key(accounts.filter(|a: Account| a.id@ != id), id),
{
    lemma_no_cdrs_left(cdrs, id);
    let rest = accounts.filter(|a: Account| a.id@ != id);
    if has_key(rest, id) {
        let j = choose|j: int| 0 <= j < rest.len() && #[trigger] rest[j].key() == id;
        assert(rest[j].id@ != id);
    }
}

proof fn lemma_no_cdrs_left(cdrs: Seq<CallDetailRecord>, id: Seq<char>)
    ensures
        cdrs_of(cdrs_not_of(cdrs, id), id).len() == 0,
    decreases cdrs.len(),
{
    reveal(Seq::filter);
    if cdrs.len() > 0 {
        lemma_no_cdrs_left(cdrs.drop_last(), id);
        if cdrs.last().account_id@ != id {
            assert(cdrs_not_of(cdrs, id) == cdrs_not_of(cdrs.drop_last(), id).push(cdrs.last()));
            assert(cdrs_not_of(cdrs, id).drop_last() =~= cdrs_not_of(cdrs.drop_last(), id));
        }
    }
}

/// Deactivating an active intercept target lowers the active count by one;
/// the count covers active targets only.
pub proof fn law_deactivating_intercept_lowers_count(s: Seq<InterceptTarget>, id: Seq<char>, now: i64)
    requires
        keys_distinct(s),
        find_key(s, id) matches Some(t) && t.status == InterceptStatus::Active,
    ensures
        active_intercepts(with_intercept_status(s, id, InterceptStatus::Inactive, now)).len() + 1
            == active_intercepts(s).len(),
    decreases s.len(),
{
    reveal(Seq::filter);
    let i = choose|i: int| 0 <= i < s.len() && #[trigger] s[i].key() == id;
    lemma_key_unique(s, id, i);
    let t = with_intercept_status(s, id, InterceptStatus::Inactive, now);
    let r = s.drop_last();
    assert(t.drop_last() =~= with_intercept_status(r, id, InterceptStatus::Inactive, now));
    if i == s.len() - 1 {
        lemma_intercepts_untouched(r, id, now);
    } else {
        assert(keys_distinct(r)) by {
            assert forall|p: int, q: int| 0 <= p < q < r.len() implies (|x: InterceptTarget| x.key())(
                #[trigger] r[p],
            ) != (|x: InterceptTarget| x.key())(#[trigger] r[q]) by {
                assert(r[p] == s[p] && r[q] == s[q]);
            }
        }
        assert(r[i] == s[i]);
        lemma_key_unique(r, id, i);
        law_deactivating_intercept_lowers_count(r, id, now);
        assert(t.last() == s.last());
    }
}

/// Setting the status of a target that is absent changes nothing.
proof fn lemma_intercepts_untouched(s: Seq<InterceptTarget>, id: Seq<char>, now: i64)
    requires
        forall|j: int| 0 <= j < s.len() ==> (#[trigger] s[j]).key() != id,
    ensures
        with_intercept_status(s, id, InterceptStatus::Inactive, now) == s,
{
    assert(with_intercept_status(s, id, InterceptStatus::Inactive, now) =~= s);
}

/// Deactivating an active forwarding rule lowers the active count by one;
/// the count covers active rules only.
pub proof fn law_deactivating_rule_lowers_count(s: Seq<ForwardingRule>, id: Seq<char>, now: i64)
    requires
        keys_distinct(s),
        find_key(s, id) matches Some(x) && x.status == ForwardingStatus::Active,
    ensures
        active_rules(with_rule_status(s, id, ForwardingStatus::Inactive, now)).len() + 1
            == active_rules(s).len(),
    decreases s.len(),
{
    reveal(Seq::filter);
    let i = choose|i: int| 0 <= i < s.len() && #[trigger] s[i].key() == id;
    lemma_key_unique(s, id, i);
    let t = with_rule_status(s, id, ForwardingStatus::Inactive, now);
    let r = s.drop_last();
    assert(t.drop_last() =~= with_rule_status(r, id, ForwardingStatus::Inactive, now));
    if i == s.len() - 1 {
        assert(with_rule_status(r, id, ForwardingStatus::Inactive, now) =~= r);
    } else {
        assert(keys_distinct(r)) by {
            assert forall|p: int, q: int| 0 <= p < q < r.len() implies (|x: ForwardingRule| x.key())(
                #[trigger] r[p],
            ) != (|x: ForwardingRule| x.key())(#[trigger] r[q]) by {
                assert(r[p] == s[p] && r[q] == s[q]);
            }
        }
        assert(r[i] == s[i]);
        lemma_key_unique(r, id, i);
        law_deactivating_rule_lowers_count(r, id, now);
        assert(t.last() == s.last());
    }
}

/// Setting the balance of one account moves the total by the difference.
pub proof fn law_total_follows_balance(s: Seq<Account>, id: Seq<char>, balance: i64, now: i64)
    requires
        keys_distinct(s),
        find_key(s, id) is Some,
    ensures
        balance_total(with_balance(s, id, balance, now)) == balance_total(s) - find_key(
            s,
            id,
        )->Some_0.balance + balance,
    decreases s.len(),
{
    let i = choose|i: int| 0 <= i < s.len() && #[trigger] s[i].key() == id;
    lemma_key_unique(s, id, i);
    let t = with_balance(s, id, balance, now);
    let r = s.drop_last();
    assert(t.drop_last() =~= with_balance(r, id, balance, now));
    if i == s.len() - 1 {
        assert(with_balance(r, id, balance, now) =~= r);
    } else {
        assert(keys_distinct(r)) by {
            assert forall|p: int, q: int| 0 <= p < q < r.len() implies (|x: Account| x.key())(
                #[trigger] r[p],
            ) != (|x: Account| x.key())(#[trigger] r[q]) by {
                assert(r[p] == s[p] && r[q] == s[q]);
            }
        }
        assert(r[i] == s[i]);
        lemma_key_unique(r, id, i);
        law_total_follows_balance(r, id, balance, now);
        assert(t.last() == s.last());
    }
}

/// `q` holds no `LIKE` wildcard.
pub open spec fn no_wildcards(q: Seq<char>) -> bool {
    forall|i: int| 0 <= i < q.len() ==> (#[trigger] q[i]) != '%' && q[i] != '_'
}

/// `%` matches any text.
proof fn lemma_percent_matches_all(t: Seq<char>)
    ensures
        like_match(seq!['%'], t),
    decreases t.len(),
{
    let p = seq!['%'];
    assert(p.drop_first() =~= Seq::<char>::empty());
    if t.len() > 0 {
        lemma_percent_matches_all(t.drop_first());
    } else {
        assert(like_match(p.drop_first(), t));
    }
}

/// A text without wildcards followed by `%` matches itself followed by anything.
proof fn lemma_literal_prefix(q: Seq<char>, post: Seq<char>)
    requires
        no_wildcards(q),
    ensures
        like_match(q + seq!['%'], q + post),
    decreases q.len(),
{
    if q.len() == 0 {
        assert(q + seq!['%'] =~= seq!['%']);
        assert(q + post =~= post);
        lemma_percent_matches_all(post);
    } else {
        let p = q + seq!['%'];
        let t = q + post;
        assert(p[0] == q[0] && t[0] == q[0]);
        assert(q[0] != '%' && q[0] != '_');
        assert(p.drop_first() =~= q.drop_first() + seq!['%']);
        assert(t.drop_first() =~= q.drop_first() + post);
        assert(no_wildcards(q.drop_first())) by {
            assert forall|i: int| 0 <= i < q.drop_first().len() implies (#[trigger] q.drop_first()[i])
                != '%' && q.drop_first()[i] != '_' by {
                assert(q.drop_first()[i] == q[i + 1]);
            }
        }
        lemma_literal_prefix(q.drop_first(), post);
        assert(fold_ascii(p[0]) == fold_ascii(t[0]));
    }
}

/// A leading `%` may skip any prefix of the text.
proof fn lemma_percent_skips(rest: Seq<char>, pre: Seq<char>, t: Seq<char>)
    requires
        like_match(rest, t),
    ensures
        like_match(seq!['%'] + rest, pre + t),
    decreases pre.len(),
{
    let p = seq!['%'] + rest;
    assert(p[0] == '%');
    assert(p.drop_first() =~= rest);
    if pre.len() == 0 {
        assert(pre + t =~= t);
    } else {
        lemma_percent_skips(rest, pre.drop_first(), t);
        assert((pre + t).drop_first() =~= pre.drop_first() + t);
    }
}

/// A name that contains the query (which holds no wildcard) matches the
/// search pattern `%query%`.
pub proof fn law_containing_name_matches(q: Seq<char>, pre: Seq<char>, post: Seq<char>)
    requires
        no_wildcards(q),
    ensures
        like_match(contains_pattern(q), pre + q + post),
{
    lemma_literal_prefix(q, post);
    lemma_percent_skips(q + seq!['%'], pre, q + post);
    assert(contains_pattern(q) =~= seq!['%'] + (q + seq!['%']));
    assert(pre + q + post =~= pre + (q + post));
}

/// The search by name finds every account whose name contains the query
/// (when the query holds no wildcard).
pub proof fn law_search_finds_containing(s: Seq<Account>, q: Seq<char>, i: int, pre: Seq<char>, post: Seq<char>)
    requires
        no_wildcards(q),
        0 <= i < s.len(),
        s[i].name@ == pre + q + post,
    ensures
        named_like(s, q).contains(s[i]),
{
    law_containing_name_matches(q, pre, post);
    s.lemma_filter_contains(|a: Account| like_match(contains_pattern(q), a.name@), i);
}

/// Typing a character into a text input and then deleting it gives back the
/// input as it was.
pub proof fn law_type_then_backspace(app: App, mid: App, post: App, c: char)
    requires
        !is_selector(app.active_field),
        typed(app, mid, c),
        backspaced(mid, post),
    ensures
        edited(app, post, |t: Seq<char>| t),
{
    assert(app.input_name@.push(c).drop_last() =~= app.input_name@);
    assert(app.input_msisdn@.push(c).drop_last() =~= app.input_msisdn@);
    assert(app.input_imsi@.push(c).drop_last() =~= app.input_imsi@);
    assert(app.input_amount@.push(c).drop_last() =~= app.input_amount@);
    assert(app.input_search@.push(c).drop_last() =~= app.input_search@);
    assert(app.input_balance_min@.push(c).drop_last() =~= app.input_balance_min@);
    assert(app.input_balance_max@.push(c).drop_last() =~= app.input_balance_max@);
    assert(app.input_warrant_id@.push(c).drop_last() =~= app.input_warrant_id@);
    assert(app.input_dest_ip@.push(c).drop_last() =~= app.input_dest_ip@);
    assert(app.input_dest_port@.push(c).drop_last() =~= app.input_dest_port@);
    assert(app.input_pbx_dest@.push(c).drop_last() =~= app.input_pbx_dest@);
    assert(app.input_pbx_timeout@.push(c).drop_last() =~= app.input_pbx_timeout@);
}

/// A leading `%` matches exactly when the rest of the pattern matches some
/// suffix of the text.
proof fn lemma_percent_iff(rest: Seq<char>, t: Seq<char>)
    ensures
        like_match(seq!['%'] + rest, t) <==> exists|k: int|
            0 <= k <= t.len() && #[trigger] like_match(rest, t.skip(k)),
    decreases t.len(),
{
    let p = seq!['%'] + rest;
    assert(p[0] == '%');
    assert(p.drop_first() =~= rest);
    assert(t.skip(0) =~= t);
    assert(like_match(p, t) == (like_match(rest, t) || (t.len() > 0 && like_match(p, t.drop_first()))));
    if like_match(rest, t) {
        assert(like_match(rest, t.skip(0)));
    }
    if t.len() > 0 {
        lemma_percent_iff(rest, t.drop_first());
        if like_match(p, t) && !like_match(rest, t) {
            let k = choose|k: int|
                0 <= k <= t.drop_first().len() && #[trigger] like_match(rest, t.drop_first().skip(k));
            assert(t.drop_first().skip(k) =~= t.skip(k + 1));
            assert(like_match(rest, t.skip(k + 1)));
        }
        if exists|k: int| 0 <= k <= t.len() && #[trigger] like_match(rest, t.skip(k)) {
            let k = choose|k: int| 0 <= k <= t.len() && #[trigger] like_match(rest, t.skip(k));
            if k > 0 {
                assert(t.drop_first().skip(k - 1) =~= t.skip(k));
                assert(like_match(rest, t.drop_first().skip(k - 1)));
            }
        }
    } else {
        if exists|k: int| 0 <= k <= t.len() && #[trigger] like_match(rest, t.skip(k)) {
            let k = choose|k: int| 0 <= k <= t.len() && #[trigger] like_match(rest, t.skip(k));
            assert(k == 0);
        }
    }
}

/// A wildcard-free text followed by `%` matches exactly the texts that start
/// with it, ASCII case folded.
proof fn lemma_literal_iff(q: Seq<char>, t: Seq<char>)
    requires
        no_wildcards(q),
    ensures
        like_match(q + seq!['%'], t) <==> (q.len() <= t.len() && folded(t.take(q.len() as int))
            == folded(q)),
    decreases q.len(),
{
    let p = q + seq!['%'];
    if q.len() == 0 {
        assert(p =~= seq!['%']);
        lemma_percent_matches_all(t);
        assert(folded(t.take(0)) =~= folded(q));
    } else {
        let q1 = q.drop_first();
        assert(p[0] == q[0]);
        assert(q[0] != '%' && q[0] != '_');
        assert(p.drop_first() =~= q1 + seq!['%']);
        assert(no_wildcards(q1)) by {
            assert forall|i: int| 0 <= i < q1.len() implies (#[trigger] q1[i]) != '%' && q1[i] != '_' by {
                assert(q1[i] == q[i + 1]);
            }
        }
        assert(folded(q) =~= seq![fold_ascii(q[0])] + folded(q1));
        if t.len() > 0 {
            let t1 = t.drop_first();
            lemma_literal_iff(q1, t1);
            if q.len() <= t.len() {
                let n = q.len() as int;
                assert(folded(t.take(n)) =~= seq![fold_ascii(t[0])] + folded(t1.take(n - 1)));
                if folded(t.take(n)) == folded(q) {
                    assert(folded(t.take(n))[0] == folded(q)[0]);
                    assert(folded(t1.take(n - 1)) =~= folded(t.take(n)).drop_first());
                    assert(folded(q1) =~= folded(q).drop_first());
                }
            }
        } else {
            assert(!(q.len() <= t.len()));
        }
    }
}

/// For a query without `%` or `_`, the pattern `%query%` matches exactly the
/// texts that contain the query once both are folded to ASCII lower case.
pub proof fn law_contains_pattern_is_folded_containment(q: Seq<char>, t: Seq<char>)
    requires
        no_wildcards(q),
    ensures
        like_match(contains_pattern(q), t) <==> folded_contains(t, q),
{
    let r = q + seq!['%'];
    assert(contains_pattern(q) =~= seq!['%'] + r);
    lemma_percent_iff(r, t);
    let n = q.len() as int;
    if like_match(contains_pattern(q), t) {
        let k = choose|k: int| 0 <= k <= t.len() && #[trigger] like_match(r, t.skip(k));
        lemma_literal_iff(q, t.skip(k));
        assert(t.skip(k).take(n) =~= t.subrange(k, k + n));
        assert(folded(t.subrange(k, k + n)) == folded(q));
    }
    if folded_contains(t, q) {
        let k = choose|k: int|
            0 <= k && k + n <= t.len() && #[trigger] folded(t.subrange(k, k + n)) == folded(q);
        lemma_literal_iff(q, t.skip(k));
        assert(t.skip(k).take(n) =~= t.subrange(k, k + n));
        assert(like_match(r, t.skip(k)));
    }
}

/// For a query without `%` or `_`, the search by name keeps exactly the
/// accounts whose ASCII-lowercased name contains the lowercased query.
pub proof fn law_name_search_is_folded_containment(s: Seq<Account>, q: Seq<char>)
    requires
        no_wildcards(q),
    ensures
        named_like(s, q) == s.filter(|a: Account| folded_contains(a.name@, q)),
{
    let p1 = |a: Account| like_match(contains_pattern(q), a.name@);
    let p2 = |a: Account| folded_contains(a.name@, q);
    assert forall|a: Account| #[trigger] p1(a) == p2(a) by {
        law_contains_pattern_is_folded_containment(q, a.name@);
    }
    assert(p1 =~= p2);
}

/// On the dashboard, keys `1` to `6` open the account list, the account
/// form, the two account searches, the intercept targets and the forwarding
/// rules; the store is left as it was.
pub proof fn law_dashboard_keys(
    app: App,
    post: App,
    db: BillingState,
    db_post: BillingState,
    b: u8,
    amount: Option<i64>,
    min: Option<i64>,
    max: Option<i64>,
)
    requires
        app.screen == Screen::Dashboard,
        performed(app, post, db, db_post, byte_action(app.screen, shown_len(app) > 0, b), amount, min, max),
    ensures
        b == 49 ==> post.screen == Screen::AccountList && post.selected_index == 0
            && lists_sorted::<Account, AccountsByName>(post.accounts@, db.accounts),
        b == 50 ==> post.screen == Screen::CreateAccount && post.active_field == InputField::Name
            && post.input_name@.len() == 0 && post.input_msisdn@.len() == 0 && post.input_imsi@.len()
            == 0,
        b == 51 ==> post.screen == Screen::SearchByName && post.input_search@.len() == 0
            && post.accounts@.len() == 0,
        b == 52 ==> post.screen == Screen::SearchByBalance && post.input_balance_min@.len() == 0
            && post.input_balance_max@.len() == 0 && post.accounts@.len() == 0,
        b == 53 ==> post.screen == Screen::CaleaList && post.selected_index == 0
            && lists_sorted::<InterceptTarget, InterceptsNewestFirst>(post.intercepts@, db.intercepts),
        b == 54 ==> post.screen == Screen::PbxList && post.selected_index == 0
            && lists_sorted::<ForwardingRule, RulesNewestFirst>(post.forwarding_rules@, db.forwarding),
        49 <= b <= 54 ==> db_post == db,
{
    if 49 <= b <= 54 {
        assert(32 < b < 127);
        assert((b as char) == '1' || (b as char) == '2' || (b as char) == '3' || (b as char) == '4'
            || (b as char) == '5' || (b as char) == '6');
    }
}

/// The name search folds exactly the ASCII capitals: each of `A`..`Z` reads
/// as its lower-case letter, and every other character reads as itself.
pub proof fn law_fold_lowercases_ascii_capitals(c: char)
    ensures
        'A' <= c && c <= 'Z' ==> fold_ascii(c) == (c as u32) + (('a' as u32) - ('A' as u32)),
        !('A' <= c && c <= 'Z') ==> fold_ascii(c) == c as u32,
{
}

/// `a` and `b` are the same letter up to ASCII case, or the same character.
pub open spec fn same_ignoring_ascii_case(a: char, b: char) -> bool {
    ||| a == b
    ||| 'A' <= a && a <= 'Z' && (b as u32) == (a as u32) + (('a' as u32) - ('A' as u32))
    ||| 'A' <= b && b <= 'Z' && (a as u32) == (b as u32) + (('a' as u32) - ('A' as u32))
}

/// An account whose name equals the query up to ASCII case is found by the
/// search by name (for a query without `%` or `_`).
pub proof fn law_search_finds_name_up_to_case(s: Seq<Account>, q: Seq<char>, i: int)
    requires
        no_wildcards(q),
        0 <= i < s.len(),
        s[i].name@.len() == q.len(),
        forall|j: int| 0 <= j < q.len() ==> same_ignoring_ascii_case(#[trigger] q[j], s[i].name@[j]),
    ensures
        named_like(s, q).contains(s[i]),
{
    let n = s[i].name@;
    assert forall|j: int| 0 <= j < q.len() implies #[trigger] fold_ascii(n[j]) == fold_ascii(q[j]) by {
        law_fold_lowercases_ascii_capitals(n[j]);
        law_fold_lowercases_ascii_capitals(q[j]);
        let d = ('a' as u32) - ('A' as u32);
        if 'A' <= q[j] && q[j] <= 'Z' && (n[j] as u32) == (q[j] as u32) + d {
            assert(!('A' <= n[j] && n[j] <= 'Z'));
        }
        if 'A' <= n[j] && n[j] <= 'Z' && (q[j] as u32) == (n[j] as u32) + d {
            assert(!('A' <= q[j] && q[j] <= 'Z'));
        }
    }
    assert(n.subrange(0, q.len() as int) =~= n);
    assert(folded(n.subrange(0int, 0int + q.len())) =~= folded(q));
    assert(folded_contains(n, q));
    law_name_search_is_folded_containment(s, q);
    s.lemma_filter_contains(|a: Account| folded_contains(a.name@, q), i);
}

/// The name order is lexicographic: a text comes strictly before every longer
/// text that it begins.
pub proof fn law_text_order_prefix_first(a: Seq<char>, p: Seq<char>)
    requires
        p.len() > 0,
    ensures
        text_le(a, a + p),
        !text_le(a + p, a),
    decreases a.len(),
{
    if a.len() > 0 {
        assert((a + p)[0] == a[0]);
        assert((a + p).drop_first() =~= a.drop_first() + p);
        law_text_order_prefix_first(a.drop_first(), p);
    } else {
        assert(a + p =~= p);
    }
}

/// The name order is decided by the first differing character: after a common
/// prefix, the text with the smaller code point there comes first.
pub proof fn law_text_order_first_difference(c: Seq<char>, x: char, y: char, a: Seq<char>, b: Seq<char>)
    requires
        (x as u32) < (y as u32),
    ensures
        text_le(c + seq![x] + a, c + seq![y] + b),
        !text_le(c + seq![y] + b, c + seq![x] + a),
    decreases c.len(),
{
    let l = c + seq![x] + a;
    let r = c + seq![y] + b;
    if c.len() > 0 {
        assert(l[0] == c[0] && r[0] == c[0]);
        assert(l.drop_first() =~= c.drop_first() + seq![x] + a);
        assert(r.drop_first() =~= c.drop_first() + seq![y] + b);
        law_text_order_first_difference(c.drop_first(), x, y, a, b);
    } else {
        assert(l[0] == x && r[0] == y);
        assert(x != y);
    }
}

/// The name order is antisymmetric: two texts that each come no later than
/// the other are equal.
pub proof fn law_text_order_antisymmetric(a: Seq<char>, b: Seq<char>)
    requires
        text_le(a, b),
        text_le(b, a),
    ensures
        a == b,
    decreases a.len(),
{
    if a.len() > 0 && b.len() > 0 {
        if a[0] == b[0] {
            law_text_order_antisymmetric(a.drop_first(), b.drop_first());
            assert(a =~= seq![a[0]] + a.drop_first());
            assert(b =~= seq![b[0]] + b.drop_first());
        } else {
            vstd::utf8::char_u32_cast(a[0], a[0] as u32);
            vstd::utf8::char_u32_cast(b[0], b[0] as u32);
        }
    } else {
        assert(a =~= b);
    }
}

/// Voice calls are billed per started minute in both directions: the charge
/// is `m` times the direction's tariff, where `m` minutes are the fewest that
/// cover the duration.
pub proof fn law_calls_bill_started_minutes(e: RatingEngine, ct: CallType, d: u32) -> (m: int)
    requires
        ct == CallType::MobileOriginating || ct == CallType::MobileTerminating,
    ensures
        m >= 0,
        m * 60 >= d,
        m * 60 < d + 60,
        ct == CallType::MobileOriginating ==> e.spec_charge(ct, d) == m * e.mo_call_per_minute,
        ct == CallType::MobileTerminating ==> e.spec_charge(ct, d) == m * e.mt_call_per_minute,
{
    let m = (d + 59) / 60;
    assert(m * 60 >= d && m * 60 < d + 60) by (nonlinear_arith)
        requires
            m == (d + 59) / 60,
            d >= 0,
    ;
    m
}

/// Data is billed by the MiB, rounded to the nearest ten-thousandth: the
/// charge differs from `duration * data_per_mb / 1024` by at most one half.
pub proof fn law_data_rounds_to_nearest(e: RatingEngine, d: u32)
    ensures
        1024 * e.spec_charge(CallType::Data, d) - 512 <= d * e.data_per_mb,
        d * e.data_per_mb <= 1024 * e.spec_charge(CallType::Data, d) + 512,
{
    let n = d * e.data_per_mb;
    let c = e.spec_charge(CallType::Data, d);
    if n >= 0 {
        assert(c == (2 * n + 1024) / 2048);
        assert(1024 * c - 512 <= n <= 1024 * c + 512) by (nonlinear_arith)
            requires
                c == (2 * n + 1024) / 2048,
                n >= 0,
        ;
    } else {
        assert(c == -((2 * (-n) + 1024) / 2048));
        assert(1024 * c - 512 <= n <= 1024 * c + 512) by (nonlinear_arith)
            requires
                c == -((2 * (-n) + 1024) / 2048),
                n < 0,
        ;
    }
}

/// The decimal text of `n` spells `n`.
proof fn lemma_digits_value(n: nat)
    ensures
        all_digits(digits_of(n)),
        digits_of(n).len() > 0,
        decimal_value(digits_of(n)) == n,
    decreases n,
{
    let last = (n % 10) as int;
    assert((digit_char(last) as u32) == 48 + last);
    if n < 10 {
        assert(digits_of(n).drop_last() =~= Seq::<char>::empty());
        assert(digits_of(n).last() == digit_char(n as int));
        assert(decimal_value(digits_of(n)) == 10 * decimal_value(Seq::<char>::empty()) + ((digit_char(
            n as int,
        ) as u32) - 48));
    } else {
        lemma_digits_value(n / 10);
        let s = digits_of(n / 10);
        assert(digits_of(n).drop_last() =~= s);
        assert(digits_of(n).last() == digit_char(last));
        assert(decimal_value(digits_of(n)) == 10 * decimal_value(s) + ((digit_char(last) as u32) - 48));
        assert(n == 10 * (n / 10) + n % 10);
        assert forall|i: int| 0 <= i < digits_of(n).len() implies is_digit(#[trigger] digits_of(n)[i]) by {
            if i < s.len() {
                assert(digits_of(n)[i] == s[i]);
            }
        }
    }
}

/// Every port number from 0 to 65535, written in decimal, is accepted as
/// exactly that port; a larger number is refused.
pub proof fn law_ports_cover_sixteen_bits(n: nat)
    ensures
        n <= 65535 ==> port_value(digits_of(n)) == Some(n as u16),
        n > 65535 ==> port_value(digits_of(n)) is None,
{
    lemma_digits_value(n);
}

/// On an account's detail screen, `s`, `a` and `x` (either case) ask to
/// confirm suspending, activating and closing the account, `d` asks to
/// confirm deleting it, `+` and `-` open the credit and the debit form, and
/// `i` and `f` open the intercept and the forwarding-rule form; none of these
/// keys changes the store.
pub proof fn law_account_detail_keys(
    app: App,
    post: App,
    db: BillingState,
    db_post: BillingState,
    b: u8,
    amount: Option<i64>,
    min: Option<i64>,
    max: Option<i64>,
)
    requires
        app.screen == Screen::AccountDetail,
        app.selected_account is Some,
        performed(app, post, db, db_post, byte_action(app.screen, shown_len(app) > 0, b), amount, min, max),
    ensures
        (b == 115 || b == 83) ==> post.screen == Screen::Confirm && post.confirm_callback == Some(
            ConfirmAction::SuspendAccount(app.selected_account->Some_0.id),
        ) && post.confirm_action@ == "Suspend account '"@ + app.selected_account->Some_0.name@ + "'?"@,
        (b == 97 || b == 65) ==> post.screen == Screen::Confirm && post.confirm_callback == Some(
            ConfirmAction::ActivateAccount(app.selected_account->Some_0.id),
        ) && post.confirm_action@ == "Activate account '"@ + app.selected_account->Some_0.name@ + "'?"@,
        (b == 120 || b == 88) ==> post.screen == Screen::Confirm && post.confirm_callback == Some(
            ConfirmAction::CloseAccount(app.selected_account->Some_0.id),
        ) && post.confirm_action@ == "Close account '"@ + app.selected_account->Some_0.name@ + "'?"@,
        (b == 100 || b == 68) ==> post.screen == Screen::Confirm && post.confirm_callback == Some(
            ConfirmAction::DeleteAccount(app.selected_account->Some_0.id),
        ) && post.confirm_action@ == "Delete account '"@ + app.selected_account->Some_0.name@ + "'?"@,
        b == 43 ==> post.screen == Screen::CreditDebit && post.is_credit,
        b == 45 ==> post.screen == Screen::CreditDebit && !post.is_credit,
        (b == 105 || b == 73) ==> post.screen == Screen::CaleaCreate,
        (b == 102 || b == 70) ==> post.screen == Screen::PbxCreate,
        (b == 115 || b == 83 || b == 97 || b == 65 || b == 120 || b == 88 || b == 100 || b == 68 || b
            == 43 || b == 45 || b == 105 || b == 73 || b == 102 || b == 70) ==> db_post == db,
{
    reveal_strlit("Suspend");
    reveal_strlit("Activate");
    reveal_strlit("Close");
    reveal_strlit(" account '");
    reveal_strlit("Suspend account '");
    reveal_strlit("Activate account '");
    reveal_strlit("Close account '");
    assert("Suspend"@ + " account '"@ =~= "Suspend account '"@);
    assert("Activate"@ + " account '"@ =~= "Activate account '"@);
    assert("Close"@ + " account '"@ =~= "Close account '"@);
}

/// On the confirmation screen, `n` (either case) declines: the console goes
/// back to the account and nothing is stored.
pub proof fn law_confirm_screen_declines(
    app: App,
    post: App,
    db: BillingState,
    db_post: BillingState,
    b: u8,
    amount: Option<i64>,
    min: Option<i64>,
    max: Option<i64>,
)
    requires
        app.screen == Screen::Confirm,
        performed(app, post, db, db_post, byte_action(app.screen, shown_len(app) > 0, b), amount, min, max),
    ensures
        (b == 110 || b == 78) ==> post == (App { screen: Screen::AccountDetail, ..app }) && db_post == db,
{
}

/// SMS and USSD events are billed at their flat tariff, whatever the
/// duration recorded.
pub proof fn law_events_bill_flat(e: RatingEngine, d: u32)
    ensures
        e.spec_charge(CallType::SMSOriginating, d) == e.mo_sms_flat,
        e.spec_charge(CallType::SMSTerminating, d) == e.mt_sms_flat,
        e.spec_charge(CallType::USSD, d) == e.ussd_flat,
{
}

/// On an intercept target's or a forwarding rule's detail screen, `t` (either
/// case) toggles it and `d` deletes it; on their create forms, Enter submits
/// the form.
pub proof fn law_service_screen_keys(
    app: App,
    post: App,
    db: BillingState,
    db_post: BillingState,
    b: u8,
    amount: Option<i64>,
    min: Option<i64>,
    max: Option<i64>,
)
    requires
        performed(app, post, db, db_post, byte_action(app.screen, shown_len(app) > 0, b), amount, min, max),
    ensures
        app.screen == Screen::CaleaDetail && (b == 116 || b == 84) ==> exists|now: i64|
            #[trigger] intercept_toggled(app, post, db, db_post, now),
        app.screen == Screen::CaleaDetail && (b == 100 || b == 68) ==> intercept_deleted(app, post, db, db_post),
        app.screen == Screen::PbxDetail && (b == 116 || b == 84) ==> exists|now: i64|
            #[trigger] rule_toggled(app, post, db, db_post, now),
        app.screen == Screen::PbxDetail && (b == 100 || b == 68) ==> rule_deleted(app, post, db, db_post),
        app.screen == Screen::CaleaCreate && b == 13 ==> exists|id: Seq<char>, now: i64|
            is_uuid_text(id) && #[trigger] intercept_form_submitted(app, post, db, db_post, id, now),
        app.screen == Screen::PbxCreate && b == 13 ==> exists|id: Seq<char>, now: i64|
            is_uuid_text(id) && #[trigger] rule_form_submitted(app, post, db, db_post, id, now),
{
}

} // verus!
