use vstd::prelude::*;

use crate::account::{Account, AccountStatus};
use crate::calea::{InterceptStatus, InterceptTarget};
use crate::cdr::CallDetailRecord;
use crate::clock::current_micros;
use crate::error::{BillingError, is_database, is_duplicate, is_not_found, is_suspended};
use crate::pbx::{ForwardingRule, ForwardingStatus};
use crate::rows::{
    Row, RowOrder, count_rows, distinct_by, filter_rows, find_key, has_key, keys_distinct,
    lemma_filter_distinct, lemma_key_unique, lemma_push_distinct, lemma_update_distinct,
    position_of, sort_rows, sorted_by,
};
use crate::text::{
    contains_pattern, contains_pattern_exec, lemma_text_le_total, lemma_text_le_transitive,
    like_match, like_matches, str_equals, text_le, text_le_exec,
};
use vstd::string::StringExecFns;

verus! {

broadcast use vstd::seq_lib::group_filter_ensures;

impl Row for Account {
    open spec fn key(&self) -> Seq<char> {
        self.id@
    }

    fn key_str(&self) -> (r: &str) {
        self.id.as_str()
    }

    fn duplicate(&self) -> (r: Self) {
        self.clone()
    }
}

impl Row for CallDetailRecord {
    open spec fn key(&self) -> Seq<char> {
        self.id@
    }

    fn key_str(&self) -> (r: &str) {
        self.id.as_str()
    }

    fn duplicate(&self) -> (r: Self) {
        self.clone()
    }
}

impl Row for InterceptTarget {
    open spec fn key(&self) -> Seq<char> {
        self.id@
    }

    fn key_str(&self) -> (r: &str) {
        self.id.as_str()
    }

    fn duplicate(&self) -> (r: Self) {
        self.clone()
    }
}

impl Row for ForwardingRule {
    open spec fn key(&self) -> Seq<char> {
        self.id@
    }

    fn key_str(&self) -> (r: &str) {
        self.id.as_str()
    }

    fn duplicate(&self) -> (r: Self) {
        self.clone()
    }
}

/// Accounts in ascending order of name (code point order).
pub struct AccountsByName;

impl RowOrder<Account> for AccountsByName {
    open spec fn before(a: Account, b: Account) -> bool {
        text_le(a.name@, b.name@)
    }

    proof fn lemma_total(a: Account, b: Account) {
        lemma_text_le_total(a.name@, b.name@);
    }

    proof fn lemma_transitive(a: Account, b: Account, c: Account) {
        lemma_text_le_transitive(a.name@, b.name@, c.name@);
    }

    fn check(a: &Account, b: &Account) -> (r: bool) {
        text_le_exec(a.name.as_str(), b.name.as_str())
    }
}

/// Accounts in descending order of balance.
pub struct AccountsByBalanceDesc;

impl RowOrder<Account> for AccountsByBalanceDesc {
    open spec fn before(a: Account, b: Account) -> bool {
        a.balance >= b.balance
    }

    proof fn lemma_total(a: Account, b: Account) {
    }

    proof fn lemma_transitive(a: Account, b: Account, c: Account) {
    }

    fn check(a: &Account, b: &Account) -> (r: bool) {
        a.balance >= b.balance
    }
}

/// Call detail records, most recent start first.
pub struct CdrsNewestFirst;

impl RowOrder<CallDetailRecord> for CdrsNewestFirst {
    open spec fn before(a: CallDetailRecord, b: CallDetailRecord) -> bool {
        a.start_time >= b.start_time
    }

    proof fn lemma_total(a: CallDetailRecord, b: CallDetailRecord) {
    }

    proof fn lemma_transitive(a: CallDetailRecord, b: CallDetailRecord, c: CallDetailRecord) {
    }

    fn check(a: &CallDetailRecord, b: &CallDetailRecord) -> (r: bool) {
        a.start_time >= b.start_time
    }
}

/// Intercept targets, most recently created first.
pub struct InterceptsNewestFirst;

impl RowOrder<InterceptTarget> for InterceptsNewestFirst {
    open spec fn before(a: InterceptTarget, b: InterceptTarget) -> bool {
        a.created_at >= b.created_at
    }

    proof fn lemma_total(a: InterceptTarget, b: InterceptTarget) {
    }

    proof fn lemma_transitive(a: InterceptTarget, b: InterceptTarget, c: InterceptTarget) {
    }

    fn check(a: &InterceptTarget, b: &InterceptTarget) -> (r: bool) {
        a.created_at >= b.created_at
    }
}

/// Forwarding rules, most recently created first.
pub struct RulesNewestFirst;

impl RowOrder<ForwardingRule> for RulesNewestFirst {
    open spec fn before(a: ForwardingRule, b: ForwardingRule) -> bool {
        a.created_at >= b.created_at
    }

    proof fn lemma_total(a: ForwardingRule, b: ForwardingRule) {
    }

    proof fn lemma_transitive(a: ForwardingRule, b: ForwardingRule, c: ForwardingRule) {
    }

    fn check(a: &ForwardingRule, b: &ForwardingRule) -> (r: bool) {
        a.created_at >= b.created_at
    }
}

/// The contents of the billing store: its four tables, each in insertion order.
#[verifier::ext_equal]
pub struct BillingState {
    pub accounts: Seq<Account>,
    pub cdrs: Seq<CallDetailRecord>,
    pub intercepts: Seq<InterceptTarget>,
    pub forwarding: Seq<ForwardingRule>,
}

impl BillingState {
    /// The table constraints: primary keys are unique in every table, and no
    /// two accounts share an MSISDN or an IMSI.
    pub open spec fn wf(self) -> bool {
        &&& keys_distinct(self.accounts)
        &&& distinct_by(self.accounts, |a: Account| a.msisdn@)
        &&& distinct_by(self.accounts, |a: Account| a.imsi@)
        &&& keys_distinct(self.cdrs)
        &&& keys_distinct(self.intercepts)
        &&& keys_distinct(self.forwarding)
        &&& refs_within(self.cdrs, |c: CallDetailRecord| c.account_id@, self.accounts)
        &&& refs_within(self.intercepts, |t: InterceptTarget| t.account_id@, self.accounts)
        &&& refs_within(self.forwarding, |x: ForwardingRule| x.source_account_id@, self.accounts)
    }
}

/// Every row of `s` names, through `f`, an account of `accounts` (the
/// foreign keys of the child tables).
pub open spec fn refs_within<T>(s: Seq<T>, f: spec_fn(T) -> Seq<char>, accounts: Seq<Account>) -> bool {
    forall|i: int| 0 <= i < s.len() ==> has_key(accounts, f(#[trigger] s[i]))
}

/// Some intercept target or forwarding rule names account `id`.
pub open spec fn has_services(s: BillingState, id: Seq<char>) -> bool {
    ||| exists|i: int| 0 <= i < s.intercepts.len() && (#[trigger] s.intercepts[i]).account_id@ == id
    ||| exists|i: int|
        0 <= i < s.forwarding.len() && (#[trigger] s.forwarding[i]).source_account_id@ == id
}

/// Every key of `a` is a key of `b`.
pub open spec fn keys_kept(a: Seq<Account>, b: Seq<Account>) -> bool {
    forall|k: Seq<char>| has_key(a, k) ==> #[trigger] has_key(b, k)
}

/// References into `a` stay valid in `b` when `b` keeps every key of `a`.
proof fn lemma_refs_kept<T>(s: Seq<T>, f: spec_fn(T) -> Seq<char>, a: Seq<Account>, b: Seq<Account>)
    requires
        refs_within(s, f, a),
        keys_kept(a, b),
    ensures
        refs_within(s, f, b),
{
    assert forall|i: int| 0 <= i < s.len() implies has_key(b, f(#[trigger] s[i])) by {
        assert(has_key(a, f(s[i])));
    }
}

/// All three child tables stay valid when the accounts keep their keys.
proof fn lemma_all_refs_kept(pre: BillingState, accounts: Seq<Account>)
    requires
        pre.wf(),
        keys_kept(pre.accounts, accounts),
    ensures
        refs_within(pre.cdrs, |c: CallDetailRecord| c.account_id@, accounts),
        refs_within(pre.intercepts, |t: InterceptTarget| t.account_id@, accounts),
        refs_within(pre.forwarding, |x: ForwardingRule| x.source_account_id@, accounts),
{
    lemma_refs_kept(pre.cdrs, |c: CallDetailRecord| c.account_id@, pre.accounts, accounts);
    lemma_refs_kept(pre.intercepts, |t: InterceptTarget| t.account_id@, pre.accounts, accounts);
    lemma_refs_kept(pre.forwarding, |x: ForwardingRule| x.source_account_id@, pre.accounts, accounts);
}

/// Appending an account keeps every key.
proof fn lemma_push_keeps_keys(s: Seq<Account>, a: Account)
    ensures
        keys_kept(s, s.push(a)),
{
    assert forall|k: Seq<char>| has_key(s, k) implies #[trigger] has_key(s.push(a), k) by {
        let i = choose|i: int| 0 <= i < s.len() && #[trigger] s[i].key() == k;
        assert(s.push(a)[i] == s[i]);
    }
}

/// Changing fields other than the id of the accounts keeps every key.
proof fn lemma_map_keeps_keys(s: Seq<Account>, t: Seq<Account>)
    requires
        t.len() == s.len(),
        forall|i: int| 0 <= i < s.len() ==> (#[trigger] t[i]).id@ == s[i].id@,
    ensures
        keys_kept(s, t),
{
    assert forall|k: Seq<char>| has_key(s, k) implies #[trigger] has_key(t, k) by {
        let i = choose|i: int| 0 <= i < s.len() && #[trigger] s[i].key() == k;
        assert(t[i].key() == k);
    }
}

/// Keeping the rows that pass `p` keeps key `k` when the row with that key passes.
proof fn lemma_filter_keeps_key(s: Seq<Account>, p: spec_fn(Account) -> bool, k: Seq<char>)
    requires
        has_key(s, k),
        forall|i: int| 0 <= i < s.len() && (#[trigger] s[i]).key() == k ==> p(s[i]),
    ensures
        has_key(s.filter(p), k),
{
    let i = choose|i: int| 0 <= i < s.len() && #[trigger] s[i].key() == k;
    s.lemma_filter_contains(p, i);
    let f = s.filter(p);
    let j = choose|j: int| 0 <= j < f.len() && f[j] == s[i];
    assert(f[j].key() == k);
}

/// Appending a row that names an account keeps the references valid.
proof fn lemma_push_ref<T>(s: Seq<T>, x: T, f: spec_fn(T) -> Seq<char>, a: Seq<Account>)
    requires
        refs_within(s, f, a),
        has_key(a, f(x)),
    ensures
        refs_within(s.push(x), f, a),
{
    assert forall|i: int| 0 <= i < s.push(x).len() implies has_key(a, f(#[trigger] s.push(x)[i])) by {
        if i < s.len() {
            assert(s.push(x)[i] == s[i]);
        }
    }
}

/// Keeping some rows keeps the references valid.
proof fn lemma_filter_ref<T>(s: Seq<T>, p: spec_fn(T) -> bool, f: spec_fn(T) -> Seq<char>, a: Seq<Account>)
    requires
        refs_within(s, f, a),
    ensures
        refs_within(s.filter(p), f, a),
{
    let t = s.filter(p);
    assert forall|i: int| 0 <= i < t.len() implies has_key(a, f(#[trigger] t[i])) by {
        assert(t.contains(t[i]));
        s.lemma_filter_contains_rev(p, t[i]);
        let k = choose|k: int| 0 <= k < s.len() && s[k] == t[i];
        assert(has_key(a, f(s[k])));
    }
}

/// `x` fits in an `i64`.
pub open spec fn fits_i64(x: int) -> bool {
    i64::MIN <= x <= i64::MAX
}

/// Adding `delta` to the balance of account `id`, if there is one, stays in range.
pub open spec fn change_fits(s: Seq<Account>, id: Seq<char>, delta: int) -> bool {
    forall|i: int| 0 <= i < s.len() && (#[trigger] s[i]).id@ == id ==> fits_i64(s[i].balance + delta)
}

/// Some account has the id, the MSISDN or the IMSI of `a`.
pub open spec fn account_conflicts(s: Seq<Account>, a: Account) -> bool {
    exists|i: int|
        0 <= i < s.len() && ((#[trigger] s[i]).id@ == a.id@ || s[i].msisdn@ == a.msisdn@
            || s[i].imsi@ == a.imsi@)
}

/// The account with MSISDN `msisdn`, if there is one.
pub open spec fn find_by_msisdn(s: Seq<Account>, msisdn: Seq<char>) -> Option<Account> {
    if exists|i: int| 0 <= i < s.len() && (#[trigger] s[i]).msisdn@ == msisdn {
        Some(s[choose|i: int| 0 <= i < s.len() && (#[trigger] s[i]).msisdn@ == msisdn])
    } else {
        None
    }
}

/// The accounts after setting the balance of account `id` at time `now`.
pub open spec fn with_balance(s: Seq<Account>, id: Seq<char>, balance: i64, now: i64) -> Seq<Account> {
    s.map_values(
        |a: Account|
            if a.id@ == id {
                Account { balance, updated_at: now, ..a }
            } else {
                a
            },
    )
}

/// The accounts after setting the status of account `id` at time `now`.
pub open spec fn with_status(s: Seq<Account>, id: Seq<char>, status: AccountStatus, now: i64) -> Seq<
    Account,
> {
    s.map_values(
        |a: Account|
            if a.id@ == id {
                Account { status, updated_at: now, ..a }
            } else {
                a
            },
    )
}

/// The accounts whose name matches `%query%` in the sense of SQL `LIKE`.
pub open spec fn named_like(s: Seq<Account>, query: Seq<char>) -> Seq<Account> {
    s.filter(|a: Account| like_match(contains_pattern(query), a.name@))
}

/// The accounts whose balance lies in `[min, max]`.
pub open spec fn balance_between(s: Seq<Account>, min: i64, max: i64) -> Seq<Account> {
    s.filter(|a: Account| min <= a.balance <= max)
}

/// Sum of the balances of the accounts.
pub open spec fn balance_total(s: Seq<Account>) -> int
    decreases s.len(),
{
    if s.len() == 0 {
        0
    } else {
        balance_total(s.drop_last()) + s.last().balance
    }
}

/// `v` lists exactly the rows of `rows`, each as often, sorted by `O`.
pub open spec fn lists_sorted<T, O: RowOrder<T>>(v: Seq<T>, rows: Seq<T>) -> bool {
    &&& v.to_multiset() == rows.to_multiset()
    &&& sorted_by::<T, O>(v)
}

/// The billing store: subscriber accounts, call detail records, lawful
/// intercept targets and call forwarding rules.
pub struct BillingDb {
    accounts: Vec<Account>,
    cdrs: Vec<CallDetailRecord>,
    intercepts: Vec<InterceptTarget>,
    forwarding: Vec<ForwardingRule>,
}

impl View for BillingDb {
    type V = BillingState;

    closed spec fn view(&self) -> BillingState {
        BillingState {
            accounts: self.accounts@,
            cdrs: self.cdrs@,
            intercepts: self.intercepts@,
            forwarding: self.forwarding@,
        }
    }
}

impl BillingDb {
    /// The store holds well-formed tables.
    pub open spec fn wf(&self) -> bool {
        self@.wf()
    }

    /// An empty store.
    pub fn open_in_memory() -> (r: Result<BillingDb, BillingError>)
        ensures
            r matches Ok(db) && db.wf() && db@.accounts.len() == 0 && db@.cdrs.len() == 0
                && db@.intercepts.len() == 0 && db@.forwarding.len() == 0,
    {
        let db = BillingDb {
            accounts: Vec::new(),
            cdrs: Vec::new(),
            intercepts: Vec::new(),
            forwarding: Vec::new(),
        };
        Ok(db)
    }

    /// The accounts, in the order they were stored.
    pub fn account_rows(&self) -> (r: &Vec<Account>)
        ensures
            r@ == self@.accounts,
    {
        &self.accounts
    }

    /// The call detail records, in the order they were stored.
    pub fn cdr_rows(&self) -> (r: &Vec<CallDetailRecord>)
        ensures
            r@ == self@.cdrs,
    {
        &self.cdrs
    }

    /// The intercept targets, in the order they were stored.
    pub fn intercept_rows(&self) -> (r: &Vec<InterceptTarget>)
        ensures
            r@ == self@.intercepts,
    {
        &self.intercepts
    }

    /// The forwarding rules, in the order they were stored.
    pub fn forwarding_rows(&self) -> (r: &Vec<ForwardingRule>)
        ensures
            r@ == self@.forwarding,
    {
        &self.forwarding
    }

    /// Adds an account; refused when its id, MSISDN or IMSI is taken.
    pub fn create_account(&mut self, account: &Account) -> (r: Result<(), BillingError>)
        requires
            old(self).wf(),
        ensures
            final(self).wf(),
            account_conflicts(old(self)@.accounts, *account) ==> {
                &&& r matches Err(e) && is_duplicate(e, account.msisdn@)
                &&& final(self)@ == old(self)@
            },
            !account_conflicts(old(self)@.accounts, *account) ==> {
                &&& r is Ok
                &&& final(self)@ == BillingState { accounts: old(self)@.accounts.push(*account), ..old(self)@ }
            },
    {
        let n = self.accounts.len();
        let mut i: usize = 0;
        while i < n
            invariant
                self.wf(),
                n == self.accounts@.len(),
                i <= n,
                forall|j: int|
                    0 <= j < i ==> !((#[trigger] self.accounts@[j]).id@ == account.id@
                        || self.accounts@[j].msisdn@ == account.msisdn@ || self.accounts@[j].imsi@
                        == account.imsi@),
            decreases n - i,
        {
            let a = &self.accounts[i];
            if str_equals(a.id.as_str(), account.id.as_str()) || str_equals(
                a.msisdn.as_str(),
                account.msisdn.as_str(),
            ) || str_equals(a.imsi.as_str(), account.imsi.as_str()) {
                assert(account_conflicts(self.accounts@, *account)) by {
                    assert(self.accounts@[i as int] == *a);
                }
                return Err(BillingError::DuplicateAccount(account.msisdn.clone()));
            }
            i = i + 1;
        }
        let ghost s = self.accounts@;
        proof {
            lemma_push_distinct(s, *account, |x: Account| x.key());
            lemma_push_distinct(s, *account, |a: Account| a.msisdn@);
            lemma_push_distinct(s, *account, |a: Account| a.imsi@);
            lemma_push_keeps_keys(s, *account);
            lemma_all_refs_kept(self@, s.push(*account));
        }
        self.accounts.push(account.clone());
        Ok(())
    }

    /// The account with id `id`.
    pub fn get_account(&self, id: &str) -> (r: Result<Account, BillingError>)
        requires
            self.wf(),
        ensures
            match find_key(self@.accounts, id@) {
                Some(a) => r == Ok::<Account, BillingError>(a),
                None => r matches Err(e) && is_not_found(e, id@),
            },
    {
        match position_of(&self.accounts, id) {
            Some(i) => {
                proof {
                    lemma_key_unique(self.accounts@, id@, i as int);
                }
                Ok(self.accounts[i].clone())
            },
            None => Err(BillingError::AccountNotFound(id.to_owned())),
        }
    }

    /// The account with MSISDN `msisdn`.
    pub fn get_account_by_msisdn(&self, msisdn: &str) -> (r: Result<Account, BillingError>)
        requires
            self.wf(),
        ensures
            match find_by_msisdn(self@.accounts, msisdn@) {
                Some(a) => r == Ok::<Account, BillingError>(a),
                None => r matches Err(e) && is_not_found(e, msisdn@),
            },
    {
        let n = self.accounts.len();
        let mut i: usize = 0;
        while i < n
            invariant
                self.wf(),
                n == self.accounts@.len(),
                i <= n,
                forall|j: int| 0 <= j < i ==> (#[trigger] self.accounts@[j]).msisdn@ != msisdn@,
            decreases n - i,
        {
            if str_equals(self.accounts[i].msisdn.as_str(), msisdn) {
                proof {
                    let s = self.accounts@;
                    let k = choose|k: int| 0 <= k < s.len() && (#[trigger] s[k]).msisdn@ == msisdn@;
                    if k != i {
                        if k < i {
                            assert((|a: Account| a.msisdn@)(s[k]) != (|a: Account| a.msisdn@)(
                                s[i as int],
                            ));
                        } else {
                            assert((|a: Account| a.msisdn@)(s[i as int]) != (|a: Account| a.msisdn@)(
                                s[k],
                            ));
                        }
                    }
                }
                return Ok(self.accounts[i].clone());
            }
            i = i + 1;
        }
        Err(BillingError::AccountNotFound(msisdn.to_owned()))
    }

    /// Accounts whose name contains `query` in the sense of SQL `LIKE`
    /// (`%` and `_` in `query` are wildcards; ASCII letters match either case),
    /// in ascending order of name.
    pub fn search_accounts_by_name(&self, query: &str) -> (r: Result<Vec<Account>, BillingError>)
        ensures
            r matches Ok(v) && lists_sorted::<Account, AccountsByName>(
                v@,
                named_like(self@.accounts, query@),
            ),
    {
        let pattern = contains_pattern_exec(query);
        let ghost pred = |a: Account| like_match(contains_pattern(query@), a.name@);
        let keep = |a: &Account| -> (b: bool)
            ensures
                b == like_match(contains_pattern(query@), a.name@),
            { like_matches(&pattern, a.name.as_str()) };
        let found = filter_rows(&self.accounts, keep, Ghost(pred));
        Ok(sort_rows::<Account, AccountsByName>(found))
    }

    /// Accounts whose balance lies in `[min_balance, max_balance]`, largest
    /// balance first.
    pub fn search_accounts_by_balance(&self, min_balance: i64, max_balance: i64) -> (r: Result<
        Vec<Account>,
        BillingError,
    >)
        ensures
            r matches Ok(v) && lists_sorted::<Account, AccountsByBalanceDesc>(
                v@,
                balance_between(self@.accounts, min_balance, max_balance),
            ),
    {
        let ghost pred = |a: Account| min_balance <= a.balance <= max_balance;
        let keep = |a: &Account| -> (b: bool)
            ensures
                b == (min_balance <= a.balance <= max_balance),
            { min_balance <= a.balance && a.balance <= max_balance };
        let found = filter_rows(&self.accounts, keep, Ghost(pred));
        Ok(sort_rows::<Account, AccountsByBalanceDesc>(found))
    }

    /// All accounts, in ascending order of name.
    pub fn list_accounts(&self) -> (r: Result<Vec<Account>, BillingError>)
        ensures
            r matches Ok(v) && lists_sorted::<Account, AccountsByName>(v@, self@.accounts),
    {
        let ghost pred = |a: Account| true;
        let keep = |a: &Account| -> (b: bool)
            ensures
                b,
            { true };
        let all = filter_rows(&self.accounts, keep, Ghost(pred));
        proof {
            lemma_filter_all(self.accounts@, pred);
        }
        Ok(sort_rows::<Account, AccountsByName>(all))
    }

    /// Sets the balance of account `id`, stamping the change with time `now`.
    pub fn update_balance_at(&mut self, id: &str, new_balance: i64, now: i64) -> (r: Result<(), BillingError>)
        requires
            old(self).wf(),
        ensures
            final(self).wf(),
            balance_set(old(self)@, final(self)@, id@, new_balance, now, r),
    {
        match position_of(&self.accounts, id) {
            Some(i) => {
                let ghost s = self.accounts@;
                proof {
                    lemma_key_unique(s, id@, i as int);
                }
                let mut a = self.accounts[i].clone();
                a.balance = new_balance;
                a.updated_at = now;
                proof {
                    lemma_map_keeps_keys(s, with_balance(s, id@, new_balance, now));
                    lemma_all_refs_kept(self@, with_balance(s, id@, new_balance, now));
                    lemma_update_distinct(s, i as int, a, |x: Account| x.key());
                    lemma_update_distinct(s, i as int, a, |x: Account| x.msisdn@);
                    lemma_update_distinct(s, i as int, a, |x: Account| x.imsi@);
                }
                self.accounts.set(i, a);
                assert(self.accounts@ =~= with_balance(s, id@, new_balance, now));
                assert(self@ =~= BillingState { accounts: with_balance(s, id@, new_balance, now), ..old(self)@ });
                Ok(())
            },
            None => Err(BillingError::AccountNotFound(id.to_owned())),
        }
    }

    /// Sets the balance of account `id`, stamping the change with the current time.
    pub fn update_balance(&mut self, id: &str, new_balance: i64) -> (r: Result<(), BillingError>)
        requires
            old(self).wf(),
        ensures
            final(self).wf(),
            exists|now: i64| #[trigger] balance_set(old(self)@, final(self)@, id@, new_balance, now, r),
    {
        let now = current_micros();
        self.update_balance_at(id, new_balance, now)
    }

    /// Adds `amount` to the balance of account `id` at time `now`; refused for
    /// closed accounts. Returns the new balance.
    pub fn credit_at(&mut self, id: &str, amount: i64, now: i64) -> (r: Result<i64, BillingError>)
        requires
            old(self).wf(),
            change_fits(old(self)@.accounts, id@, amount as int),
        ensures
            final(self).wf(),
            credit_outcome(old(self)@, final(self)@, id@, amount, now, r),
    {
        let i = match position_of(&self.accounts, id) {
            Some(i) => i,
            None => {
                return Err(BillingError::AccountNotFound(id.to_owned()));
            },
        };
        proof {
            lemma_key_unique(self.accounts@, id@, i as int);
        }
        let a = &self.accounts[i];
        if a.status == AccountStatus::Closed {
            return Err(BillingError::AccountSuspended(id.to_owned()));
        }
        let new_balance = a.balance + amount;
        match self.update_balance_at(id, new_balance, now) {
            Ok(()) => Ok(new_balance),
            Err(e) => Err(e),
        }
    }

    /// Adds `amount` to the balance of account `id`, stamped with the current
    /// time; refused for closed accounts. Returns the new balance.
    pub fn credit(&mut self, id: &str, amount: i64) -> (r: Result<i64, BillingError>)
        requires
            old(self).wf(),
            change_fits(old(self)@.accounts, id@, amount as int),
        ensures
            final(self).wf(),
            exists|now: i64| #[trigger] credit_outcome(old(self)@, final(self)@, id@, amount, now, r),
    {
        let now = current_micros();
        self.credit_at(id, amount, now)
    }

    /// Takes `amount` from the balance of account `id` at time `now`; refused
    /// unless the account is active and holds at least `amount`. Returns the
    /// new balance.
    pub fn debit_at(&mut self, id: &str, amount: i64, now: i64) -> (r: Result<i64, BillingError>)
        requires
            old(self).wf(),
            change_fits(old(self)@.accounts, id@, -amount),
        ensures
            final(self).wf(),
            debit_outcome(old(self)@, final(self)@, id@, amount, now, r),
    {
        let i = match position_of(&self.accounts, id) {
            Some(i) => i,
            None => {
                return Err(BillingError::AccountNotFound(id.to_owned()));
            },
        };
        proof {
            lemma_key_unique(self.accounts@, id@, i as int);
        }
        let a = &self.accounts[i];
        if a.status != AccountStatus::Active {
            return Err(BillingError::AccountSuspended(id.to_owned()));
        }
        if a.balance < amount {
            return Err(BillingError::InsufficientBalance { available: a.balance, required: amount });
        }
        let new_balance = a.balance - amount;
        match self.update_balance_at(id, new_balance, now) {
            Ok(()) => Ok(new_balance),
            Err(e) => Err(e),
        }
    }

    /// Takes `amount` from the balance of account `id`, stamped with the
    /// current time; refused unless the account is active and holds at least
    /// `amount`. Returns the new balance.
    pub fn debit(&mut self, id: &str, amount: i64) -> (r: Result<i64, BillingError>)
        requires
            old(self).wf(),
            change_fits(old(self)@.accounts, id@, -amount),
        ensures
            final(self).wf(),
            exists|now: i64| #[trigger] debit_outcome(old(self)@, final(self)@, id@, amount, now, r),
    {
        let now = current_micros();
        self.debit_at(id, amount, now)
    }

    /// Sets the status of account `id`, stamping the change with time `now`.
    pub fn update_status_at(&mut self, id: &str, status: AccountStatus, now: i64) -> (r: Result<(), BillingError>)
        requires
            old(self).wf(),
        ensures
            final(self).wf(),
            status_set(old(self)@, final(self)@, id@, status, now, r),
    {
        match position_of(&self.accounts, id) {
            Some(i) => {
                let ghost s = self.accounts@;
                proof {
                    lemma_key_unique(s, id@, i as int);
                }
                let mut a = self.accounts[i].clone();
                a.status = status;
                a.updated_at = now;
                proof {
                    lemma_map_keeps_keys(s, with_status(s, id@, status, now));
                    lemma_all_refs_kept(self@, with_status(s, id@, status, now));
                    lemma_update_distinct(s, i as int, a, |x: Account| x.key());
                    lemma_update_distinct(s, i as int, a, |x: Account| x.msisdn@);
                    lemma_update_distinct(s, i as int, a, |x: Account| x.imsi@);
                }
                self.accounts.set(i, a);
                assert(self.accounts@ =~= with_status(s, id@, status, now));
                assert(self@ =~= BillingState { accounts: with_status(s, id@, status, now), ..old(self)@ });
                Ok(())
            },
            None => Err(BillingError::AccountNotFound(id.to_owned())),
        }
    }

    /// Sets the status of account `id`, stamping the change with the current time.
    pub fn update_status(&mut self, id: &str, status: AccountStatus) -> (r: Result<(), BillingError>)
        requires
            old(self).wf(),
        ensures
            final(self).wf(),
            exists|now: i64| #[trigger] status_set(old(self)@, final(self)@, id@, status, now, r),
    {
        let now = current_micros();
        self.update_status_at(id, status, now)
    }

    /// Deletes account `id` together with its call detail records. The records
    /// are removed even when the account does not exist, or when the account
    /// itself cannot be removed because intercept targets or forwarding rules
    /// still name it.
    pub fn delete_account(&mut self, id: &str) -> (r: Result<(), BillingError>)
        requires
            old(self).wf(),
        ensures
            final(self).wf(),
            final(self)@.cdrs == cdrs_not_of(old(self)@.cdrs, id@),
            final(self)@.intercepts == old(self)@.intercepts,
            final(self)@.forwarding == old(self)@.forwarding,
            has_key(old(self)@.accounts, id@) && !has_services(old(self)@, id@) ==> r is Ok
                && final(self)@.accounts == old(self)@.accounts.filter(|a: Account| a.id@ != id@),
            has_key(old(self)@.accounts, id@) && has_services(old(self)@, id@) ==> (r matches Err(e)
                && is_database(e, "FOREIGN KEY constraint failed"@)) && final(self)@.accounts == old(
                self,
            )@.accounts,
            !has_key(old(self)@.accounts, id@) ==> (r matches Err(e) && is_not_found(e, id@))
                && final(self)@.accounts == old(self)@.accounts,
    {
        let ghost cpred = |c: CallDetailRecord| c.account_id@ != id@;
        let keep_cdr = |c: &CallDetailRecord| -> (b: bool)
            ensures
                b == (c.account_id@ != id@),
            { !str_equals(c.account_id.as_str(), id) };
        let kept = filter_rows(&self.cdrs, keep_cdr, Ghost(cpred));
        proof {
            lemma_filter_distinct(self.cdrs@, cpred, |x: CallDetailRecord| x.key());
            lemma_filter_ref(self.cdrs@, cpred, |c: CallDetailRecord| c.account_id@, self.accounts@);
        }
        self.cdrs = kept;
        match position_of(&self.accounts, id) {
            None => Err(BillingError::AccountNotFound(id.to_owned())),
            Some(_) => {
                if self.names_account(id) {
                    return Err(BillingError::Database("FOREIGN KEY constraint failed".to_owned()));
                }
                let ghost apred = |a: Account| a.id@ != id@;
                let ghost old_accounts = self.accounts@;
                let keep_account = |a: &Account| -> (b: bool)
                    ensures
                        b == (a.id@ != id@),
                    { !str_equals(a.id.as_str(), id) };
                let remaining = filter_rows(&self.accounts, keep_account, Ghost(apred));
                proof {
                    lemma_filter_distinct(self.accounts@, apred, |x: Account| x.key());
                    lemma_filter_distinct(self.accounts@, apred, |x: Account| x.msisdn@);
                    lemma_filter_distinct(self.accounts@, apred, |x: Account| x.imsi@);
                    let f = old_accounts.filter(apred);
                    assert forall|i: int| 0 <= i < self.cdrs@.len() implies has_key(
                        f,
                        (|c: CallDetailRecord| c.account_id@)(#[trigger] self.cdrs@[i]),
                    ) by {
                        assert(cpred(self.cdrs@[i]));
                        assert(has_key(old_accounts, (|c: CallDetailRecord| c.account_id@)(self.cdrs@[i])));
                        lemma_filter_keeps_key(old_accounts, apred, self.cdrs@[i].account_id@);
                    }
                    assert forall|i: int| 0 <= i < self.intercepts@.len() implies has_key(
                        f,
                        (|t: InterceptTarget| t.account_id@)(#[trigger] self.intercepts@[i]),
                    ) by {
                        assert(self.intercepts@[i].account_id@ != id@);
                        assert(has_key(old_accounts, (|t: InterceptTarget| t.account_id@)(self.intercepts@[i])));
                        lemma_filter_keeps_key(old_accounts, apred, self.intercepts@[i].account_id@);
                    }
                    assert forall|i: int| 0 <= i < self.forwarding@.len() implies has_key(
                        f,
                        (|x: ForwardingRule| x.source_account_id@)(#[trigger] self.forwarding@[i]),
                    ) by {
                        assert(self.forwarding@[i].source_account_id@ != id@);
                        assert(has_key(
                            old_accounts,
                            (|x: ForwardingRule| x.source_account_id@)(self.forwarding@[i]),
                        ));
                        lemma_filter_keeps_key(old_accounts, apred, self.forwarding@[i].source_account_id@);
                    }
                }
                self.accounts = remaining;
                Ok(())
            },
        }
    }

    /// Whether some intercept target or forwarding rule names account `id`.
    fn names_account(&self, id: &str) -> (b: bool)
        ensures
            b == has_services(self@, id@),
    {
        let n = self.intercepts.len();
        let mut i: usize = 0;
        while i < n
            invariant
                n == self.intercepts@.len(),
                i <= n,
                forall|j: int| 0 <= j < i ==> (#[trigger] self.intercepts@[j]).account_id@ != id@,
            decreases n - i,
        {
            if str_equals(self.intercepts[i].account_id.as_str(), id) {
                return true;
            }
            i = i + 1;
        }
        let m = self.forwarding.len();
        let mut k: usize = 0;
        while k < m
            invariant
                n == self.intercepts@.len(),
                m == self.forwarding@.len(),
                k <= m,
                forall|j: int| 0 <= j < n ==> (#[trigger] self.intercepts@[j]).account_id@ != id@,
                forall|j: int| 0 <= j < k ==> (#[trigger] self.forwarding@[j]).source_account_id@ != id@,
            decreases m - k,
        {
            if str_equals(self.forwarding[k].source_account_id.as_str(), id) {
                return true;
            }
            k = k + 1;
        }
        false
    }

    /// Stores a call detail record; refused when its id is taken.
    pub fn insert_cdr(&mut self, cdr: &CallDetailRecord) -> (r: Result<(), BillingError>)
        requires
            old(self).wf(),
        ensures
            final(self).wf(),
            has_key(old(self)@.cdrs, cdr.id@) ==> {
                &&& r matches Err(e) && is_database(e, "UNIQUE constraint failed: cdrs.id"@)
                &&& final(self)@ == old(self)@
            },
            !has_key(old(self)@.cdrs, cdr.id@) && !has_key(old(self)@.accounts, cdr.account_id@) ==> {
                &&& r matches Err(e) && is_database(e, "FOREIGN KEY constraint failed"@)
                &&& final(self)@ == old(self)@
            },
            !has_key(old(self)@.cdrs, cdr.id@) && has_key(old(self)@.accounts, cdr.account_id@) ==> (r is Ok)
                && final(self)@ == (BillingState { cdrs: old(self)@.cdrs.push(*cdr), ..old(self)@ }),
    {
        match position_of(&self.cdrs, cdr.id.as_str()) {
            Some(_) => Err(BillingError::Database("UNIQUE constraint failed: cdrs.id".to_owned())),
            None => {
                if position_of(&self.accounts, cdr.account_id.as_str()).is_none() {
                    return Err(BillingError::Database("FOREIGN KEY constraint failed".to_owned()));
                }
                proof {
                    lemma_push_distinct(self.cdrs@, *cdr, |x: CallDetailRecord| x.key());
                    lemma_push_ref(self.cdrs@, *cdr, |c: CallDetailRecord| c.account_id@, self.accounts@);
                }
                self.cdrs.push(cdr.clone());
                Ok(())
            },
        }
    }

    /// The call detail records of account `account_id`, most recent first.
    pub fn get_cdrs_for_account(&self, account_id: &str) -> (r: Result<Vec<CallDetailRecord>, BillingError>)
        ensures
            r matches Ok(v) && lists_sorted::<CallDetailRecord, CdrsNewestFirst>(
                v@,
                cdrs_of(self@.cdrs, account_id@),
            ),
    {
        let ghost pred = |c: CallDetailRecord| c.account_id@ == account_id@;
        let keep = |c: &CallDetailRecord| -> (b: bool)
            ensures
                b == (c.account_id@ == account_id@),
            { str_equals(c.account_id.as_str(), account_id) };
        let found = filter_rows(&self.cdrs, keep, Ghost(pred));
        Ok(sort_rows::<CallDetailRecord, CdrsNewestFirst>(found))
    }

    /// Number of accounts.
    pub fn get_account_count(&self) -> (r: Result<usize, BillingError>)
        ensures
            r matches Ok(n) && n == self@.accounts.len(),
    {
        Ok(self.accounts.len())
    }

    /// Sum of all account balances.
    pub fn get_total_balance(&self) -> (r: Result<i128, BillingError>)
        ensures
            r matches Ok(t) && t == balance_total(self@.accounts),
    {
        let n = self.accounts.len();
        let mut total: i128 = 0;
        let mut i: usize = 0;
        while i < n
            invariant
                n == self.accounts@.len(),
                i <= n,
                total == balance_total(self.accounts@.take(i as int)),
                -(i * 0x8000_0000_0000_0000) <= total <= i * 0x8000_0000_0000_0000,
            decreases n - i,
        {
            proof {
                assert(self.accounts@.take(i + 1).drop_last() =~= self.accounts@.take(i as int));
            }
            total = total + self.accounts[i].balance as i128;
            i = i + 1;
        }
        assert(self.accounts@.take(n as int) =~= self.accounts@);
        Ok(total)
    }

    /// Adds an intercept target; refused when its id is taken.
    pub fn create_intercept(&mut self, target: &InterceptTarget) -> (r: Result<(), BillingError>)
        requires
            old(self).wf(),
        ensures
            final(self).wf(),
            has_key(old(self)@.intercepts, target.id@) ==> {
                &&& r matches Err(e) && is_database(e, "UNIQUE constraint failed: calea_intercepts.id"@)
                &&& final(self)@ == old(self)@
            },
            !has_key(old(self)@.intercepts, target.id@) && !has_key(old(self)@.accounts, target.account_id@) ==> {
                &&& r matches Err(e) && is_database(e, "FOREIGN KEY constraint failed"@)
                &&& final(self)@ == old(self)@
            },
            !has_key(old(self)@.intercepts, target.id@) && has_key(old(self)@.accounts, target.account_id@)
                ==> (r is Ok) && final(self)@ == (BillingState {
                intercepts: old(self)@.intercepts.push(*target),
                ..old(self)@
            }),
    {
        match position_of(&self.intercepts, target.id.as_str()) {
            Some(_) => Err(
                BillingError::Database("UNIQUE constraint failed: calea_intercepts.id".to_owned()),
            ),
            None => {
                if position_of(&self.accounts, target.account_id.as_str()).is_none() {
                    return Err(BillingError::Database("FOREIGN KEY constraint failed".to_owned()));
                }
                proof {
                    lemma_push_distinct(self.intercepts@, *target, |x: InterceptTarget| x.key());
                    lemma_push_ref(self.intercepts@, *target, |t: InterceptTarget| t.account_id@, self.accounts@);
                }
                self.intercepts.push(target.clone());
                Ok(())
            },
        }
    }

    /// All intercept targets, most recently created first.
    pub fn list_intercepts(&self) -> (r: Result<Vec<InterceptTarget>, BillingError>)
        ensures
            r matches Ok(v) && lists_sorted::<InterceptTarget, InterceptsNewestFirst>(
                v@,
                self@.intercepts,
            ),
    {
        let ghost pred = |t: InterceptTarget| true;
        let keep = |t: &InterceptTarget| -> (b: bool)
            ensures
                b,
            { true };
        let all = filter_rows(&self.intercepts, keep, Ghost(pred));
        proof {
            lemma_filter_all(self.intercepts@, pred);
        }
        Ok(sort_rows::<InterceptTarget, InterceptsNewestFirst>(all))
    }

    /// The intercept targets on account `account_id`, most recently created first.
    pub fn get_intercepts_for_account(&self, account_id: &str) -> (r: Result<Vec<InterceptTarget>, BillingError>)
        ensures
            r matches Ok(v) && lists_sorted::<InterceptTarget, InterceptsNewestFirst>(
                v@,
                intercepts_of(self@.intercepts, account_id@),
            ),
    {
        let ghost pred = |t: InterceptTarget| t.account_id@ == account_id@;
        let keep = |t: &InterceptTarget| -> (b: bool)
            ensures
                b == (t.account_id@ == account_id@),
            { str_equals(t.account_id.as_str(), account_id) };
        let found = filter_rows(&self.intercepts, keep, Ghost(pred));
        Ok(sort_rows::<InterceptTarget, InterceptsNewestFirst>(found))
    }

    /// The intercept target with id `id`.
    pub fn get_intercept(&self, id: &str) -> (r: Result<InterceptTarget, BillingError>)
        requires
            self.wf(),
        ensures
            match find_key(self@.intercepts, id@) {
                Some(t) => r == Ok::<InterceptTarget, BillingError>(t),
                None => r matches Err(e) && is_not_found(e, "intercept "@ + id@),
            },
    {
        match position_of(&self.intercepts, id) {
            Some(i) => {
                proof {
                    lemma_key_unique(self.intercepts@, id@, i as int);
                }
                Ok(self.intercepts[i].clone())
            },
            None => Err(BillingError::AccountNotFound(labelled("intercept ", id))),
        }
    }

    /// Sets the status of intercept target `id`, stamping the change with time `now`.
    pub fn update_intercept_status_at(&mut self, id: &str, status: InterceptStatus, now: i64) -> (r:
        Result<(), BillingError>)
        requires
            old(self).wf(),
        ensures
            final(self).wf(),
            intercept_status_set(old(self)@, final(self)@, id@, status, now, r),
    {
        match position_of(&self.intercepts, id) {
            Some(i) => {
                let ghost s = self.intercepts@;
                proof {
                    lemma_key_unique(s, id@, i as int);
                }
                let mut t = self.intercepts[i].clone();
                t.status = status;
                t.updated_at = now;
                proof {
                    let u = with_intercept_status(s, id@, status, now);
                    assert forall|j: int| 0 <= j < u.len() implies has_key(
                        self.accounts@,
                        (|t: InterceptTarget| t.account_id@)(#[trigger] u[j]),
                    ) by {
                        assert(u[j].account_id == s[j].account_id);
                        assert(has_key(self.accounts@, (|t: InterceptTarget| t.account_id@)(s[j])));
                    }
                    lemma_update_distinct(s, i as int, t, |x: InterceptTarget| x.key());
                }
                self.intercepts.set(i, t);
                assert(self.intercepts@ =~= with_intercept_status(s, id@, status, now));
                assert(self@ =~= BillingState {
                    intercepts: with_intercept_status(s, id@, status, now),
                    ..old(self)@
                });
                Ok(())
            },
            None => Err(BillingError::AccountNotFound(labelled("intercept ", id))),
        }
    }

    /// Sets the status of intercept target `id`, stamping the change with the current time.
    pub fn update_intercept_status(&mut self, id: &str, status: InterceptStatus) -> (r: Result<
        (),
        BillingError,
    >)
        requires
            old(self).wf(),
        ensures
            final(self).wf(),
            exists|now: i64| #[trigger] intercept_status_set(old(self)@, final(self)@, id@, status, now, r),
    {
        let now = current_micros();
        self.update_intercept_status_at(id, status, now)
    }

    /// Deletes intercept target `id`.
    pub fn delete_intercept(&mut self, id: &str) -> (r: Result<(), BillingError>)
        requires
            old(self).wf(),
        ensures
            final(self).wf(),
            has_key(old(self)@.intercepts, id@) ==> (r is Ok) && final(self)@ == (BillingState {
                intercepts: old(self)@.intercepts.filter(|t: InterceptTarget| t.id@ != id@),
                ..old(self)@
            }),
            !has_key(old(self)@.intercepts, id@) ==> {
                &&& r matches Err(e) && is_not_found(e, "intercept "@ + id@)
                &&& final(self)@ == old(self)@
            },
    {
        match position_of(&self.intercepts, id) {
            None => Err(BillingError::AccountNotFound(labelled("intercept ", id))),
            Some(_) => {
                let ghost pred = |t: InterceptTarget| t.id@ != id@;
                let keep = |t: &InterceptTarget| -> (b: bool)
                    ensures
                        b == (t.id@ != id@),
                    { !str_equals(t.id.as_str(), id) };
                let remaining = filter_rows(&self.intercepts, keep, Ghost(pred));
                proof {
                    lemma_filter_distinct(self.intercepts@, pred, |x: InterceptTarget| x.key());
                    lemma_filter_ref(self.intercepts@, pred, |t: InterceptTarget| t.account_id@, self.accounts@);
                }
                self.intercepts = remaining;
                assert(self@ =~= BillingState {
                    intercepts: old(self)@.intercepts.filter(pred),
                    ..old(self)@
                });
                Ok(())
            },
        }
    }

    /// Number of active intercept targets.
    pub fn get_intercept_count(&self) -> (r: Result<usize, BillingError>)
        ensures
            r matches Ok(n) && n == active_intercepts(self@.intercepts).len(),
    {
        let ghost pred = |t: InterceptTarget| t.status == InterceptStatus::Active;
        let keep = |t: &InterceptTarget| -> (b: bool)
            ensures
                b == (t.status == InterceptStatus::Active),
            { t.status == InterceptStatus::Active };
        Ok(count_rows(&self.intercepts, keep, Ghost(pred)))
    }

    /// Adds a forwarding rule; refused when its id is taken.
    pub fn create_forwarding_rule(&mut self, rule: &ForwardingRule) -> (r: Result<(), BillingError>)
        requires
            old(self).wf(),
        ensures
            final(self).wf(),
            has_key(old(self)@.forwarding, rule.id@) ==> {
                &&& r matches Err(e) && is_database(e, "UNIQUE constraint failed: pbx_forwarding.id"@)
                &&& final(self)@ == old(self)@
            },
            !has_key(old(self)@.forwarding, rule.id@) && !has_key(old(self)@.accounts, rule.source_account_id@) ==> {
                &&& r matches Err(e) && is_database(e, "FOREIGN KEY constraint failed"@)
                &&& final(self)@ == old(self)@
            },
            !has_key(old(self)@.forwarding, rule.id@) && has_key(old(self)@.accounts, rule.source_account_id@)
                ==> (r is Ok) && final(self)@ == (BillingState {
                forwarding: old(self)@.forwarding.push(*rule),
                ..old(self)@
            }),
    {
        match position_of(&self.forwarding, rule.id.as_str()) {
            Some(_) => Err(
                BillingError::Database("UNIQUE constraint failed: pbx_forwarding.id".to_owned()),
            ),
            None => {
                if position_of(&self.accounts, rule.source_account_id.as_str()).is_none() {
                    return Err(BillingError::Database("FOREIGN KEY constraint failed".to_owned()));
                }
                proof {
                    lemma_push_distinct(self.forwarding@, *rule, |x: ForwardingRule| x.key());
                    lemma_push_ref(
                        self.forwarding@,
                        *rule,
                        |x: ForwardingRule| x.source_account_id@,
                        self.accounts@,
                    );
                }
                self.forwarding.push(rule.clone());
                Ok(())
            },
        }
    }

    /// All forwarding rules, most recently created first.
    pub fn list_forwarding_rules(&self) -> (r: Result<Vec<ForwardingRule>, BillingError>)
        ensures
            r matches Ok(v) && lists_sorted::<ForwardingRule, RulesNewestFirst>(v@, self@.forwarding),
    {
        let ghost pred = |x: ForwardingRule| true;
        let keep = |x: &ForwardingRule| -> (b: bool)
            ensures
                b,
            { true };
        let all = filter_rows(&self.forwarding, keep, Ghost(pred));
        proof {
            lemma_filter_all(self.forwarding@, pred);
        }
        Ok(sort_rows::<ForwardingRule, RulesNewestFirst>(all))
    }

    /// The forwarding rules of account `account_id`, most recently created first.
    pub fn get_forwarding_rules_for_account(&self, account_id: &str) -> (r: Result<Vec<ForwardingRule>, BillingError>)
        ensures
            r matches Ok(v) && lists_sorted::<ForwardingRule, RulesNewestFirst>(
                v@,
                rules_of(self@.forwarding, account_id@),
            ),
    {
        let ghost pred = |x: ForwardingRule| x.source_account_id@ == account_id@;
        let keep = |x: &ForwardingRule| -> (b: bool)
            ensures
                b == (x.source_account_id@ == account_id@),
            { str_equals(x.source_account_id.as_str(), account_id) };
        let found = filter_rows(&self.forwarding, keep, Ghost(pred));
        Ok(sort_rows::<ForwardingRule, RulesNewestFirst>(found))
    }

    /// The forwarding rule with id `id`.
    pub fn get_forwarding_rule(&self, id: &str) -> (r: Result<ForwardingRule, BillingError>)
        requires
            self.wf(),
        ensures
            match find_key(self@.forwarding, id@) {
                Some(x) => r == Ok::<ForwardingRule, BillingError>(x),
                None => r matches Err(e) && is_not_found(e, "forwarding rule "@ + id@),
            },
    {
        match position_of(&self.forwarding, id) {
            Some(i) => {
                proof {
                    lemma_key_unique(self.forwarding@, id@, i as int);
                }
                Ok(self.forwarding[i].clone())
            },
            None => Err(BillingError::AccountNotFound(labelled("forwarding rule ", id))),
        }
    }

    /// Sets the status of forwarding rule `id`, stamping the change with time `now`.
    pub fn update_forwarding_status_at(&mut self, id: &str, status: ForwardingStatus, now: i64) -> (r:
        Result<(), BillingError>)
        requires
            old(self).wf(),
        ensures
            final(self).wf(),
            rule_status_set(old(self)@, final(self)@, id@, status, now, r),
    {
        match position_of(&self.forwarding, id) {
            Some(i) => {
                let ghost s = self.forwarding@;
                proof {
                    lemma_key_unique(s, id@, i as int);
                }
                let mut x = self.forwarding[i].clone();
                x.status = status;
                x.updated_at = now;
                proof {
                    let u = with_rule_status(s, id@, status, now);
                    assert forall|j: int| 0 <= j < u.len() implies has_key(
                        self.accounts@,
                        (|x: ForwardingRule| x.source_account_id@)(#[trigger] u[j]),
                    ) by {
                        assert(u[j].source_account_id == s[j].source_account_id);
                        assert(has_key(self.accounts@, (|x: ForwardingRule| x.source_account_id@)(s[j])));
                    }
                    lemma_update_distinct(s, i as int, x, |y: ForwardingRule| y.key());
                }
                self.forwarding.set(i, x);
                assert(self.forwarding@ =~= with_rule_status(s, id@, status, now));
                assert(self@ =~= BillingState {
                    forwarding: with_rule_status(s, id@, status, now),
                    ..old(self)@
                });
                Ok(())
            },
            None => Err(BillingError::AccountNotFound(labelled("forwarding rule ", id))),
        }
    }

    /// Sets the status of forwarding rule `id`, stamping the change with the current time.
    pub fn update_forwarding_status(&mut self, id: &str, status: ForwardingStatus) -> (r: Result<
        (),
        BillingError,
    >)
        requires
            old(self).wf(),
        ensures
            final(self).wf(),
            exists|now: i64| #[trigger] rule_status_set(old(self)@, final(self)@, id@, status, now, r),
    {
        let now = current_micros();
        self.update_forwarding_status_at(id, status, now)
    }

    /// Deletes forwarding rule `id`.
    pub fn delete_forwarding_rule(&mut self, id: &str) -> (r: Result<(), BillingError>)
        requires
            old(self).wf(),
        ensures
            final(self).wf(),
            has_key(old(self)@.forwarding, id@) ==> (r is Ok) && final(self)@ == (BillingState {
                forwarding: old(self)@.forwarding.filter(|x: ForwardingRule| x.id@ != id@),
                ..old(self)@
            }),
            !has_key(old(self)@.forwarding, id@) ==> {
                &&& r matches Err(e) && is_not_found(e, "forwarding rule "@ + id@)
                &&& final(self)@ == old(self)@
            },
    {
        match position_of(&self.forwarding, id) {
            None => Err(BillingError::AccountNotFound(labelled("forwarding rule ", id))),
            Some(_) => {
                let ghost pred = |x: ForwardingRule| x.id@ != id@;
                let keep = |x: &ForwardingRule| -> (b: bool)
                    ensures
                        b == (x.id@ != id@),
                    { !str_equals(x.id.as_str(), id) };
                let remaining = filter_rows(&self.forwarding, keep, Ghost(pred));
                proof {
                    lemma_filter_distinct(self.forwarding@, pred, |y: ForwardingRule| y.key());
                    lemma_filter_ref(
                        self.forwarding@,
                        pred,
                        |x: ForwardingRule| x.source_account_id@,
                        self.accounts@,
                    );
                }
                self.forwarding = remaining;
                assert(self@ =~= BillingState {
                    forwarding: old(self)@.forwarding.filter(pred),
                    ..old(self)@
                });
                Ok(())
            },
        }
    }

    /// Number of active forwarding rules.
    pub fn get_forwarding_count(&self) -> (r: Result<usize, BillingError>)
        ensures
            r matches Ok(n) && n == active_rules(self@.forwarding).len(),
    {
        let ghost pred = |x: ForwardingRule| x.status == ForwardingStatus::Active;
        let keep = |x: &ForwardingRule| -> (b: bool)
            ensures
                b == (x.status == ForwardingStatus::Active),
            { x.status == ForwardingStatus::Active };
        Ok(count_rows(&self.forwarding, keep, Ghost(pred)))
    }
}

/// Keeping every entry keeps the sequence.
proof fn lemma_filter_all<T>(s: Seq<T>, p: spec_fn(T) -> bool)
    requires
        forall|x: T| #[trigger] p(x),
    ensures
        s.filter(p) == s,
    decreases s.len(),
{
    reveal(Seq::filter);
    if s.len() > 0 {
        lemma_filter_all(s.drop_last(), p);
        assert(s.drop_last().push(s.last()) =~= s);
    }
}

/// `prefix` followed by `id`.
fn labelled(prefix: &str, id: &str) -> (s: String)
    ensures
        s@ == prefix@ + id@,
{
    let mut s = prefix.to_owned();
    s.append(id);
    s
}

/// Outcome of setting the balance of account `id` to `balance` at time `now`.
pub open spec fn balance_set(
    pre: BillingState,
    post: BillingState,
    id: Seq<char>,
    balance: i64,
    now: i64,
    r: Result<(), BillingError>,
) -> bool {
    if has_key(pre.accounts, id) {
        &&& r is Ok
        &&& post == BillingState { accounts: with_balance(pre.accounts, id, balance, now), ..pre }
    } else {
        &&& r matches Err(e) && is_not_found(e, id)
        &&& post == pre
    }
}

/// Outcome of setting the status of account `id` at time `now`.
pub open spec fn status_set(
    pre: BillingState,
    post: BillingState,
    id: Seq<char>,
    status: AccountStatus,
    now: i64,
    r: Result<(), BillingError>,
) -> bool {
    if has_key(pre.accounts, id) {
        &&& r is Ok
        &&& post == BillingState { accounts: with_status(pre.accounts, id, status, now), ..pre }
    } else {
        &&& r matches Err(e) && is_not_found(e, id)
        &&& post == pre
    }
}

/// Outcome of crediting `amount` to account `id` at time `now`.
pub open spec fn credit_outcome(
    pre: BillingState,
    post: BillingState,
    id: Seq<char>,
    amount: i64,
    now: i64,
    r: Result<i64, BillingError>,
) -> bool {
    match find_key(pre.accounts, id) {
        None => {
            &&& r matches Err(e) && is_not_found(e, id)
            &&& post == pre
        },
        Some(a) => if a.status == AccountStatus::Closed {
            &&& r matches Err(e) && is_suspended(e, id)
            &&& post == pre
        } else {
            &&& r == Ok::<i64, BillingError>((a.balance + amount) as i64)
            &&& post == BillingState {
                accounts: with_balance(pre.accounts, id, (a.balance + amount) as i64, now),
                ..pre
            }
        },
    }
}

/// Outcome of debiting `amount` from account `id` at time `now`.
pub open spec fn debit_outcome(
    pre: BillingState,
    post: BillingState,
    id: Seq<char>,
    amount: i64,
    now: i64,
    r: Result<i64, BillingError>,
) -> bool {
    match find_key(pre.accounts, id) {
        None => {
            &&& r matches Err(e) && is_not_found(e, id)
            &&& post == pre
        },
        Some(a) => if a.status != AccountStatus::Active {
            &&& r matches Err(e) && is_suspended(e, id)
            &&& post == pre
        } else if a.balance < amount {
            &&& r matches Err(BillingError::InsufficientBalance { available, required })
                && available == a.balance && required == amount
            &&& post == pre
        } else {
            &&& r == Ok::<i64, BillingError>((a.balance - amount) as i64)
            &&& post == BillingState {
                accounts: with_balance(pre.accounts, id, (a.balance - amount) as i64, now),
                ..pre
            }
        },
    }
}

/// The call detail records of account `account_id`.
pub open spec fn cdrs_of(s: Seq<CallDetailRecord>, account_id: Seq<char>) -> Seq<CallDetailRecord> {
    s.filter(|c: CallDetailRecord| c.account_id@ == account_id)
}

/// The call detail records of accounts other than `account_id`.
pub open spec fn cdrs_not_of(s: Seq<CallDetailRecord>, account_id: Seq<char>) -> Seq<CallDetailRecord> {
    s.filter(|c: CallDetailRecord| c.account_id@ != account_id)
}

/// The intercept targets on account `account_id`.
pub open spec fn intercepts_of(s: Seq<InterceptTarget>, account_id: Seq<char>) -> Seq<InterceptTarget> {
    s.filter(|t: InterceptTarget| t.account_id@ == account_id)
}

/// The active intercept targets.
pub open spec fn active_intercepts(s: Seq<InterceptTarget>) -> Seq<InterceptTarget> {
    s.filter(|t: InterceptTarget| t.status == InterceptStatus::Active)
}

/// The intercept targets after setting the status of target `id` at time `now`.
pub open spec fn with_intercept_status(
    s: Seq<InterceptTarget>,
    id: Seq<char>,
    status: InterceptStatus,
    now: i64,
) -> Seq<InterceptTarget> {
    s.map_values(
        |t: InterceptTarget|
            if t.id@ == id {
                InterceptTarget { status, updated_at: now, ..t }
            } else {
                t
            },
    )
}

/// Outcome of setting the status of intercept target `id` at time `now`.
pub open spec fn intercept_status_set(
    pre: BillingState,
    post: BillingState,
    id: Seq<char>,
    status: InterceptStatus,
    now: i64,
    r: Result<(), BillingError>,
) -> bool {
    if has_key(pre.intercepts, id) {
        &&& r is Ok
        &&& post == BillingState {
            intercepts: with_intercept_status(pre.intercepts, id, status, now),
            ..pre
        }
    } else {
        &&& r matches Err(e) && is_not_found(e, "intercept "@ + id)
        &&& post == pre
    }
}

/// The forwarding rules of account `account_id`.
pub open spec fn rules_of(s: Seq<ForwardingRule>, account_id: Seq<char>) -> Seq<ForwardingRule> {
    s.filter(|x: ForwardingRule| x.source_account_id@ == account_id)
}

/// The active forwarding rules.
pub open spec fn active_rules(s: Seq<ForwardingRule>) -> Seq<ForwardingRule> {
    s.filter(|x: ForwardingRule| x.status == ForwardingStatus::Active)
}

/// The forwarding rules after setting the status of rule `id` at time `now`.
pub open spec fn with_rule_status(
    s: Seq<ForwardingRule>,
    id: Seq<char>,
    status: ForwardingStatus,
    now: i64,
) -> Seq<ForwardingRule> {
    s.map_values(
        |x: ForwardingRule|
            if x.id@ == id {
                ForwardingRule { status, updated_at: now, ..x }
            } else {
                x
            },
    )
}

/// Outcome of setting the status of forwarding rule `id` at time `now`.
pub open spec fn rule_status_set(
    pre: BillingState,
    post: BillingState,
    id: Seq<char>,
    status: ForwardingStatus,
    now: i64,
    r: Result<(), BillingError>,
) -> bool {
    if has_key(pre.forwarding, id) {
        &&& r is Ok
        &&& post == BillingState { forwarding: with_rule_status(pre.forwarding, id, status, now), ..pre }
    } else {
        &&& r matches Err(e) && is_not_found(e, "forwarding rule "@ + id)
        &&& post == pre
    }
}

} // verus!
