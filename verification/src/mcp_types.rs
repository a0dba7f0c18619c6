//! The parameters of the MCP tools and how each becomes a library request.

use vstd::prelude::*;

use crate::app::{
    ResourceListOptions, TransactionCreateInput, TransactionListOptions, TransactionSearchOptions,
    TransactionUpdateInput,
};
use crate::scheduled::{
    scheduled_create_outcome, scheduled_create_payload, scheduled_update_outcome,
    scheduled_update_payload,
};
use crate::dates::{parse_ymd, parsed_date, ymd_parse_error, Date};
use crate::inputs::{
    amount_outcome, amount_text_value, input_date, iso_date_outcome, iso_date_text, issue_of,
    issue_outcome, issue_text, read_input_date, typed_amount, typed_iso_date, InputError,
    InputIssue,
};
use crate::json::{Json, JsonMap, JsonV, int_view};
use crate::models::{amount_spec, AmountMilliunits, SaveCategory, TransactionClearedFilter};
use crate::app::{object_of, opt_text, ObjectBuilder};

verus! {

/// Parameters of the current-user tool (none).
#[derive(Debug, Default)]
pub struct GetUserParams {}

/// The kinds of account that can be created.
#[derive(Debug, Clone, Copy, PartialEq, Eq)]
pub enum AccountTypeParam {
    Checking,
    Savings,
    Cash,
    CreditCard,
    OtherAsset,
    OtherLiability,
}

/// How often a scheduled transaction repeats.
#[derive(Debug, Clone, Copy, PartialEq, Eq)]
pub enum ScheduledFrequencyParam {
    Never,
    Daily,
    Weekly,
    EveryOtherWeek,
    TwiceAMonth,
    Every4Weeks,
    Monthly,
    EveryOtherMonth,
    Every3Months,
    Every4Months,
    TwiceAYear,
    Yearly,
    EveryOtherYear,
}

/// An optional plan; the default plan when omitted.
#[derive(Debug)]
pub struct PlanIdParam {
    pub plan_id: Option<String>,
}

/// A plan.
#[derive(Debug)]
pub struct PlanGetParam {
    pub plan_id: String,
}

/// Parameters of creating an account; amounts are decimal texts.
#[derive(Debug)]
pub struct AccountCreateParams {
    pub plan_id: Option<String>,
    pub name: String,
    pub account_type: AccountTypeParam,
    pub balance: String,
    pub cleared_balance: Option<String>,
    pub uncleared_balance: Option<String>,
    pub transfer_payee_id: Option<String>,
    pub note: Option<String>,
    pub on_budget: Option<bool>,
    pub closed: Option<bool>,
}

/// Parameters of a resource listing within a plan.
#[derive(Debug)]
pub struct ResourceListParams {
    pub plan_id: Option<String>,
    pub last_knowledge_of_server: Option<u64>,
}

/// Parameters of listing accounts.
#[derive(Debug)]
pub struct ListAccountsParams {
    pub plan_id: Option<String>,
    pub last_knowledge_of_server: Option<u64>,
}

/// Parameters of listing plans.
#[derive(Debug)]
pub struct ListPlansParams {
    pub include_accounts: bool,
    pub last_knowledge_of_server: Option<u64>,
}

/// An account of a plan.
#[derive(Debug)]
pub struct AccountGetParams {
    pub plan_id: Option<String>,
    pub account_id: String,
}

/// A category of a plan.
#[derive(Debug)]
pub struct CategoryGetParams {
    pub plan_id: Option<String>,
    pub category_id: String,
}

/// Parameters of creating a category.
#[derive(Debug)]
pub struct CategoryCreateParams {
    pub plan_id: Option<String>,
    pub name: String,
    pub group_id: String,
    pub note: Option<String>,
    pub goal_target: Option<String>,
    pub goal_target_date: Option<String>,
    pub goal_needs_whole_amount: Option<bool>,
}

/// Parameters of changing a category; at least one change is required.
#[derive(Debug)]
pub struct CategoryUpdateParams {
    pub plan_id: Option<String>,
    pub category_id: String,
    pub name: Option<String>,
    pub group_id: Option<String>,
    pub note: Option<String>,
    pub goal_target: Option<String>,
    pub goal_target_date: Option<String>,
    pub goal_needs_whole_amount: Option<bool>,
}

/// Parameters of setting a category's budgeted amount for a month.
#[derive(Debug)]
pub struct CategoryUpdateMonthParams {
    pub plan_id: Option<String>,
    pub month: String,
    pub category_id: String,
    pub budgeted: String,
}

/// Parameters of creating a category group.
#[derive(Debug)]
pub struct CategoryGroupCreateParams {
    pub plan_id: Option<String>,
    pub name: String,
}

/// Parameters of renaming a category group.
#[derive(Debug)]
pub struct CategoryGroupUpdateParams {
    pub plan_id: Option<String>,
    pub category_group_id: String,
    pub name: String,
}

/// Parameters of creating a payee.
#[derive(Debug)]
pub struct PayeeCreateParams {
    pub plan_id: Option<String>,
    pub name: String,
}

/// Parameters of renaming a payee.
#[derive(Debug)]
pub struct PayeeUpdateParams {
    pub plan_id: Option<String>,
    pub payee_id: String,
    pub name: String,
}

/// Which cleared states a listing keeps.
#[derive(Debug, Clone, Copy, PartialEq, Eq)]
pub enum ClearedFilterParam {
    Cleared,
    Uncleared,
}

/// Parameters of a transaction listing; dates are `YYYY-MM-DD`.
#[derive(Debug)]
pub struct TransactionsListParams {
    pub plan_id: Option<String>,
    pub last_knowledge_of_server: Option<u64>,
    pub month: Option<String>,
    pub since_date: Option<String>,
    pub transaction_type: Option<String>,
    pub start_date: Option<String>,
    pub end_date: Option<String>,
    pub cleared_filter: Option<ClearedFilterParam>,
}

/// Parameters of a transaction search.
#[derive(Debug)]
pub struct TransactionsSearchParams {
    pub plan_id: Option<String>,
    pub last_knowledge_of_server: Option<u64>,
    pub month: Option<String>,
    pub since_date: Option<String>,
    pub transaction_type: Option<String>,
    pub start_date: Option<String>,
    pub end_date: Option<String>,
    pub cleared_filter: Option<ClearedFilterParam>,
    pub query: Option<String>,
    pub payee: Option<String>,
    pub memo: Option<String>,
    pub account: Option<String>,
    pub category: Option<String>,
}

/// A transaction of a plan.
#[derive(Debug)]
pub struct TransactionGetParams {
    pub plan_id: Option<String>,
    pub transaction_id: String,
}

/// Parameters of creating a transaction, by ids or names.
#[derive(Debug)]
pub struct TransactionCreateParams {
    pub plan_id: Option<String>,
    pub account_id: Option<String>,
    pub account_name: Option<String>,
    pub date: String,
    pub amount: String,
    pub payee_id: Option<String>,
    pub payee_name: Option<String>,
    pub category_id: Option<String>,
    pub category_name: Option<String>,
    pub memo: Option<String>,
    pub cleared: Option<String>,
    pub approved: Option<bool>,
    pub flag_color: Option<String>,
    pub import_id: Option<String>,
    pub id: Option<String>,
    pub dry_run: Option<bool>,
}

/// Parameters of changing a transaction, by ids or names.
#[derive(Debug)]
pub struct TransactionUpdateParams {
    pub plan_id: Option<String>,
    pub transaction_id: String,
    pub account_id: Option<String>,
    pub account_name: Option<String>,
    pub date: Option<String>,
    pub amount: Option<String>,
    pub payee_id: Option<String>,
    pub payee_name: Option<String>,
    pub category_id: Option<String>,
    pub category_name: Option<String>,
    pub memo: Option<String>,
    pub cleared: Option<String>,
    pub approved: Option<bool>,
    pub flag_color: Option<String>,
    pub dry_run: Option<bool>,
}

/// A transaction to delete.
#[derive(Debug)]
pub struct TransactionDeleteParams {
    pub plan_id: Option<String>,
    pub transaction_id: String,
}

/// A bulk or import request given as JSON.
#[derive(Debug)]
pub struct TransactionJsonRequestParams {
    pub plan_id: Option<String>,
    pub request: Json,
    pub dry_run: Option<bool>,
}

/// Parameters of listing an account's transactions.
#[derive(Debug)]
pub struct AccountTransactionsParams {
    pub plan_id: Option<String>,
    pub account_id: String,
    pub list: TransactionsListParams,
}

/// Parameters of listing a category's transactions.
#[derive(Debug)]
pub struct CategoryTransactionsParams {
    pub plan_id: Option<String>,
    pub category_id: String,
    pub list: TransactionsListParams,
}

/// Parameters of listing a payee's transactions.
#[derive(Debug)]
pub struct PayeeTransactionsParams {
    pub plan_id: Option<String>,
    pub payee_id: String,
    pub list: TransactionsListParams,
}

/// A month of a plan.
#[derive(Debug)]
pub struct MonthGetParams {
    pub plan_id: Option<String>,
    pub month: String,
}

/// A scheduled transaction of a plan.
#[derive(Debug)]
pub struct ScheduledTransactionGetParams {
    pub plan_id: Option<String>,
    pub scheduled_transaction_id: String,
}

/// Parameters of creating a scheduled transaction.
#[derive(Debug)]
pub struct ScheduledTransactionCreateParams {
    pub plan_id: Option<String>,
    pub account_id: Option<String>,
    pub account_name: Option<String>,
    pub date: String,
    pub amount: String,
    pub payee_id: Option<String>,
    pub payee_name: Option<String>,
    pub category_id: Option<String>,
    pub category_name: Option<String>,
    pub memo: Option<String>,
    pub flag_color: Option<String>,
    pub frequency: ScheduledFrequencyParam,
}

/// Parameters of changing a scheduled transaction.
#[derive(Debug)]
pub struct ScheduledTransactionUpdateParams {
    pub plan_id: Option<String>,
    pub scheduled_transaction_id: String,
    pub account_id: Option<String>,
    pub account_name: Option<String>,
    pub date: Option<String>,
    pub amount: Option<String>,
    pub payee_id: Option<String>,
    pub payee_name: Option<String>,
    pub category_id: Option<String>,
    pub category_name: Option<String>,
    pub memo: Option<String>,
    pub flag_color: Option<String>,
    pub frequency: Option<ScheduledFrequencyParam>,
}

/// A scheduled transaction to delete.
#[derive(Debug)]
pub struct ScheduledTransactionDeleteParams {
    pub plan_id: Option<String>,
    pub scheduled_transaction_id: String,
}

/// A month-scoped listing of a plan.
#[derive(Debug)]
pub struct MonthScopedListParams {
    pub plan_id: Option<String>,
    pub month: String,
}

/// A payee location of a plan.
#[derive(Debug)]
pub struct PayeeLocationGetParams {
    pub plan_id: Option<String>,
    pub payee_location_id: String,
}

/// The locations of a payee.
#[derive(Debug)]
pub struct PayeeLocationsByPayeeParams {
    pub plan_id: Option<String>,
    pub payee_id: String,
}

/// The API name of an account type.
pub open spec fn account_type_value(t: AccountTypeParam) -> Seq<char> {
    match t {
        AccountTypeParam::Checking => "checking"@,
        AccountTypeParam::Savings => "savings"@,
        AccountTypeParam::Cash => "cash"@,
        AccountTypeParam::CreditCard => "creditCard"@,
        AccountTypeParam::OtherAsset => "otherAsset"@,
        AccountTypeParam::OtherLiability => "otherLiability"@,
    }
}

impl AccountTypeParam {
    /// The API name of the account type.
    pub fn as_api_value(&self) -> (r: &'static str)
        ensures
            r@ == account_type_value(*self),
    {
        match self {
            AccountTypeParam::Checking => "checking",
            AccountTypeParam::Savings => "savings",
            AccountTypeParam::Cash => "cash",
            AccountTypeParam::CreditCard => "creditCard",
            AccountTypeParam::OtherAsset => "otherAsset",
            AccountTypeParam::OtherLiability => "otherLiability",
        }
    }
}

/// The API name of a repeat frequency.
pub open spec fn frequency_value(f: ScheduledFrequencyParam) -> Seq<char> {
    match f {
        ScheduledFrequencyParam::Never => "never"@,
        ScheduledFrequencyParam::Daily => "daily"@,
        ScheduledFrequencyParam::Weekly => "weekly"@,
        ScheduledFrequencyParam::EveryOtherWeek => "everyOtherWeek"@,
        ScheduledFrequencyParam::TwiceAMonth => "twiceAMonth"@,
        ScheduledFrequencyParam::Every4Weeks => "every4Weeks"@,
        ScheduledFrequencyParam::Monthly => "monthly"@,
        ScheduledFrequencyParam::EveryOtherMonth => "everyOtherMonth"@,
        ScheduledFrequencyParam::Every3Months => "every3Months"@,
        ScheduledFrequencyParam::Every4Months => "every4Months"@,
        ScheduledFrequencyParam::TwiceAYear => "twiceAYear"@,
        ScheduledFrequencyParam::Yearly => "yearly"@,
        ScheduledFrequencyParam::EveryOtherYear => "everyOtherYear"@,
    }
}

impl ScheduledFrequencyParam {
    /// The API name of the frequency.
    pub fn as_api_value(&self) -> (r: &'static str)
        ensures
            r@ == frequency_value(*self),
    {
        match self {
            ScheduledFrequencyParam::Never => "never",
            ScheduledFrequencyParam::Daily => "daily",
            ScheduledFrequencyParam::Weekly => "weekly",
            ScheduledFrequencyParam::EveryOtherWeek => "everyOtherWeek",
            ScheduledFrequencyParam::TwiceAMonth => "twiceAMonth",
            ScheduledFrequencyParam::Every4Weeks => "every4Weeks",
            ScheduledFrequencyParam::Monthly => "monthly",
            ScheduledFrequencyParam::EveryOtherMonth => "everyOtherMonth",
            ScheduledFrequencyParam::Every3Months => "every3Months",
            ScheduledFrequencyParam::Every4Months => "every4Months",
            ScheduledFrequencyParam::TwiceAYear => "twiceAYear",
            ScheduledFrequencyParam::Yearly => "yearly",
            ScheduledFrequencyParam::EveryOtherYear => "everyOtherYear",
        }
    }
}

impl Default for ListPlansParams {
    fn default() -> (r: ListPlansParams)
        ensures
            !r.include_accounts,
            r.last_knowledge_of_server is None,
    {
        ListPlansParams { include_accounts: false, last_knowledge_of_server: None }
    }
}

impl ResourceListParams {
    /// The listing options: the server knowledge.
    pub fn as_options(&self) -> (r: ResourceListOptions)
        ensures
            r.last_knowledge_of_server == self.last_knowledge_of_server,
    {
        ResourceListOptions { last_knowledge_of_server: self.last_knowledge_of_server }
    }
}

/// The filter a cleared-state parameter stands for.
pub open spec fn cleared_filter_of(p: ClearedFilterParam) -> TransactionClearedFilter {
    match p {
        ClearedFilterParam::Cleared => TransactionClearedFilter::Cleared,
        ClearedFilterParam::Uncleared => TransactionClearedFilter::Uncleared,
    }
}

impl From<ClearedFilterParam> for TransactionClearedFilter {
    fn from(value: ClearedFilterParam) -> (r: TransactionClearedFilter) {
        match value {
            ClearedFilterParam::Cleared => TransactionClearedFilter::Cleared,
            ClearedFilterParam::Uncleared => TransactionClearedFilter::Uncleared,
        }
    }
}

impl vstd::std_specs::convert::FromSpecImpl<ClearedFilterParam> for TransactionClearedFilter {
    open spec fn obeys_from_spec() -> bool {
        true
    }

    open spec fn from_spec(v: ClearedFilterParam) -> TransactionClearedFilter {
        cleared_filter_of(v)
    }
}

fn opt_cleared(p: Option<ClearedFilterParam>) -> (r: Option<TransactionClearedFilter>)
    ensures
        r == match p {
            Some(c) => Some(cleared_filter_of(c)),
            None => None,
        },
{
    match p {
        Some(c) => Some(TransactionClearedFilter::from(c)),
        None => None,
    }
}

/// An optional date filter read as `YYYY-MM-DD` (untrimmed); a refusal
/// names the value and carries chrono's error text.
pub open spec fn optional_date_outcome(o: Option<Seq<char>>) -> Result<Option<Date>, Seq<char>> {
    match o {
        None => Ok(None),
        Some(v) => match parsed_date(v) {
            Some(d) => Ok(Some(d)),
            None => Err("invalid date "@ + v + ": "@ + ymd_parse_error(v)),
        },
    }
}

fn parse_optional_date(value: Option<&str>) -> (r: Result<Option<Date>, String>)
    ensures
        match optional_date_outcome(
            match value {
                Some(v) => Some(v@),
                None => None,
            },
        ) {
            Ok(d) => r == Ok::<Option<Date>, String>(d),
            Err(m) => r is Err && r->Err_0@ == m,
        },
{
    match value {
        None => Ok(None),
        Some(v) => match parse_ymd(v) {
            Ok(d) => Ok(Some(d)),
            Err(e) => {
                let mut m = "invalid date ".to_owned();
                m.append(v);
                m.append(": ");
                m.append(e.as_str());
                Err(m)
            },
        },
    }
}

fn opt_str(o: &Option<String>) -> (r: Option<&str>)
    ensures
        match r {
            Some(s) => o is Some && s@ == o->Some_0@,
            None => o is None,
        },
{
    match o {
        Some(s) => Some(s.as_str()),
        None => None,
    }
}

fn clone_opt(o: &Option<String>) -> (r: Option<String>)
    ensures
        r == *o,
{
    match o {
        Some(s) => Some(s.clone()),
        None => None,
    }
}

/// The listing options the listing parameters ask for: the start date and
/// then the end date must read as dates.
pub open spec fn list_options_outcome(
    last_knowledge_of_server: Option<u64>,
    month: Option<String>,
    since_date: Option<String>,
    transaction_type: Option<String>,
    start_date: Option<String>,
    end_date: Option<String>,
    cleared_filter: Option<ClearedFilterParam>,
    r: Result<TransactionListOptions, String>,
) -> bool {
    match optional_date_outcome(opt_text(start_date)) {
        Err(m) => r is Err && r->Err_0@ == m,
        Ok(s) => match optional_date_outcome(opt_text(end_date)) {
            Err(m) => r is Err && r->Err_0@ == m,
            Ok(e) => r is Ok && r->Ok_0 == (TransactionListOptions {
                last_knowledge_of_server,
                month,
                since_date,
                transaction_type,
                start_date: s,
                end_date: e,
                cleared_filter: match cleared_filter {
                    Some(c) => Some(cleared_filter_of(c)),
                    None => None,
                },
            }),
        },
    }
}

fn list_options(
    last_knowledge_of_server: Option<u64>,
    month: &Option<String>,
    since_date: &Option<String>,
    transaction_type: &Option<String>,
    start_date: &Option<String>,
    end_date: &Option<String>,
    cleared_filter: Option<ClearedFilterParam>,
) -> (r: Result<TransactionListOptions, String>)
    ensures
        list_options_outcome(
            last_knowledge_of_server,
            *month,
            *since_date,
            *transaction_type,
            *start_date,
            *end_date,
            cleared_filter,
            r,
        ),
{
    let start = match parse_optional_date(opt_str(start_date)) {
        Ok(d) => d,
        Err(m) => {
            return Err(m);
        },
    };
    let end = match parse_optional_date(opt_str(end_date)) {
        Ok(d) => d,
        Err(m) => {
            return Err(m);
        },
    };
    Ok(
        TransactionListOptions {
            last_knowledge_of_server,
            month: clone_opt(month),
            since_date: clone_opt(since_date),
            transaction_type: clone_opt(transaction_type),
            start_date: start,
            end_date: end,
            cleared_filter: opt_cleared(cleared_filter),
        },
    )
}

impl TransactionsListParams {
    /// The listing options these parameters ask for.
    pub fn to_options(&self) -> (r: Result<TransactionListOptions, String>)
        ensures
            list_options_outcome(
                self.last_knowledge_of_server,
                self.month,
                self.since_date,
                self.transaction_type,
                self.start_date,
                self.end_date,
                self.cleared_filter,
                r,
            ),
    {
        list_options(
            self.last_knowledge_of_server,
            &self.month,
            &self.since_date,
            &self.transaction_type,
            &self.start_date,
            &self.end_date,
            self.cleared_filter,
        )
    }
}

impl TransactionsSearchParams {
    /// The listing options these parameters ask for.
    pub fn to_list_options(&self) -> (r: Result<TransactionListOptions, String>)
        ensures
            list_options_outcome(
                self.last_knowledge_of_server,
                self.month,
                self.since_date,
                self.transaction_type,
                self.start_date,
                self.end_date,
                self.cleared_filter,
                r,
            ),
    {
        list_options(
            self.last_knowledge_of_server,
            &self.month,
            &self.since_date,
            &self.transaction_type,
            &self.start_date,
            &self.end_date,
            self.cleared_filter,
        )
    }

    /// The search criteria these parameters give.
    pub fn to_search_options(&self) -> (r: TransactionSearchOptions)
        ensures
            r.query == self.query,
            r.payee == self.payee,
            r.memo == self.memo,
            r.account == self.account,
            r.category == self.category,
    {
        TransactionSearchOptions {
            query: clone_opt(&self.query),
            payee: clone_opt(&self.payee),
            memo: clone_opt(&self.memo),
            account: clone_opt(&self.account),
            category: clone_opt(&self.category),
        }
    }
}

/// A typed date, written back as `YYYY-MM-DD`.
pub fn normalize_iso_date(input: &str) -> (r: Result<String, String>)
    ensures
        match iso_date_outcome(input@) {
            Ok(s) => r is Ok && r->Ok_0@ == s,
            Err(m) => r is Err && r->Err_0@ == m,
        },
        r is Ok ==> iso_date_outcome(r->Ok_0@) == Ok::<Seq<char>, Seq<char>>(r->Ok_0@),
{
    iso_date_text(input)
}

/// Reads a typed `YYYY-MM-DD` date.
pub fn parse_date(input: &str) -> (r: Result<Date, String>)
    ensures
        match input_date(input@) {
            Ok(d) => r == Ok::<Date, String>(d),
            Err(m) => r is Err && r->Err_0@ == m,
        },
{
    read_input_date(input)
}

/// Reads a typed amount.
pub fn parse_amount(input: &str) -> (r: Result<AmountMilliunits, String>)
    ensures
        match amount_outcome(input@) {
            Ok(v) => r is Ok && r->Ok_0.0 == v,
            Err(m) => r is Err && r->Err_0@ == m,
        },
{
    match amount_text_value(input) {
        Ok(v) => Ok(AmountMilliunits(v)),
        Err(m) => Err(m),
    }
}

/// An optional typed amount.
pub open spec fn opt_amount_outcome(o: Option<String>) -> Result<Option<int>, InputIssue> {
    match o {
        None => Ok(None),
        Some(s) => match amount_spec(s@) {
            Ok(v) => Ok(Some(v)),
            Err(m) => Err(InputIssue::Amount(m)),
        },
    }
}

/// An optional typed date, written back as `YYYY-MM-DD`.
pub open spec fn opt_date_outcome(o: Option<String>) -> Result<Option<Seq<char>>, InputIssue> {
    match o {
        None => Ok(None),
        Some(s) => match iso_date_outcome(s@) {
            Ok(v) => Ok(Some(v)),
            Err(m) => Err(InputIssue::Date(m)),
        },
    }
}

pub(crate) fn opt_amount(o: &Option<String>) -> (r: Result<Option<i64>, InputError>)
    ensures
        match opt_amount_outcome(*o) {
            Ok(None) => r is Ok && r->Ok_0 is None,
            Ok(Some(v)) => i64::MIN <= v <= i64::MAX && r is Ok && r->Ok_0 == Some(v as i64),
            Err(m) => issue_outcome(r) == Err::<Option<i64>, InputIssue>(m),
        },
{
    match o {
        None => Ok(None),
        Some(s) => match typed_amount(s.as_str()) {
            Ok(v) => Ok(Some(v)),
            Err(m) => Err(m),
        },
    }
}

pub(crate) fn opt_date(o: &Option<String>) -> (r: Result<Option<String>, InputError>)
    ensures
        match opt_date_outcome(*o) {
            Ok(d) => r is Ok && opt_text(r->Ok_0) == d,
            Err(m) => issue_outcome(r) == Err::<Option<String>, InputIssue>(m),
        },
{
    match o {
        None => Ok(None),
        Some(s) => match typed_iso_date(s.as_str()) {
            Ok(v) => Ok(Some(v)),
            Err(m) => Err(m),
        },
    }
}

/// The goal target read as an amount, then the goal date read as a date.
pub open spec fn goal_outcome(goal_target: Option<String>, goal_target_date: Option<String>) -> Result<
    (Option<int>, Option<Seq<char>>),
    InputIssue,
> {
    match opt_amount_outcome(goal_target) {
        Err(m) => Err(m),
        Ok(t) => match opt_date_outcome(goal_target_date) {
            Err(m) => Err(m),
            Ok(d) => Ok((t, d)),
        },
    }
}

/// Whether `c` holds the given category fields.
pub open spec fn category_holds(
    c: SaveCategory,
    name: Option<String>,
    note: Option<String>,
    group: Option<String>,
    goal_target: Option<int>,
    goal_target_date: Option<Seq<char>>,
    goal_needs_whole_amount: Option<bool>,
) -> bool {
    &&& c.name == name
    &&& c.note == note
    &&& c.category_group_id == group
    &&& match (c.goal_target, goal_target) {
        (Some(a), Some(b)) => a == b,
        (None, None) => true,
        _ => false,
    }
    &&& opt_text(c.goal_target_date) == goal_target_date
    &&& c.goal_needs_whole_amount == goal_needs_whole_amount
}

/// The category fields given: the goal target read as an amount, then the
/// goal date read as a date; the other fields as given.
pub open spec fn save_category_outcome(
    name: Option<String>,
    note: Option<String>,
    group: Option<String>,
    goal_target: Option<String>,
    goal_target_date: Option<String>,
    goal_needs_whole_amount: Option<bool>,
    r: Result<SaveCategory, InputIssue>,
) -> bool {
    match goal_outcome(goal_target, goal_target_date) {
        Err(m) => r == Err::<SaveCategory, InputIssue>(m),
        Ok((t, d)) => r is Ok && category_holds(
            r->Ok_0,
            name,
            note,
            group,
            t,
            d,
            goal_needs_whole_amount,
        ),
    }
}

/// The outcome of a category change: the fields as `save_category_outcome`
/// reads them, refused when none is given.
pub open spec fn category_update_outcome(
    name: Option<String>,
    note: Option<String>,
    group: Option<String>,
    goal_target: Option<String>,
    goal_target_date: Option<String>,
    goal_needs_whole_amount: Option<bool>,
    r: Result<SaveCategory, Seq<char>>,
) -> bool {
    match goal_outcome(goal_target, goal_target_date) {
        Err(i) => r == Err::<SaveCategory, Seq<char>>(issue_text(i)),
        Ok((t, d)) => if name is None && note is None && group is None && goal_target is None
            && goal_target_date is None && goal_needs_whole_amount is None {
            r == Err::<SaveCategory, Seq<char>>(
                "categories update requires at least one field to change"@,
            )
        } else {
            r is Ok && category_holds(r->Ok_0, name, note, group, t, d, goal_needs_whole_amount)
        },
    }
}

/// The message of a string error, as an outcome over texts.
pub open spec fn text_outcome<T>(r: Result<T, String>) -> Result<T, Seq<char>> {
    match r {
        Ok(v) => Ok(v),
        Err(e) => Err(e@),
    }
}

/// An outcome over input issues, with each issue as a tool reports it.
pub open spec fn issue_text_outcome<T>(r: Result<T, InputIssue>) -> Result<T, Seq<char>> {
    match r {
        Ok(v) => Ok(v),
        Err(i) => Err(issue_text(i)),
    }
}

/// Builds the fields of a category from typed values.
pub fn save_category(
    name: Option<String>,
    note: Option<String>,
    group: Option<String>,
    goal_target: &Option<String>,
    goal_target_date: &Option<String>,
    goal_needs_whole_amount: Option<bool>,
) -> (r: Result<SaveCategory, InputError>)
    ensures
        save_category_outcome(
            name,
            note,
            group,
            *goal_target,
            *goal_target_date,
            goal_needs_whole_amount,
            issue_outcome(r),
        ),
{
    let target = match opt_amount(goal_target) {
        Ok(t) => t,
        Err(m) => {
            return Err(m);
        },
    };
    let date = match opt_date(goal_target_date) {
        Ok(d) => d,
        Err(m) => {
            return Err(m);
        },
    };
    Ok(
        SaveCategory {
            name,
            note,
            category_group_id: group,
            goal_target: target,
            goal_target_date: date,
            goal_needs_whole_amount,
        },
    )
}

/// Whether a category change leaves every field unchanged.
pub open spec fn save_category_empty(c: SaveCategory) -> bool {
    c.name is None && c.note is None && c.category_group_id is None && c.goal_target is None
        && c.goal_target_date is None && c.goal_needs_whole_amount is None
}

/// Whether a category change leaves every field unchanged.
pub fn is_empty_save_category(c: &SaveCategory) -> (r: bool)
    ensures
        r == save_category_empty(*c),
{
    c.name.is_none() && c.note.is_none() && c.category_group_id.is_none() && c.goal_target.is_none()
        && c.goal_target_date.is_none() && c.goal_needs_whole_amount.is_none()
}

impl CategoryCreateParams {
    /// The new category: its name and group, and the other fields given.
    pub fn to_save_category(&self) -> (r: Result<SaveCategory, String>)
        ensures
            match goal_outcome(self.goal_target, self.goal_target_date) {
                Err(i) => r is Err && r->Err_0@ == issue_text(i),
                Ok((t, d)) => r is Ok && category_holds(
                    r->Ok_0,
                    Some(self.name),
                    self.note,
                    Some(self.group_id),
                    t,
                    d,
                    self.goal_needs_whole_amount,
                ),
            },
    {
        match save_category(
            Some(self.name.clone()),
            clone_opt(&self.note),
            Some(self.group_id.clone()),
            &self.goal_target,
            &self.goal_target_date,
            self.goal_needs_whole_amount,
        ) {
            Ok(c) => Ok(c),
            Err(e) => Err(e.into_text()),
        }
    }
}

impl CategoryUpdateParams {
    /// The change to a category; refused when it changes nothing.
    pub fn to_save_category(&self) -> (r: Result<SaveCategory, String>)
        ensures
            category_update_outcome(
                self.name,
                self.note,
                self.group_id,
                self.goal_target,
                self.goal_target_date,
                self.goal_needs_whole_amount,
                text_outcome(r),
            ),
    {
        let payload = match save_category(
            clone_opt(&self.name),
            clone_opt(&self.note),
            clone_opt(&self.group_id),
            &self.goal_target,
            &self.goal_target_date,
            self.goal_needs_whole_amount,
        ) {
            Ok(p) => p,
            Err(e) => {
                return Err(e.into_text());
            },
        };
        if is_empty_save_category(&payload) {
            return Err("categories update requires at least one field to change".to_owned());
        }
        Ok(payload)
    }
}

impl CategoryUpdateMonthParams {
    /// The budgeted amount in milliunits.
    pub fn budgeted_milliunits(&self) -> (r: Result<i64, String>)
        ensures
            match amount_outcome(self.budgeted@) {
                Ok(v) => r == Ok::<i64, String>(v as i64),
                Err(m) => r is Err && r->Err_0@ == m,
            },
    {
        amount_text_value(self.budgeted.as_str())
    }
}

impl TransactionCreateParams {
    /// Whether only a preview is asked for (no by default).
    pub fn dry_run(&self) -> (r: bool)
        ensures
            r == (self.dry_run == Some(true)),
    {
        match self.dry_run {
            Some(b) => b,
            None => false,
        }
    }
}

impl TransactionUpdateParams {
    /// Whether only a preview is asked for (no by default).
    pub fn dry_run(&self) -> (r: bool)
        ensures
            r == (self.dry_run == Some(true)),
    {
        match self.dry_run {
            Some(b) => b,
            None => false,
        }
    }
}

impl TransactionJsonRequestParams {
    /// Whether only a preview is asked for (no by default).
    pub fn dry_run(&self) -> (r: bool)
        ensures
            r == (self.dry_run == Some(true)),
    {
        match self.dry_run {
            Some(b) => b,
            None => false,
        }
    }
}

/// An optional member of an object under construction.
pub open spec fn opt_member(key: Seq<char>, v: Option<JsonV>) -> Seq<(Seq<char>, JsonV)> {
    match v {
        Some(x) => seq![(key, x)],
        None => Seq::empty(),
    }
}

/// A text member, when present.
pub open spec fn opt_str_member(key: Seq<char>, v: Option<String>) -> Seq<(Seq<char>, JsonV)> {
    opt_member(
        key,
        match v {
            Some(s) => Some(JsonV::Str(s@)),
            None => None,
        },
    )
}

/// A flag member, when present.
pub open spec fn opt_bool_member(key: Seq<char>, v: Option<bool>) -> Seq<(Seq<char>, JsonV)> {
    opt_member(
        key,
        match v {
            Some(b) => Some(JsonV::Bool(b)),
            None => None,
        },
    )
}

/// An amount member, when present.
pub open spec fn opt_amount_member(key: Seq<char>, v: Option<int>) -> Seq<(Seq<char>, JsonV)> {
    opt_member(
        key,
        match v {
            Some(a) => Some(int_view(a as i64)),
            None => None,
        },
    )
}

/// The members of a new account, in the order they are set.
pub open spec fn account_members(
    name: Seq<char>,
    account_type: Seq<char>,
    balance: int,
    cleared_balance: Option<int>,
    uncleared_balance: Option<int>,
    transfer_payee_id: Option<String>,
    note: Option<String>,
    on_budget: Option<bool>,
    closed: Option<bool>,
) -> Seq<(Seq<char>, JsonV)> {
    seq![
        ("name"@, JsonV::Str(name)),
        ("type"@, JsonV::Str(account_type)),
        ("balance"@, int_view(balance as i64)),
    ] + opt_amount_member("cleared_balance"@, cleared_balance) + opt_amount_member(
        "uncleared_balance"@,
        uncleared_balance,
    ) + opt_str_member("transfer_payee_id"@, transfer_payee_id) + opt_str_member("note"@, note)
        + opt_bool_member("on_budget"@, on_budget) + opt_bool_member("closed"@, closed)
}

/// The account a creation request holds: the balance, then the cleared and
/// uncleared balances, must read as amounts.
pub open spec fn account_payload_outcome(
    name: Seq<char>,
    account_type: Seq<char>,
    balance: Seq<char>,
    cleared_balance: Option<String>,
    uncleared_balance: Option<String>,
    transfer_payee_id: Option<String>,
    note: Option<String>,
    on_budget: Option<bool>,
    closed: Option<bool>,
) -> Result<JsonV, InputIssue> {
    match amount_spec(balance) {
        Err(m) => Err(InputIssue::Amount(m)),
        Ok(b) => match opt_amount_outcome(cleared_balance) {
            Err(m) => Err(m),
            Ok(c) => match opt_amount_outcome(uncleared_balance) {
                Err(m) => Err(m),
                Ok(u) => Ok(
                    JsonV::Object(
                        object_of(
                            account_members(
                                name,
                                account_type,
                                b,
                                c,
                                u,
                                transfer_payee_id,
                                note,
                                on_budget,
                                closed,
                            ),
                        ),
                    ),
                ),
            },
        },
    }
}

/// The view of an outcome carrying JSON.
pub open spec fn json_outcome(r: Result<Json, String>) -> Result<JsonV, Seq<char>> {
    match r {
        Ok(j) => Ok(j@),
        Err(e) => Err(e@),
    }
}

/// The view of an outcome carrying JSON that may fail on a typed value.
pub open spec fn json_issue_outcome(r: Result<Json, InputError>) -> Result<JsonV, InputIssue> {
    match r {
        Ok(j) => Ok(j@),
        Err(e) => Err(issue_of(e)),
    }
}

/// An optional `i64` as an optional integer.
pub open spec fn opt_int(o: Option<i64>) -> Option<int> {
    match o {
        Some(x) => Some(x as int),
        None => None,
    }
}

pub(crate) fn add_opt_amount(o: &mut ObjectBuilder, key: &str, v: Option<i64>)
    requires
        old(o).map@ == object_of(old(o).members@),
    ensures
        final(o).map@ == object_of(final(o).members@),
        final(o).members@ == old(o).members@ + opt_amount_member(key@, opt_int(v)),
{
    match v {
        Some(x) => {
            o.add(key, Json::from_i64(x));
            assert(o.members@ =~= old(o).members@ + opt_amount_member(key@, opt_int(v)));
        },
        None => {
            assert(old(o).members@ + opt_amount_member(key@, opt_int(v)) =~= old(o).members@);
        },
    }
}

pub(crate) fn add_opt_str(o: &mut ObjectBuilder, key: &str, v: &Option<String>)
    requires
        old(o).map@ == object_of(old(o).members@),
    ensures
        final(o).map@ == object_of(final(o).members@),
        final(o).members@ == old(o).members@ + opt_str_member(key@, *v),
{
    match v {
        Some(x) => {
            o.add(key, Json::String(x.clone()));
            assert(o.members@ =~= old(o).members@ + opt_str_member(key@, *v));
        },
        None => {
            assert(old(o).members@ + opt_str_member(key@, *v) =~= old(o).members@);
        },
    }
}

pub(crate) fn add_opt_bool(o: &mut ObjectBuilder, key: &str, v: Option<bool>)
    requires
        old(o).map@ == object_of(old(o).members@),
    ensures
        final(o).map@ == object_of(final(o).members@),
        final(o).members@ == old(o).members@ + opt_bool_member(key@, v),
{
    match v {
        Some(x) => {
            o.add(key, Json::Bool(x));
            assert(o.members@ =~= old(o).members@ + opt_bool_member(key@, v));
        },
        None => {
            assert(old(o).members@ + opt_bool_member(key@, v) =~= old(o).members@);
        },
    }
}

/// Builds the account of a creation request.
pub fn account_payload(
    name: &str,
    account_type: &str,
    balance: &str,
    cleared_balance: &Option<String>,
    uncleared_balance: &Option<String>,
    transfer_payee_id: &Option<String>,
    note: &Option<String>,
    on_budget: Option<bool>,
    closed: Option<bool>,
) -> (r: Result<Json, InputError>)
    ensures
        json_issue_outcome(r) == account_payload_outcome(
            name@,
            account_type@,
            balance@,
            *cleared_balance,
            *uncleared_balance,
            *transfer_payee_id,
            *note,
            on_budget,
            closed,
        ),
{
    let b = match typed_amount(balance) {
        Ok(v) => v,
        Err(m) => {
            return Err(m);
        },
    };
    let c = match opt_amount(cleared_balance) {
        Ok(v) => v,
        Err(m) => {
            return Err(m);
        },
    };
    let u = match opt_amount(uncleared_balance) {
        Ok(v) => v,
        Err(m) => {
            return Err(m);
        },
    };
    let mut o = ObjectBuilder::new();
    o.add("name", Json::from_str(name));
    o.add("type", Json::from_str(account_type));
    o.add("balance", Json::from_i64(b));
    let ghost base = o.members@;
    add_opt_amount(&mut o, "cleared_balance", c);
    let ghost m1 = o.members@;
    add_opt_amount(&mut o, "uncleared_balance", u);
    let ghost m2 = o.members@;
    add_opt_str(&mut o, "transfer_payee_id", transfer_payee_id);
    let ghost m3 = o.members@;
    add_opt_str(&mut o, "note", note);
    let ghost m4 = o.members@;
    add_opt_bool(&mut o, "on_budget", on_budget);
    let ghost m5 = o.members@;
    add_opt_bool(&mut o, "closed", closed);
    proof {
        assert(o.members@ =~= account_members(
            name@,
            account_type@,
            b as int,
            opt_int(c),
            opt_int(u),
            *transfer_payee_id,
            *note,
            on_budget,
            closed,
        ));
    }
    Ok(Json::Object(o.map))
}

impl AccountCreateParams {
    /// The account this request creates.
    pub fn to_payload(&self) -> (r: Result<Json, String>)
        ensures
            json_outcome(r) == issue_text_outcome(
                account_payload_outcome(
                    self.name@,
                    account_type_value(self.account_type),
                    self.balance@,
                    self.cleared_balance,
                    self.uncleared_balance,
                    self.transfer_payee_id,
                    self.note,
                    self.on_budget,
                    self.closed,
                ),
            ),
    {
        let built = account_payload(
            self.name.as_str(),
            self.account_type.as_api_value(),
            self.balance.as_str(),
            &self.cleared_balance,
            &self.uncleared_balance,
            &self.transfer_payee_id,
            &self.note,
            self.on_budget,
            self.closed,
        );
        match built {
            Ok(j) => Ok(j),
            Err(e) => Err(e.into_text()),
        }
    }
}

impl TransactionCreateParams {
    /// The transaction to create once its plan, account, category and payee
    /// are settled: the date, then the amount, must read.
    pub fn to_input(
        &self,
        plan_id: String,
        account_id: String,
        category_id: Option<String>,
        payee_id: Option<String>,
    ) -> (r: Result<TransactionCreateInput, String>)
        ensures
            match iso_date_outcome(self.date@) {
                Err(m) => r is Err && r->Err_0@ == m,
                Ok(d) => match amount_spec(self.amount@) {
                    Err(m) => r is Err && r->Err_0@ == issue_text(InputIssue::Amount(m)),
                    Ok(v) => r is Ok && r->Ok_0.date@ == d && r->Ok_0 == (TransactionCreateInput {
                        plan_id,
                        account_id,
                        date: r->Ok_0.date,
                        amount: AmountMilliunits(v as i64),
                        id: self.id,
                        import_id: self.import_id,
                        payee_id,
                        payee_name: self.payee_name,
                        category_id,
                        memo: self.memo,
                        cleared: self.cleared,
                        approved: self.approved,
                        flag_color: self.flag_color,
                        dry_run: self.dry_run == Some(true),
                    }),
                },
            },
    {
        let date = match normalize_iso_date(self.date.as_str()) {
            Ok(d) => d,
            Err(m) => {
                return Err(m);
            },
        };
        let amount = match parse_amount(self.amount.as_str()) {
            Ok(a) => a,
            Err(m) => {
                return Err(m);
            },
        };
        Ok(
            TransactionCreateInput {
                plan_id,
                account_id,
                date,
                amount,
                id: clone_opt(&self.id),
                import_id: clone_opt(&self.import_id),
                payee_id,
                payee_name: clone_opt(&self.payee_name),
                category_id,
                memo: clone_opt(&self.memo),
                cleared: clone_opt(&self.cleared),
                approved: self.approved,
                flag_color: clone_opt(&self.flag_color),
                dry_run: self.dry_run(),
            },
        )
    }
}

impl TransactionUpdateParams {
    /// The change to send once its plan, account, category and payee are
    /// settled: a date given, then an amount given, must read.
    pub fn to_input(
        &self,
        plan_id: String,
        account_id: Option<String>,
        category_id: Option<String>,
        payee_id: Option<String>,
    ) -> (r: Result<TransactionUpdateInput, String>)
        ensures
            match opt_date_outcome(self.date) {
                Err(i) => r is Err && r->Err_0@ == issue_text(i),
                Ok(d) => match opt_amount_outcome(self.amount) {
                    Err(i) => r is Err && r->Err_0@ == issue_text(i),
                    Ok(a) => r is Ok && opt_text(r->Ok_0.date) == d && match (r->Ok_0.amount, a) {
                        (Some(x), Some(y)) => x.0 == y,
                        (None, None) => true,
                        _ => false,
                    } && r->Ok_0 == (TransactionUpdateInput {
                        plan_id,
                        transaction_id: self.transaction_id,
                        account_id,
                        date: r->Ok_0.date,
                        amount: r->Ok_0.amount,
                        payee_id,
                        payee_name: self.payee_name,
                        category_id,
                        memo: self.memo,
                        cleared: self.cleared,
                        approved: self.approved,
                        flag_color: self.flag_color,
                        dry_run: self.dry_run == Some(true),
                    }),
                },
            },
    {
        let date = match opt_date(&self.date) {
            Ok(d) => d,
            Err(e) => {
                return Err(e.into_text());
            },
        };
        let amount = match opt_amount(&self.amount) {
            Ok(a) => match a {
                Some(v) => Some(AmountMilliunits(v)),
                None => None,
            },
            Err(e) => {
                return Err(e.into_text());
            },
        };
        Ok(
            TransactionUpdateInput {
                plan_id,
                transaction_id: self.transaction_id.clone(),
                account_id,
                date,
                amount,
                payee_id,
                payee_name: clone_opt(&self.payee_name),
                category_id,
                memo: clone_opt(&self.memo),
                cleared: clone_opt(&self.cleared),
                approved: self.approved,
                flag_color: clone_opt(&self.flag_color),
                dry_run: self.dry_run(),
            },
        )
    }
}

impl ScheduledTransactionCreateParams {
    /// The scheduled transaction to create once its account, category and
    /// payee are settled.
    pub fn to_payload(
        &self,
        account_id: &str,
        category_id: &Option<String>,
        payee_id: &Option<String>,
    ) -> (r: Result<Json, String>)
        ensures
            json_outcome(r) == issue_text_outcome(
                scheduled_create_outcome(
                    account_id@,
                    self.date@,
                    self.amount@,
                    frequency_value(self.frequency),
                    *payee_id,
                    self.payee_name,
                    *category_id,
                    self.memo,
                    self.flag_color,
                ),
            ),
    {
        match scheduled_create_payload(
            account_id,
            self.date.as_str(),
            self.amount.as_str(),
            self.frequency.as_api_value(),
            payee_id,
            &self.payee_name,
            category_id,
            &self.memo,
            &self.flag_color,
        ) {
            Ok(j) => Ok(j),
            Err(e) => Err(e.into_text()),
        }
    }
}

impl ScheduledTransactionUpdateParams {
    /// The change to send once its account, category and payee are settled;
    /// refused when it changes nothing.
    pub fn to_payload(
        &self,
        account_id: &Option<String>,
        category_id: &Option<String>,
        payee_id: &Option<String>,
    ) -> (r: Result<Json, String>)
        ensures
            match scheduled_update_outcome(
                *account_id,
                self.date,
                self.amount,
                *payee_id,
                self.payee_name,
                *category_id,
                self.memo,
                self.flag_color,
                match self.frequency {
                    Some(f) => Some(frequency_value(f)),
                    None => None,
                },
            ) {
                Ok(Some(v)) => r is Ok && r->Ok_0@ == v,
                Ok(None) => r is Err && r->Err_0@
                    == "scheduled-transactions update requires at least one field to change"@,
                Err(i) => r is Err && r->Err_0@ == issue_text(i),
            },
    {
        let frequency = match self.frequency {
            Some(f) => Some(f.as_api_value()),
            None => None,
        };
        match scheduled_update_payload(
            account_id,
            &self.date,
            &self.amount,
            payee_id,
            &self.payee_name,
            category_id,
            &self.memo,
            &self.flag_color,
            frequency,
        ) {
            Ok(Some(j)) => Ok(j),
            Ok(None) => Err(
                "scheduled-transactions update requires at least one field to change".to_owned(),
            ),
            Err(e) => Err(e.into_text()),
        }
    }
}

} // verus!
