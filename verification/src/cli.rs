//! What the command line decides: option values, request bodies built from
//! arguments, exports, output shaping and the OAuth callback.

use vstd::prelude::*;

use crate::app::{
    TransactionCreateInput, TransactionListOptions, TransactionSearchOptions, TransactionUpdateInput,
};
use crate::config::OutputFormat;
use crate::dates::{date_lt, date_text, format_ymd, parse_ymd, parsed_date, Date};
use crate::error::{is_config_error, is_url_error, YnabError};
use crate::inputs::{
    input_date, iso_date_outcome, issue_of, read_input_date, InputError, InputIssue,
    is_issue_error,
};
use crate::json::{
    compact_text, json_compact_text, json_pretty_text, pretty_text,
    insert_entry, int_view, items_view, lemma_items_view_index, lemma_items_view_len,
    lemma_items_view_push, lookup, JsonMap, JsonNumber, JsonV, NumV,
};
use crate::mcp_types::{
    account_payload, account_payload_outcome, category_holds, category_update_outcome,
    goal_outcome, is_empty_save_category, json_issue_outcome, save_category,
    save_category_empty, save_category_outcome,
};
use crate::app::{object_of, opt_text, ObjectBuilder};
use crate::json::Json;
use crate::models::{amount_spec, AmountMilliunits, SaveCategory, TransactionClearedFilter};
use crate::scheduled::{
    scheduled_create_outcome, scheduled_create_payload, scheduled_update_outcome,
    scheduled_update_payload,
};
use crate::web::pairs_view;
use crate::text::{
    all_digits, concat, is_white_space, trim_start, decimal, digits_value, i64_text, signed_decimal, lemma_digits_value_mono, lowercase, str_eq, to_lowercase, trim, trimmed,
    u64_text, utf8_len, char_is_white_space, lemma_trim_start_from, slice_chars,
};

verus! {

/// The agents a bundled skill can be installed for.
#[derive(Debug, Clone, Copy, PartialEq, Eq)]
pub enum SkillTargetArg {
    Codex,
    Openclaw,
}

/// The word for a skill target.
pub open spec fn skill_target_word(t: SkillTargetArg) -> Seq<char> {
    match t {
        SkillTargetArg::Codex => "codex"@,
        SkillTargetArg::Openclaw => "openclaw"@,
    }
}

impl SkillTargetArg {
    /// `codex` or `openclaw`.
    pub fn as_str(self) -> (r: &'static str)
        ensures
            r@ == skill_target_word(self),
    {
        match self {
            SkillTargetArg::Codex => "codex",
            SkillTargetArg::Openclaw => "openclaw",
        }
    }
}

/// The kinds of account the command line creates.
#[derive(Debug, Clone, Copy, PartialEq, Eq)]
pub enum AccountTypeArg {
    Checking,
    Savings,
    Cash,
    CreditCard,
    OtherAsset,
    OtherLiability,
}

/// The API name of an account type.
pub open spec fn account_type_arg_value(t: AccountTypeArg) -> Seq<char> {
    match t {
        AccountTypeArg::Checking => "checking"@,
        AccountTypeArg::Savings => "savings"@,
        AccountTypeArg::Cash => "cash"@,
        AccountTypeArg::CreditCard => "creditCard"@,
        AccountTypeArg::OtherAsset => "otherAsset"@,
        AccountTypeArg::OtherLiability => "otherLiability"@,
    }
}

impl AccountTypeArg {
    /// The API name of the account type.
    pub fn as_api_value(self) -> (r: &'static str)
        ensures
            r@ == account_type_arg_value(self),
    {
        match self {
            AccountTypeArg::Checking => "checking",
            AccountTypeArg::Savings => "savings",
            AccountTypeArg::Cash => "cash",
            AccountTypeArg::CreditCard => "creditCard",
            AccountTypeArg::OtherAsset => "otherAsset",
            AccountTypeArg::OtherLiability => "otherLiability",
        }
    }
}

/// The server-side transaction type filters.
#[derive(Debug, Clone, Copy, PartialEq, Eq)]
pub enum TransactionApiTypeArg {
    Uncategorized,
    Unapproved,
}

/// The API name of a transaction type filter.
pub open spec fn transaction_type_value(t: TransactionApiTypeArg) -> Seq<char> {
    match t {
        TransactionApiTypeArg::Uncategorized => "uncategorized"@,
        TransactionApiTypeArg::Unapproved => "unapproved"@,
    }
}

impl TransactionApiTypeArg {
    /// The API name of the filter.
    pub fn as_api_value(self) -> (r: &'static str)
        ensures
            r@ == transaction_type_value(self),
    {
        match self {
            TransactionApiTypeArg::Uncategorized => "uncategorized",
            TransactionApiTypeArg::Unapproved => "unapproved",
        }
    }
}

/// How often a scheduled transaction repeats.
#[derive(Debug, Clone, Copy, PartialEq, Eq)]
pub enum ScheduledFrequencyArg {
    Never,
    Daily,
    Weekly,
    EveryOtherWeek,
    TwiceAMonth,
    Every4Weeks,
    Monthly,
    EveryOtherMonth,
    Every3Months,
    Every4Months,
    TwiceAYear,
    Yearly,
    EveryOtherYear,
}

/// The API name of a frequency.
pub open spec fn frequency_arg_value(f: ScheduledFrequencyArg) -> Seq<char> {
    match f {
        ScheduledFrequencyArg::Never => "never"@,
        ScheduledFrequencyArg::Daily => "daily"@,
        ScheduledFrequencyArg::Weekly => "weekly"@,
        ScheduledFrequencyArg::EveryOtherWeek => "everyOtherWeek"@,
        ScheduledFrequencyArg::TwiceAMonth => "twiceAMonth"@,
        ScheduledFrequencyArg::Every4Weeks => "every4Weeks"@,
        ScheduledFrequencyArg::Monthly => "monthly"@,
        ScheduledFrequencyArg::EveryOtherMonth => "everyOtherMonth"@,
        ScheduledFrequencyArg::Every3Months => "every3Months"@,
        ScheduledFrequencyArg::Every4Months => "every4Months"@,
        ScheduledFrequencyArg::TwiceAYear => "twiceAYear"@,
        ScheduledFrequencyArg::Yearly => "yearly"@,
        ScheduledFrequencyArg::EveryOtherYear => "everyOtherYear"@,
    }
}

impl ScheduledFrequencyArg {
    /// The API name of the frequency.
    pub fn as_api_value(self) -> (r: &'static str)
        ensures
            r@ == frequency_arg_value(self),
    {
        match self {
            ScheduledFrequencyArg::Never => "never",
            ScheduledFrequencyArg::Daily => "daily",
            ScheduledFrequencyArg::Weekly => "weekly",
            ScheduledFrequencyArg::EveryOtherWeek => "everyOtherWeek",
            ScheduledFrequencyArg::TwiceAMonth => "twiceAMonth",
            ScheduledFrequencyArg::Every4Weeks => "every4Weeks",
            ScheduledFrequencyArg::Monthly => "monthly",
            ScheduledFrequencyArg::EveryOtherMonth => "everyOtherMonth",
            ScheduledFrequencyArg::Every3Months => "every3Months",
            ScheduledFrequencyArg::Every4Months => "every4Months",
            ScheduledFrequencyArg::TwiceAYear => "twiceAYear",
            ScheduledFrequencyArg::Yearly => "yearly",
            ScheduledFrequencyArg::EveryOtherYear => "everyOtherYear",
        }
    }
}

/// The filters shared by the transaction listing commands.
#[derive(Debug, Clone)]
pub struct TransactionFilterArgs {
    pub plan: Option<String>,
    pub last_knowledge_of_server: Option<u64>,
    pub since_date: Option<String>,
    pub transaction_type: Option<TransactionApiTypeArg>,
    pub startdate: Option<String>,
    pub enddate: Option<String>,
    pub cleared_only: bool,
    pub uncleared_only: bool,
}

/// The arguments of `transactions search`.
#[derive(Debug)]
pub struct TransactionSearchArgs {
    pub filters: TransactionFilterArgs,
    pub month: Option<String>,
    pub query: Option<String>,
    pub payee: Option<String>,
    pub memo: Option<String>,
    pub account: Option<String>,
    pub category: Option<String>,
}

/// The arguments of `accounts create`.
#[derive(Debug)]
pub struct AccountCreateArgs {
    pub plan: Option<String>,
    pub name: String,
    pub account_type: AccountTypeArg,
    pub balance: String,
    pub cleared_balance: Option<String>,
    pub uncleared_balance: Option<String>,
    pub transfer_payee_id: Option<String>,
    pub note: Option<String>,
    pub on_budget: Option<bool>,
    pub closed: Option<bool>,
}

/// The arguments of `categories create`.
#[derive(Debug)]
pub struct CategoryCreateArgs {
    pub plan: Option<String>,
    pub name: String,
    pub group_id: String,
    pub note: Option<String>,
    pub goal_target: Option<String>,
    pub goal_target_date: Option<String>,
    pub goal_needs_whole_amount: Option<bool>,
}

/// The arguments of `categories update`.
#[derive(Debug)]
pub struct CategoryUpdateArgs {
    pub plan: Option<String>,
    pub category_id: String,
    pub name: Option<String>,
    pub group_id: Option<String>,
    pub note: Option<String>,
    pub goal_target: Option<String>,
    pub goal_target_date: Option<String>,
    pub goal_needs_whole_amount: Option<bool>,
}

/// The cleared-state filter the flags ask for; `cleared_only` wins.
pub open spec fn cleared_flags_filter(a: TransactionFilterArgs) -> Option<TransactionClearedFilter> {
    if a.cleared_only {
        Some(TransactionClearedFilter::Cleared)
    } else if a.uncleared_only {
        Some(TransactionClearedFilter::Uncleared)
    } else {
        None
    }
}

/// The cleared-state filter the flags ask for.
pub fn transaction_cleared_filter(args: &TransactionFilterArgs) -> (r: Option<
    TransactionClearedFilter,
>)
    ensures
        r == cleared_flags_filter(*args),
{
    if args.cleared_only {
        Some(TransactionClearedFilter::Cleared)
    } else if args.uncleared_only {
        Some(TransactionClearedFilter::Uncleared)
    } else {
        None
    }
}

/// Reads a typed `YYYY-MM-DD` date.
pub fn parse_cli_date(input: &str) -> (r: Result<Date, YnabError>)
    ensures
        match input_date(input@) {
            Ok(d) => r == Ok::<Date, YnabError>(d) && crate::dates::date_valid(d),
            Err(m) => r is Err && is_config_error(r->Err_0, m),
        },
{
    match read_input_date(input) {
        Ok(d) => Ok(d),
        Err(m) => Err(YnabError::Config(m)),
    }
}

/// A typed date, written back as `YYYY-MM-DD`.
pub fn normalize_iso_date(input: &str) -> (r: Result<String, YnabError>)
    ensures
        match iso_date_outcome(input@) {
            Ok(s) => r is Ok && r->Ok_0@ == s,
            Err(m) => r is Err && is_config_error(r->Err_0, m),
        },
{
    match parse_cli_date(input) {
        Ok(d) => {
            Ok(format_ymd(d))
        },
        Err(e) => Err(e),
    }
}

/// The month a `--month` value names: a `YYYY-MM-DD` date as it is, else
/// `YYYY-MM` read as the first of that month; written back as `YYYY-MM-DD`.
pub open spec fn month_outcome(input: Seq<char>) -> Result<Seq<char>, Seq<char>> {
    let t = trimmed(input);
    match parsed_date(t) {
        Some(d) => Ok(date_text(d)),
        None => match parsed_date(t + "-01"@) {
            Some(d) => Ok(date_text(d)),
            None => Err("invalid --month value `"@ + t + "`. use YYYY-MM or YYYY-MM-01"@),
        },
    }
}

/// Reads a `--month` value.
pub fn normalize_month_arg(input: &str) -> (r: Result<String, YnabError>)
    ensures
        match month_outcome(input@) {
            Ok(s) => r is Ok && r->Ok_0@ == s,
            Err(m) => r is Err && is_config_error(r->Err_0, m),
        },
{
    let t = trim(input);
    if let Ok(d) = parse_ymd(t.as_str()) {
        return Ok(format_ymd(d));
    }
    let normalized = concat(t.as_str(), "-01");
    match parse_ymd(normalized.as_str()) {
        Ok(d) => Ok(format_ymd(d)),
        Err(_) => {
            let mut m = "invalid --month value `".to_owned();
            m.append(t.as_str());
            m.append("`. use YYYY-MM or YYYY-MM-01");
            Err(YnabError::Config(m))
        },
    }
}

/// An optional typed date.
pub open spec fn opt_input_date(o: Option<String>) -> Result<Option<Date>, Seq<char>> {
    match o {
        None => Ok(None),
        Some(s) => match input_date(s@) {
            Ok(d) => Ok(Some(d)),
            Err(m) => Err(m),
        },
    }
}

/// An optional value read with `f`.
pub open spec fn opt_text_outcome(
    o: Option<String>,
    f: spec_fn(Seq<char>) -> Result<Seq<char>, Seq<char>>,
) -> Result<Option<Seq<char>>, Seq<char>> {
    match o {
        None => Ok(None),
        Some(s) => match f(s@) {
            Ok(v) => Ok(Some(v)),
            Err(m) => Err(m),
        },
    }
}

/// The listing options of the filter arguments: the start and end dates
/// read (in that order) and ordered, then the month, then `since_date`.
pub open spec fn list_options_from_args(
    a: TransactionFilterArgs,
    month: Option<String>,
    r: Result<TransactionListOptions, YnabError>,
) -> bool {
    match opt_input_date(a.startdate) {
        Err(m) => r is Err && is_config_error(r->Err_0, m),
        Ok(s) => match opt_input_date(a.enddate) {
            Err(m) => r is Err && is_config_error(r->Err_0, m),
            Ok(e) => if s is Some && e is Some && date_lt(e->Some_0, s->Some_0) {
                r is Err && is_config_error(r->Err_0, "--startdate must be on or before --enddate"@)
            } else {
                match opt_text_outcome(month, |x: Seq<char>| month_outcome(x)) {
                    Err(m) => r is Err && is_config_error(r->Err_0, m),
                    Ok(mo) => match opt_text_outcome(a.since_date, |x: Seq<char>| iso_date_outcome(x)) {
                        Err(m) => r is Err && is_config_error(r->Err_0, m),
                        Ok(since) => r is Ok && r->Ok_0.last_knowledge_of_server
                            == a.last_knowledge_of_server && opt_text(r->Ok_0.month) == mo
                            && opt_text(r->Ok_0.since_date) == since && opt_text(
                            r->Ok_0.transaction_type,
                        ) == match a.transaction_type {
                            Some(t) => Some(transaction_type_value(t)),
                            None => None,
                        } && r->Ok_0.start_date == s && r->Ok_0.end_date == e
                            && r->Ok_0.cleared_filter == cleared_flags_filter(a),
                    },
                }
            },
        },
    }
}

fn opt_cli_date(o: &Option<String>) -> (r: Result<Option<Date>, YnabError>)
    ensures
        match opt_input_date(*o) {
            Ok(d) => r == Ok::<Option<Date>, YnabError>(d),
            Err(m) => r is Err && is_config_error(r->Err_0, m),
        },
{
    match o {
        None => Ok(None),
        Some(s) => match parse_cli_date(s.as_str()) {
            Ok(d) => Ok(Some(d)),
            Err(e) => Err(e),
        },
    }
}

/// The listing options of the filter arguments and `--month`.
pub fn build_transaction_list_options(args: TransactionFilterArgs, month: Option<String>) -> (r:
    Result<TransactionListOptions, YnabError>)
    ensures
        list_options_from_args(args, month, r),
{
    let start_date = match opt_cli_date(&args.startdate) {
        Ok(d) => d,
        Err(e) => {
            return Err(e);
        },
    };
    let end_date = match opt_cli_date(&args.enddate) {
        Ok(d) => d,
        Err(e) => {
            return Err(e);
        },
    };
    if let (Some(s), Some(e)) = (start_date, end_date) {
        if crate::dates::date_before(e, s) {
            return Err(YnabError::Config("--startdate must be on or before --enddate".to_owned()));
        }
    }
    let month = match &month {
        None => None,
        Some(m) => match normalize_month_arg(m.as_str()) {
            Ok(v) => Some(v),
            Err(e) => {
                return Err(e);
            },
        },
    };
    let since_date = match &args.since_date {
        None => None,
        Some(d) => match normalize_iso_date(d.as_str()) {
            Ok(v) => Some(v),
            Err(e) => {
                return Err(e);
            },
        },
    };
    let transaction_type = match args.transaction_type {
        Some(t) => Some(t.as_api_value().to_owned()),
        None => None,
    };
    let cleared_filter = transaction_cleared_filter(&args);
    Ok(
        TransactionListOptions {
            last_knowledge_of_server: args.last_knowledge_of_server,
            month,
            since_date,
            transaction_type,
            start_date,
            end_date,
            cleared_filter,
        },
    )
}

/// The search criteria of `transactions search`.
pub fn build_transaction_search_options(args: &TransactionSearchArgs) -> (r: TransactionSearchOptions)
    ensures
        r.query == args.query,
        r.payee == args.payee,
        r.memo == args.memo,
        r.account == args.account,
        r.category == args.category,
{
    TransactionSearchOptions {
        query: clone_opt(&args.query),
        payee: clone_opt(&args.payee),
        memo: clone_opt(&args.memo),
        account: clone_opt(&args.account),
        category: clone_opt(&args.category),
    }
}

fn clone_opt(o: &Option<String>) -> (r: Option<String>)
    ensures
        r == *o,
{
    match o {
        Some(s) => Some(s.clone()),
        None => None,
    }
}

/// The account that `accounts create` sends.
pub fn build_account_payload(args: AccountCreateArgs) -> (r: Result<Json, YnabError>)
    ensures
        match account_payload_outcome(
            args.name@,
            account_type_arg_value(args.account_type),
            args.balance@,
            args.cleared_balance,
            args.uncleared_balance,
            args.transfer_payee_id,
            args.note,
            args.on_budget,
            args.closed,
        ) {
            Ok(v) => r is Ok && r->Ok_0@ == v,
            Err(i) => r is Err && is_issue_error(r->Err_0, i),
        },
{
    match account_payload(
        args.name.as_str(),
        args.account_type.as_api_value(),
        args.balance.as_str(),
        &args.cleared_balance,
        &args.uncleared_balance,
        &args.transfer_payee_id,
        &args.note,
        args.on_budget,
        args.closed,
    ) {
        Ok(j) => Ok(j),
        Err(e) => Err(e.into_error()),
    }
}

/// The category that `categories create` sends.
pub fn build_create_category_payload(args: CategoryCreateArgs) -> (r: Result<SaveCategory, YnabError>)
    ensures
        match goal_outcome(args.goal_target, args.goal_target_date) {
            Err(i) => r is Err && is_issue_error(r->Err_0, i),
            Ok((t, d)) => r is Ok && category_holds(
                r->Ok_0,
                Some(args.name),
                args.note,
                Some(args.group_id),
                t,
                d,
                args.goal_needs_whole_amount,
            ),
        },
{
    match save_category(
        Some(args.name),
        args.note,
        Some(args.group_id),
        &args.goal_target,
        &args.goal_target_date,
        args.goal_needs_whole_amount,
    ) {
        Ok(c) => Ok(c),
        Err(e) => Err(e.into_error()),
    }
}

/// The change that `categories update` sends; refused when it changes
/// nothing.
pub fn build_update_category_payload(args: &CategoryUpdateArgs) -> (r: Result<SaveCategory, YnabError>)
    ensures
        match goal_outcome(args.goal_target, args.goal_target_date) {
            Err(i) => r is Err && is_issue_error(r->Err_0, i),
            Ok((t, d)) => if args.name is None && args.note is None && args.group_id is None
                && args.goal_target is None && args.goal_target_date is None
                && args.goal_needs_whole_amount is None {
                r is Err && is_config_error(
                    r->Err_0,
                    "categories update requires at least one field to change"@,
                )
            } else {
                r is Ok && category_holds(
                    r->Ok_0,
                    args.name,
                    args.note,
                    args.group_id,
                    t,
                    d,
                    args.goal_needs_whole_amount,
                )
            },
        },
{
    let payload = match save_category(
        clone_opt(&args.name),
        clone_opt(&args.note),
        clone_opt(&args.group_id),
        &args.goal_target,
        &args.goal_target_date,
        args.goal_needs_whole_amount,
    ) {
        Ok(p) => p,
        Err(e) => {
            return Err(e.into_error());
        },
    };
    if is_empty_save_category(&payload) {
        return Err(
            YnabError::Config("categories update requires at least one field to change".to_owned()),
        );
    }
    Ok(payload)
}

// ---------------------------------------------------------------------------
// Export
// ---------------------------------------------------------------------------

/// `unable to export transaction at index <index>: <detail>`
pub open spec fn export_message(index: nat, detail: Seq<char>) -> Seq<char> {
    "unable to export transaction at index "@ + decimal(index) + ": "@ + detail
}

/// `subtransaction at index <i> <rest>`
pub open spec fn sub_detail(i: nat, rest: Seq<char>) -> Seq<char> {
    "subtransaction at index "@ + decimal(i) + " "@ + rest
}

/// The member `field` of an object, copied when it is a string.
pub open spec fn copied_str(src: Seq<(Seq<char>, JsonV)>, field: Seq<char>) -> Seq<(Seq<char>, JsonV)> {
    match lookup(src, field) {
        Some(JsonV::Str(v)) => seq![(field, JsonV::Str(v))],
        _ => Seq::empty(),
    }
}

/// The member `field` of an object, copied when it is a boolean.
pub open spec fn copied_bool(src: Seq<(Seq<char>, JsonV)>, field: Seq<char>) -> Seq<(Seq<char>, JsonV)> {
    match lookup(src, field) {
        Some(JsonV::Bool(b)) => seq![(field, JsonV::Bool(b))],
        _ => Seq::empty(),
    }
}

/// Whether an object is marked deleted.
pub open spec fn marked_deleted(e: Seq<(Seq<char>, JsonV)>) -> bool {
    lookup(e, "deleted"@) == Some(JsonV::Bool(true))
}

/// An integer member that fits in an `i64`.
pub open spec fn int_member(e: Seq<(Seq<char>, JsonV)>, field: Seq<char>) -> Option<i64> {
    match lookup(e, field) {
        Some(v) => v.i64_of(),
        None => None,
    }
}

/// A string member.
pub open spec fn string_member(e: Seq<(Seq<char>, JsonV)>, field: Seq<char>) -> Option<Seq<char>> {
    match lookup(e, field) {
        Some(v) => v.str_of(),
        None => None,
    }
}

/// The members an exported subtransaction keeps.
pub open spec fn sub_members(e: Seq<(Seq<char>, JsonV)>, amount: i64) -> Seq<(Seq<char>, JsonV)> {
    seq![("amount"@, int_view(amount))] + copied_str(e, "payee_id"@) + copied_str(e, "payee_name"@)
        + copied_str(e, "category_id"@) + copied_str(e, "memo"@) + copied_str(
        e,
        "transfer_account_id"@,
    )
}

/// The export of the first `n` subtransactions of the transaction at
/// `parent`: deleted ones are left out; each must be an object with an
/// integer amount.
pub open spec fn subs_export(items: Seq<JsonV>, parent: nat, n: nat) -> Result<Seq<JsonV>, Seq<char>>
    decreases n,
{
    if n == 0 {
        Ok(Seq::empty())
    } else {
        match subs_export(items, parent, (n - 1) as nat) {
            Err(m) => Err(m),
            Ok(done) => {
                let i = (n - 1) as nat;
                match items[i as int] {
                    JsonV::Object(e) => if marked_deleted(e) {
                        Ok(done)
                    } else {
                        match int_member(e, "amount"@) {
                            None => Err(
                                export_message(
                                    parent,
                                    sub_detail(i, "is missing required integer `amount`"@),
                                ),
                            ),
                            Some(a) => Ok(done.push(JsonV::Object(object_of(sub_members(e, a))))),
                        }
                    },
                    _ => Err(export_message(parent, sub_detail(i, "must be an object"@))),
                }
            },
        }
    }
}

/// The export of a `subtransactions` member.
pub open spec fn subtransactions_export(v: JsonV, parent: nat) -> Result<Seq<JsonV>, Seq<char>> {
    match v {
        JsonV::Array(items) => subs_export(items, parent, items.len()),
        _ => Err(export_message(parent, "`subtransactions` must be an array"@)),
    }
}

/// The members an exported transaction keeps, before its subtransactions.
pub open spec fn transaction_members(
    e: Seq<(Seq<char>, JsonV)>,
    account_id: Seq<char>,
    date: Seq<char>,
    amount: i64,
) -> Seq<(Seq<char>, JsonV)> {
    seq![
        ("account_id"@, JsonV::Str(account_id)),
        ("date"@, JsonV::Str(date)),
        ("amount"@, int_view(amount)),
    ] + copied_str(e, "import_id"@) + copied_str(e, "payee_id"@) + copied_str(e, "payee_name"@)
        + copied_str(e, "category_id"@) + copied_str(e, "memo"@) + copied_str(e, "cleared"@)
        + copied_bool(e, "approved"@) + copied_str(e, "flag_color"@) + copied_str(
        e,
        "transfer_account_id"@,
    )
}

/// The export of one listed transaction in the form `transactions import`
/// takes: nothing for a deleted one; otherwise its account, date (written
/// back as `YYYY-MM-DD`) and amount, which are required, the optional members
/// that are present, and the remaining subtransactions when there are any.
pub open spec fn transaction_export(t: JsonV, index: nat) -> Result<Option<JsonV>, Seq<char>> {
    match t {
        JsonV::Object(e) => if marked_deleted(e) {
            Ok(None)
        } else if string_member(e, "account_id"@) is None {
            Err(export_message(index, "missing required string `account_id`"@))
        } else if string_member(e, "date"@) is None {
            Err(export_message(index, "missing required string `date`"@))
        } else if int_member(e, "amount"@) is None {
            Err(export_message(index, "missing required integer `amount`"@))
        } else {
            match iso_date_outcome(string_member(e, "date"@)->Some_0) {
                Err(m) => Err(m),
                Ok(d) => {
                    let base = transaction_members(
                        e,
                        string_member(e, "account_id"@)->Some_0,
                        d,
                        int_member(e, "amount"@)->Some_0,
                    );
                    match lookup(e, "subtransactions"@) {
                        None => Ok(Some(JsonV::Object(object_of(base)))),
                        Some(sv) => match subtransactions_export(sv, index) {
                            Err(m) => Err(m),
                            Ok(subs) => if subs.len() > 0 {
                                Ok(
                                    Some(
                                        JsonV::Object(
                                            object_of(
                                                base.push(("subtransactions"@, JsonV::Array(subs))),
                                            ),
                                        ),
                                    ),
                                )
                            } else {
                                Ok(Some(JsonV::Object(object_of(base))))
                            },
                        },
                    }
                },
            }
        },
        _ => Err(export_message(index, "expected an object"@)),
    }
}

/// The export of the first `n` listed transactions.
pub open spec fn transactions_export(items: Seq<JsonV>, n: nat) -> Result<Seq<JsonV>, Seq<char>>
    decreases n,
{
    if n == 0 {
        Ok(Seq::empty())
    } else {
        match transactions_export(items, (n - 1) as nat) {
            Err(m) => Err(m),
            Ok(done) => match transaction_export(items[n - 1], (n - 1) as nat) {
                Err(m) => Err(m),
                Ok(None) => Ok(done),
                Ok(Some(x)) => Ok(done.push(x)),
            },
        }
    }
}

proof fn lemma_subs_err_persists(items: Seq<JsonV>, parent: nat, n: nat, k: nat)
    requires
        n <= k,
        subs_export(items, parent, n) is Err,
    ensures
        subs_export(items, parent, k) == subs_export(items, parent, n),
    decreases k - n,
{
    if n < k {
        lemma_subs_err_persists(items, parent, n, (k - 1) as nat);
    }
}

proof fn lemma_transactions_err_persists(items: Seq<JsonV>, n: nat, k: nat)
    requires
        n <= k,
        transactions_export(items, n) is Err,
    ensures
        transactions_export(items, k) == transactions_export(items, n),
    decreases k - n,
{
    if n < k {
        lemma_transactions_err_persists(items, n, (k - 1) as nat);
    }
}

/// An integer that fits in an `i64` (`as_i64`, or `as_u64` when in range).
pub fn value_to_i64(value: &Json) -> (r: Option<i64>)
    ensures
        r == value@.i64_of(),
{
    match value.as_i64() {
        Some(v) => Some(v),
        None => match value.as_u64() {
            Some(u) => {
                if u <= i64::MAX as u64 {
                    Some(u as i64)
                } else {
                    None
                }
            },
            None => None,
        },
    }
}

fn message_at(index: usize, detail: &str) -> (r: String)
    ensures
        r@ == export_message(index as nat, detail@),
{
    let mut m = "unable to export transaction at index ".to_owned();
    let n = u64_text(index as u64);
    m.append(n.as_str());
    m.append(": ");
    m.append(detail);
    m
}

fn sub_message_at(parent: usize, i: usize, rest: &str) -> (r: String)
    ensures
        r@ == export_message(parent as nat, sub_detail(i as nat, rest@)),
{
    let mut d = "subtransaction at index ".to_owned();
    let n = u64_text(i as u64);
    d.append(n.as_str());
    d.append(" ");
    d.append(rest);
    let r = message_at(parent, d.as_str());
    proof {
        assert(d@ =~= sub_detail(i as nat, rest@));
    }
    r
}

/// Copies the member `field` of `source` into the object under
/// construction when it is a string.
pub(crate) fn copy_optional_string_field(target: &mut ObjectBuilder, source: &JsonMap, field: &str)
    requires
        old(target).map@ == object_of(old(target).members@),
    ensures
        final(target).map@ == object_of(final(target).members@),
        final(target).members@ == old(target).members@ + copied_str(source@, field@),
{
    match source.get(field) {
        Some(v) => match v.as_str() {
            Some(s) => {
                target.add(field, Json::String(s.clone()));
                assert(target.members@ =~= old(target).members@ + copied_str(source@, field@));
            },
            None => {
                assert(old(target).members@ + copied_str(source@, field@) =~= old(target).members@);
            },
        },
        None => {
            assert(old(target).members@ + copied_str(source@, field@) =~= old(target).members@);
        },
    }
}

/// Copies the member `field` of `source` into the object under
/// construction when it is a boolean.
pub(crate) fn copy_optional_bool_field(target: &mut ObjectBuilder, source: &JsonMap, field: &str)
    requires
        old(target).map@ == object_of(old(target).members@),
    ensures
        final(target).map@ == object_of(final(target).members@),
        final(target).members@ == old(target).members@ + copied_bool(source@, field@),
{
    match source.get(field) {
        Some(v) => match v.as_bool() {
            Some(b) => {
                target.add(field, Json::Bool(b));
                assert(target.members@ =~= old(target).members@ + copied_bool(source@, field@));
            },
            None => {
                assert(old(target).members@ + copied_bool(source@, field@) =~= old(target).members@);
            },
        },
        None => {
            assert(old(target).members@ + copied_bool(source@, field@) =~= old(target).members@);
        },
    }
}

fn int_member_of(m: &JsonMap, field: &str) -> (r: Option<i64>)
    ensures
        r == int_member(m@, field@),
{
    match m.get(field) {
        Some(v) => value_to_i64(v),
        None => None,
    }
}

fn is_marked_deleted(m: &JsonMap) -> (r: bool)
    ensures
        r == marked_deleted(m@),
{
    match m.get("deleted") {
        Some(v) => match v.as_bool() {
            Some(b) => b,
            None => false,
        },
        None => false,
    }
}

fn export_one_subtransaction(object: &JsonMap, amount: i64) -> (r: Json)
    ensures
        r@ == JsonV::Object(object_of(sub_members(object@, amount))),
{
    let mut o = ObjectBuilder::new();
    o.add("amount", Json::from_i64(amount));
    let ghost m0 = o.members@;
    copy_optional_string_field(&mut o, object, "payee_id");
    copy_optional_string_field(&mut o, object, "payee_name");
    copy_optional_string_field(&mut o, object, "category_id");
    copy_optional_string_field(&mut o, object, "memo");
    copy_optional_string_field(&mut o, object, "transfer_account_id");
    proof {
        assert(o.members@ =~= sub_members(object@, amount));
    }
    Json::Object(o.map)
}

/// Exports the subtransactions of the transaction at `parent_index`.
pub fn export_subtransactions(value: &Json, parent_index: usize) -> (r: Result<Vec<Json>, YnabError>)
    ensures
        match subtransactions_export(value@, parent_index as nat) {
            Ok(subs) => r is Ok && items_view(r->Ok_0@) == subs,
            Err(m) => r is Err && is_config_error(r->Err_0, m),
        },
{
    let subtransactions = match value.as_array() {
        Some(a) => a,
        None => {
            return Err(
                YnabError::Config(message_at(parent_index, "`subtransactions` must be an array")),
            );
        },
    };
    proof {
        lemma_items_view_len(subtransactions@);
    }
    let ghost items = items_view(subtransactions@);
    let mut exported: Vec<Json> = Vec::new();
    let mut i: usize = 0;
    while i < subtransactions.len()
        invariant
            items == items_view(subtransactions@),
            value@ == JsonV::Array(items),
            items.len() == subtransactions@.len(),
            i <= subtransactions@.len(),
            subs_export(items, parent_index as nat, i as nat) == Ok::<Seq<JsonV>, Seq<char>>(
                items_view(exported@),
            ),
        decreases subtransactions@.len() - i,
    {
        proof {
            lemma_items_view_index(subtransactions@, i as int);
        }
        let object = match subtransactions[i].as_object() {
            Some(o) => o,
            None => {
                let m = sub_message_at(parent_index, i, "must be an object");
                proof {
                    lemma_subs_err_persists(items, parent_index as nat, (i + 1) as nat, items.len());
                }
                return Err(YnabError::Config(m));
            },
        };
        if is_marked_deleted(object) {
            i = i + 1;
            continue;
        }
        let amount = match int_member_of(object, "amount") {
            Some(a) => a,
            None => {
                let m = sub_message_at(parent_index, i, "is missing required integer `amount`");
                proof {
                    lemma_subs_err_persists(items, parent_index as nat, (i + 1) as nat, items.len());
                }
                return Err(YnabError::Config(m));
            },
        };
        let item = export_one_subtransaction(object, amount);
        proof {
            lemma_items_view_push(exported@, item);
        }
        exported.push(item);
        i = i + 1;
    }
    Ok(exported)
}

fn export_base(object: &JsonMap, account_id: &String, date: String, amount: i64) -> (r: ObjectBuilder)
    ensures
        r.map@ == object_of(r.members@),
        r.members@ == transaction_members(object@, account_id@, date@, amount),
{
    let mut o = ObjectBuilder::new();
    o.add("account_id", Json::String(account_id.clone()));
    let ghost d = date@;
    o.add("date", Json::String(date));
    o.add("amount", Json::from_i64(amount));
    copy_optional_string_field(&mut o, object, "import_id");
    copy_optional_string_field(&mut o, object, "payee_id");
    copy_optional_string_field(&mut o, object, "payee_name");
    copy_optional_string_field(&mut o, object, "category_id");
    copy_optional_string_field(&mut o, object, "memo");
    copy_optional_string_field(&mut o, object, "cleared");
    copy_optional_bool_field(&mut o, object, "approved");
    copy_optional_string_field(&mut o, object, "flag_color");
    copy_optional_string_field(&mut o, object, "transfer_account_id");
    proof {
        assert(o.members@ =~= transaction_members(object@, account_id@, d, amount));
    }
    o
}

/// Exports one listed transaction; `None` for a deleted one.
pub fn export_transaction(transaction: &Json, index: usize) -> (r: Result<Option<Json>, YnabError>)
    ensures
        match transaction_export(transaction@, index as nat) {
            Ok(Some(v)) => r is Ok && r->Ok_0 is Some && r->Ok_0->Some_0@ == v,
            Ok(None) => r is Ok && r->Ok_0 is None,
            Err(m) => r is Err && is_config_error(r->Err_0, m),
        },
{
    let object = match transaction.as_object() {
        Some(o) => o,
        None => {
            return Err(YnabError::Config(message_at(index, "expected an object")));
        },
    };
    if is_marked_deleted(object) {
        return Ok(None);
    }
    let account_id = match object.get("account_id") {
        Some(v) => match v.as_str() {
            Some(s) => s,
            None => {
                return Err(
                    YnabError::Config(message_at(index, "missing required string `account_id`")),
                );
            },
        },
        None => {
            return Err(YnabError::Config(message_at(index, "missing required string `account_id`")));
        },
    };
    let date = match object.get("date") {
        Some(v) => match v.as_str() {
            Some(s) => s,
            None => {
                return Err(YnabError::Config(message_at(index, "missing required string `date`")));
            },
        },
        None => {
            return Err(YnabError::Config(message_at(index, "missing required string `date`")));
        },
    };
    let amount = match int_member_of(object, "amount") {
        Some(a) => a,
        None => {
            return Err(
                YnabError::Config(message_at(index, "missing required integer `amount`")),
            );
        },
    };
    let normalized = match normalize_iso_date(date.as_str()) {
        Ok(d) => d,
        Err(e) => {
            return Err(e);
        },
    };
    let mut o = export_base(object, account_id, normalized, amount);
    let ghost base = o.members@;
    match object.get("subtransactions") {
        None => {},
        Some(sv) => {
            let subs = match export_subtransactions(sv, index) {
                Ok(s) => s,
                Err(e) => {
                    return Err(e);
                },
            };
            proof {
                lemma_items_view_len(subs@);
            }
            if subs.len() > 0 {
                let ghost sv_items = items_view(subs@);
                o.add("subtransactions", Json::Array(subs));
                proof {
                    assert(o.members@ =~= base.push(("subtransactions"@, JsonV::Array(sv_items))));
                }
            }
        },
    }
    Ok(Some(Json::Object(o.map)))
}

/// How many transactions an export payload holds: the length of its
/// `transactions` array, or none.
pub open spec fn exported_count(payload: JsonV) -> int {
    match payload.member("transactions"@) {
        Some(JsonV::Array(items)) => items.len() as int,
        _ => 0,
    }
}

/// The report of an export written to `path`.
pub fn export_report(path: &str, payload: &Json) -> (r: Json)
    ensures
        r@ == JsonV::Object(
            object_of(
                seq![
                    ("path"@, JsonV::Str(path@)),
                    ("transactions_exported"@, JsonV::Number(NumV::PosInt(exported_count(payload@) as u64))),
                    ("compatible_with"@, JsonV::Str("transactions import"@)),
                ],
            ),
        ),
{
    let count: usize = match payload.get("transactions") {
        Some(t) => match t.as_array() {
            Some(items) => {
                proof {
                    lemma_items_view_len(items@);
                }
                items.len()
            },
            None => 0,
        },
        None => 0,
    };
    let ghost expected = seq![
        ("path"@, JsonV::Str(path@)),
        ("transactions_exported"@, JsonV::Number(NumV::PosInt(exported_count(payload@) as u64))),
        ("compatible_with"@, JsonV::Str("transactions import"@)),
    ];
    let mut b = ObjectBuilder::new();
    b.add("path", Json::from_str(path));
    b.add("transactions_exported", Json::Number(JsonNumber::PosInt(count as u64)));
    b.add("compatible_with", Json::from_str("transactions import"));
    proof {
        assert(b.members@ =~= expected);
    }
    Json::Object(b.map)
}

/// `{ "transactions": [...] }` with the exports of the listed transactions,
/// deleted ones left out.
pub fn build_import_export_payload(transactions: &Vec<Json>) -> (r: Result<Json, YnabError>)
    ensures
        match transactions_export(items_view(transactions@), transactions@.len()) {
            Ok(items) => r is Ok && r->Ok_0@ == JsonV::Object(
                insert_entry(Seq::empty(), "transactions"@, JsonV::Array(items)),
            ),
            Err(m) => r is Err && is_config_error(r->Err_0, m),
        },
{
    proof {
        lemma_items_view_len(transactions@);
    }
    let ghost items = items_view(transactions@);
    let mut exported: Vec<Json> = Vec::new();
    let mut i: usize = 0;
    while i < transactions.len()
        invariant
            items == items_view(transactions@),
            items.len() == transactions@.len(),
            i <= transactions@.len(),
            transactions_export(items, i as nat) == Ok::<Seq<JsonV>, Seq<char>>(
                items_view(exported@),
            ),
        decreases transactions@.len() - i,
    {
        proof {
            lemma_items_view_index(transactions@, i as int);
        }
        match export_transaction(&transactions[i], i) {
            Ok(Some(t)) => {
                proof {
                    lemma_items_view_push(exported@, t);
                }
                exported.push(t);
            },
            Ok(None) => {},
            Err(e) => {
                proof {
                    lemma_transactions_err_persists(items, (i + 1) as nat, items.len());
                }
                return Err(e);
            },
        }
        i = i + 1;
    }
    let mut m = JsonMap::new();
    let ghost ev = items_view(exported@);
    m.insert("transactions".to_owned(), Json::Array(exported));
    Ok(Json::Object(m))
}

// ---------------------------------------------------------------------------
// Bulk input
// ---------------------------------------------------------------------------

/// `s` with `prefix` removed, when it starts with it.
pub open spec fn strip_prefix_spec(s: Seq<char>, prefix: Seq<char>) -> Option<Seq<char>> {
    if prefix.len() <= s.len() && s.take(prefix.len() as int) == prefix {
        Some(s.skip(prefix.len() as int))
    } else {
        None
    }
}

fn strip_prefix(s: &str, prefix: &str) -> (r: Option<String>)
    ensures
        match strip_prefix_spec(s@, prefix@) {
            Some(t) => r is Some && r->Some_0@ == t,
            None => r is None,
        },
{
    let v = crate::text::chars_of(s);
    let p = crate::text::chars_of(prefix);
    if p.len() > v.len() {
        return None;
    }
    let mut i: usize = 0;
    while i < p.len()
        invariant
            v@ == s@,
            p@ == prefix@,
            p@.len() <= v@.len(),
            i <= p@.len(),
            forall|j: int| 0 <= j < i ==> v@[j] == p@[j],
        decreases p@.len() - i,
    {
        if v[i] != p[i] {
            proof {
                assert(s@.take(prefix@.len() as int)[i as int] != prefix@[i as int]);
            }
            return None;
        }
        i = i + 1;
    }
    proof {
        assert(s@.take(prefix@.len() as int) =~= prefix@);
    }
    let rest = crate::text::slice_chars(v.as_slice(), p.len(), v.len());
    proof {
        assert(rest@ =~= s@.skip(prefix@.len() as int));
    }
    Some(crate::text::string_of(rest.as_slice()))
}

/// The file a JSON input argument names, `-` meaning standard input.
pub open spec fn json_input_path(path: Seq<char>) -> Seq<char> {
    match strip_prefix_spec(path, "@file://"@) {
        Some(t) => t,
        None => match strip_prefix_spec(path, "@"@) {
            Some(t) => t,
            None => path,
        },
    }
}

/// The file a JSON input argument names.
pub fn input_path(path: &str) -> (r: String)
    ensures
        r@ == json_input_path(path@),
{
    match strip_prefix(path, "@file://") {
        Some(t) => t,
        None => match strip_prefix(path, "@") {
            Some(t) => t,
            None => path.to_owned(),
        },
    }
}

/// A bulk transaction request: an object with `transaction` or
/// `transactions` as it is; an array wrapped as `transactions`; another
/// object wrapped as `transaction` where a single one is allowed.
pub open spec fn transactions_request_outcome(input: JsonV, allow_single: bool) -> Result<JsonV, Seq<char>> {
    match input {
        JsonV::Object(e) => if lookup(e, "transaction"@) is Some || lookup(e, "transactions"@) is Some {
            Ok(input)
        } else if allow_single {
            Ok(JsonV::Object(insert_entry(Seq::empty(), "transaction"@, input)))
        } else {
            Err(
                "transaction input must be a JSON object wrapper or an array of transactions"@,
            )
        },
        JsonV::Array(_) => Ok(JsonV::Object(insert_entry(Seq::empty(), "transactions"@, input))),
        _ => Err("transaction input must be a JSON object wrapper or an array of transactions"@),
    }
}

/// Shapes a bulk transaction request read from a file.
pub fn wrap_transactions_request(input: Json, allow_single_transaction: bool) -> (r: Result<
    Json,
    YnabError,
>)
    ensures
        match transactions_request_outcome(input@, allow_single_transaction) {
            Ok(v) => r is Ok && r->Ok_0@ == v,
            Err(m) => r is Err && is_config_error(r->Err_0, m),
        },
{
    let kind: u8 = match &input {
        Json::Object(m) => {
            if m.get("transaction").is_some() || m.get("transactions").is_some() {
                0
            } else {
                1
            }
        },
        Json::Array(_) => 2,
        _ => 3,
    };
    if kind == 0 {
        return Ok(input);
    }
    if kind == 2 {
        let m = crate::json::object_with("transactions", input);
        return Ok(Json::Object(m));
    }
    if kind == 1 && allow_single_transaction {
        let m = crate::json::object_with("transaction", input);
        return Ok(Json::Object(m));
    }
    Err(
        YnabError::Config(
            "transaction input must be a JSON object wrapper or an array of transactions".to_owned(),
        ),
    )
}

/// A token read from standard input: trimmed, and refused when empty.
pub fn stdin_token(input: &str) -> (r: Result<String, YnabError>)
    ensures
        trimmed(input@).len() > 0 ==> r is Ok && r->Ok_0@ == trimmed(input@),
        trimmed(input@).len() == 0 ==> r is Err && is_config_error(
            r->Err_0,
            "token was not provided via --token or stdin"@,
        ),
{
    let token = trim(input);
    if token.as_str().unicode_len() == 0 {
        return Err(YnabError::Config("token was not provided via --token or stdin".to_owned()));
    }
    Ok(token)
}

/// The refusal of a write without `--yes` where nobody can be asked.
pub fn noninteractive_refusal(action: &str) -> (e: YnabError)
    ensures
        is_config_error(
            e,
            "refusing to "@ + action@
                + " without confirmation in non-interactive mode; pass --yes to confirm"@,
        ),
{
    let mut m = "refusing to ".to_owned();
    m.append(action);
    m.append(" without confirmation in non-interactive mode; pass --yes to confirm");
    YnabError::Config(m)
}

/// What a write needs before it proceeds.
#[derive(Debug)]
pub enum ConfirmStep {
    /// Go ahead: `--yes` was given.
    Proceed,
    /// Ask on the terminal, and read the answer with `confirmation_result`.
    Ask,
    /// Refuse: nobody can be asked.
    Refuse(YnabError),
}

/// Writes change data only with consent: `--yes` lets a write proceed; on a
/// terminal the user is asked; anywhere else the write is refused.
pub fn confirm_step(yes: bool, interactive: bool, action: &str) -> (r: ConfirmStep)
    ensures
        yes ==> r is Proceed,
        !yes && interactive ==> r is Ask,
        !yes && !interactive ==> (r matches ConfirmStep::Refuse(e) && is_config_error(
            e,
            "refusing to "@ + action@
                + " without confirmation in non-interactive mode; pass --yes to confirm"@,
        )),
{
    if yes {
        ConfirmStep::Proceed
    } else if interactive {
        ConfirmStep::Ask
    } else {
        ConfirmStep::Refuse(noninteractive_refusal(action))
    }
}

/// What a write that can be a dry run needs: a dry run sends nothing and
/// proceeds without consent; any other write needs it as `confirm_step`
/// says.
pub fn write_step(dry_run: bool, yes: bool, interactive: bool, action: &str) -> (r: ConfirmStep)
    ensures
        dry_run || yes ==> r is Proceed,
        !dry_run && !yes && interactive ==> r is Ask,
        !dry_run && !yes && !interactive ==> (r matches ConfirmStep::Refuse(e) && is_config_error(
            e,
            "refusing to "@ + action@
                + " without confirmation in non-interactive mode; pass --yes to confirm"@,
        )),
{
    if dry_run {
        ConfirmStep::Proceed
    } else {
        confirm_step(yes, interactive, action)
    }
}

/// A confirmation answer: `y` or `yes` (trimmed, any case) proceeds;
/// anything else cancels.
pub fn confirmation_result(answer: &str) -> (r: Result<(), YnabError>)
    ensures
        (lowercase(trimmed(answer@)) == "y"@ || lowercase(trimmed(answer@)) == "yes"@) <==> r is Ok,
        r is Err ==> is_config_error(r->Err_0, "operation cancelled"@),
{
    let t = trim(answer);
    let l = to_lowercase(t.as_str());
    if str_eq(l.as_str(), "y") || str_eq(l.as_str(), "yes") {
        Ok(())
    } else {
        Err(YnabError::Config("operation cancelled".to_owned()))
    }
}

// ---------------------------------------------------------------------------
// Output shaping
// ---------------------------------------------------------------------------

/// The parts of `s` between `.` characters (`str::split('.')`).
pub open spec fn split_dots(s: Seq<char>) -> Seq<Seq<char>>
    decreases s.len(),
{
    if s.len() == 0 {
        seq![Seq::empty()]
    } else {
        let rest = split_dots(s.drop_last());
        if s.last() == '.' {
            rest.push(Seq::empty())
        } else {
            rest.update(rest.len() - 1, rest.last().push(s.last()))
        }
    }
}

proof fn lemma_split_dots_nonempty(s: Seq<char>)
    ensures
        split_dots(s).len() > 0,
    decreases s.len(),
{
    if s.len() > 0 {
        lemma_split_dots_nonempty(s.drop_last());
    }
}

/// `s` without its leading `.` characters.
pub open spec fn strip_leading_dots(s: Seq<char>) -> Seq<char>
    decreases s.len(),
{
    if s.len() > 0 && s[0] == '.' {
        strip_leading_dots(s.drop_first())
    } else {
        s
    }
}

/// An array index as `str::parse::<usize>` reads it: an optional `+` and
/// at least one digit, in range.
pub open spec fn parse_index(s: Seq<char>) -> Option<nat> {
    let d = if s.len() > 0 && s[0] == '+' {
        s.drop_first()
    } else {
        s
    };
    if d.len() > 0 && all_digits(d) && digits_value(d) <= usize::MAX {
        Some(digits_value(d))
    } else {
        None
    }
}

/// Following the path parts from `v`: empty parts are skipped, object
/// members are looked up by name and array elements by index; anything
/// missing gives `null`.
pub open spec fn walk_path(v: JsonV, parts: Seq<Seq<char>>) -> JsonV
    decreases parts.len(),
{
    if parts.len() == 0 {
        v
    } else if parts[0].len() == 0 {
        walk_path(v, parts.drop_first())
    } else {
        match v {
            JsonV::Object(e) => match lookup(e, parts[0]) {
                Some(x) => walk_path(x, parts.drop_first()),
                None => JsonV::Null,
            },
            JsonV::Array(items) => match parse_index(parts[0]) {
                Some(i) => if i < items.len() {
                    walk_path(items[i as int], parts.drop_first())
                } else {
                    JsonV::Null
                },
                None => JsonV::Null,
            },
            _ => JsonV::Null,
        }
    }
}

/// What `--transform` selects from an output value: the whole value for an
/// empty path or `.`; otherwise the dotted path, from the value itself when
/// it starts at `ok`, `data` or `error` and from `data` (when present)
/// otherwise.
pub open spec fn transform_spec(v: JsonV, path: Seq<char>) -> JsonV {
    let t = trimmed(path);
    if t.len() == 0 || t == "."@ {
        v
    } else {
        let parts = split_dots(strip_leading_dots(t));
        let start = if parts[0] == "ok"@ || parts[0] == "data"@ || parts[0] == "error"@ {
            v
        } else {
            match v.member("data"@) {
                Some(d) => d,
                None => v,
            }
        };
        walk_path(start, parts)
    }
}

fn split_on_dots(v: &[char]) -> (r: Vec<Vec<char>>)
    ensures
        r@.len() == split_dots(v@).len(),
        forall|i: int| 0 <= i < r@.len() ==> #[trigger] r@[i]@ == split_dots(v@)[i],
{
    let mut parts: Vec<Vec<char>> = Vec::new();
    let mut cur: Vec<char> = Vec::new();
    let mut i: usize = 0;
    while i < v.len()
        invariant
            i <= v@.len(),
            parts@.len() + 1 == split_dots(v@.take(i as int)).len(),
            forall|j: int| 0 <= j < parts@.len() ==> #[trigger] parts@[j]@ == split_dots(
                v@.take(i as int),
            )[j],
            cur@ == split_dots(v@.take(i as int)).last(),
        decreases v@.len() - i,
    {
        proof {
            assert(v@.take(i + 1).drop_last() =~= v@.take(i as int));
            lemma_split_dots_nonempty(v@.take(i as int));
        }
        if v[i] == '.' {
            let done = cur;
            parts.push(done);
            cur = Vec::new();
            proof {
                assert(cur@ =~= Seq::<char>::empty());
            }
        } else {
            cur.push(v[i]);
        }
        i = i + 1;
    }
    proof {
        assert(v@.take(v@.len() as int) =~= v@);
    }
    parts.push(cur);
    parts
}

fn parse_index_of(s: &Vec<char>) -> (r: Option<usize>)
    ensures
        match parse_index(s@) {
            Some(n) => r == Some(n as usize),
            None => r is None,
        },
{
    let start: usize = if s.len() > 0 && s[0] == '+' {
        1
    } else {
        0
    };
    let ghost d = if s@.len() > 0 && s@[0] == '+' {
        s@.drop_first()
    } else {
        s@
    };
    proof {
        assert(d =~= s@.skip(start as int));
    }
    if start >= s.len() {
        return None;
    }
    let mut value: usize = 0;
    let mut i: usize = start;
    while i < s.len()
        invariant
            start <= i <= s@.len(),
            d == s@.skip(start as int),
            d == (if s@.len() > 0 && s@[0] == '+' {
                s@.drop_first()
            } else {
                s@
            }),
            d.len() > 0,
            all_digits(d.take(i - start)),
            value == digits_value(d.take(i - start)),
        decreases s@.len() - i,
    {
        let c = s[i];
        proof {
            assert(d.take(i - start + 1).drop_last() =~= d.take(i - start));
            assert(d[i - start] == c);
        }
        if !('0' <= c && c <= '9') {
            proof {
                assert(!all_digits(d));
            }
            return None;
        }
        let digit = (c as u32 - 48) as usize;
        proof {
            assert(digits_value(d.take(i - start + 1)) == value * 10 + digit);
        }
        if value > (usize::MAX - digit) / 10 {
            proof {
                assert(value * 10 + digit > usize::MAX) by (nonlinear_arith)
                    requires
                        value > (usize::MAX - digit) / 10,
                        digit <= 9,
                ;
                if all_digits(d) {
                    lemma_digits_value_mono(d, i - start + 1, d.len() as int);
                    assert(d.take(d.len() as int) =~= d);
                }
            }
            return None;
        }
        value = value * 10 + digit;
        i = i + 1;
    }
    proof {
        assert(d.take(d.len() as int) =~= d);
    }
    Some(value)
}

proof fn lemma_strip_dots_from(s: Seq<char>, i: int)
    requires
        0 <= i <= s.len(),
        forall|j: int| 0 <= j < i ==> #[trigger] s[j] == '.',
        i < s.len() ==> s[i] != '.',
    ensures
        strip_leading_dots(s) == s.subrange(i, s.len() as int),
    decreases i,
{
    if i == 0 {
        assert(s.subrange(0, s.len() as int) =~= s);
    } else {
        let r = s.drop_first();
        assert forall|j: int| 0 <= j < i - 1 implies #[trigger] r[j] == '.' by {
            assert(r[j] == s[j + 1]);
        }
        lemma_strip_dots_from(r, i - 1);
        assert(r.subrange(i - 1, r.len() as int) =~= s.subrange(i, s.len() as int));
    }
}

fn chars_are(v: &Vec<char>, word: &str) -> (r: bool)
    ensures
        r == (v@ == word@),
{
    let w = crate::text::string_of(v.as_slice());
    str_eq(w.as_str(), word)
}

/// Selects the part of an output value that `--transform` names.
pub fn transform_json(value: &Json, path: &str) -> (r: Json)
    ensures
        r@ == transform_spec(value@, path@),
{
    let t = trim(path);
    if t.as_str().unicode_len() == 0 || str_eq(t.as_str(), ".") {
        return value.deep_copy();
    }
    let tc = crate::text::chars_of(t.as_str());
    let mut k: usize = 0;
    while k < tc.len() && tc[k] == '.'
        invariant
            tc@ == trimmed(path@),
            k <= tc@.len(),
            forall|j: int| 0 <= j < k ==> #[trigger] tc@[j] == '.',
        decreases tc@.len() - k,
    {
        k = k + 1;
    }
    proof {
        lemma_strip_dots_from(tc@, k as int);
    }
    let rest = crate::text::slice_chars(tc.as_slice(), k, tc.len());
    let parts = split_on_dots(rest.as_slice());
    let ghost pv = split_dots(strip_leading_dots(trimmed(path@)));
    proof {
        lemma_split_dots_nonempty(strip_leading_dots(trimmed(path@)));
        assert(pv[0] == parts@[0]@);
    }
    let first = &parts[0];
    let from_root = chars_are(first, "ok") || chars_are(first, "data") || chars_are(first, "error");
    let mut current: &Json = if from_root {
        value
    } else {
        match value.get("data") {
            Some(d) => d,
            None => value,
        }
    };
    let ghost start = current@;
    proof {
        assert(pv.skip(0) =~= pv);
        assert(rest@ =~= strip_leading_dots(trimmed(path@)));
        assert(walk_path(start, pv) == transform_spec(value@, path@));
    }
    let mut i: usize = 0;
    while i < parts.len()
        invariant
            parts@.len() == pv.len(),
            forall|j: int| 0 <= j < parts@.len() ==> #[trigger] parts@[j]@ == pv[j],
            i <= parts@.len(),
            walk_path(current@, pv.skip(i as int)) == walk_path(start, pv),
            walk_path(start, pv) == transform_spec(value@, path@),
        decreases parts@.len() - i,
    {
        let ghost tail = pv.skip(i as int);
        proof {
            assert(tail.drop_first() =~= pv.skip(i + 1));
            assert(tail[0] == pv[i as int]);
            assert(parts@[i as int]@ == pv[i as int]);
        }
        if parts[i].len() == 0 {
            i = i + 1;
            continue;
        }
        match current {
            Json::Object(m) => {
                let key = crate::text::string_of(parts[i].as_slice());
                match m.get(key.as_str()) {
                    Some(x) => {
                        current = x;
                    },
                    None => {
                        return Json::Null;
                    },
                }
            },
            Json::Array(items) => {
                proof {
                    lemma_items_view_len(items@);
                }
                match parse_index_of(&parts[i]) {
                    Some(n) => {
                        if n < items.len() {
                            proof {
                                lemma_items_view_index(items@, n as int);
                            }
                            current = &items[n];
                        } else {
                            return Json::Null;
                        }
                    },
                    None => {
                        return Json::Null;
                    },
                }
            },
            _ => {
                return Json::Null;
            },
        }
        i = i + 1;
    }
    proof {
        assert(pv.skip(pv.len() as int) =~= Seq::<Seq<char>>::empty());
    }
    current.deep_copy()
}

/// The text `--raw-output` prints for a scalar: a string as it is, a
/// number or boolean as written in JSON, `null`; nothing for arrays and
/// objects.
pub open spec fn scalar_text(v: JsonV) -> Option<Seq<char>> {
    match v {
        JsonV::Str(s) => Some(s),
        JsonV::Number(NumV::PosInt(u)) => Some(decimal(u as nat)),
        JsonV::Number(NumV::NegInt(i)) => Some(signed_decimal(i as int)),
        JsonV::Number(NumV::Float(t)) => Some(t),
        JsonV::Bool(b) => Some(if b {
            "true"@
        } else {
            "false"@
        }),
        JsonV::Null => Some("null"@),
        _ => None,
    }
}

/// The raw text of a scalar output value.
pub fn raw_scalar_output(value: &Json) -> (r: Option<String>)
    ensures
        opt_text(r) == scalar_text(value@),
{
    match value {
        Json::String(s) => Some(s.clone()),
        Json::Number(JsonNumber::PosInt(u)) => Some(u64_text(*u)),
        Json::Number(JsonNumber::NegInt(i)) => Some(i64_text(*i)),
        Json::Number(JsonNumber::Float(t)) => Some(t.clone()),
        Json::Bool(b) => Some(
            if *b {
                "true".to_owned()
            } else {
                "false".to_owned()
            },
        ),
        Json::Null => Some("null".to_owned()),
        _ => None,
    }
}

// ---------------------------------------------------------------------------
// Rendering
// ---------------------------------------------------------------------------

/// How results are printed: the format, the `--transform` path, and
/// whether a scalar result prints as raw text.
#[derive(Debug, Clone)]
pub struct RenderOptions {
    pub format: OutputFormat,
    pub transform: Option<String>,
    pub raw_output: bool,
}

/// Texts joined with `\n` between them.
pub open spec fn join_lines(s: Seq<Seq<char>>) -> Seq<char>
    decreases s.len(),
{
    if s.len() == 0 {
        Seq::empty()
    } else if s.len() == 1 {
        s[0]
    } else {
        join_lines(s.drop_last()) + "\n"@ + s.last()
    }
}

/// JSON Lines: the compact text of each item of an array, one per line; the
/// compact text of any other value.
pub open spec fn jsonl_text(v: JsonV) -> Seq<char> {
    match v {
        JsonV::Array(items) => join_lines(Seq::new(items.len(), |i: int| json_compact_text(items[i]))),
        _ => json_compact_text(v),
    }
}

/// The value printed: `v` with the transform applied, if any.
pub open spec fn rendered_value(options: RenderOptions, v: JsonV) -> JsonV {
    match options.transform {
        Some(p) => transform_spec(v, p@),
        None => v,
    }
}

/// What is printed for `v`: the raw text of a scalar result when raw output
/// is asked for, else its compact, indented or JSON Lines text; a line end
/// follows.
pub open spec fn render_spec(options: RenderOptions, v: JsonV) -> Seq<char> {
    let t = rendered_value(options, v);
    if options.raw_output && scalar_text(t) is Some {
        scalar_text(t)->Some_0 + "\n"@
    } else {
        let text = match options.format {
            OutputFormat::Json => json_compact_text(t),
            OutputFormat::PrettyJson => json_pretty_text(t),
            OutputFormat::Jsonl => jsonl_text(t),
        };
        text + "\n"@
    }
}

/// The JSON Lines text of a value.
pub fn render_jsonl(value: &Json) -> (r: String)
    ensures
        r@ == jsonl_text(value@),
{
    match value {
        Json::Array(items) => {
            let ghost texts = Seq::new(items@.len(), |k: int| json_compact_text(items_view(items@)[k]));
            proof {
                lemma_items_view_len(items@);
            }
            let mut out = String::new();
            let mut i: usize = 0;
            while i < items.len()
                invariant
                    i <= items@.len(),
                    items_view(items@).len() == items@.len(),
                    texts == Seq::new(items@.len(), |k: int| json_compact_text(items_view(items@)[k])),
                    out@ == join_lines(texts.take(i as int)),
                decreases items@.len() - i,
            {
                let line = compact_text(&items[i]);
                proof {
                    lemma_items_view_index(items@, i as int);
                    assert(texts.take(i + 1).drop_last() =~= texts.take(i as int));
                    reveal_strlit("\n");
                }
                if i > 0 {
                    out.append("\n");
                }
                out.append(line.as_str());
                i = i + 1;
            }
            proof {
                assert(texts.take(items@.len() as int) =~= texts);
            }
            out
        },
        _ => compact_text(value),
    }
}

/// What is printed for an output value.
pub fn render_json(options: &RenderOptions, value: &Json) -> (r: String)
    ensures
        r@ == render_spec(*options, value@),
{
    let t = match &options.transform {
        Some(p) => transform_json(value, p.as_str()),
        None => value.deep_copy(),
    };
    if options.raw_output {
        match raw_scalar_output(&t) {
            Some(raw) => {
                let mut out = raw;
                out.append("\n");
                return out;
            },
            None => {},
        }
    }
    let mut out = match options.format {
        OutputFormat::Json => compact_text(&t),
        OutputFormat::PrettyJson => pretty_text(&t),
        OutputFormat::Jsonl => render_jsonl(&t),
    };
    out.append("\n");
    out
}

// ---------------------------------------------------------------------------
// Skills and client configuration
// ---------------------------------------------------------------------------

/// The directory name of the bundled skill.
pub const BUNDLED_SKILL_NAME: &'static str = "ynab-cli";

/// Where a skill is installed and for whom.
#[derive(Debug, Clone)]
pub struct SkillInstallPlan {
    pub target: SkillTargetArg,
    pub scope: &'static str,
    pub destination: String,
    pub project: Option<String>,
}

/// `rel` below `base` (`Path::join` with a relative path; an absolute
/// `rel` replaces `base`).
pub open spec fn path_join(base: Seq<char>, rel: Seq<char>) -> Seq<char> {
    if rel.len() > 0 && rel[0] == '/' {
        rel
    } else if base.len() == 0 || base.last() == '/' {
        base + rel
    } else {
        base + "/"@ + rel
    }
}

/// Joins a path onto a directory.
pub fn join_path(base: &str, rel: &str) -> (r: String)
    ensures
        r@ == path_join(base@, rel@),
{
    let b = crate::text::chars_of(base);
    let rc = crate::text::chars_of(rel);
    if rc.len() > 0 && rc[0] == '/' {
        return rel.to_owned();
    }
    if b.len() == 0 || b[b.len() - 1] == '/' {
        return concat(base, rel);
    }
    let mut out = concat(base, "/");
    out.append(rel);
    out
}

/// A path made absolute against the working directory `cwd`.
pub open spec fn absolute_spec(path: Seq<char>, cwd: Seq<char>) -> Seq<char> {
    if path.len() > 0 && path[0] == '/' {
        path
    } else {
        path_join(cwd, path)
    }
}

fn absolute_path(path: &str, cwd: &str) -> (r: String)
    ensures
        r@ == absolute_spec(path@, cwd@),
{
    let p = crate::text::chars_of(path);
    if p.len() > 0 && p[0] == '/' {
        path.to_owned()
    } else {
        join_path(cwd, path)
    }
}

/// Where the bundled skill goes for `target`: the user's directory of that
/// agent, or the project's (not offered for Codex).
pub open spec fn skill_plan_outcome(
    target: SkillTargetArg,
    project: Option<Seq<char>>,
    home: Option<Seq<char>>,
    cwd: Seq<char>,
) -> Result<(Seq<char>, Seq<char>, Option<Seq<char>>), Seq<char>> {
    let dest: Result<Seq<char>, Seq<char>> = match (target, project) {
        (SkillTargetArg::Codex, Some(_)) => Err(
            "project-scoped Codex skill installs are not currently supported; install to ~/.codex/skills instead"@,
        ),
        (SkillTargetArg::Codex, None) => match home {
            Some(h) => Ok(path_join(path_join(h, ".codex/skills"@), "ynab-cli"@)),
            None => Err("unable to determine home directory"@),
        },
        (SkillTargetArg::Openclaw, None) => match home {
            Some(h) => Ok(path_join(path_join(h, ".openclaw/skills"@), "ynab-cli"@)),
            None => Err("unable to determine home directory"@),
        },
        (SkillTargetArg::Openclaw, Some(p)) => Ok(
            path_join(path_join(absolute_spec(p, cwd), "skills"@), "ynab-cli"@),
        ),
    };
    match dest {
        Err(m) => Err(m),
        Ok(d) => Ok(
            (
                if project is Some {
                    "project"@
                } else {
                    "user"@
                },
                d,
                match project {
                    Some(p) => Some(absolute_spec(p, cwd)),
                    None => None,
                },
            ),
        ),
    }
}

/// The home directory (`dirs::home_dir`), as text. Nothing is stated of
/// it: it depends on the environment.
#[verifier::external_body]
fn home_dir_text() -> (r: Option<String>) {
    dirs::home_dir().map(|p| p.to_string_lossy().into_owned())
}

fn home_dir_path(home: Option<String>) -> (r: Result<String, YnabError>)
    ensures
        match home {
            Some(h) => r == Ok::<String, YnabError>(h),
            None => r is Err && is_config_error(r->Err_0, "unable to determine home directory"@),
        },
{
    match home {
        Some(h) => Ok(h),
        None => Err(YnabError::Config("unable to determine home directory".to_owned())),
    }
}

/// Where the bundled skill goes, given the home and working directories.
pub fn skill_install_plan_for(
    target: SkillTargetArg,
    project: Option<&str>,
    home: Option<String>,
    cwd: &str,
) -> (r: Result<SkillInstallPlan, YnabError>)
    ensures
        plan_matches(
            r,
            target,
            skill_plan_outcome(
                target,
                match project {
                    Some(p) => Some(p@),
                    None => None,
                },
                opt_text(home),
                cwd@,
            ),
        ),
{
    let base = match (target, project) {
        (SkillTargetArg::Codex, Some(_)) => {
            return Err(
                YnabError::Config(
                    "project-scoped Codex skill installs are not currently supported; install to ~/.codex/skills instead".to_owned(),
                ),
            );
        },
        (SkillTargetArg::Codex, None) => match home_dir_path(home) {
            Ok(h) => join_path(h.as_str(), ".codex/skills"),
            Err(e) => {
                return Err(e);
            },
        },
        (SkillTargetArg::Openclaw, None) => match home_dir_path(home) {
            Ok(h) => join_path(h.as_str(), ".openclaw/skills"),
            Err(e) => {
                return Err(e);
            },
        },
        (SkillTargetArg::Openclaw, Some(p)) => join_path(absolute_path(p, cwd).as_str(), "skills"),
    };
    let destination = join_path(base.as_str(), BUNDLED_SKILL_NAME);
    proof {
        reveal_strlit("ynab-cli");
    }
    Ok(
        SkillInstallPlan {
            target,
            scope: if project.is_some() {
                "project"
            } else {
                "user"
            },
            destination,
            project: match project {
                Some(p) => Some(absolute_path(p, cwd)),
                None => None,
            },
        },
    )
}

/// The text of an optional borrowed string.
pub open spec fn opt_str_text(o: Option<&str>) -> Option<Seq<char>> {
    match o {
        Some(p) => Some(p@),
        None => None,
    }
}

/// Whether `r` is the plan the outcome describes.
pub open spec fn plan_matches(
    r: Result<SkillInstallPlan, YnabError>,
    target: SkillTargetArg,
    outcome: Result<(Seq<char>, Seq<char>, Option<Seq<char>>), Seq<char>>,
) -> bool {
    match outcome {
        Ok((scope, dest, proj)) => r is Ok && r->Ok_0.target == target && r->Ok_0.scope@ == scope
            && r->Ok_0.destination@ == dest && opt_text(r->Ok_0.project) == proj,
        Err(m) => r is Err && is_config_error(r->Err_0, m),
    }
}

/// Where the bundled skill goes; the home directory is looked up when the
/// target needs it.
pub fn resolve_skill_install_plan(target: SkillTargetArg, project: Option<&str>, cwd: &str) -> (r:
    Result<SkillInstallPlan, YnabError>)
    ensures
        exists|home: Option<Seq<char>>|
            plan_matches(
                r,
                target,
                #[trigger] skill_plan_outcome(target, opt_str_text(project), home, cwd@),
            ),
{
    let needs_home = project.is_none();
    let home = if needs_home {
        home_dir_text()
    } else {
        None
    };
    let ghost h = opt_text(home);
    let r = skill_install_plan_for(target, project, home, cwd);
    proof {
        assert(plan_matches(
            r,
            target,
            skill_plan_outcome(
                target,
                match project {
                    Some(p) => Some(p@),
                    None => None,
                },
                h,
                cwd@,
            ),
        ));
    }
    r
}

/// The notes shown after installing a skill for `target` with `scope`.
pub open spec fn skill_notes_spec(target: SkillTargetArg, scope: Seq<char>) -> Seq<Seq<char>> {
    match target {
        SkillTargetArg::Codex => if scope == "user"@ {
            seq![
                "Restart Codex if it does not pick up the new user-level skill automatically."@,
                "The agents/openai.yaml file is optional metadata for Codex/OpenAI clients."@,
            ]
        } else {
            Seq::empty()
        },
        SkillTargetArg::Openclaw => if scope == "user"@ || scope == "project"@ {
            seq![
                "OpenClaw loads shared skills from ~/.openclaw/skills and workspace skills from <workspace>/skills."@,
                "The agents/openai.yaml file can remain present and is ignored by OpenClaw."@,
            ]
        } else {
            Seq::empty()
        },
    }
}

/// The notes shown after installing a skill.
pub fn skill_install_notes(target: SkillTargetArg, scope: &str) -> (r: Vec<&'static str>)
    ensures
        r@.len() == skill_notes_spec(target, scope@).len(),
        forall|i: int| 0 <= i < r@.len() ==> #[trigger] r@[i]@ == skill_notes_spec(target, scope@)[i],
{
    let user = str_eq(scope, "user");
    let project = str_eq(scope, "project");
    let mut v: Vec<&'static str> = Vec::new();
    match target {
        SkillTargetArg::Codex => {
            if user {
                v.push("Restart Codex if it does not pick up the new user-level skill automatically.");
                v.push("The agents/openai.yaml file is optional metadata for Codex/OpenAI clients.");
            }
        },
        SkillTargetArg::Openclaw => {
            if user || project {
                v.push(
                    "OpenClaw loads shared skills from ~/.openclaw/skills and workspace skills from <workspace>/skills.",
                );
                v.push("The agents/openai.yaml file can remain present and is ignored by OpenClaw.");
            }
        },
    }
    v
}

/// A text escaped for a TOML basic string: `\` and `"` get a backslash.
pub open spec fn toml_escape(s: Seq<char>) -> Seq<char>
    decreases s.len(),
{
    if s.len() == 0 {
        Seq::empty()
    } else {
        toml_escape(s.drop_last()) + if s.last() == '\\' {
            seq!['\\', '\\']
        } else if s.last() == '"' {
            seq!['\\', '"']
        } else {
            seq![s.last()]
        }
    }
}

/// A TOML basic string holding `value`.
pub fn toml_basic_string(value: &str) -> (r: String)
    ensures
        r@ == seq!['"'] + toml_escape(value@) + seq!['"'],
{
    let v = crate::text::chars_of(value);
    let mut out: Vec<char> = Vec::new();
    out.push('"');
    let mut i: usize = 0;
    while i < v.len()
        invariant
            v@ == value@,
            i <= v@.len(),
            out@ == seq!['"'] + toml_escape(v@.take(i as int)),
        decreases v@.len() - i,
    {
        proof {
            assert(v@.take(i + 1).drop_last() =~= v@.take(i as int));
        }
        let c = v[i];
        if c == '\\' {
            out.push('\\');
            out.push('\\');
        } else if c == '"' {
            out.push('\\');
            out.push('"');
        } else {
            out.push(c);
        }
        proof {
            assert(out@ =~= seq!['"'] + toml_escape(v@.take(i + 1)));
        }
        i = i + 1;
    }
    proof {
        assert(v@.take(v@.len() as int) =~= v@);
    }
    out.push('"');
    crate::text::string_of(out.as_slice())
}

/// The Codex configuration that trusts `project` and runs the MCP server
/// at `binary_path` for it.
pub open spec fn codex_config_text(project: Seq<char>, binary_path: Seq<char>) -> Seq<char> {
    let p = seq!['"'] + toml_escape(project) + seq!['"'];
    let c = seq!['"'] + toml_escape(binary_path) + seq!['"'];
    "[projects."@ + p + "]\ntrust_level = \"trusted\"\n\n[projects."@ + p
        + ".mcp_servers.ynab]\ncommand = "@ + c + "\nargs = [\"--profile\", \"default\"]"@
}

/// The Codex configuration for a project.
pub fn render_codex_project_config(project: &str, binary_path: &str) -> (r: String)
    ensures
        r@ == codex_config_text(project@, binary_path@),
{
    let p = toml_basic_string(project);
    let c = toml_basic_string(binary_path);
    let mut out = "[projects.".to_owned();
    out.append(p.as_str());
    out.append("]\ntrust_level = \"trusted\"\n\n[projects.");
    out.append(p.as_str());
    out.append(".mcp_servers.ynab]\ncommand = ");
    out.append(c.as_str());
    out.append("\nargs = [\"--profile\", \"default\"]");
    out
}

/// A lowercase hexadecimal digit.
pub open spec fn hex_digit(d: u8) -> char {
    if d < 10 {
        (48 + d) as char
    } else {
        (87 + d) as char
    }
}

/// How `serde_json` writes one character inside a string literal: `"` and
/// `\` after a backslash, the controls `\b`, `\t`, `\n`, `\f`, `\r` by name,
/// other characters below U+0020 as `\u00XX` (lowercase hex), and every
/// other character as it is.
pub open spec fn json_char_escape(c: char) -> Seq<char> {
    let u = c as u32;
    if c == '"' {
        seq!['\\', '"']
    } else if c == '\\' {
        seq!['\\', '\\']
    } else if u == 8 {
        seq!['\\', 'b']
    } else if u == 9 {
        seq!['\\', 't']
    } else if u == 10 {
        seq!['\\', 'n']
    } else if u == 12 {
        seq!['\\', 'f']
    } else if u == 13 {
        seq!['\\', 'r']
    } else if u < 32 {
        seq!['\\', 'u', '0', '0', hex_digit((u / 16) as u8), hex_digit((u % 16) as u8)]
    } else {
        seq![c]
    }
}

/// The characters of `s`, each as `serde_json` writes it in a string.
pub open spec fn json_escape(s: Seq<char>) -> Seq<char>
    decreases s.len(),
{
    if s.len() == 0 {
        Seq::empty()
    } else {
        json_escape(s.drop_last()) + json_char_escape(s.last())
    }
}

/// The JSON string literal `serde_json::to_string` writes for a text.
pub open spec fn json_string_text(s: Seq<char>) -> Seq<char> {
    seq!['"'] + json_escape(s) + seq!['"']
}

fn push_hex_digit(out: &mut Vec<char>, d: u8)
    requires
        d < 16,
    ensures
        final(out)@ == old(out)@.push(hex_digit(d)),
{
    if d < 10 {
        out.push((48 + d) as char);
    } else {
        out.push((87 + d) as char);
    }
}

/// A text as a JSON string literal, escaped as `serde_json::to_string`
/// escapes it.
fn json_string(value: &str) -> (r: String)
    ensures
        r@ == json_string_text(value@),
{
    let v = crate::text::chars_of(value);
    let mut out: Vec<char> = Vec::new();
    out.push('"');
    let mut i: usize = 0;
    while i < v.len()
        invariant
            v@ == value@,
            i <= v@.len(),
            out@ == seq!['"'] + json_escape(v@.take(i as int)),
        decreases v@.len() - i,
    {
        proof {
            assert(v@.take(i + 1).drop_last() =~= v@.take(i as int));
        }
        let ghost before = out@;
        let c = v[i];
        let u = c as u32;
        if c == '"' {
            out.push('\\');
            out.push('"');
        } else if c == '\\' {
            out.push('\\');
            out.push('\\');
        } else if u == 8 {
            out.push('\\');
            out.push('b');
        } else if u == 9 {
            out.push('\\');
            out.push('t');
        } else if u == 10 {
            out.push('\\');
            out.push('n');
        } else if u == 12 {
            out.push('\\');
            out.push('f');
        } else if u == 13 {
            out.push('\\');
            out.push('r');
        } else if u < 32 {
            out.push('\\');
            out.push('u');
            out.push('0');
            out.push('0');
            push_hex_digit(&mut out, (u / 16) as u8);
            push_hex_digit(&mut out, (u % 16) as u8);
        } else {
            out.push(c);
        }
        proof {
            assert(out@ =~= before + json_char_escape(c));
            assert(out@ =~= seq!['"'] + json_escape(v@.take(i + 1)));
        }
        i = i + 1;
    }
    proof {
        assert(v@.take(v@.len() as int) =~= v@);
    }
    out.push('"');
    crate::text::string_of(out.as_slice())
}

/// The workspace MCP configuration that runs the server at `binary_path`.
pub open spec fn workspace_mcp_text(binary_path: Seq<char>) -> Seq<char> {
    "{\n  \"mcpServers\": {\n    \"ynab\": {\n      \"command\": "@ + json_string_text(binary_path)
        + ",\n      \"args\": [\"--profile\", \"default\"]\n    }\n  }\n}"@
}

/// The workspace MCP configuration.
pub fn render_workspace_mcp_json(binary_path: &str) -> (r: String)
    ensures
        r@ == workspace_mcp_text(binary_path@),
{
    let escaped = json_string(binary_path);
    let mut out = "{\n  \"mcpServers\": {\n    \"ynab\": {\n      \"command\": ".to_owned();
    out.append(escaped.as_str());
    out.append(",\n      \"args\": [\"--profile\", \"default\"]\n    }\n  }\n}");
    out
}

// ---------------------------------------------------------------------------
// OAuth callback
// ---------------------------------------------------------------------------

/// Where the local OAuth callback listens.
#[derive(Debug, Clone)]
pub struct CallbackConfig {
    pub bind_host: String,
    pub port: u16,
    pub path: String,
}

/// What the OAuth callback delivered.
#[derive(Debug)]
pub struct OAuthCallback {
    pub code: String,
    pub state: Option<String>,
}

/// The parts of a URL that `url::Url::parse(s)` reads (scheme, host text,
/// port or the scheme's known default port, path), or the text of its parse
/// error.
pub uninterp spec fn url_parts_outcome(s: Seq<char>) -> Result<
    (Seq<char>, Option<Seq<char>>, Option<u16>, Seq<char>),
    Seq<char>,
>;

/// The parts of a URL, read by `url::Url::parse`: `scheme`, `host_str`,
/// `port_or_known_default` and `path`.
#[verifier::external_body]
fn url_parts(s: &str) -> (r: Result<(String, Option<String>, Option<u16>, String), String>)
    ensures
        match url_parts_outcome(s@) {
            Ok((scheme, host, port, path)) => r is Ok && r->Ok_0.0@ == scheme && opt_text(
                r->Ok_0.1,
            ) == host && r->Ok_0.2 == port && r->Ok_0.3@ == path,
            Err(e) => r is Err && r->Err_0@ == e,
        },
{
    match url::Url::parse(s) {
        Ok(u) => Ok(
            (
                u.scheme().to_owned(),
                u.host_str().map(str::to_owned),
                u.port_or_known_default(),
                u.path().to_owned(),
            ),
        ),
        Err(e) => Err(e.to_string()),
    }
}

/// `://` starts at `i`.
pub open spec fn scheme_sep_at(s: Seq<char>, i: int) -> bool {
    0 <= i && i + 3 <= s.len() && s[i] == ':' && s[i + 1] == '/' && s[i + 2] == '/'
}

/// `i` is where the first `://` of `s` starts.
pub open spec fn first_scheme_sep(s: Seq<char>, i: int) -> bool {
    scheme_sep_at(s, i) && forall|j: int| 0 <= j < i ==> !#[trigger] scheme_sep_at(s, j)
}

/// A character that ends the authority of a URL.
pub open spec fn ends_authority(c: char) -> bool {
    c == '/' || c == '?' || c == '#' || c == '\\'
}

/// The authority that starts at `a` ends at `e`: at the first character that
/// ends it, or at the end of the text.
pub open spec fn authority_end(s: Seq<char>, a: int, e: int) -> bool {
    &&& a <= e <= s.len()
    &&& forall|j: int| a <= j < e ==> !ends_authority(#[trigger] s[j])
    &&& e < s.len() ==> ends_authority(s[e])
}

/// The `:` at `t` introduces the port of the authority `[a, e)`: it is the
/// last `:`, no `@` or `]` follows it, and at least one character does.
pub open spec fn port_colon(s: Seq<char>, a: int, e: int, t: int) -> bool {
    &&& a <= t
    &&& t + 1 < e
    &&& s[t] == ':'
    &&& forall|u: int| t < u < e ==> #[trigger] s[u] != '@' && s[u] != ']' && s[u] != ':'
}

/// Whether the text of a URL writes out a port after its host.
pub open spec fn port_written(s: Seq<char>) -> bool {
    exists|i: int, e: int, t: int|
        first_scheme_sep(s, i) && #[trigger] authority_end(s, i + 3, e) && #[trigger] port_colon(
            s,
            i + 3,
            e,
            t,
        )
}

fn find_scheme_sep(s: &Vec<char>) -> (r: Option<usize>)
    ensures
        match r {
            Some(i) => first_scheme_sep(s@, i as int),
            None => forall|j: int| !#[trigger] scheme_sep_at(s@, j),
        },
{
    let mut i: usize = 0;
    while s.len() >= 3 && i <= s.len() - 3
        invariant
            i <= s@.len(),
            forall|j: int| 0 <= j < i ==> !#[trigger] scheme_sep_at(s@, j),
        decreases s@.len() - i,
    {
        if s[i] == ':' && s[i + 1] == '/' && s[i + 2] == '/' {
            return Some(i);
        }
        i = i + 1;
    }
    None
}

fn find_authority_end(s: &Vec<char>, a: usize) -> (e: usize)
    requires
        a <= s@.len(),
    ensures
        authority_end(s@, a as int, e as int),
{
    let mut e: usize = a;
    while e < s.len() && !(s[e] == '/' || s[e] == '?' || s[e] == '#' || s[e] == '\\')
        invariant
            a <= e <= s@.len(),
            forall|j: int| a <= j < e ==> !ends_authority(#[trigger] s@[j]),
        decreases s@.len() - e,
    {
        e = e + 1;
    }
    e
}

/// Whether the text of a URL writes out a port after its host.
pub fn has_written_port(uri: &str) -> (r: bool)
    ensures
        r == port_written(uri@),
{
    let s = crate::text::chars_of(uri);
    let i = match find_scheme_sep(&s) {
        Some(i) => i,
        None => {
            return false;
        },
    };
    let n = s.len();
    assert(i + 3 <= n);
    let a = i + 3;
    let e = find_authority_end(&s, a);
    let mut u: usize = e;
    while u > a
        invariant
            a == i + 3,
            s@ == uri@,
            first_scheme_sep(s@, i as int),
            authority_end(s@, a as int, e as int),
            a <= u <= e <= s@.len(),
            forall|v: int| u <= v < e ==> #[trigger] s@[v] != '@' && s@[v] != ']' && s@[v] != ':',
        decreases u,
    {
        let c = s[u - 1];
        if c == ':' {
            let found = u < e;
            proof {
                if found {
                    assert(first_scheme_sep(s@, i as int));
                    assert(authority_end(s@, i + 3, e as int));
                    assert(port_colon(s@, i + 3, e as int, u - 1));
                    assert(port_written(uri@));
                } else {
                    assert forall|t: int| !#[trigger] port_colon(s@, a as int, e as int, t) by {
                        if port_colon(s@, a as int, e as int, t) && t < u - 1 {
                            assert(s@[u - 1] == ':');
                        }
                    }
                    lemma_no_port_written(s@, i as int, e as int);
                }
            }
            return found;
        }
        if c == '@' || c == ']' {
            proof {
                assert forall|t: int| !#[trigger] port_colon(s@, a as int, e as int, t) by {
                    if port_colon(s@, a as int, e as int, t) && t < u - 1 {
                        assert(s@[u - 1] == '@' || s@[u - 1] == ']');
                    }
                }
                lemma_no_port_written(s@, i as int, e as int);
            }
            return false;
        }
        u = u - 1;
    }
    proof {
        assert forall|t: int| !#[trigger] port_colon(s@, a as int, e as int, t) by {
            if port_colon(s@, a as int, e as int, t) {
                assert(s@[t] == ':');
            }
        }
        lemma_no_port_written(s@, i as int, e as int);
    }
    false
}

proof fn lemma_no_port_written(s: Seq<char>, i: int, e: int)
    requires
        first_scheme_sep(s, i),
        authority_end(s, i + 3, e),
        forall|t: int| !#[trigger] port_colon(s, i + 3, e, t),
    ensures
        !port_written(s),
{
    if port_written(s) {
        let (i2, e2, t) = choose|i2: int, e2: int, t: int|
            first_scheme_sep(s, i2) && #[trigger] authority_end(s, i2 + 3, e2) && #[trigger] port_colon(
                s,
                i2 + 3,
                e2,
                t,
            );
        lemma_authority_unique(s, i, i2, e, e2);
        assert(port_colon(s, i + 3, e, t));
    }
}

proof fn lemma_authority_unique(s: Seq<char>, i1: int, i2: int, e1: int, e2: int)
    requires
        first_scheme_sep(s, i1),
        first_scheme_sep(s, i2),
        authority_end(s, i1 + 3, e1),
        authority_end(s, i2 + 3, e2),
    ensures
        i1 == i2,
        e1 == e2,
{
    if i1 < i2 {
        assert(!scheme_sep_at(s, i1));
    }
    if i2 < i1 {
        assert(!scheme_sep_at(s, i2));
    }
    if e1 < e2 {
        assert(!ends_authority(s[e1]));
    }
    if e2 < e1 {
        assert(!ends_authority(s[e2]));
    }
}

/// The path a callback is expected on: `/` for an empty path.
pub open spec fn callback_path(path: Seq<char>) -> Seq<char> {
    if path.len() == 0 {
        "/"@
    } else {
        path
    }
}

/// The path a callback is expected on.
pub fn normalize_callback_path(path: &str) -> (r: String)
    ensures
        r@ == callback_path(path@),
{
    if path.unicode_len() == 0 {
        "/".to_owned()
    } else {
        path.to_owned()
    }
}

/// Whether a host is a loopback name the callback may listen on.
pub open spec fn loopback_host(h: Seq<char>) -> bool {
    h == "127.0.0.1"@ || h == "localhost"@ || h == "[::1]"@
}

/// The address to bind for a loopback host: `::1` for the bracketed IPv6
/// loopback, the host itself otherwise.
pub open spec fn loopback_bind_host(h: Seq<char>) -> Seq<char> {
    if h == "[::1]"@ {
        "::1"@
    } else {
        h
    }
}

/// The callback listener a redirect URI describes: an `http` URI on a
/// loopback host (`127.0.0.1`, `localhost` or `[::1]`) whose text writes out
/// a port; a written port equal to the default (`:80`) counts.
pub open spec fn callback_config_outcome(uri: Seq<char>, r: Result<CallbackConfig, YnabError>) -> bool {
    match url_parts_outcome(uri) {
        Err(e) => r is Err && is_url_error(r->Err_0, e),
        Ok((scheme, host, port, path)) => if scheme != "http"@ {
            r is Err && is_config_error(
                r->Err_0,
                "interactive login requires an http:// loopback redirect URI"@,
            )
        } else if host is None {
            r is Err && is_config_error(r->Err_0, "redirect URI is missing a host"@)
        } else if !loopback_host(host->Some_0) {
            r is Err && is_config_error(
                r->Err_0,
                "interactive login requires a localhost/127.0.0.1/::1 redirect URI"@,
            )
        } else if !port_written(uri) || port is None {
            r is Err && is_config_error(
                r->Err_0,
                "interactive login requires an explicit redirect URI port"@,
            )
        } else {
            r is Ok && r->Ok_0.bind_host@ == loopback_bind_host(host->Some_0) && r->Ok_0.port
                == port->Some_0
                && r->Ok_0.path@ == callback_path(path)
        },
    }
}

impl CallbackConfig {
    /// The listener for a redirect URI.
    pub fn from_redirect_uri(redirect_uri: &str) -> (r: Result<CallbackConfig, YnabError>)
        ensures
            callback_config_outcome(redirect_uri@, r),
    {
        let (scheme, host, port, path) = match url_parts(redirect_uri) {
            Ok(p) => p,
            Err(e) => {
                return Err(YnabError::Url(e));
            },
        };
        if !str_eq(scheme.as_str(), "http") {
            return Err(
                YnabError::Config(
                    "interactive login requires an http:// loopback redirect URI".to_owned(),
                ),
            );
        }
        let host = match host {
            Some(h) => h,
            None => {
                return Err(YnabError::Config("redirect URI is missing a host".to_owned()));
            },
        };
        let ipv6 = str_eq(host.as_str(), "[::1]");
        if !(str_eq(host.as_str(), "127.0.0.1") || str_eq(host.as_str(), "localhost") || ipv6) {
            return Err(
                YnabError::Config(
                    "interactive login requires a localhost/127.0.0.1/::1 redirect URI".to_owned(),
                ),
            );
        }
        let written = has_written_port(redirect_uri);
        let port = match port {
            Some(p) if written => p,
            _ => {
                return Err(
                    YnabError::Config(
                        "interactive login requires an explicit redirect URI port".to_owned(),
                    ),
                );
            },
        };
        let bind_host = if ipv6 {
            "::1".to_owned()
        } else {
            host
        };
        proof {
            reveal_strlit("::1");
            reveal_strlit("[::1]");
        }
        Ok(CallbackConfig { bind_host, port, path: normalize_callback_path(path.as_str()) })
    }

    /// The address to listen on: `host:port`, the host in brackets when it
    /// holds a `:`.
    pub fn bind_addr(&self) -> (r: String)
        ensures
            r@ == bind_addr_text(self.bind_host@, self.port),
    {
        let port = u64_text(self.port as u64);
        if crate::text::str_contains(self.bind_host.as_str(), ":") {
            let mut out = "[".to_owned();
            out.append(self.bind_host.as_str());
            out.append("]:");
            out.append(port.as_str());
            out
        } else {
            let mut out = self.bind_host.clone();
            out.append(":");
            out.append(port.as_str());
            out
        }
    }

    /// The address and path, as shown to the user.
    pub fn bind_display(&self) -> (r: String)
        ensures
            r@ == bind_addr_text(self.bind_host@, self.port) + self.path@,
    {
        let mut out = self.bind_addr();
        out.append(self.path.as_str());
        out
    }
}

/// `host:port`, or `[host]:port` for a host with a `:`.
pub open spec fn bind_addr_text(host: Seq<char>, port: u16) -> Seq<char> {
    if crate::text::contains_seq(host, ":"@) {
        "["@ + host + "]:"@ + decimal(port as nat)
    } else {
        host + ":"@ + decimal(port as nat)
    }
}

/// The first line of a request (`str::lines().next()`): up to the first
/// `\n`, without a `\r` just before it; none for an empty request.
pub open spec fn first_line(s: Seq<char>) -> Option<Seq<char>> {
    if s.len() == 0 {
        None
    } else if exists|i: int| 0 <= i < s.len() && s[i] == '\n' {
        let k = choose|i: int|
            0 <= i < s.len() && s[i] == '\n' && forall|j: int| 0 <= j < i ==> s[j] != '\n';
        let l = s.take(k);
        if l.len() > 0 && l.last() == '\r' {
            Some(l.drop_last())
        } else {
            Some(l)
        }
    } else {
        Some(s)
    }
}

/// The index where the leading run of non-white-space characters ends.
pub open spec fn token_end(s: Seq<char>) -> int
    decreases s.len(),
{
    if s.len() == 0 || is_white_space(s[0]) {
        0
    } else {
        1 + token_end(s.drop_first())
    }
}

/// The first white-space separated token of `s`, and what follows it.
pub open spec fn first_token(s: Seq<char>) -> (Seq<char>, Seq<char>) {
    let t = trim_start(s);
    (t.take(token_end(t)), t.skip(token_end(t)))
}

proof fn lemma_token_end_bounds(s: Seq<char>)
    ensures
        0 <= token_end(s) <= s.len(),
        forall|j: int| 0 <= j < token_end(s) ==> !is_white_space(#[trigger] s[j]),
        token_end(s) < s.len() ==> is_white_space(s[token_end(s)]),
    decreases s.len(),
{
    if s.len() > 0 && !is_white_space(s[0]) {
        let r = s.drop_first();
        lemma_token_end_bounds(r);
        assert forall|j: int| 0 <= j < token_end(s) implies !is_white_space(#[trigger] s[j]) by {
            if j > 0 {
                assert(s[j] == r[j - 1]);
            }
        }
    }
}

proof fn lemma_token_end_at(s: Seq<char>, k: int)
    requires
        0 <= k <= s.len(),
        forall|j: int| 0 <= j < k ==> !is_white_space(#[trigger] s[j]),
        k < s.len() ==> is_white_space(s[k]),
    ensures
        token_end(s) == k,
    decreases k,
{
    if k > 0 {
        let r = s.drop_first();
        assert forall|j: int| 0 <= j < k - 1 implies !is_white_space(#[trigger] r[j]) by {
            assert(r[j] == s[j + 1]);
        }
        lemma_token_end_at(r, k - 1);
    }
}

fn split_token(v: &Vec<char>) -> (r: (Vec<char>, Vec<char>))
    ensures
        (r.0@, r.1@) == first_token(v@),
{
    let mut i: usize = 0;
    while i < v.len() && char_is_white_space(v[i])
        invariant
            i <= v@.len(),
            forall|j: int| 0 <= j < i ==> is_white_space(#[trigger] v@[j]),
        decreases v@.len() - i,
    {
        i = i + 1;
    }
    proof {
        lemma_trim_start_from(v@, i as int);
    }
    let mut j: usize = i;
    while j < v.len() && !char_is_white_space(v[j])
        invariant
            i <= j <= v@.len(),
            forall|q: int| i <= q < j ==> !is_white_space(#[trigger] v@[q]),
        decreases v@.len() - j,
    {
        j = j + 1;
    }
    proof {
        let t = v@.subrange(i as int, v@.len() as int);
        assert forall|q: int| 0 <= q < j - i implies !is_white_space(#[trigger] t[q]) by {
            assert(t[q] == v@[i + q]);
        }
        lemma_token_end_at(t, j - i);
    }
    let tok = slice_chars(v.as_slice(), i, j);
    let rest = slice_chars(v.as_slice(), j, v.len());
    proof {
        let t = v@.subrange(i as int, v@.len() as int);
        assert(tok@ =~= t.take(j - i));
        assert(rest@ =~= t.skip(j - i));
    }
    (tok, rest)
}

/// The value of the last pair with key `key`.
pub open spec fn last_value(pairs: Seq<(Seq<char>, Seq<char>)>, key: Seq<char>) -> Option<Seq<char>>
    decreases pairs.len(),
{
    if pairs.len() == 0 {
        None
    } else if pairs.last().0 == key {
        Some(pairs.last().1)
    } else {
        last_value(pairs.drop_last(), key)
    }
}

/// The path and the decoded query pairs of `url`, read by
/// `url::Url::parse` and `Url::query_pairs`, or the text of the parse error.
pub uninterp spec fn callback_url_outcome(url: Seq<char>) -> Result<
    (Seq<char>, Seq<(Seq<char>, Seq<char>)>),
    Seq<char>,
>;

/// The path and decoded query pairs of a URL.
#[verifier::external_body]
fn callback_url_parts(url: &str) -> (r: Result<(String, Vec<(String, String)>), String>)
    ensures
        match callback_url_outcome(url@) {
            Ok((path, pairs)) => r is Ok && r->Ok_0.0@ == path && pairs_view(r->Ok_0.1@) == pairs,
            Err(e) => r is Err && r->Err_0@ == e,
        },
{
    match url::Url::parse(url) {
        Ok(u) => Ok(
            (
                u.path().to_owned(),
                u.query_pairs().map(|(k, v)| (k.into_owned(), v.into_owned())).collect(),
            ),
        ),
        Err(e) => Err(e.to_string()),
    }
}

/// What a callback request gives: the `GET` request line's target, parsed
/// below `http://localhost`, on the expected path, with an authorization
/// code and no error (the last value of each query key counts).
pub open spec fn callback_request_outcome(request: Seq<char>, expected_path: Seq<char>, r: Result<
    OAuthCallback,
    YnabError,
>) -> bool {
    match first_line(request) {
        None => r is Err && is_config_error(r->Err_0, "malformed OAuth callback request"@),
        Some(line) => {
            let method = first_token(line).0;
            let target = first_token(first_token(line).1).0;
            if method != "GET"@ {
                r is Err && is_config_error(r->Err_0, "unexpected HTTP method for OAuth callback"@)
            } else {
                match callback_url_outcome("http://localhost"@ + target) {
                    Err(e) => r is Err && is_url_error(r->Err_0, e),
                    Ok((path, pairs)) => if callback_path(path) != expected_path {
                        r is Err && is_config_error(
                            r->Err_0,
                            "received OAuth callback on unexpected path"@,
                        )
                    } else {
                        match last_value(pairs, "error"@) {
                            Some(e) => r is Err && is_config_error(
                                r->Err_0,
                                match last_value(pairs, "error_description"@) {
                                    Some(d) => "OAuth authorization failed: "@ + e + ": "@ + d,
                                    None => "OAuth authorization failed: "@ + e,
                                },
                            ),
                            None => match last_value(pairs, "code"@) {
                                None => r is Err && is_config_error(
                                    r->Err_0,
                                    "OAuth callback did not include an authorization code"@,
                                ),
                                Some(c) => r is Ok && r->Ok_0.code@ == c && opt_text(r->Ok_0.state)
                                    == last_value(pairs, "state"@),
                            },
                        }
                    },
                }
            }
        },
    }
}

fn first_line_of(v: &Vec<char>) -> (r: Option<Vec<char>>)
    ensures
        match first_line(v@) {
            Some(l) => r is Some && r->Some_0@ == l,
            None => r is None,
        },
{
    if v.len() == 0 {
        return None;
    }
    let mut i: usize = 0;
    while i < v.len() && v[i] != '\n'
        invariant
            i <= v@.len(),
            forall|j: int| 0 <= j < i ==> v@[j] != '\n',
        decreases v@.len() - i,
    {
        i = i + 1;
    }
    if i == v.len() {
        return Some(slice_chars(v.as_slice(), 0, v.len()));
    }
    proof {
        let s = v@;
        let k = choose|q: int|
            0 <= q < s.len() && s[q] == '\n' && forall|j: int| 0 <= j < q ==> s[j] != '\n';
        assert(0 <= i < s.len() && s[i as int] == '\n' && forall|j: int| 0 <= j < i ==> s[j] != '\n');
        if k < i {
        } else if k > i {
            assert(s[i as int] != '\n');
        }
        assert(k == i);
    }
    if i > 0 && v[i - 1] == '\r' {
        Some(slice_chars(v.as_slice(), 0, i - 1))
    } else {
        Some(slice_chars(v.as_slice(), 0, i))
    }
}

fn last_value_of(pairs: &Vec<(String, String)>, key: &str) -> (r: Option<String>)
    ensures
        opt_text(r) == last_value(pairs_view(pairs@), key@),
{
    let mut i: usize = pairs.len();
    proof {
        assert(pairs@.take(pairs@.len() as int) =~= pairs@);
    }
    while i > 0
        invariant
            i <= pairs@.len(),
            last_value(pairs_view(pairs@), key@) == last_value(pairs_view(pairs@.take(i as int)), key@),
        decreases i,
    {
        proof {
            assert(pairs_view(pairs@.take(i as int)).drop_last() =~= pairs_view(pairs@.take(i - 1)));
        }
        if str_eq(pairs[i - 1].0.as_str(), key) {
            return Some(pairs[i - 1].1.clone());
        }
        i = i - 1;
    }
    None
}

/// Reads the OAuth callback request.
pub fn parse_callback_request(request: &str, config: &CallbackConfig) -> (r: Result<
    OAuthCallback,
    YnabError,
>)
    ensures
        callback_request_outcome(request@, config.path@, r),
{
    let v = crate::text::chars_of(request);
    let line = match first_line_of(&v) {
        Some(l) => l,
        None => {
            return Err(YnabError::Config("malformed OAuth callback request".to_owned()));
        },
    };
    let (method, rest) = split_token(&line);
    let (target, _) = split_token(&rest);
    let method = crate::text::string_of(method.as_slice());
    if !str_eq(method.as_str(), "GET") {
        return Err(YnabError::Config("unexpected HTTP method for OAuth callback".to_owned()));
    }
    let target = crate::text::string_of(target.as_slice());
    let url = concat("http://localhost", target.as_str());
    let (path, pairs) = match callback_url_parts(url.as_str()) {
        Ok(p) => p,
        Err(e) => {
            return Err(YnabError::Url(e));
        },
    };
    let normalized = normalize_callback_path(path.as_str());
    if !str_eq(normalized.as_str(), config.path.as_str()) {
        return Err(YnabError::Config("received OAuth callback on unexpected path".to_owned()));
    }
    let code = last_value_of(&pairs, "code");
    let state = last_value_of(&pairs, "state");
    let error = last_value_of(&pairs, "error");
    let error_description = last_value_of(&pairs, "error_description");
    if let Some(error) = error {
        let mut m = concat("OAuth authorization failed: ", error.as_str());
        if let Some(detail) = error_description {
            m.append(": ");
            m.append(detail.as_str());
        }
        return Err(YnabError::Config(m));
    }
    match code {
        Some(code) => Ok(OAuthCallback { code, state }),
        None => Err(
            YnabError::Config("OAuth callback did not include an authorization code".to_owned()),
        ),
    }
}

/// Text with `&`, `<` and `>` replaced by their HTML entities.
pub open spec fn html_escape_spec(s: Seq<char>) -> Seq<char>
    decreases s.len(),
{
    if s.len() == 0 {
        Seq::empty()
    } else {
        html_escape_spec(s.drop_last()) + if s.last() == '&' {
            "&amp;"@
        } else if s.last() == '<' {
            "&lt;"@
        } else if s.last() == '>' {
            "&gt;"@
        } else {
            seq![s.last()]
        }
    }
}

/// Escapes text for an HTML page.
pub fn html_escape(input: &str) -> (r: String)
    ensures
        r@ == html_escape_spec(input@),
{
    let v = crate::text::chars_of(input);
    let mut out = String::new();
    let mut i: usize = 0;
    while i < v.len()
        invariant
            v@ == input@,
            i <= v@.len(),
            out@ == html_escape_spec(v@.take(i as int)),
        decreases v@.len() - i,
    {
        proof {
            assert(v@.take(i + 1).drop_last() =~= v@.take(i as int));
        }
        let c = v[i];
        if c == '&' {
            out.append("&amp;");
        } else if c == '<' {
            out.append("&lt;");
        } else if c == '>' {
            out.append("&gt;");
        } else {
            crate::text::push_char(&mut out, c);
        }
        proof {
            assert(out@ =~= html_escape_spec(v@.take(i + 1)));
        }
        i = i + 1;
    }
    proof {
        assert(v@.take(v@.len() as int) =~= v@);
    }
    out
}

/// The page the callback answers with.
pub open spec fn callback_body(message: Seq<char>) -> Seq<char> {
    "<!doctype html><html><body><h1>"@ + html_escape_spec(message) + "</h1></body></html>"@
}

/// The HTTP response the callback answers with.
pub open spec fn callback_response_spec(status: u16, message: Seq<char>) -> Seq<char> {
    let body = callback_body(message);
    "HTTP/1.1 "@ + decimal(status as nat) + " "@ + (if status == 200 {
        "OK"@
    } else {
        "Bad Request"@
    }) + "\r\nContent-Type: text/html; charset=utf-8\r\nContent-Length: "@ + decimal(
        utf8_len(body),
    ) + "\r\nConnection: close\r\n\r\n"@ + body
}

/// The HTTP response the callback answers with: a small page holding the
/// escaped message.
pub fn callback_response(status: u16, message: &str) -> (r: String)
    requires
        utf8_len(callback_body(message@)) <= u64::MAX,
    ensures
        r@ == callback_response_spec(status, message@),
{
    let mut body = "<!doctype html><html><body><h1>".to_owned();
    let escaped = html_escape(message);
    body.append(escaped.as_str());
    body.append("</h1></body></html>");
    let chars = crate::text::chars_of(body.as_str());
    let length = crate::text::utf8_length(chars.as_slice());
    let mut out = "HTTP/1.1 ".to_owned();
    out.append(u64_text(status as u64).as_str());
    out.append(" ");
    out.append(
        if status == 200 {
            "OK"
        } else {
            "Bad Request"
        },
    );
    out.append("\r\nContent-Type: text/html; charset=utf-8\r\nContent-Length: ");
    out.append(u64_text(length).as_str());
    out.append("\r\nConnection: close\r\n\r\n");
    out.append(body.as_str());
    out
}

/// Whether an argument passes the access token as a flag.
pub open spec fn names_token_flag(a: Option<Seq<char>>) -> bool {
    match a {
        Some(t) => t == "--access-token"@ || strip_prefix_spec(t, "--access-token="@) is Some,
        None => false,
    }
}

/// Where the access token given on the command line came from: `flag` when
/// an argument is `--access-token` or starts with `--access-token=`, else
/// `env` when the environment has one.
pub open spec fn token_source_spec(args: Seq<Option<Seq<char>>>, env_token_set: bool) -> Option<Seq<char>> {
    if exists|i: int| 0 <= i < args.len() && names_token_flag(#[trigger] args[i]) {
        Some("flag"@)
    } else if env_token_set {
        Some("env"@)
    } else {
        None
    }
}

/// Where the access token given on the command line came from; `None` in
/// `args` stands for an argument that is not valid Unicode.
pub fn access_token_source_from_args(args: &Vec<Option<String>>, env_token_set: bool) -> (r: Option<
    &'static str,
>)
    ensures
        opt_str_text(r) == token_source_spec(
            Seq::new(args@.len(), |i: int| opt_text(args@[i])),
            env_token_set,
        ),
{
    let ghost view = Seq::new(args@.len(), |i: int| opt_text(args@[i]));
    let mut i: usize = 0;
    while i < args.len()
        invariant
            view == Seq::new(args@.len(), |i: int| opt_text(args@[i])),
            i <= args@.len(),
            forall|j: int| 0 <= j < i ==> !names_token_flag(#[trigger] view[j]),
        decreases args@.len() - i,
    {
        if let Some(a) = &args[i] {
            if str_eq(a.as_str(), "--access-token") || strip_prefix(a.as_str(), "--access-token=").is_some() {
                proof {
                    assert(view[i as int] == Some(a@));
                }
                return Some("flag");
            }
        }
        i = i + 1;
    }
    if env_token_set {
        Some("env")
    } else {
        None
    }
}

// ---------------------------------------------------------------------------
// Write requests from arguments
// ---------------------------------------------------------------------------

/// The arguments of `transactions create`.
#[derive(Debug)]
pub struct TransactionCreateArgs {
    pub plan: Option<String>,
    pub account_id: Option<String>,
    pub account_name: Option<String>,
    pub date: String,
    pub amount: String,
    pub payee_id: Option<String>,
    pub payee_name: Option<String>,
    pub category_id: Option<String>,
    pub category_name: Option<String>,
    pub memo: Option<String>,
    pub cleared: Option<String>,
    pub approved: Option<bool>,
    pub flag_color: Option<String>,
    pub import_id: Option<String>,
    pub id: Option<String>,
    pub dry_run: bool,
}

/// The arguments of `transactions update`.
#[derive(Debug)]
pub struct TransactionUpdateArgs {
    pub plan: Option<String>,
    pub transaction_id: String,
    pub account_id: Option<String>,
    pub account_name: Option<String>,
    pub date: Option<String>,
    pub amount: Option<String>,
    pub payee_id: Option<String>,
    pub payee_name: Option<String>,
    pub category_id: Option<String>,
    pub category_name: Option<String>,
    pub memo: Option<String>,
    pub cleared: Option<String>,
    pub approved: Option<bool>,
    pub flag_color: Option<String>,
    pub dry_run: bool,
}

/// The arguments of `scheduled-transactions create`.
#[derive(Debug)]
pub struct ScheduledTransactionCreateArgs {
    pub plan: Option<String>,
    pub account_id: Option<String>,
    pub account_name: Option<String>,
    pub date: String,
    pub amount: String,
    pub payee_id: Option<String>,
    pub payee_name: Option<String>,
    pub category_id: Option<String>,
    pub category_name: Option<String>,
    pub memo: Option<String>,
    pub flag_color: Option<String>,
    pub frequency: ScheduledFrequencyArg,
}

/// The arguments of `scheduled-transactions update`.
#[derive(Debug)]
pub struct ScheduledTransactionUpdateArgs {
    pub plan: Option<String>,
    pub scheduled_transaction_id: String,
    pub account_id: Option<String>,
    pub account_name: Option<String>,
    pub date: Option<String>,
    pub amount: Option<String>,
    pub payee_id: Option<String>,
    pub payee_name: Option<String>,
    pub category_id: Option<String>,
    pub category_name: Option<String>,
    pub memo: Option<String>,
    pub flag_color: Option<String>,
    pub frequency: Option<ScheduledFrequencyArg>,
}

/// The transaction `transactions create` sends once its plan, account,
/// category and payee are settled; the amount must read.
pub fn transaction_create_input(
    args: TransactionCreateArgs,
    plan_id: String,
    account_id: String,
    category_id: Option<String>,
    payee_id: Option<String>,
) -> (r: Result<TransactionCreateInput, YnabError>)
    ensures
        match amount_spec(args.amount@) {
            Err(m) => r is Err && is_issue_error(r->Err_0, InputIssue::Amount(m)),
            Ok(v) => r is Ok && r->Ok_0 == (TransactionCreateInput {
                plan_id,
                account_id,
                date: args.date,
                amount: AmountMilliunits(v as i64),
                id: args.id,
                import_id: args.import_id,
                payee_id,
                payee_name: args.payee_name,
                category_id,
                memo: args.memo,
                cleared: args.cleared,
                approved: args.approved,
                flag_color: args.flag_color,
                dry_run: args.dry_run,
            }),
        },
{
    let amount = match AmountMilliunits::parse(args.amount.as_str()) {
        Ok(a) => a,
        Err(e) => {
            return Err(e);
        },
    };
    Ok(
        TransactionCreateInput {
            plan_id,
            account_id,
            date: args.date,
            amount,
            id: args.id,
            import_id: args.import_id,
            payee_id,
            payee_name: args.payee_name,
            category_id,
            memo: args.memo,
            cleared: args.cleared,
            approved: args.approved,
            flag_color: args.flag_color,
            dry_run: args.dry_run,
        },
    )
}

/// The change `transactions update` sends once its plan, account, category
/// and payee are settled; an amount given must read.
pub fn transaction_update_input(
    args: TransactionUpdateArgs,
    plan_id: String,
    account_id: Option<String>,
    category_id: Option<String>,
    payee_id: Option<String>,
) -> (r: Result<TransactionUpdateInput, YnabError>)
    ensures
        match args.amount {
            Some(a) => match amount_spec(a@) {
                Err(m) => r is Err && is_issue_error(r->Err_0, InputIssue::Amount(m)),
                Ok(v) => r is Ok && r->Ok_0.amount == Some(AmountMilliunits(v as i64)),
            },
            None => r is Ok && r->Ok_0.amount is None,
        },
        r is Ok ==> r->Ok_0 == (TransactionUpdateInput {
            plan_id,
            transaction_id: args.transaction_id,
            account_id,
            date: args.date,
            amount: r->Ok_0.amount,
            payee_id,
            payee_name: args.payee_name,
            category_id,
            memo: args.memo,
            cleared: args.cleared,
            approved: args.approved,
            flag_color: args.flag_color,
            dry_run: args.dry_run,
        }),
{
    let amount = match &args.amount {
        Some(a) => match AmountMilliunits::parse(a.as_str()) {
            Ok(v) => Some(v),
            Err(e) => {
                return Err(e);
            },
        },
        None => None,
    };
    Ok(
        TransactionUpdateInput {
            plan_id,
            transaction_id: args.transaction_id,
            account_id,
            date: args.date,
            amount,
            payee_id,
            payee_name: args.payee_name,
            category_id,
            memo: args.memo,
            cleared: args.cleared,
            approved: args.approved,
            flag_color: args.flag_color,
            dry_run: args.dry_run,
        },
    )
}

/// The scheduled transaction `scheduled-transactions create` sends once
/// its account, category and payee are settled.
pub fn scheduled_create_body(
    args: &ScheduledTransactionCreateArgs,
    account_id: &str,
    category_id: &Option<String>,
    payee_id: &Option<String>,
) -> (r: Result<Json, YnabError>)
    ensures
        match scheduled_create_outcome(
            account_id@,
            args.date@,
            args.amount@,
            frequency_arg_value(args.frequency),
            *payee_id,
            args.payee_name,
            *category_id,
            args.memo,
            args.flag_color,
        ) {
            Ok(v) => r is Ok && r->Ok_0@ == v,
            Err(i) => r is Err && is_issue_error(r->Err_0, i),
        },
{
    match scheduled_create_payload(
        account_id,
        args.date.as_str(),
        args.amount.as_str(),
        args.frequency.as_api_value(),
        payee_id,
        &args.payee_name,
        category_id,
        &args.memo,
        &args.flag_color,
    ) {
        Ok(j) => Ok(j),
        Err(e) => Err(e.into_error()),
    }
}

/// The change `scheduled-transactions update` sends once its account,
/// category and payee are settled; refused when it changes nothing.
pub fn scheduled_update_body(
    args: &ScheduledTransactionUpdateArgs,
    account_id: &Option<String>,
    category_id: &Option<String>,
    payee_id: &Option<String>,
) -> (r: Result<Json, YnabError>)
    ensures
        match scheduled_update_outcome(
            *account_id,
            args.date,
            args.amount,
            *payee_id,
            args.payee_name,
            *category_id,
            args.memo,
            args.flag_color,
            match args.frequency {
                Some(f) => Some(frequency_arg_value(f)),
                None => None,
            },
        ) {
            Ok(Some(v)) => r is Ok && r->Ok_0@ == v,
            Ok(None) => r is Err && is_config_error(
                r->Err_0,
                "scheduled-transactions update requires at least one field to change"@,
            ),
            Err(i) => r is Err && is_issue_error(r->Err_0, i),
        },
{
    let frequency = match args.frequency {
        Some(f) => Some(f.as_api_value()),
        None => None,
    };
    match scheduled_update_payload(
        account_id,
        &args.date,
        &args.amount,
        payee_id,
        &args.payee_name,
        category_id,
        &args.memo,
        &args.flag_color,
        frequency,
    ) {
        Ok(Some(j)) => Ok(j),
        Ok(None) => Err(
            YnabError::Config(
                "scheduled-transactions update requires at least one field to change".to_owned(),
            ),
        ),
        Err(e) => Err(e.into_error()),
    }
}

} // verus!
