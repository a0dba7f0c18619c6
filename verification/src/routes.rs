//! The paths of the YNAB API, and the request a transaction listing makes.

use vstd::prelude::*;

use crate::app::{build_transaction_query, transaction_query, TransactionListOptions};
use crate::text::concat;
use crate::web::pairs_view;

verus! {

/// A path below one plan.
#[derive(Debug)]
pub enum PlanPath {
    Root,
    Settings,
    Accounts,
    Account(String),
    Categories,
    Category(String),
    /// A category's budget in a month: the month, then the category.
    MonthCategory(String, String),
    CategoryGroups,
    CategoryGroup(String),
    Payees,
    Payee(String),
    Transactions,
    Transaction(String),
    TransactionsImport,
    MonthTransactions(String),
    AccountTransactions(String),
    CategoryTransactions(String),
    PayeeTransactions(String),
    Months,
    Month(String),
    ScheduledTransactions,
    ScheduledTransaction(String),
    MoneyMovements,
    MonthMoneyMovements(String),
    MoneyMovementGroups,
    MonthMoneyMovementGroups(String),
    PayeeLocations,
    PayeeLocation(String),
    PayeeLocationsByPayee(String),
}

/// A path of the API.
#[derive(Debug)]
pub enum ApiPath {
    Plans,
    User,
    InPlan { plan_id: String, rest: PlanPath },
}

/// The text a plan path adds after `/plans/{plan_id}`.
pub open spec fn plan_path_text(p: PlanPath) -> Seq<char> {
    match p {
        PlanPath::Root => Seq::empty(),
        PlanPath::Settings => "/settings"@,
        PlanPath::Accounts => "/accounts"@,
        PlanPath::Account(a) => "/accounts/"@ + a@,
        PlanPath::Categories => "/categories"@,
        PlanPath::Category(c) => "/categories/"@ + c@,
        PlanPath::MonthCategory(m, c) => "/months/"@ + m@ + "/categories/"@ + c@,
        PlanPath::CategoryGroups => "/category_groups"@,
        PlanPath::CategoryGroup(g) => "/category_groups/"@ + g@,
        PlanPath::Payees => "/payees"@,
        PlanPath::Payee(y) => "/payees/"@ + y@,
        PlanPath::Transactions => "/transactions"@,
        PlanPath::Transaction(t) => "/transactions/"@ + t@,
        PlanPath::TransactionsImport => "/transactions/import"@,
        PlanPath::MonthTransactions(m) => "/months/"@ + m@ + "/transactions"@,
        PlanPath::AccountTransactions(a) => "/accounts/"@ + a@ + "/transactions"@,
        PlanPath::CategoryTransactions(c) => "/categories/"@ + c@ + "/transactions"@,
        PlanPath::PayeeTransactions(y) => "/payees/"@ + y@ + "/transactions"@,
        PlanPath::Months => "/months"@,
        PlanPath::Month(m) => "/months/"@ + m@,
        PlanPath::ScheduledTransactions => "/scheduled_transactions"@,
        PlanPath::ScheduledTransaction(s) => "/scheduled_transactions/"@ + s@,
        PlanPath::MoneyMovements => "/money_movements"@,
        PlanPath::MonthMoneyMovements(m) => "/months/"@ + m@ + "/money_movements"@,
        PlanPath::MoneyMovementGroups => "/money_movement_groups"@,
        PlanPath::MonthMoneyMovementGroups(m) => "/months/"@ + m@ + "/money_movement_groups"@,
        PlanPath::PayeeLocations => "/payee_locations"@,
        PlanPath::PayeeLocation(l) => "/payee_locations/"@ + l@,
        PlanPath::PayeeLocationsByPayee(y) => "/payees/"@ + y@ + "/payee_locations"@,
    }
}

/// The text of an API path.
pub open spec fn api_path_text(p: ApiPath) -> Seq<char> {
    match p {
        ApiPath::Plans => "/plans"@,
        ApiPath::User => "/user"@,
        ApiPath::InPlan { plan_id, rest } => "/plans/"@ + plan_id@ + plan_path_text(rest),
    }
}

/// `head`, then `id`, then `tail`.
fn around(head: &str, id: &str, tail: &str) -> (r: String)
    ensures
        r@ == head@ + id@ + tail@,
{
    let mut s = concat(head, id);
    s.append(tail);
    s
}

/// The text a plan path adds after `/plans/{plan_id}`.
pub fn plan_path(p: &PlanPath) -> (r: String)
    ensures
        r@ == plan_path_text(*p),
{
    match p {
        PlanPath::Root => String::new(),
        PlanPath::Settings => "/settings".to_owned(),
        PlanPath::Accounts => "/accounts".to_owned(),
        PlanPath::Account(a) => concat("/accounts/", a.as_str()),
        PlanPath::Categories => "/categories".to_owned(),
        PlanPath::Category(c) => concat("/categories/", c.as_str()),
        PlanPath::MonthCategory(m, c) => {
            let mut s = around("/months/", m.as_str(), "/categories/");
            s.append(c.as_str());
            s
        },
        PlanPath::CategoryGroups => "/category_groups".to_owned(),
        PlanPath::CategoryGroup(g) => concat("/category_groups/", g.as_str()),
        PlanPath::Payees => "/payees".to_owned(),
        PlanPath::Payee(y) => concat("/payees/", y.as_str()),
        PlanPath::Transactions => "/transactions".to_owned(),
        PlanPath::Transaction(t) => concat("/transactions/", t.as_str()),
        PlanPath::TransactionsImport => "/transactions/import".to_owned(),
        PlanPath::MonthTransactions(m) => around("/months/", m.as_str(), "/transactions"),
        PlanPath::AccountTransactions(a) => around("/accounts/", a.as_str(), "/transactions"),
        PlanPath::CategoryTransactions(c) => around("/categories/", c.as_str(), "/transactions"),
        PlanPath::PayeeTransactions(y) => around("/payees/", y.as_str(), "/transactions"),
        PlanPath::Months => "/months".to_owned(),
        PlanPath::Month(m) => concat("/months/", m.as_str()),
        PlanPath::ScheduledTransactions => "/scheduled_transactions".to_owned(),
        PlanPath::ScheduledTransaction(s) => concat("/scheduled_transactions/", s.as_str()),
        PlanPath::MoneyMovements => "/money_movements".to_owned(),
        PlanPath::MonthMoneyMovements(m) => around("/months/", m.as_str(), "/money_movements"),
        PlanPath::MoneyMovementGroups => "/money_movement_groups".to_owned(),
        PlanPath::MonthMoneyMovementGroups(m) => around(
            "/months/",
            m.as_str(),
            "/money_movement_groups",
        ),
        PlanPath::PayeeLocations => "/payee_locations".to_owned(),
        PlanPath::PayeeLocation(l) => concat("/payee_locations/", l.as_str()),
        PlanPath::PayeeLocationsByPayee(y) => around("/payees/", y.as_str(), "/payee_locations"),
    }
}

/// The text of an API path.
pub fn api_path(p: &ApiPath) -> (r: String)
    ensures
        r@ == api_path_text(*p),
{
    match p {
        ApiPath::Plans => "/plans".to_owned(),
        ApiPath::User => "/user".to_owned(),
        ApiPath::InPlan { plan_id, rest } => {
            let mut s = concat("/plans/", plan_id.as_str());
            let tail = plan_path(rest);
            s.append(tail.as_str());
            s
        },
    }
}

/// The transactions a listing reads: a plan's, or an account's, a
/// category's or a payee's within it.
#[derive(Debug)]
pub enum TransactionScope {
    Plan,
    Account(String),
    Category(String),
    Payee(String),
}

/// Whether a listing sends its server-side filters: every listing does but
/// the one of a plan's month.
pub open spec fn listing_sends_filters(scope: TransactionScope, month: Option<String>) -> bool {
    !(scope is Plan && month is Some)
}

/// The path a listing reads, below the plan.
pub open spec fn listing_plan_path(scope: TransactionScope, month: Option<String>) -> Seq<char> {
    match scope {
        TransactionScope::Plan => match month {
            Some(m) => "/months/"@ + m@ + "/transactions"@,
            None => "/transactions"@,
        },
        TransactionScope::Account(a) => "/accounts/"@ + a@ + "/transactions"@,
        TransactionScope::Category(c) => "/categories/"@ + c@ + "/transactions"@,
        TransactionScope::Payee(y) => "/payees/"@ + y@ + "/transactions"@,
    }
}

/// What a transaction listing requests: its path, the server knowledge it
/// sends, and its query pairs.
#[derive(Debug)]
pub struct ListingRequest {
    pub path: String,
    pub last_knowledge: Option<u64>,
    pub query: Vec<(String, String)>,
}

/// The request of a transaction listing in `plan_id`: a month of a plan is
/// read from the month's listing without server-side filters; every other
/// listing sends the options' server knowledge, `since_date` and `type`.
pub fn transaction_listing_request(
    plan_id: &str,
    scope: TransactionScope,
    options: &TransactionListOptions,
) -> (r: ListingRequest)
    ensures
        r.path@ == "/plans/"@ + plan_id@ + listing_plan_path(scope, options.month),
        listing_sends_filters(scope, options.month) ==> r.last_knowledge
            == options.last_knowledge_of_server && pairs_view(r.query@) == transaction_query(
            *options,
        ),
        !listing_sends_filters(scope, options.month) ==> r.last_knowledge is None && r.query@.len()
            == 0,
{
    let sends_filters = match (&scope, &options.month) {
        (TransactionScope::Plan, Some(_)) => false,
        _ => true,
    };
    let rest = match scope {
        TransactionScope::Plan => match &options.month {
            Some(m) => PlanPath::MonthTransactions(m.clone()),
            None => PlanPath::Transactions,
        },
        TransactionScope::Account(a) => PlanPath::AccountTransactions(a),
        TransactionScope::Category(c) => PlanPath::CategoryTransactions(c),
        TransactionScope::Payee(y) => PlanPath::PayeeTransactions(y),
    };
    let path = api_path(&ApiPath::InPlan { plan_id: plan_id.to_owned(), rest });
    if sends_filters {
        ListingRequest {
            path,
            last_knowledge: options.last_knowledge_of_server,
            query: build_transaction_query(options),
        }
    } else {
        ListingRequest { path, last_knowledge: None, query: Vec::new() }
    }
}

} // verus!
