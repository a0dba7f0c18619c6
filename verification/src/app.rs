//! The decisions of the YNAB client: which resource a name denotes, which
//! plan becomes the default, and which transactions a listing or a search
//! keeps.

use vstd::prelude::*;
use vstd::string::*;

use crate::config::{
    pending_is_recent, AppPaths, OAuthAppConfig, OutputFormat, PendingOAuth, ProfileConfig,
};
use crate::dates::{date_before, parse_ymd, parsed_date, date_lt, Date};
use crate::error::{error_message, is_config_error, is_url_error, YnabError};
use crate::dates::{rfc3339_of, rfc3339_text};
use crate::json::{
    insert_entry, int_view, object_with, items_view, json_view, lemma_items_view_index, lemma_items_view_len, lemma_items_view_push, lookup, Json, JsonMap, JsonNumber, JsonV, NumV,
};
use crate::models::{
    AmountMilliunits, CategoryGroup, CategoryGroupsData, NamedResource, OAuthScope, PlanSummary,
    PlansData, SaveCategory, SaveTransaction, SaveTransactionRequest, session_needs_refresh,
    chrono_instant,
    StoredSession, Timestamp, TransactionClearedFilter, UpdateTransaction, UpdateTransactionRequest,
};
use crate::mcp_types::{
    add_opt_amount, add_opt_bool, add_opt_str, opt_amount_member, opt_bool_member, opt_int,
    opt_str_member,
};
use crate::web::{api_request_url, joined_url_outcome, pairs_view, url_with_pairs};
use crate::text::{
    chars_lt, decimal, u64_text, lemma_chars_lt_asymmetric, lemma_chars_lt_irreflexive, lemma_chars_lt_total,
    lemma_chars_lt_transitive, contains_seq, lowercase, str_contains, str_eq, str_lt, to_lowercase, trim, trimmed,
};

verus! {

/// How the runtime is set up for one invocation.
#[derive(Debug, Clone)]
pub struct RuntimeOptions {
    pub profile: Option<String>,
    pub use_keyring: bool,
    pub base_url_override: Option<String>,
    pub output_format: OutputFormat,
    pub access_token_override: Option<String>,
    pub access_token_override_source: Option<&'static str>,
}

/// The settings of an OAuth application.
#[derive(Debug, Clone)]
pub struct OAuthAppInput {
    pub client_id: String,
    pub client_secret: String,
    pub redirect_uri: String,
    pub scope: OAuthScope,
}

/// What starting an OAuth authorization produced.
#[derive(Debug, Clone)]
pub struct OAuthStartResult {
    pub authorize_url: String,
    pub state: String,
    pub profile: String,
    pub code_challenge_method: &'static str,
    pub scope: Option<String>,
}

/// The kinds of resource that can be named instead of given by id.
#[derive(Debug, Clone, Copy, PartialEq, Eq)]
pub enum ResolveByNameKind {
    Plan,
    Account,
    Category,
    Payee,
}

/// Options of a plain resource listing.
#[derive(Debug, Clone, Default)]
pub struct ResourceListOptions {
    pub last_knowledge_of_server: Option<u64>,
}

/// Options of a transaction listing: server-side query parameters and local
/// date and cleared-state filters.
#[derive(Debug, Clone, Default)]
pub struct TransactionListOptions {
    pub last_knowledge_of_server: Option<u64>,
    pub month: Option<String>,
    pub since_date: Option<String>,
    pub transaction_type: Option<String>,
    pub start_date: Option<Date>,
    pub end_date: Option<Date>,
    pub cleared_filter: Option<TransactionClearedFilter>,
}

/// Case-insensitive substring criteria of a transaction search.
#[derive(Debug, Clone, Default)]
pub struct TransactionSearchOptions {
    pub query: Option<String>,
    pub payee: Option<String>,
    pub memo: Option<String>,
    pub account: Option<String>,
    pub category: Option<String>,
}

/// A transaction to create.
#[derive(Debug, Clone)]
pub struct TransactionCreateInput {
    pub plan_id: String,
    pub account_id: String,
    pub date: String,
    pub amount: AmountMilliunits,
    pub id: Option<String>,
    pub import_id: Option<String>,
    pub payee_id: Option<String>,
    pub payee_name: Option<String>,
    pub category_id: Option<String>,
    pub memo: Option<String>,
    pub cleared: Option<String>,
    pub approved: Option<bool>,
    pub flag_color: Option<String>,
    pub dry_run: bool,
}

/// Changes to a transaction.
#[derive(Debug, Clone, Default)]
pub struct TransactionUpdateInput {
    pub plan_id: String,
    pub transaction_id: String,
    pub account_id: Option<String>,
    pub date: Option<String>,
    pub amount: Option<AmountMilliunits>,
    pub payee_id: Option<String>,
    pub payee_name: Option<String>,
    pub category_id: Option<String>,
    pub memo: Option<String>,
    pub cleared: Option<String>,
    pub approved: Option<bool>,
    pub flag_color: Option<String>,
    pub dry_run: bool,
}

// ---------------------------------------------------------------------------
// Names
// ---------------------------------------------------------------------------

/// The word for a kind of resource.
pub open spec fn kind_word(kind: ResolveByNameKind) -> Seq<char> {
    match kind {
        ResolveByNameKind::Plan => "plan"@,
        ResolveByNameKind::Account => "account"@,
        ResolveByNameKind::Category => "category"@,
        ResolveByNameKind::Payee => "payee"@,
    }
}

impl ResolveByNameKind {
    /// `plan`, `account`, `category` or `payee`.
    pub fn as_str(self) -> (r: &'static str)
        ensures
            r@ == kind_word(self),
    {
        match self {
            ResolveByNameKind::Plan => "plan",
            ResolveByNameKind::Account => "account",
            ResolveByNameKind::Category => "category",
            ResolveByNameKind::Payee => "payee",
        }
    }
}

/// Names are compared trimmed and lowercased.
pub open spec fn name_key(s: Seq<char>) -> Seq<char> {
    lowercase(trimmed(s))
}

/// The resources whose name matches `key`, in order.
pub open spec fn name_matches(resources: Seq<NamedResource>, key: Seq<char>) -> Seq<NamedResource>
    decreases resources.len(),
{
    if resources.len() == 0 {
        Seq::empty()
    } else {
        let rest = name_matches(resources.drop_last(), key);
        if name_key(resources.last().name@) == key {
            rest.push(resources.last())
        } else {
            rest
        }
    }
}

/// The ids of some resources.
pub open spec fn ids_of(resources: Seq<NamedResource>) -> Seq<Seq<char>> {
    Seq::new(resources.len(), |i: int| resources[i].id@)
}

/// What resolving `name` among `resources` gives: the id of the one match,
/// or a resolution error listing every matching id (none or several).
pub open spec fn resolution_matches(
    r: Result<String, YnabError>,
    kind: ResolveByNameKind,
    name: Seq<char>,
    resources: Seq<NamedResource>,
) -> bool {
    let found = name_matches(resources, name_key(name));
    if found.len() == 1 {
        r is Ok && r->Ok_0@ == found[0].id@
    } else {
        match r {
            Err(YnabError::ResourceResolution { resource, name: n, matches }) => resource@
                == kind_word(kind) && n@ == name && string_views(matches@) == ids_of(found),
            _ => false,
        }
    }
}

proof fn lemma_name_matches_step(resources: Seq<NamedResource>, key: Seq<char>, i: int)
    requires
        0 <= i < resources.len(),
    ensures
        name_matches(resources.take(i + 1), key) == if name_key(resources[i].name@) == key {
            name_matches(resources.take(i), key).push(resources[i])
        } else {
            name_matches(resources.take(i), key)
        },
{
    let t = resources.take(i + 1);
    assert(t.drop_last() =~= resources.take(i));
    assert(t.last() == resources[i]);
}

proof fn lemma_ids_of_push(f: Seq<NamedResource>, r: NamedResource)
    ensures
        ids_of(f.push(r)) == ids_of(f).push(r.id@),
{
    assert(ids_of(f.push(r)) =~= ids_of(f).push(r.id@));
}

/// The views of a list of strings.
pub open spec fn string_views(v: Seq<String>) -> Seq<Seq<char>> {
    Seq::new(v.len(), |j: int| v[j]@)
}

/// Finds the one resource whose trimmed, lowercased name equals the trimmed,
/// lowercased `name`.
pub fn resolve_named_resource(
    kind: ResolveByNameKind,
    name: &str,
    resources: Vec<NamedResource>,
) -> (r: Result<String, YnabError>)
    ensures
        resolution_matches(r, kind, name@, resources@),
{
    let trimmed_name = trim(name);
    let target = to_lowercase(trimmed_name.as_str());
    let ghost key = name_key(name@);
    let mut ids: Vec<String> = Vec::new();
    let mut i: usize = 0;
    while i < resources.len()
        invariant
            target@ == key,
            key == name_key(name@),
            i <= resources@.len(),
            ids_of(name_matches(resources@.take(i as int), key)) == string_views(ids@),
        decreases resources@.len() - i,
    {
        let t = trim(resources[i].name.as_str());
        let l = to_lowercase(t.as_str());
        proof {
            lemma_name_matches_step(resources@, key, i as int);
        }
        if str_eq(l.as_str(), target.as_str()) {
            let id = resources[i].id.clone();
            proof {
                let f = name_matches(resources@.take(i as int), key);
                lemma_ids_of_push(f, resources@[i as int]);
                assert(string_views(ids@.push(id)) =~= string_views(ids@).push(id@));
            }
            ids.push(id);
        }
        i = i + 1;
    }
    proof {
        assert(resources@.take(resources@.len() as int) =~= resources@);
    }
    let ghost found = name_matches(resources@, key);
    if ids.len() == 1 {
        proof {
            assert(ids_of(found)[0] == string_views(ids@)[0]);
        }
        let id = ids[0].clone();
        Ok(id)
    } else {
        proof {
            assert(ids_of(found).len() == found.len());
        }
        Err(YnabError::ResourceResolution { resource: kind.as_str(), name: name.to_owned(), matches: ids })
    }
}

// ---------------------------------------------------------------------------
// Default plan
// ---------------------------------------------------------------------------

/// Plans ranked by last modification (unknown first), then by id.
pub open spec fn plan_ranks_below(a: PlanSummary, b: PlanSummary) -> bool {
    match (a.last_modified_on, b.last_modified_on) {
        (None, Some(_)) => true,
        (Some(_), None) => false,
        (Some(x), Some(y)) => if x == y {
            chars_lt(a.id@, b.id@)
        } else {
            x.secs < y.secs || (x.secs == y.secs && x.nanos < y.nanos)
        },
        (None, None) => chars_lt(a.id@, b.id@),
    }
}

/// The plans a default is chosen among: the listed plans, and the API's own
/// default plan when it is not listed.
pub open spec fn plan_candidates(d: PlansData) -> Seq<PlanSummary> {
    match d.default_plan {
        Some(p) => if exists|i: int| 0 <= i < d.plans@.len() && #[trigger] d.plans@[i].id@ == p.id@ {
            d.plans@
        } else {
            d.plans@.push(p)
        },
        None => d.plans@,
    }
}

/// `p` is a most recently modified candidate, the last of them when several tie.
pub open spec fn is_most_recent_at(c: Seq<PlanSummary>, k: int) -> bool {
    &&& 0 <= k < c.len()
    &&& forall|j: int| 0 <= j < c.len() ==> !plan_ranks_below(#[trigger] c[k], c[j]) || j == k
    &&& forall|j: int| k < j < c.len() ==> plan_ranks_below(#[trigger] c[j], c[k])
}

fn plan_below(a: &PlanSummary, b: &PlanSummary) -> (r: bool)
    ensures
        r == plan_ranks_below(*a, *b),
{
    match (a.last_modified_on, b.last_modified_on) {
        (None, Some(_)) => true,
        (Some(_), None) => false,
        (Some(x), Some(y)) => {
            if x.secs == y.secs && x.nanos == y.nanos {
                str_lt(a.id.as_str(), b.id.as_str())
            } else {
                x.secs < y.secs || (x.secs == y.secs && x.nanos < y.nanos)
            }
        },
        (None, None) => str_lt(a.id.as_str(), b.id.as_str()),
    }
}

proof fn lemma_chars_lt_negative_transitive(a: Seq<char>, b: Seq<char>, c: Seq<char>)
    requires
        chars_lt(a, c),
    ensures
        chars_lt(a, b) || chars_lt(b, c),
{
    if !chars_lt(a, b) && !chars_lt(b, c) {
        if a == b {
        } else if b == c {
        } else {
            lemma_chars_lt_total(a, b);
            lemma_chars_lt_total(b, c);
            lemma_chars_lt_transitive(c, b, a);
            lemma_chars_lt_asymmetric(a, c);
        }
    }
}

/// The plan order is a strict weak order: irreflexive, asymmetric, and
/// whatever lies between two plans in it is below the upper or above the lower.
pub proof fn lemma_plan_order(a: PlanSummary, b: PlanSummary, c: PlanSummary)
    ensures
        !plan_ranks_below(a, a),
        plan_ranks_below(a, b) ==> !plan_ranks_below(b, a),
        plan_ranks_below(a, c) ==> plan_ranks_below(a, b) || plan_ranks_below(b, c),
{
    lemma_chars_lt_irreflexive(a.id@);
    if chars_lt(a.id@, b.id@) {
        lemma_chars_lt_asymmetric(a.id@, b.id@);
    }
    if chars_lt(a.id@, c.id@) {
        lemma_chars_lt_negative_transitive(a.id@, b.id@, c.id@);
    }
}

proof fn lemma_most_recent_single(x: PlanSummary)
    ensures
        is_most_recent_at(seq![x], 0),
{
    lemma_plan_order(x, x, x);
}

proof fn lemma_most_recent_step(c: Seq<PlanSummary>, b: int, x: PlanSummary)
    requires
        is_most_recent_at(c, b),
    ensures
        !plan_ranks_below(x, c[b]) ==> is_most_recent_at(c.push(x), c.len() as int),
        plan_ranks_below(x, c[b]) ==> is_most_recent_at(c.push(x), b),
{
    let d = c.push(x);
    if !plan_ranks_below(x, c[b]) {
        assert forall|j: int| 0 <= j < d.len() implies !plan_ranks_below(
            #[trigger] d[c.len() as int],
            d[j],
        ) || j == c.len() by {
            lemma_plan_order(x, x, x);
            if j < c.len() && j != b {
                lemma_plan_order(x, c[b], c[j]);
            }
        }
    } else {
        assert forall|j: int| 0 <= j < d.len() implies !plan_ranks_below(#[trigger] d[b], d[j])
            || j == b by {
            if j == c.len() {
                lemma_plan_order(x, c[b], x);
            }
        }
        assert forall|j: int| b < j < d.len() implies plan_ranks_below(#[trigger] d[j], d[b]) by {
            if j < c.len() {
                assert(plan_ranks_below(c[j], c[b]));
            }
        }
    }
}

/// Whether some listed plan has the id `id`.
fn plan_listed(plans: &Vec<PlanSummary>, id: &String) -> (r: bool)
    ensures
        r == exists|i: int| 0 <= i < plans@.len() && #[trigger] plans@[i].id@ == id@,
{
    let mut i: usize = 0;
    while i < plans.len()
        invariant
            i <= plans@.len(),
            forall|j: int| 0 <= j < i ==> #[trigger] plans@[j].id@ != id@,
        decreases plans@.len() - i,
    {
        if str_eq(plans[i].id.as_str(), id.as_str()) {
            return true;
        }
        i = i + 1;
    }
    false
}

/// The plan to adopt as the default: among the listed plans and the API's
/// default plan, the most recently modified one (plans never modified rank
/// lowest), ties going to the greater id, and among equal plans the last.
pub fn select_most_recent_plan(plans_data: &PlansData) -> (r: Option<&PlanSummary>)
    ensures
        match r {
            Some(p) => exists|k: int|
                is_most_recent_at(plan_candidates(*plans_data), k) && #[trigger] plan_candidates(
                    *plans_data,
                )[k] == *p,
            None => plan_candidates(*plans_data).len() == 0,
        },
{
    let plans = &plans_data.plans;
    let mut best: Option<usize> = None;
    let mut i: usize = 0;
    while i < plans.len()
        invariant
            i <= plans@.len(),
            best is None <==> i == 0,
            match best {
                Some(b) => is_most_recent_at(plans@.take(i as int), b as int),
                None => true,
            },
        decreases plans@.len() - i,
    {
        proof {
            assert(plans@.take(i + 1) =~= plans@.take(i as int).push(plans@[i as int]));
        }
        match best {
            None => {
                proof {
                    lemma_most_recent_single(plans@[0]);
                    assert(plans@.take(1) =~= seq![plans@[0]]);
                }
                best = Some(0);
            },
            Some(b) => {
                proof {
                    lemma_most_recent_step(plans@.take(i as int), b as int, plans@[i as int]);
                }
                if !plan_below(&plans[i], &plans[b]) {
                    best = Some(i);
                }
            },
        }
        i = i + 1;
    }
    proof {
        assert(plans@.take(plans@.len() as int) =~= plans@);
    }
    match &plans_data.default_plan {
        None => match best {
            None => None,
            Some(b) => {
                proof {
                    assert(plan_candidates(*plans_data)[b as int] == plans@[b as int]);
                }
                Some(&plans[b])
            },
        },
        Some(d) => {
            if plan_listed(plans, &d.id) {
                match best {
                    None => None,
                    Some(b) => {
                        proof {
                            assert(plan_candidates(*plans_data)[b as int] == plans@[b as int]);
                        }
                        Some(&plans[b])
                    },
                }
            } else {
                match best {
                    None => {
                        proof {
                            lemma_most_recent_single(*d);
                            assert(plans@.push(*d) =~= seq![*d]);
                            assert(plan_candidates(*plans_data)[0] == *d);
                        }
                        Some(d)
                    },
                    Some(b) => {
                        proof {
                            lemma_most_recent_step(plans@, b as int, *d);
                        }
                        if !plan_below(d, &plans[b]) {
                            proof {
                                assert(plans@.push(*d)[plans@.len() as int] == *d);
                                assert(plan_candidates(*plans_data)[plans@.len() as int] == *d);
                            }
                            Some(d)
                        } else {
                            proof {
                                assert(plans@.push(*d)[b as int] == plans@[b as int]);
                                assert(plan_candidates(*plans_data)[b as int] == plans@[b as int]);
                            }
                            Some(&plans[b])
                        }
                    },
                }
            }
        },
    }
}

// ---------------------------------------------------------------------------
// Transaction filters
// ---------------------------------------------------------------------------

/// The member `field` of a JSON value, when it is a string.
pub open spec fn str_member(t: JsonV, field: Seq<char>) -> Option<Seq<char>> {
    match t.member(field) {
        Some(v) => v.str_of(),
        None => None,
    }
}

/// The date of a transaction: its `date` member read as `YYYY-MM-DD`.
pub open spec fn transaction_date(t: JsonV) -> Option<Date> {
    match str_member(t, "date"@) {
        Some(s) => parsed_date(s),
        None => None,
    }
}

/// The cleared state of a transaction; empty when it has none.
pub open spec fn cleared_status(t: JsonV) -> Seq<char> {
    match str_member(t, "cleared"@) {
        Some(s) => s,
        None => Seq::empty(),
    }
}

/// `cleared` keeps cleared and reconciled transactions, `uncleared` the
/// uncleared ones.
pub open spec fn cleared_matches(status: Seq<char>, filter: TransactionClearedFilter) -> bool {
    match filter {
        TransactionClearedFilter::Cleared => status == "cleared"@ || status == "reconciled"@,
        TransactionClearedFilter::Uncleared => status == "uncleared"@,
    }
}

/// Whether a listing with `o` keeps transaction `t`: it has a readable date
/// within the inclusive date range, and a cleared state the filter accepts.
pub open spec fn filters_keep(t: JsonV, o: TransactionListOptions) -> bool {
    match transaction_date(t) {
        None => false,
        Some(d) => {
            &&& match o.start_date {
                Some(s) => !date_lt(d, s),
                None => true,
            }
            &&& match o.end_date {
                Some(e) => !date_lt(e, d),
                None => true,
            }
            &&& match o.cleared_filter {
                Some(f) => cleared_matches(cleared_status(t), f),
                None => true,
            }
        },
    }
}

fn str_member_of<'a>(t: &'a Json, field: &str) -> (r: Option<&'a String>)
    ensures
        match r {
            Some(s) => str_member(t@, field@) == Some(s@),
            None => str_member(t@, field@) is None,
        },
{
    match t.get(field) {
        Some(v) => v.as_str(),
        None => None,
    }
}

/// Reads the `date` of a transaction.
fn parse_transaction_date(input: &str) -> (r: Option<Date>)
    ensures
        r == parsed_date(input@),
{
    match parse_ymd(input) {
        Ok(d) => Some(d),
        Err(_) => None,
    }
}

/// Whether a cleared state passes a cleared-state filter.
pub fn matches_cleared_filter(status: &str, filter: TransactionClearedFilter) -> (r: bool)
    ensures
        r == cleared_matches(status@, filter),
{
    match filter {
        TransactionClearedFilter::Cleared => str_eq(status, "cleared") || str_eq(
            status,
            "reconciled",
        ),
        TransactionClearedFilter::Uncleared => str_eq(status, "uncleared"),
    }
}

/// Whether a transaction passes the local date and cleared-state filters.
pub fn transaction_matches_filters(transaction: &Json, options: &TransactionListOptions) -> (r:
    bool)
    ensures
        r == filters_keep(transaction@, *options),
{
    let date = match str_member_of(transaction, "date") {
        Some(s) => match parse_transaction_date(s.as_str()) {
            Some(d) => d,
            None => {
                return false;
            },
        },
        None => {
            return false;
        },
    };
    if let Some(start_date) = options.start_date {
        if date_before(date, start_date) {
            return false;
        }
    }
    if let Some(end_date) = options.end_date {
        if date_before(end_date, date) {
            return false;
        }
    }
    if let Some(cleared_filter) = options.cleared_filter {
        let keep = match str_member_of(transaction, "cleared") {
            Some(s) => matches_cleared_filter(s.as_str(), cleared_filter),
            None => {
                proof {
                    reveal_strlit("");
                    assert(""@ =~= Seq::<char>::empty());
                }
                matches_cleared_filter("", cleared_filter)
            },
        };
        if !keep {
            return false;
        }
    }
    true
}

/// The elements of `s` that satisfy `p`, in order.
pub open spec fn keep_where(s: Seq<JsonV>, p: spec_fn(JsonV) -> bool) -> Seq<JsonV>
    decreases s.len(),
{
    if s.len() == 0 {
        Seq::empty()
    } else {
        let rest = keep_where(s.drop_last(), p);
        if p(s.last()) {
            rest.push(s.last())
        } else {
            rest
        }
    }
}

proof fn lemma_keep_where_step(v: Seq<Json>, i: int, p: spec_fn(JsonV) -> bool)
    requires
        0 <= i < v.len(),
    ensures
        keep_where(items_view(v.take(i + 1)), p) == if p(json_view(v[i])) {
            keep_where(items_view(v.take(i)), p).push(json_view(v[i]))
        } else {
            keep_where(items_view(v.take(i)), p)
        },
{
    assert(v.take(i + 1) =~= v.take(i).push(v[i]));
    lemma_items_view_push(v.take(i), v[i]);
    let s = items_view(v.take(i + 1));
    assert(s.drop_last() =~= items_view(v.take(i)));
}

/// The transactions of a listing that pass the local filters, in order.
pub fn filter_transactions(transactions: &Vec<Json>, options: &TransactionListOptions) -> (r: Vec<
    Json,
>)
    ensures
        items_view(r@) == keep_where(items_view(transactions@), |t: JsonV| filters_keep(t, *options)),
{
    let ghost p = |t: JsonV| filters_keep(t, *options);
    let mut out: Vec<Json> = Vec::new();
    let mut i: usize = 0;
    while i < transactions.len()
        invariant
            i <= transactions@.len(),
            p == (|t: JsonV| filters_keep(t, *options)),
            items_view(out@) == keep_where(items_view(transactions@.take(i as int)), p),
        decreases transactions@.len() - i,
    {
        proof {
            lemma_keep_where_step(transactions@, i as int, p);
        }
        if transaction_matches_filters(&transactions[i], options) {
            let c = transactions[i].deep_copy();
            proof {
                lemma_items_view_push(out@, c);
            }
            out.push(c);
        }
        i = i + 1;
    }
    proof {
        assert(transactions@.take(transactions@.len() as int) =~= transactions@);
    }
    out
}

// ---------------------------------------------------------------------------
// Transaction search
// ---------------------------------------------------------------------------

/// Whether the string member `field` of `t` contains the trimmed `needle`,
/// both lowercased. An all-blank needle matches nothing.
pub open spec fn field_contains(t: JsonV, field: Seq<char>, needle: Seq<char>) -> bool {
    &&& trimmed(needle).len() > 0
    &&& match str_member(t, field) {
        Some(v) => contains_seq(lowercase(v), lowercase(trimmed(needle))),
        None => false,
    }
}

/// Whether `needle` occurs in the payee, memo, account or category name.
pub open spec fn any_field_contains(t: JsonV, needle: Seq<char>) -> bool {
    ||| field_contains(t, "payee_name"@, needle)
    ||| field_contains(t, "memo"@, needle)
    ||| field_contains(t, "account_name"@, needle)
    ||| field_contains(t, "category_name"@, needle)
}

/// Whether a search with `o` keeps `t`: every criterion given is met.
pub open spec fn search_keeps(t: JsonV, o: TransactionSearchOptions) -> bool {
    &&& match o.query {
        Some(q) => any_field_contains(t, q@),
        None => true,
    }
    &&& match o.payee {
        Some(n) => field_contains(t, "payee_name"@, n@),
        None => true,
    }
    &&& match o.memo {
        Some(n) => field_contains(t, "memo"@, n@),
        None => true,
    }
    &&& match o.account {
        Some(n) => field_contains(t, "account_name"@, n@),
        None => true,
    }
    &&& match o.category {
        Some(n) => field_contains(t, "category_name"@, n@),
        None => true,
    }
}

/// Whether the string member `field` of a transaction contains `needle`,
/// ignoring case and the needle's surrounding white space.
pub fn transaction_field_contains(transaction: &Json, field: &str, needle: &str) -> (r: bool)
    ensures
        r == field_contains(transaction@, field@, needle@),
{
    let needle = trim(needle);
    if needle.as_str().unicode_len() == 0 {
        return false;
    }
    match str_member_of(transaction, field) {
        Some(value) => {
            let hay = to_lowercase(value.as_str());
            let pat = to_lowercase(needle.as_str());
            str_contains(hay.as_str(), pat.as_str())
        },
        None => false,
    }
}

/// Whether `needle` occurs in any of the string members `fields`.
pub fn matches_any_transaction_field(transaction: &Json, needle: &str, fields: &[&str]) -> (r:
    bool)
    ensures
        r == exists|i: int|
            0 <= i < fields@.len() && field_contains(transaction@, #[trigger] fields@[i]@, needle@),
{
    let mut i: usize = 0;
    while i < fields.len()
        invariant
            i <= fields@.len(),
            forall|j: int| 0 <= j < i ==> !field_contains(transaction@, #[trigger] fields@[j]@, needle@),
        decreases fields@.len() - i,
    {
        if transaction_field_contains(transaction, fields[i], needle) {
            return true;
        }
        i = i + 1;
    }
    false
}

/// Whether a transaction meets every criterion of a search.
pub fn transaction_matches_search(transaction: &Json, options: &TransactionSearchOptions) -> (r:
    bool)
    ensures
        r == search_keeps(transaction@, *options),
{
    if let Some(query) = &options.query {
        let fields: Vec<&str> = vec!["payee_name", "memo", "account_name", "category_name"];
        let found = matches_any_transaction_field(transaction, query.as_str(), fields.as_slice());
        proof {
            let q = query@;
            let t = transaction@;
            if any_field_contains(t, q) {
                if field_contains(t, "payee_name"@, q) {
                    assert(field_contains(t, fields@[0]@, q));
                } else if field_contains(t, "memo"@, q) {
                    assert(field_contains(t, fields@[1]@, q));
                } else if field_contains(t, "account_name"@, q) {
                    assert(field_contains(t, fields@[2]@, q));
                } else {
                    assert(field_contains(t, fields@[3]@, q));
                }
            }
            if found {
                let i = choose|i: int|
                    0 <= i < fields@.len() && field_contains(t, #[trigger] fields@[i]@, q);
                assert(i == 0 || i == 1 || i == 2 || i == 3);
            }
        }
        if !found {
            return false;
        }
    }
    if let Some(payee) = &options.payee {
        if !transaction_field_contains(transaction, "payee_name", payee.as_str()) {
            return false;
        }
    }
    if let Some(memo) = &options.memo {
        if !transaction_field_contains(transaction, "memo", memo.as_str()) {
            return false;
        }
    }
    if let Some(account) = &options.account {
        if !transaction_field_contains(transaction, "account_name", account.as_str()) {
            return false;
        }
    }
    if let Some(category) = &options.category {
        if !transaction_field_contains(transaction, "category_name", category.as_str()) {
            return false;
        }
    }
    true
}

/// Whether a search has at least one criterion.
pub open spec fn search_has_criterion(o: TransactionSearchOptions) -> bool {
    o.query is Some || o.payee is Some || o.memo is Some || o.account is Some || o.category is Some
}

/// Refuses a search without any criterion.
pub fn validate_transaction_search_options(options: &TransactionSearchOptions) -> (r: Result<
    (),
    YnabError,
>)
    ensures
        search_has_criterion(*options) <==> r is Ok,
        r is Err ==> is_config_error(
            r->Err_0,
            "transactions search requires at least one of query, payee, memo, account, or category"@,
        ),
{
    if options.query.is_none() && options.payee.is_none() && options.memo.is_none()
        && options.account.is_none() && options.category.is_none() {
        return Err(
            YnabError::Config(
                "transactions search requires at least one of query, payee, memo, account, or category".to_owned(),
            ),
        );
    }
    Ok(())
}

/// The transactions of a listing that meet a search, in order.
pub fn search_filter(transactions: &Vec<Json>, options: &TransactionSearchOptions) -> (r: Vec<Json>)
    ensures
        items_view(r@) == keep_where(items_view(transactions@), |t: JsonV| search_keeps(t, *options)),
{
    let ghost p = |t: JsonV| search_keeps(t, *options);
    let mut out: Vec<Json> = Vec::new();
    let mut i: usize = 0;
    while i < transactions.len()
        invariant
            i <= transactions@.len(),
            p == (|t: JsonV| search_keeps(t, *options)),
            items_view(out@) == keep_where(items_view(transactions@.take(i as int)), p),
        decreases transactions@.len() - i,
    {
        proof {
            lemma_keep_where_step(transactions@, i as int, p);
        }
        if transaction_matches_search(&transactions[i], options) {
            let c = transactions[i].deep_copy();
            proof {
                lemma_items_view_push(out@, c);
            }
            out.push(c);
        }
        i = i + 1;
    }
    proof {
        assert(transactions@.take(transactions@.len() as int) =~= transactions@);
    }
    out
}

/// `{ "server_knowledge": ..., "transactions": [...] }`
pub open spec fn listing_view(transactions: Seq<JsonV>, server_knowledge: JsonV) -> JsonV {
    JsonV::Object(
        insert_entry(
            insert_entry(Seq::empty(), "transactions"@, JsonV::Array(transactions)),
            "server_knowledge"@,
            server_knowledge,
        ),
    )
}

/// The data of a transaction listing.
pub fn transactions_listing(transactions: Vec<Json>, server_knowledge: Json) -> (r: Json)
    ensures
        r@ == listing_view(items_view(transactions@), server_knowledge@),
{
    let mut m = JsonMap::new();
    m.insert("transactions".to_owned(), Json::Array(transactions));
    m.insert("server_knowledge".to_owned(), server_knowledge);
    Json::Object(m)
}

/// A server knowledge value as JSON: the number, or `null`.
pub fn knowledge_json(server_knowledge: Option<u64>) -> (r: Json)
    ensures
        r@ == match server_knowledge {
            Some(k) => JsonV::Number(NumV::PosInt(k)),
            None => JsonV::Null,
        },
{
    match server_knowledge {
        Some(k) => Json::Number(JsonNumber::PosInt(k)),
        None => Json::Null,
    }
}

/// The data of a search result: the listing's transactions that meet the
/// search, and the listing's server knowledge (`null` when it has none).
pub fn search_result(listing: &Json, options: &TransactionSearchOptions) -> (r: Json)
    ensures
        r@ == listing_view(
            match listing@.member("transactions"@) {
                Some(JsonV::Array(items)) => keep_where(items, |t: JsonV| search_keeps(t, *options)),
                _ => Seq::empty(),
            },
            match listing@.member("server_knowledge"@) {
                Some(k) => k,
                None => JsonV::Null,
            },
        ),
{
    let kept = match listing.get("transactions") {
        Some(v) => match v.as_array() {
            Some(items) => search_filter(items, options),
            None => Vec::new(),
        },
        None => Vec::new(),
    };
    proof {
        assert(items_view(Seq::<Json>::empty()) =~= Seq::<JsonV>::empty());
    }
    let knowledge = match listing.get("server_knowledge") {
        Some(k) => k.deep_copy(),
        None => Json::Null,
    };
    transactions_listing(kept, knowledge)
}

// ---------------------------------------------------------------------------
// Request parts
// ---------------------------------------------------------------------------

/// The server-side query of a transaction listing: `since_date`, then
/// `type`, each when given.
pub open spec fn transaction_query(o: TransactionListOptions) -> Seq<(Seq<char>, Seq<char>)> {
    let a = match o.since_date {
        Some(d) => seq![("since_date"@, d@)],
        None => Seq::empty(),
    };
    let b = match o.transaction_type {
        Some(t) => seq![("type"@, t@)],
        None => Seq::empty(),
    };
    a + b
}

/// The server-side query of a transaction listing.
pub fn build_transaction_query(options: &TransactionListOptions) -> (r: Vec<(String, String)>)
    ensures
        pairs_view(r@) == transaction_query(*options),
{
    let mut query: Vec<(String, String)> = Vec::new();
    if let Some(since_date) = &options.since_date {
        query.push(("since_date".to_owned(), since_date.clone()));
    }
    if let Some(transaction_type) = &options.transaction_type {
        query.push(("type".to_owned(), transaction_type.clone()));
    }
    proof {
        assert(pairs_view(query@) =~= transaction_query(*options));
    }
    query
}

/// The path of the listing that holds the resources named by `kind`.
pub open spec fn resolve_name_path(kind: ResolveByNameKind, plan_id: Seq<char>) -> Seq<char> {
    match kind {
        ResolveByNameKind::Plan => "/plans"@,
        ResolveByNameKind::Account => "/plans/"@ + plan_id + "/accounts"@,
        ResolveByNameKind::Category => "/plans/"@ + plan_id + "/categories"@,
        ResolveByNameKind::Payee => "/plans/"@ + plan_id + "/payees"@,
    }
}

/// The path of the listing that holds the resources named by `kind`; every
/// kind but plans lives in a plan.
pub fn resource_listing_path(kind: ResolveByNameKind, plan_id: Option<&str>) -> (r: String)
    requires
        kind != ResolveByNameKind::Plan ==> plan_id is Some,
    ensures
        r@ == resolve_name_path(
            kind,
            match plan_id {
                Some(p) => p@,
                None => Seq::empty(),
            },
        ),
{
    match kind {
        ResolveByNameKind::Plan => "/plans".to_owned(),
        _ => {
            let p = plan_id.unwrap();
            let mut out = "/plans/".to_owned();
            out.append(p);
            match kind {
                ResolveByNameKind::Account => out.append("/accounts"),
                ResolveByNameKind::Category => out.append("/categories"),
                _ => out.append("/payees"),
            }
            out
        },
    }
}

/// The plans as named resources, followed by the API's default plan when
/// the listing has one.
pub open spec fn plan_resources_view(d: PlansData) -> Seq<(Seq<char>, Seq<char>)> {
    let listed = Seq::new(d.plans@.len(), |i: int| (d.plans@[i].id@, d.plans@[i].name@));
    match d.default_plan {
        Some(p) => listed.push((p.id@, p.name@)),
        None => listed,
    }
}

/// The id and name of each resource.
pub open spec fn resources_view(v: Seq<NamedResource>) -> Seq<(Seq<char>, Seq<char>)> {
    Seq::new(v.len(), |i: int| (v[i].id@, v[i].name@))
}

/// The resources a plan name is resolved among.
pub fn plan_resources(data: &PlansData) -> (r: Vec<NamedResource>)
    ensures
        resources_view(r@) == plan_resources_view(*data),
{
    let mut out: Vec<NamedResource> = Vec::new();
    let mut i: usize = 0;
    while i < data.plans.len()
        invariant
            i <= data.plans@.len(),
            resources_view(out@) == Seq::new(
                i as nat,
                |j: int| (data.plans@[j].id@, data.plans@[j].name@),
            ),
        decreases data.plans@.len() - i,
    {
        let item = NamedResource::from_plan(&data.plans[i]);
        let ghost prev = out@;
        out.push(item);
        proof {
            let target = Seq::new((i + 1) as nat, |j: int| (data.plans@[j].id@, data.plans@[j].name@));
            assert(out@ == prev.push(item));
            assert(resources_view(prev).len() == prev.len());
            assert forall|j: int| 0 <= j < i + 1 implies #[trigger] resources_view(out@)[j] == target[j] by {
                if j < i {
                    assert(out@[j] == prev[j]);
                    assert(resources_view(prev)[j] == (prev[j].id@, prev[j].name@));
                }
            }
            assert(resources_view(out@) =~= target);
        }
        i = i + 1;
    }
    if let Some(default_plan) = &data.default_plan {
        let item = NamedResource::from_plan(default_plan);
        out.push(item);
        proof {
            assert(resources_view(out@) =~= plan_resources_view(*data));
        }
    }
    out
}

/// The categories of all groups, group by group.
pub open spec fn categories_view(groups: Seq<CategoryGroup>) -> Seq<(Seq<char>, Seq<char>)>
    decreases groups.len(),
{
    if groups.len() == 0 {
        Seq::empty()
    } else {
        categories_view(groups.drop_last()) + resources_view(groups.last().categories@)
    }
}

/// The resources a category name is resolved among.
pub fn category_resources(data: &CategoryGroupsData) -> (r: Vec<NamedResource>)
    ensures
        resources_view(r@) == categories_view(data.category_groups@),
{
    let groups = &data.category_groups;
    let mut out: Vec<NamedResource> = Vec::new();
    let mut g: usize = 0;
    while g < groups.len()
        invariant
            g <= groups@.len(),
            resources_view(out@) == categories_view(groups@.take(g as int)),
        decreases groups@.len() - g,
    {
        let cats = &groups[g].categories;
        let ghost before = resources_view(out@);
        let mut c: usize = 0;
        while c < cats.len()
            invariant
                c <= cats@.len(),
                resources_view(out@) == before + resources_view(cats@.take(c as int)),
            decreases cats@.len() - c,
        {
            let item = NamedResource { id: cats[c].id.clone(), name: cats[c].name.clone() };
            let ghost prev = out@;
            out.push(item);
            proof {
                let target = before + resources_view(cats@.take(c + 1));
                assert(out@ == prev.push(item));
                assert(resources_view(prev).len() == prev.len());
                assert forall|j: int| 0 <= j < out@.len() implies #[trigger] resources_view(out@)[j]
                    == target[j] by {
                    if j < prev.len() {
                        assert(out@[j] == prev[j]);
                        assert(resources_view(prev)[j] == (prev[j].id@, prev[j].name@));
                    }
                }
                assert(resources_view(out@) =~= target);
            }
            c = c + 1;
        }
        proof {
            assert(cats@.take(cats@.len() as int) =~= cats@);
            assert(groups@.take(g + 1).drop_last() =~= groups@.take(g as int));
        }
        g = g + 1;
    }
    proof {
        assert(groups@.take(groups@.len() as int) =~= groups@);
    }
    out
}

// ---------------------------------------------------------------------------
// Plan argument and default plan
// ---------------------------------------------------------------------------

/// How a command's plan is settled: the plan given, else the profile's
/// default plan (`Ok(Some)`), else one to be chosen automatically
/// (`Ok(None)`); an unknown profile is refused.
pub fn plan_argument_decision(provided: Option<String>, profile: Option<&ProfileConfig>) -> (r:
    Result<Option<String>, YnabError>)
    ensures
        provided is Some ==> r == Ok::<Option<String>, YnabError>(provided),
        provided is None ==> match profile {
            None => r is Err && is_config_error(r->Err_0, "profile not found"@),
            Some(p) => r == Ok::<Option<String>, YnabError>(p.default_plan_id),
        },
{
    if let Some(plan_id) = provided {
        return Ok(Some(plan_id));
    }
    match profile {
        None => Err(YnabError::Config("profile not found".to_owned())),
        Some(p) => match &p.default_plan_id {
            Some(id) => Ok(Some(id.clone())),
            None => Ok(None),
        },
    }
}

/// The error given when no plan can be chosen as the default.
pub fn no_plan_to_select() -> (e: YnabError)
    ensures
        is_config_error(e, "missing plan id and no plans were available to auto-select a default"@),
{
    YnabError::Config(
        "missing plan id and no plans were available to auto-select a default".to_owned(),
    )
}

/// The default-plan fields reported after signing in: the plan and whether
/// it was chosen automatically, or the text of the error that prevented
/// choosing one.
pub fn default_plan_auth_fields(result: Result<(Option<String>, bool), YnabError>) -> (r: (
    Option<String>,
    bool,
    Option<String>,
))
    ensures
        match result {
            Ok((plan_id, auto_selected)) => r.0 == plan_id && r.1 == auto_selected && r.2 is None,
            Err(e) => r.0 is None && !r.1 && r.2 is Some && r.2->Some_0@ == error_message(e),
        },
{
    match result {
        Ok((plan_id, auto_selected)) => (plan_id, auto_selected, None),
        Err(error) => (None, false, Some(error.message())),
    }
}

// ---------------------------------------------------------------------------
// OAuth
// ---------------------------------------------------------------------------

/// The fields of a token response.
#[derive(Debug)]
pub struct TokenGrant {
    pub access_token: String,
    pub refresh_token: Option<String>,
    pub token_type: String,
    pub expires_in: i64,
    pub scope: Option<String>,
}

/// The text of a present string member, if any.
pub open spec fn opt_text(o: Option<String>) -> Option<Seq<char>> {
    match o {
        Some(s) => Some(s@),
        None => None,
    }
}

/// `missing `field` in token response`
pub open spec fn missing_field_message(field: Seq<char>) -> Seq<char> {
    "missing `"@ + field + "` in token response"@
}

/// The string member `field` of a token response, required.
pub fn required_string(payload: &Json, field: &str) -> (r: Result<String, YnabError>)
    ensures
        match str_member(payload@, field@) {
            Some(s) => r is Ok && r->Ok_0@ == s,
            None => r is Err && is_config_error(r->Err_0, missing_field_message(field@)),
        },
{
    match str_member_of(payload, field) {
        Some(s) => Ok(s.clone()),
        None => {
            let mut m = "missing `".to_owned();
            m.append(field);
            m.append("` in token response");
            Err(YnabError::Config(m))
        },
    }
}

/// What reading a token response gives. The access token, the refresh token
/// (when `refresh_required`), the token type and an integer `expires_in` are
/// required, checked in that order; the scope and an optional refresh token
/// are taken when they are strings.
pub open spec fn token_response_outcome(
    p: JsonV,
    refresh_required: bool,
    r: Result<TokenGrant, YnabError>,
) -> bool {
    if str_member(p, "access_token"@) is None {
        r is Err && is_config_error(r->Err_0, missing_field_message("access_token"@))
    } else if refresh_required && str_member(p, "refresh_token"@) is None {
        r is Err && is_config_error(r->Err_0, missing_field_message("refresh_token"@))
    } else if str_member(p, "token_type"@) is None {
        r is Err && is_config_error(r->Err_0, missing_field_message("token_type"@))
    } else if (match p.member("expires_in"@) {
        Some(v) => v.i64_of(),
        None => None,
    }) is None {
        r is Err && is_config_error(r->Err_0, "missing expires_in in token response"@)
    } else {
        &&& r is Ok
        &&& Some(r->Ok_0.access_token@) == str_member(p, "access_token"@)
        &&& opt_text(r->Ok_0.refresh_token) == str_member(p, "refresh_token"@)
        &&& Some(r->Ok_0.token_type@) == str_member(p, "token_type"@)
        &&& Some(r->Ok_0.expires_in) == p.member("expires_in"@)->Some_0.i64_of()
        &&& opt_text(r->Ok_0.scope) == str_member(p, "scope"@)
    }
}

fn optional_string(payload: &Json, field: &str) -> (r: Option<String>)
    ensures
        opt_text(r) == str_member(payload@, field@),
{
    match str_member_of(payload, field) {
        Some(s) => Some(s.clone()),
        None => None,
    }
}

/// Reads a token response.
pub fn parse_token_response(payload: &Json, refresh_required: bool) -> (r: Result<
    TokenGrant,
    YnabError,
>)
    ensures
        token_response_outcome(payload@, refresh_required, r),
{
    let access_token = match required_string(payload, "access_token") {
        Ok(s) => s,
        Err(e) => {
            return Err(e);
        },
    };
    if refresh_required {
        if let Err(e) = required_string(payload, "refresh_token") {
            return Err(e);
        }
    }
    let token_type = match required_string(payload, "token_type") {
        Ok(s) => s,
        Err(e) => {
            return Err(e);
        },
    };
    let expires_in = match payload.get("expires_in") {
        Some(v) => v.as_i64(),
        None => None,
    };
    let expires_in = match expires_in {
        Some(e) => e,
        None => {
            return Err(YnabError::Config("missing expires_in in token response".to_owned()));
        },
    };
    Ok(
        TokenGrant {
            access_token,
            refresh_token: optional_string(payload, "refresh_token"),
            token_type,
            expires_in,
            scope: optional_string(payload, "scope"),
        },
    )
}

/// The OAuth session made from a grant: the grant's refresh token, or
/// `fallback_refresh` when it has none.
pub fn oauth_session(
    grant: TokenGrant,
    fallback_refresh: String,
    expires_at: Timestamp,
    client_id: String,
    client_secret: String,
    redirect_uri: String,
) -> (r: StoredSession)
    ensures
        r == (StoredSession::OAuth {
            access_token: grant.access_token,
            refresh_token: match grant.refresh_token {
                Some(t) => t,
                None => fallback_refresh,
            },
            expires_at,
            token_type: grant.token_type,
            scope: grant.scope,
            client_id,
            client_secret,
            redirect_uri,
        }),
{
    StoredSession::OAuth {
        access_token: grant.access_token,
        refresh_token: match grant.refresh_token {
            Some(t) => t,
            None => fallback_refresh,
        },
        expires_at,
        token_type: grant.token_type,
        scope: grant.scope,
        client_id,
        client_secret,
        redirect_uri,
    }
}

/// The form of an authorization-code exchange.
pub open spec fn exchange_form_view(
    client_id: Seq<char>,
    client_secret: Seq<char>,
    redirect_uri: Seq<char>,
    code: Seq<char>,
    code_verifier: Seq<char>,
) -> Seq<(Seq<char>, Seq<char>)> {
    seq![
        ("client_id"@, client_id),
        ("client_secret"@, client_secret),
        ("redirect_uri"@, redirect_uri),
        ("grant_type"@, "authorization_code"@),
        ("code"@, code),
        ("code_verifier"@, code_verifier),
    ]
}

/// The form sent to exchange an authorization code for tokens.
pub fn exchange_form(
    app: &OAuthAppConfig,
    client_secret: &str,
    code: &str,
    pending: &PendingOAuth,
) -> (r: Vec<(String, String)>)
    ensures
        pairs_view(r@) == exchange_form_view(
            app.client_id@,
            client_secret@,
            app.redirect_uri@,
            code@,
            pending.code_verifier@,
        ),
{
    let mut v: Vec<(String, String)> = Vec::new();
    v.push(("client_id".to_owned(), app.client_id.clone()));
    v.push(("client_secret".to_owned(), client_secret.to_owned()));
    v.push(("redirect_uri".to_owned(), app.redirect_uri.clone()));
    v.push(("grant_type".to_owned(), "authorization_code".to_owned()));
    v.push(("code".to_owned(), code.to_owned()));
    v.push(("code_verifier".to_owned(), pending.code_verifier.clone()));
    proof {
        assert(pairs_view(v@) =~= exchange_form_view(
            app.client_id@,
            client_secret@,
            app.redirect_uri@,
            code@,
            pending.code_verifier@,
        ));
    }
    v
}

/// The form of a token refresh.
pub open spec fn refresh_form_view(
    client_id: Seq<char>,
    client_secret: Seq<char>,
    refresh_token: Seq<char>,
) -> Seq<(Seq<char>, Seq<char>)> {
    seq![
        ("client_id"@, client_id),
        ("client_secret"@, client_secret),
        ("grant_type"@, "refresh_token"@),
        ("refresh_token"@, refresh_token),
    ]
}

/// The form sent to refresh an OAuth session.
pub fn refresh_form(client_id: &str, client_secret: &str, refresh_token: &str) -> (r: Vec<
    (String, String),
>)
    ensures
        pairs_view(r@) == refresh_form_view(client_id@, client_secret@, refresh_token@),
{
    let mut v: Vec<(String, String)> = Vec::new();
    v.push(("client_id".to_owned(), client_id.to_owned()));
    v.push(("client_secret".to_owned(), client_secret.to_owned()));
    v.push(("grant_type".to_owned(), "refresh_token".to_owned()));
    v.push(("refresh_token".to_owned(), refresh_token.to_owned()));
    proof {
        assert(pairs_view(v@) =~= refresh_form_view(client_id@, client_secret@, refresh_token@));
    }
    v
}

/// The authorization request: client, redirect, `code` response, state,
/// the `S256` challenge, and the scope when the application asks for one.
pub open spec fn authorize_params_view(
    app: OAuthAppConfig,
    state: Seq<char>,
    challenge: Seq<char>,
) -> Seq<(Seq<char>, Seq<char>)> {
    let base = seq![
        ("client_id"@, app.client_id@),
        ("redirect_uri"@, app.redirect_uri@),
        ("response_type"@, "code"@),
        ("state"@, state),
        ("code_challenge"@, challenge),
        ("code_challenge_method"@, "S256"@),
    ];
    match app.scope {
        OAuthScope::ReadOnly => base.push(("scope"@, "read-only"@)),
        OAuthScope::FullAccess => base,
    }
}

/// The query of the authorization URL.
pub fn authorize_params(app: &OAuthAppConfig, state: &str, challenge: &str) -> (r: Vec<
    (String, String),
>)
    ensures
        pairs_view(r@) == authorize_params_view(*app, state@, challenge@),
{
    let mut v: Vec<(String, String)> = Vec::new();
    v.push(("client_id".to_owned(), app.client_id.clone()));
    v.push(("redirect_uri".to_owned(), app.redirect_uri.clone()));
    v.push(("response_type".to_owned(), "code".to_owned()));
    v.push(("state".to_owned(), state.to_owned()));
    v.push(("code_challenge".to_owned(), challenge.to_owned()));
    v.push(("code_challenge_method".to_owned(), "S256".to_owned()));
    if let Some(scope) = app.scope.as_api_scope() {
        v.push(("scope".to_owned(), scope.to_owned()));
    }
    proof {
        assert(pairs_view(v@) =~= authorize_params_view(*app, state@, challenge@));
    }
    v
}

/// The page that starts an authorization.
pub open spec fn authorize_endpoint() -> Seq<char> {
    "https://app.ynab.com/oauth/authorize"@
}

/// The authorization URL for the given query.
pub fn authorize_url(params: &Vec<(String, String)>) -> (r: Result<String, YnabError>)
    ensures
        match url_with_pairs(joined_url_outcome(authorize_endpoint(), Seq::empty()), pairs_view(params@)) {
            Ok(u) => r is Ok && r->Ok_0@ == u,
            Err(e) => r is Err && is_url_error(r->Err_0, e),
        },
{
    let empty: Vec<(String, String)> = Vec::new();
    proof {
        reveal_strlit("");
        assert(""@ =~= Seq::<char>::empty());
        assert(pairs_view(empty@) =~= Seq::<(Seq<char>, Seq<char>)>::empty());
    }
    api_request_url("https://app.ynab.com/oauth/authorize", "", None, params)
}

/// The application of a profile, before an authorization starts: refused
/// when the profile or its application is missing.
pub fn oauth_app_for_start(profile: Option<&ProfileConfig>) -> (r: Result<OAuthAppConfig, YnabError>)
    ensures
        match profile {
            None => r is Err && is_config_error(r->Err_0, "profile missing"@),
            Some(p) => match p.oauth_app {
                None => r is Err && is_config_error(
                    r->Err_0,
                    "OAuth app is not configured for this profile"@,
                ),
                Some(a) => r == Ok::<OAuthAppConfig, YnabError>(a),
            },
        },
{
    match profile {
        None => Err(YnabError::Config("profile missing".to_owned())),
        Some(p) => match &p.oauth_app {
            None => Err(YnabError::Config("OAuth app is not configured for this profile".to_owned())),
            Some(a) => Ok(a.copy()),
        },
    }
}

/// The stored client secret, which must exist.
pub fn require_client_secret(secret: Option<String>, message: &str) -> (r: Result<String, YnabError>)
    ensures
        match secret {
            Some(s) => r == Ok::<String, YnabError>(s),
            None => r is Err && is_config_error(r->Err_0, message@),
        },
{
    match secret {
        Some(s) => Ok(s),
        None => Err(YnabError::Config(message.to_owned())),
    }
}

/// The application and the pending authorization that an exchange needs,
/// checked in that order after the profile.
pub fn exchange_prerequisites(profile: Option<&ProfileConfig>) -> (r: Result<
    (OAuthAppConfig, PendingOAuth),
    YnabError,
>)
    ensures
        match profile {
            None => r is Err && is_config_error(r->Err_0, "profile missing"@),
            Some(p) => match (p.oauth_app, p.pending_oauth) {
                (None, _) => r is Err && is_config_error(r->Err_0, "OAuth app is not configured"@),
                (Some(_), None) => r is Err && is_config_error(
                    r->Err_0,
                    "no pending OAuth flow. run `auth oauth start` first"@,
                ),
                (Some(a), Some(q)) => r == Ok::<(OAuthAppConfig, PendingOAuth), YnabError>((a, q)),
            },
        },
{
    match profile {
        None => Err(YnabError::Config("profile missing".to_owned())),
        Some(p) => match &p.oauth_app {
            None => Err(YnabError::Config("OAuth app is not configured".to_owned())),
            Some(a) => match &p.pending_oauth {
                None => Err(
                    YnabError::Config("no pending OAuth flow. run `auth oauth start` first".to_owned()),
                ),
                Some(q) => Ok((a.copy(), q.copy())),
            },
        },
    }
}

/// Refuses an exchange whose authorization is an hour old or more, or whose
/// callback state differs from the one the authorization was started with.
pub fn check_pending_exchange(pending: &PendingOAuth, state: Option<&str>, now: Timestamp) -> (r:
    Result<(), YnabError>)
    requires
        chrono_instant(now),
        chrono_instant(pending.created_at),
    ensures
        !pending_is_recent(*pending, now) ==> r is Err && is_config_error(
            r->Err_0,
            "pending OAuth state is stale; run `auth oauth start` again"@,
        ),
        pending_is_recent(*pending, now) ==> match state {
            Some(s) => if s@ == pending.state@ {
                r is Ok
            } else {
                r is Err && is_config_error(r->Err_0, "OAuth state mismatch"@)
            },
            None => r is Ok,
        },
{
    if !pending.is_recent_at(now) {
        return Err(
            YnabError::Config("pending OAuth state is stale; run `auth oauth start` again".to_owned()),
        );
    }
    if let Some(expected_state) = state {
        if !str_eq(expected_state, pending.state.as_str()) {
            return Err(YnabError::Config("OAuth state mismatch".to_owned()));
        }
    }
    Ok(())
}

// ---------------------------------------------------------------------------
// Responses and credentials
// ---------------------------------------------------------------------------

/// The string fields `id`, `name`, `detail` of an API error body, read the way
/// `serde` reads that struct: from an object (other members ignored) or from
/// an array of exactly those three values.
pub open spec fn error_body_fields(b: JsonV) -> Option<(Seq<char>, Seq<char>, Seq<char>)> {
    match b {
        JsonV::Object(e) => match (lookup(e, "id"@), lookup(e, "name"@), lookup(e, "detail"@)) {
            (Some(JsonV::Str(i)), Some(JsonV::Str(n)), Some(JsonV::Str(d))) => Some((i, n, d)),
            _ => None,
        },
        JsonV::Array(items) => if items.len() == 3 {
            match (items[0], items[1], items[2]) {
                (JsonV::Str(i), JsonV::Str(n), JsonV::Str(d)) => Some((i, n, d)),
                _ => None,
            }
        } else {
            None
        },
        _ => None,
    }
}

/// The fields of an API error response `{ "error": { id, name, detail } }`,
/// read the way `serde` reads it (an object, or an array of one element).
pub open spec fn api_error_fields(body: JsonV) -> Option<(Seq<char>, Seq<char>, Seq<char>)> {
    match body {
        JsonV::Object(e) => match lookup(e, "error"@) {
            Some(inner) => error_body_fields(inner),
            None => None,
        },
        JsonV::Array(items) => if items.len() == 1 {
            error_body_fields(items[0])
        } else {
            None
        },
        _ => None,
    }
}

fn string_fields3(a: &Json, b: &Json, c: &Json) -> (r: Option<(String, String, String)>)
    ensures
        match (a@, b@, c@) {
            (JsonV::Str(i), JsonV::Str(n), JsonV::Str(d)) => r is Some && r->Some_0.0@ == i
                && r->Some_0.1@ == n && r->Some_0.2@ == d,
            _ => r is None,
        },
{
    match (a.as_str(), b.as_str(), c.as_str()) {
        (Some(i), Some(n), Some(d)) => Some((i.clone(), n.clone(), d.clone())),
        _ => None,
    }
}

fn error_body_fields_of(b: &Json) -> (r: Option<(String, String, String)>)
    ensures
        match error_body_fields(b@) {
            Some((i, n, d)) => r is Some && r->Some_0.0@ == i && r->Some_0.1@ == n && r->Some_0.2@
                == d,
            None => r is None,
        },
{
    match b {
        Json::Object(m) => match (m.get("id"), m.get("name"), m.get("detail")) {
            (Some(i), Some(n), Some(d)) => string_fields3(i, n, d),
            _ => None,
        },
        Json::Array(items) => {
            if items.len() == 3 {
                proof {
                    lemma_items_view_index(items@, 0);
                    lemma_items_view_index(items@, 1);
                    lemma_items_view_index(items@, 2);
                }
                string_fields3(&items[0], &items[1], &items[2])
            } else {
                proof {
                    lemma_items_view_len(items@);
                }
                None
            }
        },
        _ => None,
    }
}

/// The fields of an API error response.
pub fn api_error_fields_of(body: &Json) -> (r: Option<(String, String, String)>)
    ensures
        match api_error_fields(body@) {
            Some((i, n, d)) => r is Some && r->Some_0.0@ == i && r->Some_0.1@ == n && r->Some_0.2@
                == d,
            None => r is None,
        },
{
    match body {
        Json::Object(m) => match m.get("error") {
            Some(inner) => error_body_fields_of(inner),
            None => None,
        },
        Json::Array(items) => {
            if items.len() == 1 {
                proof {
                    lemma_items_view_index(items@, 0);
                }
                error_body_fields_of(&items[0])
            } else {
                proof {
                    lemma_items_view_len(items@);
                }
                None
            }
        },
        _ => None,
    }
}

/// What a response gives: its body on a success status (200 to 299), else an
/// API error carrying the status, the body, and the error's id, name and
/// detail (or the status as id, `unknown_api_error` and `API request failed`
/// when the body is no API error).
pub open spec fn response_outcome(status: u16, body: Json, r: Result<Json, YnabError>) -> bool {
    if 200 <= status <= 299 {
        r == Ok::<Json, YnabError>(body)
    } else {
        r is Err && match r->Err_0 {
            YnabError::Api { status: s, id, name, detail, body: b } => s == status && b == body
                && match api_error_fields(body@) {
                Some((i, n, d)) => id@ == i && name@ == n && detail@ == d,
                None => id@ == decimal(status as nat) && name@ == "unknown_api_error"@ && detail@
                    == "API request failed"@,
            },
            _ => false,
        }
    }
}

/// The outcome of an API response with `status` and JSON `body`.
pub fn response_result(status: u16, body: Json) -> (r: Result<Json, YnabError>)
    ensures
        response_outcome(status, body, r),
{
    if 200 <= status && status <= 299 {
        return Ok(body);
    }
    match api_error_fields_of(&body) {
        Some((id, name, detail)) => Err(YnabError::Api { status, id, name, detail, body }),
        None => Err(
            YnabError::Api {
                status,
                id: u64_text(status as u64),
                name: "unknown_api_error".to_owned(),
                detail: "API request failed".to_owned(),
                body,
            },
        ),
    }
}

/// The token given on the command line, else the one in the environment.
pub fn preset_access_token(token_override: Option<&String>, env_token: Option<String>) -> (r:
    Option<String>)
    ensures
        r == match token_override {
            Some(t) => Some(*t),
            None => env_token,
        },
{
    match token_override {
        Some(t) => Some(t.clone()),
        None => env_token,
    }
}

/// What to do with the stored session to get an access token.
#[derive(Debug)]
pub enum TokenStep {
    /// Send this token.
    Use(String),
    /// Refresh this OAuth session first, store the result, and send its token.
    Refresh(StoredSession),
}

/// Whether the step is to send the token `t`.
pub open spec fn uses_token(r: Result<TokenStep, YnabError>, t: Seq<char>) -> bool {
    r matches Ok(TokenStep::Use(u)) && u@ == t
}

/// Chooses how a stored session yields an access token at `now`: a personal
/// token is sent as is; an OAuth session is refreshed when asked to or when it
/// expires within a minute; no session is missing credentials.
pub fn stored_token_step(session: Option<StoredSession>, force_refresh: bool, now: Timestamp) -> (r:
    Result<TokenStep, YnabError>)
    requires
        now.secs <= i64::MAX - 60,
    ensures
        match session {
            None => r == Err::<TokenStep, YnabError>(YnabError::MissingCredentials),
            Some(s) => match s {
                StoredSession::PersonalAccessToken { access_token } => uses_token(r, access_token@),
                StoredSession::OAuth { access_token, .. } => if force_refresh
                    || session_needs_refresh(s, now) {
                    r == Ok::<TokenStep, YnabError>(TokenStep::Refresh(s))
                } else {
                    uses_token(r, access_token@)
                },
            },
        },
{
    match session {
        None => Err(YnabError::MissingCredentials),
        Some(s) => {
            if s.is_oauth() && (force_refresh || s.needs_refresh_at(now)) {
                Ok(TokenStep::Refresh(s))
            } else {
                let t = s.bearer_token().clone();
                Ok(TokenStep::Use(t))
            }
        },
    }
}

/// Whether an API answer calls for looking at the stored session before
/// reading it: a 401 to a request that was not already retried.
pub fn unauthorized_retry_possible(status: u16, already_refreshed: bool) -> (r: bool)
    ensures
        r == (status == 401 && !already_refreshed),
{
    status == 401 && !already_refreshed
}

/// Whether to refresh the stored session and send the request again after
/// a 401: only an OAuth session is refreshed; with nothing stored the
/// credentials are missing.
pub fn refresh_and_retry(session: Option<&StoredSession>) -> (r: Result<bool, YnabError>)
    ensures
        match session {
            None => r == Err::<bool, YnabError>(YnabError::MissingCredentials),
            Some(s) => r == Ok::<bool, YnabError>(*s is OAuth),
        },
{
    match session {
        None => Err(YnabError::MissingCredentials),
        Some(s) => Ok(s.is_oauth()),
    }
}

/// Where the credentials in use come from: the source given on the command
/// line, else `env`, `stored` or `none`.
pub open spec fn auth_source_spec(
    override_source: Option<&'static str>,
    env_token_set: bool,
    has_session: bool,
) -> Seq<char> {
    match override_source {
        Some(s) => s@,
        None => if env_token_set {
            "env"@
        } else if has_session {
            "stored"@
        } else {
            "none"@
        },
    }
}

/// Where the credentials in use come from.
pub fn auth_source(override_source: Option<&'static str>, env_token_set: bool, has_session: bool) -> (r:
    &'static str)
    ensures
        r@ == auth_source_spec(override_source, env_token_set, has_session),
{
    match override_source {
        Some(s) => s,
        None => if env_token_set {
            "env"
        } else if has_session {
            "stored"
        } else {
            "none"
        },
    }
}

/// The kind of a stored session as reported.
pub open spec fn session_kind(s: StoredSession) -> Seq<char> {
    if s is OAuth {
        "oauth"@
    } else {
        "personal_access_token"@
    }
}

/// The kind of a stored session: `oauth` or `personal_access_token`.
pub fn session_kind_str(s: &StoredSession) -> (r: &'static str)
    ensures
        r@ == session_kind(*s),
{
    if s.is_oauth() {
        "oauth"
    } else {
        "personal_access_token"
    }
}

/// A string, or `null`.
pub open spec fn opt_str_json(o: Option<Seq<char>>) -> JsonV {
    match o {
        Some(s) => JsonV::Str(s),
        None => JsonV::Null,
    }
}

fn opt_string_json(o: &Option<String>) -> (r: Json)
    ensures
        r@ == opt_str_json(opt_text(*o)),
{
    match o {
        Some(s) => Json::String(s.clone()),
        None => Json::Null,
    }
}

/// The inputs of an authentication status report.
pub struct AuthStatusInput {
    pub profile: String,
    pub base_url: String,
    pub default_plan_id: Option<String>,
    pub override_source: Option<&'static str>,
    pub env_token_set: bool,
    pub session: Option<StoredSession>,
    pub keyring_enabled: bool,
    pub paths: AppPaths,
}

/// The members of an authentication status report, before key ordering.
pub open spec fn auth_status_members(i: AuthStatusInput) -> Seq<(Seq<char>, JsonV)> {
    let source = auth_source_spec(i.override_source, i.env_token_set, i.session is Some);
    seq![
        ("profile"@, JsonV::Str(i.profile@)),
        ("base_url"@, JsonV::Str(i.base_url@)),
        ("default_plan_id"@, opt_str_json(opt_text(i.default_plan_id))),
        ("auth_source"@, JsonV::Str(source)),
        ("auth_override_active"@, JsonV::Bool(source == "flag"@ || source == "env"@)),
        ("stored_auth_kind"@, opt_str_json(
            match i.session {
                Some(s) => Some(session_kind(s)),
                None => None,
            },
        )),
        ("keyring_enabled"@, JsonV::Bool(i.keyring_enabled)),
        ("runtime_home"@, JsonV::Str(i.paths.root_dir@)),
        ("config_file"@, JsonV::Str(i.paths.config_file@)),
        ("secrets_file"@, JsonV::Str(i.paths.secrets_file@)),
    ]
}

/// The object holding `members`, inserted in order.
pub open spec fn object_of(members: Seq<(Seq<char>, JsonV)>) -> Seq<(Seq<char>, JsonV)>
    decreases members.len(),
{
    if members.len() == 0 {
        Seq::empty()
    } else {
        insert_entry(object_of(members.drop_last()), members.last().0, members.last().1)
    }
}

proof fn lemma_object_of_push(members: Seq<(Seq<char>, JsonV)>, k: Seq<char>, v: JsonV)
    ensures
        object_of(members.push((k, v))) == insert_entry(object_of(members), k, v),
{
    assert(members.push((k, v)).drop_last() =~= members);
}

/// Adds members to an object one at a time, stating the result as
/// `object_of` of the members so far.
pub(crate) struct ObjectBuilder {
    pub(crate) map: JsonMap,
    pub(crate) members: Ghost<Seq<(Seq<char>, JsonV)>>,
}

impl ObjectBuilder {
    pub(crate) fn new() -> (b: ObjectBuilder)
        ensures
            b.map@ == object_of(b.members@),
            b.members@ == Seq::<(Seq<char>, JsonV)>::empty(),
    {
        ObjectBuilder { map: JsonMap::new(), members: Ghost(Seq::empty()) }
    }

    pub(crate) fn add(&mut self, key: &str, val: Json)
        requires
            old(self).map@ == object_of(old(self).members@),
        ensures
            final(self).map@ == object_of(final(self).members@),
            final(self).members@ == old(self).members@.push((key@, val@)),
    {
        proof {
            lemma_object_of_push(self.members@, key@, val@);
        }
        let ghost v = val@;
        self.map.insert(key.to_owned(), val);
        self.members = Ghost(self.members@.push((key@, v)));
    }
}

/// The authentication status report.
pub fn auth_status_data(input: &AuthStatusInput) -> (r: Json)
    ensures
        r@ == JsonV::Object(object_of(auth_status_members(*input))),
{
    let source = auth_source(input.override_source, input.env_token_set, input.session.is_some());
    let active = str_eq(source, "flag") || str_eq(source, "env");
    let kind = match &input.session {
        Some(s) => Json::from_str(session_kind_str(s)),
        None => Json::Null,
    };
    let mut b = ObjectBuilder::new();
    b.add("profile", Json::String(input.profile.clone()));
    b.add("base_url", Json::String(input.base_url.clone()));
    b.add("default_plan_id", opt_string_json(&input.default_plan_id));
    b.add("auth_source", Json::from_str(source));
    b.add("auth_override_active", Json::Bool(active));
    b.add("stored_auth_kind", kind);
    b.add("keyring_enabled", Json::Bool(input.keyring_enabled));
    b.add("runtime_home", Json::String(input.paths.root_dir.clone()));
    b.add("config_file", Json::String(input.paths.config_file.clone()));
    b.add("secrets_file", Json::String(input.paths.secrets_file.clone()));
    proof {
        assert(b.members@ =~= auth_status_members(*input));
    }
    Json::Object(b.map)
}

/// The report of a sign-in: the profile, the kind of credentials, their
/// expiry (as RFC 3339 text) when they have one, and the default plan
/// outcome.
pub open spec fn sign_in_members(
    profile: Seq<char>,
    auth_kind: Seq<char>,
    expires_at: Option<Seq<char>>,
    plan: (Option<String>, bool, Option<String>),
) -> Seq<(Seq<char>, JsonV)> {
    seq![("profile"@, JsonV::Str(profile)), ("auth_kind"@, JsonV::Str(auth_kind))] + match expires_at {
        Some(e) => seq![("expires_at"@, JsonV::Str(e))],
        None => Seq::empty(),
    } + seq![
        ("default_plan_id"@, opt_str_json(opt_text(plan.0))),
        ("default_plan_auto_selected"@, JsonV::Bool(plan.1)),
        ("default_plan_error"@, opt_str_json(opt_text(plan.2))),
    ]
}

/// The report of a sign-in.
pub fn sign_in_data(
    profile: &str,
    auth_kind: &str,
    expires_at: Option<Timestamp>,
    plan: (Option<String>, bool, Option<String>),
) -> (r: Json)
    requires
        expires_at matches Some(t) ==> chrono_instant(t),
    ensures
        r@ == JsonV::Object(
            object_of(
                sign_in_members(
                    profile@,
                    auth_kind@,
                    match expires_at {
                        Some(t) => Some(rfc3339_of(t)),
                        None => None,
                    },
                    plan,
                ),
            ),
        ),
{
    let ghost expiry = match expires_at {
        Some(t) => Some(rfc3339_of(t)),
        None => None::<Seq<char>>,
    };
    let mut b = ObjectBuilder::new();
    b.add("profile", Json::from_str(profile));
    b.add("auth_kind", Json::from_str(auth_kind));
    if let Some(t) = expires_at {
        b.add("expires_at", Json::String(rfc3339_text(t)));
    }
    b.add("default_plan_id", opt_string_json(&plan.0));
    b.add("default_plan_auto_selected", Json::Bool(plan.1));
    b.add("default_plan_error", opt_string_json(&plan.2));
    proof {
        assert(b.members@ =~= sign_in_members(profile@, auth_kind@, expiry, plan));
    }
    Json::Object(b.map)
}

/// A report on a profile: `{ "profile": profile, key: value }`.
pub fn profile_report(profile: &str, key: &str, value: Json) -> (r: Json)
    ensures
        r@ == JsonV::Object(
            object_of(seq![("profile"@, JsonV::Str(profile@)), (key@, value@)]),
        ),
{
    let ghost v = value@;
    let mut b = ObjectBuilder::new();
    b.add("profile", Json::from_str(profile));
    b.add(key, value);
    proof {
        assert(b.members@ =~= seq![("profile"@, JsonV::Str(profile@)), (key@, v)]);
    }
    Json::Object(b.map)
}

/// The members of the report of a started OAuth authorization.
pub open spec fn oauth_start_members(r: OAuthStartResult) -> Seq<(Seq<char>, JsonV)> {
    seq![
        ("authorize_url"@, JsonV::Str(r.authorize_url@)),
        ("state"@, JsonV::Str(r.state@)),
        ("profile"@, JsonV::Str(r.profile@)),
        ("code_challenge_method"@, JsonV::Str(r.code_challenge_method@)),
        ("scope"@, opt_str_json(opt_text(r.scope))),
    ]
}

/// The report of a started OAuth authorization.
pub fn oauth_start_data(result: &OAuthStartResult) -> (r: Json)
    ensures
        r@ == JsonV::Object(object_of(oauth_start_members(*result))),
{
    let mut b = ObjectBuilder::new();
    b.add("authorize_url", Json::String(result.authorize_url.clone()));
    b.add("state", Json::String(result.state.clone()));
    b.add("profile", Json::String(result.profile.clone()));
    b.add("code_challenge_method", Json::from_str(result.code_challenge_method));
    b.add("scope", opt_string_json(&result.scope));
    proof {
        assert(b.members@ =~= oauth_start_members(*result));
    }
    Json::Object(b.map)
}

/// The plans a `whoami` report shows: the listing's `plans` member, or an
/// empty array when it has none.
pub open spec fn whoami_plans(listing: JsonV) -> JsonV {
    match listing.member("plans"@) {
        Some(p) => p,
        None => JsonV::Array(Seq::empty()),
    }
}

/// The `whoami` report: the profile, the kind of stored credentials, and
/// the plans of a plan listing.
pub fn whoami_data(profile: &str, session: &StoredSession, listing: &Json) -> (r: Json)
    ensures
        r@ == JsonV::Object(
            object_of(
                seq![
                    ("profile"@, JsonV::Str(profile@)),
                    ("auth_kind"@, JsonV::Str(session_kind(*session))),
                    ("plans"@, whoami_plans(listing@)),
                ],
            ),
        ),
{
    let plans = match listing.get("plans") {
        Some(p) => p.deep_copy(),
        None => {
            let empty: Vec<Json> = Vec::new();
            proof {
                assert(items_view(empty@) =~= Seq::<JsonV>::empty());
            }
            Json::Array(empty)
        },
    };
    let mut b = ObjectBuilder::new();
    b.add("profile", Json::from_str(profile));
    b.add("auth_kind", Json::from_str(session_kind_str(session)));
    b.add("plans", plans);
    proof {
        assert(b.members@ =~= seq![
            ("profile"@, JsonV::Str(profile@)),
            ("auth_kind"@, JsonV::Str(session_kind(*session))),
            ("plans"@, whoami_plans(listing@)),
        ]);
    }
    Json::Object(b.map)
}

// ---------------------------------------------------------------------------
// Ids or names
// ---------------------------------------------------------------------------

/// The label of a kind of resource in messages.
pub fn kind_label(kind: ResolveByNameKind) -> (r: &'static str)
    ensures
        r@ == kind_word(kind),
{
    match kind {
        ResolveByNameKind::Plan => "plan",
        ResolveByNameKind::Account => "account",
        ResolveByNameKind::Category => "category",
        ResolveByNameKind::Payee => "payee",
    }
}

/// How a resource given by id or by name is settled.
#[derive(Debug)]
pub enum IdChoice {
    /// The id given.
    Given(String),
    /// The id of the resource with this name, to be looked up.
    ByName(String),
    /// Neither was given.
    Absent,
}

/// An id given explicitly wins over a name.
pub fn choose_id(explicit_id: Option<String>, name: Option<String>) -> (r: IdChoice)
    ensures
        match (explicit_id, name) {
            (Some(id), _) => r == IdChoice::Given(id),
            (None, Some(n)) => r == IdChoice::ByName(n),
            (None, None) => r == IdChoice::Absent,
        },
{
    match explicit_id {
        Some(id) => IdChoice::Given(id),
        None => match name {
            Some(n) => IdChoice::ByName(n),
            None => IdChoice::Absent,
        },
    }
}

/// `missing <kind> id or name`
pub open spec fn missing_id_message(kind: ResolveByNameKind) -> Seq<char> {
    "missing "@ + kind_word(kind) + " id or name"@
}

/// The message given when a required resource has neither id nor name.
pub fn missing_id_text(kind: ResolveByNameKind) -> (r: String)
    ensures
        r@ == missing_id_message(kind),
{
    let mut m = "missing ".to_owned();
    m.append(kind_label(kind));
    m.append(" id or name");
    m
}

// ---------------------------------------------------------------------------
// Request bodies
// ---------------------------------------------------------------------------

impl TransactionCreateInput {
    /// The body of the creation request.
    pub fn to_request(&self) -> (r: SaveTransactionRequest)
        ensures
            r.transaction == (SaveTransaction {
                account_id: self.account_id,
                date: self.date,
                amount: self.amount.0,
                id: self.id,
                import_id: self.import_id,
                payee_id: self.payee_id,
                payee_name: self.payee_name,
                category_id: self.category_id,
                memo: self.memo,
                cleared: self.cleared,
                approved: self.approved,
                flag_color: self.flag_color,
            }),
    {
        SaveTransactionRequest {
            transaction: SaveTransaction {
                account_id: self.account_id.clone(),
                date: self.date.clone(),
                amount: self.amount.0,
                id: clone_string_opt(&self.id),
                import_id: clone_string_opt(&self.import_id),
                payee_id: clone_string_opt(&self.payee_id),
                payee_name: clone_string_opt(&self.payee_name),
                category_id: clone_string_opt(&self.category_id),
                memo: clone_string_opt(&self.memo),
                cleared: clone_string_opt(&self.cleared),
                approved: self.approved,
                flag_color: clone_string_opt(&self.flag_color),
            },
        }
    }
}

impl TransactionUpdateInput {
    /// The body of the change request.
    pub fn to_request(&self) -> (r: UpdateTransactionRequest)
        ensures
            r.transaction == Some(
                UpdateTransaction {
                    account_id: self.account_id,
                    date: self.date,
                    amount: match self.amount {
                        Some(a) => Some(a.0),
                        None => None,
                    },
                    payee_id: self.payee_id,
                    payee_name: self.payee_name,
                    category_id: self.category_id,
                    memo: self.memo,
                    cleared: self.cleared,
                    approved: self.approved,
                    flag_color: self.flag_color,
                },
            ),
    {
        UpdateTransactionRequest {
            transaction: Some(
                UpdateTransaction {
                    account_id: clone_string_opt(&self.account_id),
                    date: clone_string_opt(&self.date),
                    amount: match self.amount {
                        Some(a) => Some(a.0),
                        None => None,
                    },
                    payee_id: clone_string_opt(&self.payee_id),
                    payee_name: clone_string_opt(&self.payee_name),
                    category_id: clone_string_opt(&self.category_id),
                    memo: clone_string_opt(&self.memo),
                    cleared: clone_string_opt(&self.cleared),
                    approved: self.approved,
                    flag_color: clone_string_opt(&self.flag_color),
                },
            ),
        }
    }
}

fn clone_string_opt(o: &Option<String>) -> (r: Option<String>)
    ensures
        r == *o,
{
    match o {
        Some(s) => Some(s.clone()),
        None => None,
    }
}

/// The members of a transaction to create, as the API receives them:
/// absent optional fields are left out.
pub open spec fn save_transaction_members(t: SaveTransaction) -> Seq<(Seq<char>, JsonV)> {
    seq![
        ("account_id"@, JsonV::Str(t.account_id@)),
        ("date"@, JsonV::Str(t.date@)),
        ("amount"@, int_view(t.amount)),
    ] + opt_str_member("id"@, t.id) + opt_str_member("import_id"@, t.import_id) + opt_str_member(
        "payee_id"@,
        t.payee_id,
    ) + opt_str_member("payee_name"@, t.payee_name) + opt_str_member(
        "category_id"@,
        t.category_id,
    ) + opt_str_member("memo"@, t.memo) + opt_str_member("cleared"@, t.cleared)
        + opt_bool_member("approved"@, t.approved) + opt_str_member("flag_color"@, t.flag_color)
}

/// The members of a transaction change: absent fields are left out.
pub open spec fn update_transaction_members(t: UpdateTransaction) -> Seq<(Seq<char>, JsonV)> {
    opt_str_member("account_id"@, t.account_id) + opt_str_member("date"@, t.date)
        + opt_amount_member("amount"@, opt_int(t.amount)) + opt_str_member("payee_id"@, t.payee_id)
        + opt_str_member("payee_name"@, t.payee_name) + opt_str_member(
        "category_id"@,
        t.category_id,
    ) + opt_str_member("memo"@, t.memo) + opt_str_member("cleared"@, t.cleared)
        + opt_bool_member("approved"@, t.approved) + opt_str_member("flag_color"@, t.flag_color)
}

/// The members of category fields: absent fields are left out.
pub open spec fn save_category_members(c: SaveCategory) -> Seq<(Seq<char>, JsonV)> {
    opt_str_member("name"@, c.name) + opt_str_member("note"@, c.note) + opt_str_member(
        "category_group_id"@,
        c.category_group_id,
    ) + opt_amount_member("goal_target"@, opt_int(c.goal_target)) + opt_str_member(
        "goal_target_date"@,
        c.goal_target_date,
    ) + opt_bool_member("goal_needs_whole_amount"@, c.goal_needs_whole_amount)
}

fn add_opt_i64(o: &mut ObjectBuilder, key: &str, v: Option<i64>)
    requires
        old(o).map@ == object_of(old(o).members@),
    ensures
        final(o).map@ == object_of(final(o).members@),
        final(o).members@ == old(o).members@ + opt_amount_member(key@, opt_int(v)),
{
    add_opt_amount(o, key, v)
}

impl SaveTransactionRequest {
    /// `{ "transaction": {...} }` as sent to the API.
    pub fn to_json(&self) -> (r: Json)
        ensures
            r@ == JsonV::Object(
                insert_entry(
                    Seq::empty(),
                    "transaction"@,
                    JsonV::Object(object_of(save_transaction_members(self.transaction))),
                ),
            ),
    {
        let t = &self.transaction;
        let mut o = ObjectBuilder::new();
        o.add("account_id", Json::String(t.account_id.clone()));
        o.add("date", Json::String(t.date.clone()));
        o.add("amount", Json::from_i64(t.amount));
        let ghost m0 = o.members@;
        add_opt_str(&mut o, "id", &t.id);
        add_opt_str(&mut o, "import_id", &t.import_id);
        add_opt_str(&mut o, "payee_id", &t.payee_id);
        add_opt_str(&mut o, "payee_name", &t.payee_name);
        add_opt_str(&mut o, "category_id", &t.category_id);
        add_opt_str(&mut o, "memo", &t.memo);
        add_opt_str(&mut o, "cleared", &t.cleared);
        add_opt_bool(&mut o, "approved", t.approved);
        add_opt_str(&mut o, "flag_color", &t.flag_color);
        proof {
            assert(o.members@ =~= save_transaction_members(*t));
        }
        Json::Object(object_with("transaction", Json::Object(o.map)))
    }
}

/// The body of a transaction change as sent to the API.
pub open spec fn update_request_view(r: UpdateTransactionRequest) -> JsonV {
    match r.transaction {
        Some(t) => JsonV::Object(
            insert_entry(
                Seq::empty(),
                "transaction"@,
                JsonV::Object(object_of(update_transaction_members(t))),
            ),
        ),
        None => JsonV::Object(Seq::empty()),
    }
}

impl UpdateTransactionRequest {
    /// `{ "transaction": {...} }` as sent to the API; `{}` without one.
    pub fn to_json(&self) -> (r: Json)
        ensures
            r@ == update_request_view(*self),
    {
        match &self.transaction {
            None => Json::Object(JsonMap::new()),
            Some(t) => {
                let mut o = ObjectBuilder::new();
                add_opt_str(&mut o, "account_id", &t.account_id);
                add_opt_str(&mut o, "date", &t.date);
                add_opt_i64(&mut o, "amount", t.amount);
                add_opt_str(&mut o, "payee_id", &t.payee_id);
                add_opt_str(&mut o, "payee_name", &t.payee_name);
                add_opt_str(&mut o, "category_id", &t.category_id);
                add_opt_str(&mut o, "memo", &t.memo);
                add_opt_str(&mut o, "cleared", &t.cleared);
                add_opt_bool(&mut o, "approved", t.approved);
                add_opt_str(&mut o, "flag_color", &t.flag_color);
                proof {
                    assert(o.members@ =~= update_transaction_members(*t));
                }
                Json::Object(object_with("transaction", Json::Object(o.map)))
            },
        }
    }
}

impl SaveCategory {
    /// The category fields as sent to the API.
    pub fn to_json(&self) -> (r: Json)
        ensures
            r@ == JsonV::Object(object_of(save_category_members(*self))),
    {
        let mut o = ObjectBuilder::new();
        add_opt_str(&mut o, "name", &self.name);
        add_opt_str(&mut o, "note", &self.note);
        add_opt_str(&mut o, "category_group_id", &self.category_group_id);
        add_opt_i64(&mut o, "goal_target", self.goal_target);
        add_opt_str(&mut o, "goal_target_date", &self.goal_target_date);
        add_opt_bool(&mut o, "goal_needs_whole_amount", self.goal_needs_whole_amount);
        proof {
            assert(o.members@ =~= save_category_members(*self));
        }
        Json::Object(o.map)
    }
}

/// `{ "<key>": value }`
pub open spec fn wrapped_view(key: Seq<char>, v: JsonV) -> JsonV {
    JsonV::Object(insert_entry(Seq::empty(), key, v))
}

/// A body wrapped under one key, such as `{ "category": {...} }`.
pub fn wrap_under(key: &str, value: Json) -> (r: Json)
    ensures
        r@ == wrapped_view(key@, value@),
{
    Json::Object(object_with(key, value))
}

/// `{ "name": name }`
pub fn name_body(name: &str) -> (r: Json)
    ensures
        r@ == wrapped_view("name"@, JsonV::Str(name@)),
{
    wrap_under("name", Json::from_str(name))
}

/// `{ "budgeted": milliunits }`
pub fn budgeted_body(budgeted: i64) -> (r: Json)
    ensures
        r@ == wrapped_view("budgeted"@, int_view(budgeted)),
{
    wrap_under("budgeted", Json::from_i64(budgeted))
}

/// What a write request becomes: its preview on a dry run, else the request
/// to send.
#[derive(Debug)]
pub enum SubmitStep {
    /// Answer with this dry-run preview; nothing is sent.
    Preview(Json),
    /// Send this request.
    Send(Json),
}

/// A dry run answers with the request's preview (`dry_run_data`) and sends
/// nothing; any other write sends the request as it is.
pub fn submit_step(request: Json, dry_run: bool) -> (r: SubmitStep)
    ensures
        dry_run ==> (r matches SubmitStep::Preview(d) && d@ == JsonV::Object(
            insert_entry(
                insert_entry(Seq::empty(), "dry_run"@, JsonV::Bool(true)),
                "request"@,
                request@,
            ),
        )),
        !dry_run ==> (r matches SubmitStep::Send(q) && q@ == request@),
{
    if dry_run {
        SubmitStep::Preview(dry_run_data(request))
    } else {
        SubmitStep::Send(request)
    }
}

/// The default plan once settled, and whether it was chosen automatically:
/// a plan the profile already names is kept (`false`); otherwise the plan
/// chosen now is reported (`true` when one was chosen).
pub fn default_plan_selection(known: Option<String>, chosen: Option<String>) -> (r: (
    Option<String>,
    bool,
))
    ensures
        known is Some ==> r == (known, false),
        known is None ==> r == (chosen, chosen is Some),
{
    match known {
        Some(id) => (Some(id), false),
        None => {
            let auto = chosen.is_some();
            (chosen, auto)
        },
    }
}

/// The data of a dry run: `{ "dry_run": true, "request": request }`.
pub fn dry_run_data(request: Json) -> (r: Json)
    ensures
        r@ == JsonV::Object(
            insert_entry(
                insert_entry(Seq::empty(), "dry_run"@, JsonV::Bool(true)),
                "request"@,
                request@,
            ),
        ),
{
    let mut m = JsonMap::new();
    m.insert("dry_run".to_owned(), Json::Bool(true));
    m.insert("request".to_owned(), request);
    Json::Object(m)
}

} // verus!
