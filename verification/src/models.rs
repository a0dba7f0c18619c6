//! Amounts, sessions, and the request and response shapes of the YNAB API.

use vstd::prelude::*;
use vstd::string::*;

use crate::error::YnabError;
use crate::json::{Json, JsonV};
use crate::text::{
    digits_value, is_digit, parse_i64, parse_i64_spec, slice_chars, trim_chars, trimmed, utf8_len,
    utf8_len_exceeds,
};

verus! {

// ---------------------------------------------------------------------------
// Amounts
// ---------------------------------------------------------------------------

/// A currency amount in milliunits (1.000 = 1000).
#[derive(Debug, Clone, Copy, PartialEq, Eq)]
pub struct AmountMilliunits(pub i64);

/// The part of a trimmed amount after an optional leading sign.
pub open spec fn unsigned_part(t: Seq<char>) -> Seq<char> {
    if t.len() > 0 && (t[0] == '-' || t[0] == '+') {
        t.drop_first()
    } else {
        t
    }
}

/// The number of `.` characters in `s`.
pub open spec fn dot_count(s: Seq<char>) -> nat
    decreases s.len(),
{
    if s.len() == 0 {
        0
    } else {
        dot_count(s.drop_last()) + if s.last() == '.' {
            1nat
        } else {
            0nat
        }
    }
}

/// The index of the first `.` in `s`, or its length when there is none.
pub open spec fn first_dot(s: Seq<char>) -> int
    decreases s.len(),
{
    if s.len() == 0 {
        0
    } else if s[0] == '.' {
        0
    } else {
        1 + first_dot(s.drop_first())
    }
}

/// The digits before the decimal point.
pub open spec fn whole_text(d: Seq<char>) -> Seq<char> {
    d.take(first_dot(d))
}

/// The digits after the decimal point; `0` when there is no point.
pub open spec fn fraction_text(d: Seq<char>) -> Seq<char> {
    if first_dot(d) < d.len() {
        d.skip(first_dot(d) + 1)
    } else {
        seq!['0']
    }
}

/// `f` padded on the right with `0` to three characters.
pub open spec fn padded_fraction(f: Seq<char>) -> Seq<char> {
    if f.len() >= 3 {
        f
    } else if f.len() == 2 {
        f.push('0')
    } else if f.len() == 1 {
        f.push('0').push('0')
    } else {
        seq!['0', '0', '0']
    }
}

/// The signed milliunit total before the leading `-` is applied, or the
/// message of the error an amount text is rejected with.
pub open spec fn amount_magnitude(input: Seq<char>) -> Result<int, Seq<char>> {
    let t = trimmed(input);
    let d = unsigned_part(t);
    if t.len() == 0 {
        Err("amount cannot be empty"@)
    } else if dot_count(d) > 1 {
        Err("amount must have at most one decimal point"@)
    } else if parse_i64_spec(whole_text(d)) is None {
        Err("invalid whole amount: "@ + input)
    } else if utf8_len(fraction_text(d)) > 3 {
        Err("amount must have at most three decimal places"@)
    } else if parse_i64_spec(padded_fraction(fraction_text(d))) is None {
        Err("invalid fractional amount: "@ + input)
    } else {
        let whole = parse_i64_spec(whole_text(d))->Some_0 as int;
        let frac = parse_i64_spec(padded_fraction(fraction_text(d)))->Some_0 as int;
        if !(i64::MIN <= whole * 1000 <= i64::MAX) || !(i64::MIN <= whole * 1000 + frac
            <= i64::MAX) {
            Err("amount overflow"@)
        } else {
            Ok(whole * 1000 + frac)
        }
    }
}

/// Whether the amount text starts, after trimming, with `-`.
pub open spec fn amount_is_negative(input: Seq<char>) -> bool {
    trimmed(input).len() > 0 && trimmed(input)[0] == '-'
}

/// The milliunits an amount text denotes, or the message it is rejected
/// with: an optional sign, whole units, and up to three decimal places.
pub open spec fn amount_spec(input: Seq<char>) -> Result<int, Seq<char>> {
    match amount_magnitude(input) {
        Ok(v) => if amount_is_negative(input) {
            Ok(-v)
        } else {
            Ok(v)
        },
        Err(m) => Err(m),
    }
}

/// Whether `r` is the outcome `amount_spec` gives for `input`.
pub open spec fn amount_result_matches(r: Result<AmountMilliunits, YnabError>, input: Seq<char>) -> bool {
    match (r, amount_spec(input)) {
        (Ok(a), Ok(v)) => a.0 == v,
        (Err(YnabError::InvalidAmount(m)), Err(msg)) => m@ == msg,
        _ => false,
    }
}

proof fn lemma_dot_count_take(s: Seq<char>, i: int)
    requires
        0 <= i < s.len(),
    ensures
        dot_count(s.take(i + 1)) == dot_count(s.take(i)) + if s[i] == '.' {
            1nat
        } else {
            0nat
        },
{
    assert(s.take(i + 1).drop_last() =~= s.take(i));
}

proof fn lemma_dot_count_mono(s: Seq<char>, i: int, j: int)
    requires
        0 <= i <= j <= s.len(),
    ensures
        dot_count(s.take(i)) <= dot_count(s.take(j)),
    decreases j - i,
{
    if i < j {
        lemma_dot_count_mono(s, i, j - 1);
        lemma_dot_count_take(s, j - 1);
    }
}

proof fn lemma_first_dot_at(s: Seq<char>, k: int)
    requires
        0 <= k <= s.len(),
        forall|j: int| 0 <= j < k ==> #[trigger] s[j] != '.',
        k < s.len() ==> s[k] == '.',
    ensures
        first_dot(s) == k,
    decreases k,
{
    if k > 0 {
        let r = s.drop_first();
        assert forall|j: int| 0 <= j < k - 1 implies #[trigger] r[j] != '.' by {
            assert(r[j] == s[j + 1]);
        }
        lemma_first_dot_at(r, k - 1);
    }
}

impl AmountMilliunits {
    /// Parses a decimal amount such as `12`, `-0.5` or `+1.234` into
    /// milliunits, as `amount_spec` states.
    #[verifier::rlimit(60)]
    pub fn parse(input: &str) -> (r: Result<AmountMilliunits, YnabError>)
        ensures
            amount_result_matches(r, input@),
    {
        let t = trim_chars(input);
        if t.len() == 0 {
            return Err(YnabError::InvalidAmount("amount cannot be empty".to_owned()));
        }
        let negative = t[0] == '-';
        let start: usize = if t[0] == '-' || t[0] == '+' {
            1
        } else {
            0
        };
        let d = slice_chars(t.as_slice(), start, t.len());
        proof {
            assert(d@ =~= unsigned_part(t@));
        }
        // locate the decimal points
        let mut first: usize = d.len();
        let mut dots: usize = 0;
        let mut i: usize = 0;
        while i < d.len()
            invariant
                t@ == trimmed(input@),
                t@.len() > 0,
                d@ == unsigned_part(trimmed(input@)),
                i <= d@.len(),
                dots == dot_count(d@.take(i as int)),
                dots <= 1,
                first <= d@.len(),
                first == d@.len() ==> forall|j: int| 0 <= j < i ==> #[trigger] d@[j] != '.',
                first < d@.len() ==> first < i && d@[first as int] == '.' && forall|j: int|
                    0 <= j < first ==> #[trigger] d@[j] != '.',
                (dots == 0) == (first == d@.len()),
            decreases d@.len() - i,
        {
            proof {
                lemma_dot_count_take(d@, i as int);
            }
            if d[i] == '.' {
                if dots == 1 {
                    proof {
                        lemma_dot_count_mono(d@, i + 1, d@.len() as int);
                        assert(d@.take(d@.len() as int) =~= d@);
                        assert(dot_count(d@) > 1);
                        assert(d@ == unsigned_part(trimmed(input@)));
                        assert(amount_magnitude(input@) == Err::<int, Seq<char>>(
                            "amount must have at most one decimal point"@,
                        ));
                    }
                    return Err(
                        YnabError::InvalidAmount(
                            "amount must have at most one decimal point".to_owned(),
                        ),
                    );
                }
                first = i;
                dots = 1;
            }
            i = i + 1;
        }
        proof {
            assert(d@.take(d@.len() as int) =~= d@);
            lemma_first_dot_at(d@, first as int);
        }
        let whole_chars = slice_chars(d.as_slice(), 0, first);
        proof {
            assert(whole_chars@ =~= whole_text(d@));
        }
        let whole = match parse_i64(whole_chars.as_slice()) {
            Some(w) => w,
            None => {
                let mut m = "invalid whole amount: ".to_owned();
                m.append(input);
                return Err(YnabError::InvalidAmount(m));
            },
        };
        let fraction: Vec<char> = if first < d.len() {
            slice_chars(d.as_slice(), first + 1, d.len())
        } else {
            let mut z = Vec::new();
            z.push('0');
            z
        };
        proof {
            if first < d.len() {
                assert(fraction@ =~= d@.skip(first + 1));
            } else {
                assert(fraction@ =~= seq!['0']);
            }
            assert(fraction@ == fraction_text(d@));
        }
        if utf8_len_exceeds(fraction.as_slice(), 3) {
            return Err(
                YnabError::InvalidAmount("amount must have at most three decimal places".to_owned()),
            );
        }
        let mut padded = fraction;
        proof {
            assert(padded@.len() <= utf8_len(padded@)) by {
                lemma_utf8_len_ge_len(padded@);
            }
        }
        let ghost f = padded@;
        while padded.len() < 3
            invariant
                f.len() <= 3,
                f.len() <= padded@.len() <= 3,
                padded@ == f + Seq::new((padded@.len() - f.len()) as nat, |k: int| '0'),
            decreases 3 - padded@.len(),
        {
            padded.push('0');
            proof {
                assert(padded@ =~= f + Seq::new((padded@.len() - f.len()) as nat, |k: int| '0'));
            }
        }
        proof {
            assert(padded@ =~= padded_fraction(f));
        }
        let frac = match parse_i64(padded.as_slice()) {
            Some(x) => x,
            None => {
                let mut m = "invalid fractional amount: ".to_owned();
                m.append(input);
                return Err(YnabError::InvalidAmount(m));
            },
        };
        let scaled = match whole.checked_mul(1000) {
            Some(x) => x,
            None => {
                return Err(YnabError::InvalidAmount("amount overflow".to_owned()));
            },
        };
        let total = match scaled.checked_add(frac) {
            Some(x) => x,
            None => {
                return Err(YnabError::InvalidAmount("amount overflow".to_owned()));
            },
        };
        proof {
            lemma_padded_fraction_bound(padded@);
        }
        if negative {
            Ok(AmountMilliunits(-total))
        } else {
            Ok(AmountMilliunits(total))
        }
    }
}

/// A three-character fraction reads as at least -99 (a sign and two digits).
proof fn lemma_padded_fraction_bound(s: Seq<char>)
    requires
        s.len() == 3,
        parse_i64_spec(s) is Some,
    ensures
        parse_i64_spec(s)->Some_0 >= -99,
{
    if s[0] == '-' {
        let rest = s.drop_first();
        assert(is_digit(rest[0]));
        assert(is_digit(rest[1]));
        let x = rest.drop_last();
        assert(x.len() == 1);
        assert(x.last() == rest[0]);
        assert(x.drop_last() =~= Seq::<char>::empty());
        assert(digits_value(x.drop_last()) == 0);
        assert(digits_value(x) == ((rest[0] as int) - 48) as nat);
        assert(digits_value(rest) <= 99);
    }
}

proof fn lemma_utf8_len_ge_len(s: Seq<char>)
    ensures
        s.len() <= utf8_len(s),
    decreases s.len(),
{
    if s.len() > 0 {
        lemma_utf8_len_ge_len(s.drop_last());
    }
}

// ---------------------------------------------------------------------------
// Time
// ---------------------------------------------------------------------------

/// A UTC instant: whole seconds since the Unix epoch and nanoseconds within
/// the second.
#[derive(Debug, Clone, Copy, PartialEq, Eq)]
pub struct Timestamp {
    pub secs: i64,
    pub nanos: u32,
}

/// Nanoseconds since the epoch.
pub open spec fn ts_nanos(t: Timestamp) -> int {
    t.secs * 1_000_000_000 + t.nanos
}

/// Whether `a` is at or before `b` (by seconds, then nanoseconds).
pub open spec fn ts_le(a: Timestamp, b: Timestamp) -> bool {
    a.secs < b.secs || (a.secs == b.secs && a.nanos <= b.nanos)
}

/// The earliest and latest whole seconds `chrono::DateTime<Utc>` represents
/// (from the start of year -262143 to the end of year 262142).
pub open spec fn utc_secs_in_range(secs: int) -> bool {
    -8_334_601_228_800 <= secs <= 8_210_266_876_799
}

/// Whether adding `secs` seconds to `t` stays where chrono neither panics
/// nor overflows: `TimeDelta::seconds` accepts at most `i64::MAX / 1000`
/// seconds either way, and both instants lie in the representable range.
pub open spec fn expiry_in_range(t: Timestamp, secs: i64) -> bool {
    &&& t.nanos < 1_000_000_000
    &&& -(i64::MAX / 1000) <= secs <= i64::MAX / 1000
    &&& utc_secs_in_range(t.secs as int)
    &&& utc_secs_in_range(t.secs + secs)
}

/// `t` plus `secs` seconds (`DateTime<Utc> + TimeDelta::seconds(secs)`).
#[verifier::external_body]
fn add_seconds(t: Timestamp, secs: i64) -> (r: Timestamp)
    requires
        expiry_in_range(t, secs),
    ensures
        r.secs == t.secs + secs,
        r.nanos == t.nanos,
{
    let start = chrono::DateTime::from_timestamp(t.secs, t.nanos).unwrap();
    let end = start + chrono::TimeDelta::seconds(secs);
    Timestamp { secs: end.timestamp(), nanos: end.timestamp_subsec_nanos() }
}

/// The current time (`chrono::Utc::now`): an instant chrono represents, with
/// a sub-second part below one second. Nothing else is stated of it.
#[verifier::external_body]
pub(crate) fn utc_now() -> (r: Timestamp)
    ensures
        r.nanos < 1_000_000_000,
        utc_secs_in_range(r.secs as int),
{
    let now = chrono::Utc::now();
    Timestamp { secs: now.timestamp(), nanos: now.timestamp_subsec_nanos() }
}

/// Whether `chrono::DateTime::<Utc>::from_timestamp(t.secs, t.nanos)` gives
/// an instant: the seconds lie in chrono's range, and a sub-second part of a
/// second or more (a leap second) only follows the 59th second of a minute.
pub open spec fn chrono_instant(t: Timestamp) -> bool {
    &&& utc_secs_in_range(t.secs as int)
    &&& t.nanos < 2_000_000_000
    &&& t.nanos >= 1_000_000_000 ==> t.secs % 60 == 59
}

/// Whether a time is an instant chrono represents.
pub fn is_chrono_instant(t: Timestamp) -> (r: bool)
    ensures
        r == chrono_instant(t),
{
    let within = -8_334_601_228_800 <= t.secs && t.secs <= 8_210_266_876_799;
    let mut second = t.secs % 60;
    if second < 0 {
        second = second + 60;
    }
    within && t.nanos < 2_000_000_000 && (t.nanos < 1_000_000_000 || second == 59)
}

/// The whole hours, counted toward zero, that `chrono` reports from
/// `then` to `now`: `(now - then).num_hours()` for the two instants.
pub uninterp spec fn chrono_age_hours(now: Timestamp, then: Timestamp) -> int;

/// The whole hours from `then` to `now` (`DateTime - DateTime`, then
/// `TimeDelta::num_hours`). Away from leap seconds chrono subtracts the two
/// times exactly, so the age is under one hour exactly when less than an
/// hour separates them.
#[verifier::external_body]
pub(crate) fn age_hours(now: Timestamp, then: Timestamp) -> (r: i64)
    requires
        chrono_instant(now),
        chrono_instant(then),
    ensures
        r == chrono_age_hours(now, then),
        now.nanos < 1_000_000_000 && then.nanos < 1_000_000_000 ==> (r < 1 <==> ts_nanos(now)
            - ts_nanos(then) < 3_600_000_000_000),
{
    let a = chrono::DateTime::from_timestamp(now.secs, now.nanos).unwrap();
    let b = chrono::DateTime::from_timestamp(then.secs, then.nanos).unwrap();
    (a - b).num_hours()
}

/// Whether `expires_at_after(now, secs)` may be called.
pub fn expiry_fits(now: Timestamp, secs: i64) -> (r: bool)
    ensures
        r == expiry_in_range(now, secs),
{
    now.nanos < 1_000_000_000 && -(i64::MAX / 1000) <= secs && secs <= i64::MAX / 1000
        && -8_334_601_228_800 <= now.secs && now.secs <= 8_210_266_876_799 && (
    -8_334_601_228_800 - now.secs <= secs) && (secs <= 8_210_266_876_799 - now.secs)
}

/// The instant `secs` seconds after `now`, when an access token granted at
/// `now` for `secs` seconds expires.
pub fn expires_at_after(now: Timestamp, secs: i64) -> (r: Timestamp)
    requires
        expiry_in_range(now, secs),
    ensures
        r.secs == now.secs + secs,
        r.nanos == now.nanos,
{
    add_seconds(now, secs)
}

// ---------------------------------------------------------------------------
// OAuth and sessions
// ---------------------------------------------------------------------------

/// The access an OAuth application asks for.
#[derive(Debug, Clone, Copy, PartialEq, Eq)]
pub enum OAuthScope {
    ReadOnly,
    FullAccess,
}

impl OAuthScope {
    /// The `scope` parameter to send: `read-only`, or none for full access.
    pub fn as_api_scope(&self) -> (r: Option<&'static str>)
        ensures
            match self {
                OAuthScope::ReadOnly => r is Some && r->Some_0@ == "read-only"@,
                OAuthScope::FullAccess => r is None,
            },
    {
        match self {
            OAuthScope::ReadOnly => Some("read-only"),
            OAuthScope::FullAccess => None,
        }
    }
}

/// Credentials stored for a profile.
#[derive(Debug)]
pub enum StoredSession {
    PersonalAccessToken { access_token: String },
    OAuth {
        access_token: String,
        refresh_token: String,
        expires_at: Timestamp,
        token_type: String,
        scope: Option<String>,
        client_id: String,
        client_secret: String,
        redirect_uri: String,
    },
}

/// The token sent as the bearer credential.
pub open spec fn session_token(s: StoredSession) -> Seq<char> {
    match s {
        StoredSession::PersonalAccessToken { access_token } => access_token@,
        StoredSession::OAuth { access_token, .. } => access_token@,
    }
}

/// Whether an OAuth session is within a minute of expiring at `now`.
pub open spec fn session_needs_refresh(s: StoredSession, now: Timestamp) -> bool {
    match s {
        StoredSession::PersonalAccessToken { .. } => false,
        StoredSession::OAuth { expires_at, .. } => ts_le(
            expires_at,
            Timestamp { secs: (now.secs + 60) as i64, nanos: now.nanos },
        ),
    }
}

impl StoredSession {
    /// The token to send as the bearer credential.
    pub fn bearer_token(&self) -> (r: &String)
        ensures
            r@ == session_token(*self),
    {
        match self {
            StoredSession::PersonalAccessToken { access_token } => access_token,
            StoredSession::OAuth { access_token, .. } => access_token,
        }
    }

    /// Whether the session came from OAuth.
    pub fn is_oauth(&self) -> (r: bool)
        ensures
            r == (*self is OAuth),
    {
        match self {
            StoredSession::OAuth { .. } => true,
            _ => false,
        }
    }

    /// Whether the session must be refreshed now: an OAuth session expiring
    /// within the next 60 seconds.
    pub fn needs_refresh(&self) -> (r: bool)
        ensures
            exists|now: Timestamp| r == session_needs_refresh(*self, now),
    {
        let now = utc_now();
        self.needs_refresh_at(now)
    }

    /// Whether the session must be refreshed before use at `now`: an OAuth
    /// session expiring within the 60 seconds after `now`.
    pub fn needs_refresh_at(&self, now: Timestamp) -> (r: bool)
        requires
            now.secs <= i64::MAX - 60,
        ensures
            r == session_needs_refresh(*self, now),
    {
        match self {
            StoredSession::PersonalAccessToken { .. } => false,
            StoredSession::OAuth { expires_at, .. } => {
                let limit = now.secs + 60;
                expires_at.secs < limit || (expires_at.secs == limit && expires_at.nanos
                    <= now.nanos)
            },
        }
    }

    /// A copy of the session.
    pub fn copy(&self) -> (r: StoredSession)
        ensures
            r == *self,
    {
        match self {
            StoredSession::PersonalAccessToken { access_token } => {
                StoredSession::PersonalAccessToken { access_token: access_token.clone() }
            },
            StoredSession::OAuth {
                access_token,
                refresh_token,
                expires_at,
                token_type,
                scope,
                client_id,
                client_secret,
                redirect_uri,
            } => StoredSession::OAuth {
                access_token: access_token.clone(),
                refresh_token: refresh_token.clone(),
                expires_at: *expires_at,
                token_type: token_type.clone(),
                scope: match scope {
                    Some(s) => Some(s.clone()),
                    None => None,
                },
                client_id: client_id.clone(),
                client_secret: client_secret.clone(),
                redirect_uri: redirect_uri.clone(),
            },
        }
    }
}

// ---------------------------------------------------------------------------
// Envelopes and API payloads
// ---------------------------------------------------------------------------

/// `{ "ok": ..., "data": ... }`
#[derive(Debug)]
pub struct OutputEnvelope {
    pub ok: bool,
    pub data: Json,
}

/// The `data` member of an API response.
#[derive(Debug)]
pub struct ApiResponse<T> {
    pub data: T,
}

/// An API error response.
#[derive(Debug)]
pub struct ApiErrorResponse {
    pub error: ApiErrorBody,
}

/// The error member of an API error response.
#[derive(Debug)]
pub struct ApiErrorBody {
    pub id: String,
    pub name: String,
    pub detail: String,
}

/// A list of plans.
#[derive(Debug)]
pub struct PlansData {
    pub plans: Vec<PlanSummary>,
    pub default_plan: Option<PlanSummary>,
    pub server_knowledge: Option<u64>,
}

/// One plan.
#[derive(Debug)]
pub struct PlanData {
    pub plan: Json,
}

/// A list of accounts.
#[derive(Debug)]
pub struct AccountsData {
    pub accounts: Vec<NamedResource>,
    pub server_knowledge: Option<u64>,
}

/// A list of payees.
#[derive(Debug)]
pub struct PayeesData {
    pub payees: Vec<NamedResource>,
    pub server_knowledge: Option<u64>,
}

/// A list of transactions.
#[derive(Debug)]
pub struct TransactionsData {
    pub transactions: Vec<Json>,
    pub server_knowledge: Option<u64>,
}

/// Which cleared states a transaction listing keeps.
#[derive(Debug, Clone, Copy, PartialEq, Eq)]
pub enum TransactionClearedFilter {
    Cleared,
    Uncleared,
}

/// A list of category groups.
#[derive(Debug)]
pub struct CategoryGroupsData {
    pub category_groups: Vec<CategoryGroup>,
    pub server_knowledge: Option<u64>,
}

/// The categories of a group.
#[derive(Debug)]
pub struct CategoryGroup {
    pub categories: Vec<NamedResource>,
}

/// A plan as listed.
#[derive(Debug, Clone)]
pub struct PlanSummary {
    pub id: String,
    pub name: String,
    pub last_modified_on: Option<Timestamp>,
}

/// Anything with an id and a name.
#[derive(Debug, Clone)]
pub struct NamedResource {
    pub id: String,
    pub name: String,
}

impl NamedResource {
    /// The id and name of a plan.
    pub fn from_plan(value: &PlanSummary) -> (r: NamedResource)
        ensures
            r.id == value.id,
            r.name == value.name,
    {
        NamedResource { id: value.id.clone(), name: value.name.clone() }
    }
}

/// `{ "transaction": ... }` for creating a transaction.
#[derive(Debug)]
pub struct SaveTransactionRequest {
    pub transaction: SaveTransaction,
}

/// `{ "payee": ... }` for creating a payee.
#[derive(Debug)]
pub struct PostPayeeWrapper {
    pub payee: PostPayee,
}

/// A new payee.
#[derive(Debug)]
pub struct PostPayee {
    pub name: String,
}

/// `{ "payee": ... }` for changing a payee.
#[derive(Debug)]
pub struct PatchPayeeWrapper {
    pub payee: SavePayee,
}

/// Changes to a payee.
#[derive(Debug)]
pub struct SavePayee {
    pub name: Option<String>,
}

/// `{ "category": ... }` for creating a category.
#[derive(Debug)]
pub struct PostCategoryWrapper {
    pub category: SaveCategory,
}

/// `{ "category": ... }` for changing a category.
#[derive(Debug)]
pub struct PatchCategoryWrapper {
    pub category: SaveCategory,
}

/// The fields of a category to create or change.
#[derive(Debug, Default)]
pub struct SaveCategory {
    pub name: Option<String>,
    pub note: Option<String>,
    pub category_group_id: Option<String>,
    pub goal_target: Option<i64>,
    pub goal_target_date: Option<String>,
    pub goal_needs_whole_amount: Option<bool>,
}

/// `{ "category_group": ... }` for creating a category group.
#[derive(Debug)]
pub struct PostCategoryGroupWrapper {
    pub category_group: SaveCategoryGroup,
}

/// `{ "category_group": ... }` for renaming a category group.
#[derive(Debug)]
pub struct PatchCategoryGroupWrapper {
    pub category_group: SaveCategoryGroup,
}

/// A category group name.
#[derive(Debug)]
pub struct SaveCategoryGroup {
    pub name: String,
}

/// `{ "category": ... }` for a month's budgeted amount.
#[derive(Debug)]
pub struct PatchMonthCategoryWrapper {
    pub category: SaveMonthCategory,
}

/// A month's budgeted amount in milliunits.
#[derive(Debug)]
pub struct SaveMonthCategory {
    pub budgeted: i64,
}

/// The fields of a transaction to create.
#[derive(Debug)]
pub struct SaveTransaction {
    pub account_id: String,
    pub date: String,
    pub amount: i64,
    pub id: Option<String>,
    pub import_id: Option<String>,
    pub payee_id: Option<String>,
    pub payee_name: Option<String>,
    pub category_id: Option<String>,
    pub memo: Option<String>,
    pub cleared: Option<String>,
    pub approved: Option<bool>,
    pub flag_color: Option<String>,
}

/// `{ "transaction": ... }` for changing a transaction.
#[derive(Debug, Default)]
pub struct UpdateTransactionRequest {
    pub transaction: Option<UpdateTransaction>,
}

/// The fields of a transaction to change.
#[derive(Debug, Default)]
pub struct UpdateTransaction {
    pub account_id: Option<String>,
    pub date: Option<String>,
    pub amount: Option<i64>,
    pub payee_id: Option<String>,
    pub payee_name: Option<String>,
    pub category_id: Option<String>,
    pub memo: Option<String>,
    pub cleared: Option<String>,
    pub approved: Option<bool>,
    pub flag_color: Option<String>,
}

} // verus!
