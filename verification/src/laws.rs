//! Properties that hold across the library's operations.

use vstd::prelude::*;

use crate::app::{
    object_of, save_transaction_members, update_transaction_members, cleared_status, str_member, transaction_date, filters_keep, is_most_recent_at, keep_where, name_key, name_matches, plan_candidates,
    plan_ranks_below, resolution_matches, search_keeps, ResolveByNameKind,
    TransactionListOptions, TransactionSearchOptions,
};
use crate::cli::{
    copied_bool, copied_str, int_member, sub_members, string_member, subtransactions_export, transaction_export,
    transaction_members, transactions_export, transactions_request_outcome,
};
use crate::inputs::iso_date_outcome;
use crate::json::{
    insert_entry, keys_sorted, lemma_insert_entry_split, lemma_lookup_at, lemma_lookup_sorted_absent,
    lemma_sorted_unique, lookup, int_view, JsonV,
};
use crate::config::ProfileConfig;
use crate::models::{amount_spec, NamedResource, PlanSummary, SaveTransaction, TransactionClearedFilter, UpdateTransaction};
use crate::dates::{date_lt, parsed_date};
use crate::cli::{
    account_type_arg_value, frequency_arg_value, transaction_type_value, AccountTypeArg,
    ScheduledFrequencyArg, TransactionApiTypeArg,
};
use crate::mcp_types::{
    account_type_value, frequency_value, opt_int, opt_member, AccountTypeParam, ScheduledFrequencyParam,
};
use crate::scheduled::{scheduled_update_members, scheduled_create_outcome, scheduled_optional_members, scheduled_required_members};
use crate::secrets::{changed_entry, empty_entry, FileChange, ProfileSecrets};
use crate::text::{contains_seq, lowercase, trimmed, is_white_space, trim_end, trim_start, chars_lt, lemma_chars_lt_asymmetric, lemma_chars_lt_irreflexive, lemma_chars_lt_total, lemma_chars_lt_transitive};

verus! {

// ---------------------------------------------------------------------------
// Export and import
// ---------------------------------------------------------------------------

/// What `transactions export` writes is accepted by `transactions import`
/// as it is: it is an object holding `transactions`.
pub proof fn law_export_is_importable(items: Seq<JsonV>, allow_single: bool)
    requires
        transactions_export(items, items.len()) is Ok,
    ensures
        ({
            let payload = JsonV::Object(
                insert_entry(
                    Seq::empty(),
                    "transactions"@,
                    JsonV::Array(transactions_export(items, items.len())->Ok_0),
                ),
            );
            transactions_request_outcome(payload, allow_single) == Ok::<JsonV, Seq<char>>(payload)
        }),
{
    let payload = JsonV::Object(
        insert_entry(
            Seq::empty(),
            "transactions"@,
            JsonV::Array(transactions_export(items, items.len())->Ok_0),
        ),
    );
    let e = insert_entry(
        Seq::<(Seq<char>, JsonV)>::empty(),
        "transactions"@,
        JsonV::Array(transactions_export(items, items.len())->Ok_0),
    );
    assert(e.drop_last().len() == 0);
    assert(lookup(e, "transactions"@) is Some);
}

/// A transaction marked deleted is left out of an export: exporting a
/// listing with it appended gives what the listing alone gives.
pub proof fn law_export_skips_deleted(items: Seq<JsonV>, e: Seq<(Seq<char>, JsonV)>)
    requires
        lookup(e, "deleted"@) == Some(JsonV::Bool(true)),
    ensures
        transaction_export(JsonV::Object(e), items.len()) == Ok::<Option<JsonV>, Seq<char>>(None),
        transactions_export(items.push(JsonV::Object(e)), items.len() + 1) == transactions_export(
            items,
            items.len(),
        ),
{
    let all = items.push(JsonV::Object(e));
    assert forall|n: nat| n <= items.len() implies transactions_export(all, n)
        == transactions_export(items, n) by {
        lemma_export_prefix(items, JsonV::Object(e), n);
    }
}

proof fn lemma_export_prefix(items: Seq<JsonV>, x: JsonV, n: nat)
    requires
        n <= items.len(),
    ensures
        transactions_export(items.push(x), n) == transactions_export(items, n),
    decreases n,
{
    if n > 0 {
        lemma_export_prefix(items, x, (n - 1) as nat);
        assert(items.push(x)[n - 1] == items[n - 1]);
    }
}

// ---------------------------------------------------------------------------
// Filters
// ---------------------------------------------------------------------------

/// Every transaction a filter keeps satisfies it, and each comes from the
/// listing.
pub proof fn law_kept_satisfy(s: Seq<JsonV>, p: spec_fn(JsonV) -> bool)
    ensures
        forall|i: int| 0 <= i < keep_where(s, p).len() ==> p(#[trigger] keep_where(s, p)[i]),
        forall|i: int| 0 <= i < keep_where(s, p).len() ==> s.contains(#[trigger] keep_where(s, p)[i]),
        keep_where(s, p).len() <= s.len(),
    decreases s.len(),
{
    if s.len() > 0 {
        law_kept_satisfy(s.drop_last(), p);
        let r = keep_where(s.drop_last(), p);
        assert forall|i: int| 0 <= i < keep_where(s, p).len() implies s.contains(
            #[trigger] keep_where(s, p)[i],
        ) by {
            if i < r.len() {
                let x = r[i];
                assert(s.drop_last().contains(x));
                let j = choose|j: int| 0 <= j < s.drop_last().len() && s.drop_last()[j] == x;
                assert(s[j] == x);
            } else {
                assert(s[s.len() - 1] == s.last());
            }
        }
    }
}

/// Filtering twice keeps what filtering once keeps.
pub proof fn law_filter_idempotent(s: Seq<JsonV>, p: spec_fn(JsonV) -> bool)
    ensures
        keep_where(keep_where(s, p), p) == keep_where(s, p),
    decreases s.len(),
{
    if s.len() > 0 {
        law_filter_idempotent(s.drop_last(), p);
        let r = keep_where(s.drop_last(), p);
        if p(s.last()) {
            assert(r.push(s.last()).drop_last() =~= r);
        }
    }
}

/// The predicate of a listing's local filters.
pub open spec fn listing_filter(o: TransactionListOptions) -> spec_fn(JsonV) -> bool {
    |t: JsonV| filters_keep(t, o)
}

/// The predicate of a search.
pub open spec fn search_predicate(q: TransactionSearchOptions) -> spec_fn(JsonV) -> bool {
    |t: JsonV| search_keeps(t, q)
}

/// The transactions a listing keeps with `o`, and those a search keeps
/// with `q`, satisfy them.
pub proof fn law_listing_and_search_sound(
    s: Seq<JsonV>,
    o: TransactionListOptions,
    q: TransactionSearchOptions,
)
    ensures
        forall|i: int|
            0 <= i < keep_where(s, listing_filter(o)).len() ==> filters_keep(
                #[trigger] keep_where(s, listing_filter(o))[i],
                o,
            ),
        forall|i: int|
            0 <= i < keep_where(s, search_predicate(q)).len() ==> search_keeps(
                #[trigger] keep_where(s, search_predicate(q))[i],
                q,
            ),
{
    law_kept_satisfy(s, listing_filter(o));
    law_kept_satisfy(s, search_predicate(q));
}

// ---------------------------------------------------------------------------
// Plans and names
// ---------------------------------------------------------------------------

/// At most one candidate is the most recent plan.
pub proof fn law_most_recent_unique(c: Seq<PlanSummary>, k1: int, k2: int)
    requires
        is_most_recent_at(c, k1),
        is_most_recent_at(c, k2),
    ensures
        k1 == k2,
{
    if k1 < k2 {
        assert(plan_ranks_below(c[k2], c[k1]));
        assert(!plan_ranks_below(c[k2], c[k1]) || k1 == k2);
    } else if k2 < k1 {
        assert(plan_ranks_below(c[k1], c[k2]));
        assert(!plan_ranks_below(c[k1], c[k2]) || k1 == k2);
    }
}

/// Name resolution ignores case and surrounding white space: two names with
/// the same trimmed, lowercased form resolve alike.
pub proof fn law_resolution_ignores_case_and_spacing(
    kind: ResolveByNameKind,
    n1: Seq<char>,
    n2: Seq<char>,
    resources: Seq<NamedResource>,
    r1: Result<String, crate::error::YnabError>,
    r2: Result<String, crate::error::YnabError>,
)
    requires
        name_key(n1) == name_key(n2),
        resolution_matches(r1, kind, n1, resources),
        resolution_matches(r2, kind, n2, resources),
    ensures
        r1 is Ok <==> r2 is Ok,
        r1 is Ok ==> r1->Ok_0@ == r2->Ok_0@,
{
}

/// A name resolves to an id exactly when one resource bears it.
pub proof fn law_resolution_needs_one_match(
    kind: ResolveByNameKind,
    name: Seq<char>,
    resources: Seq<NamedResource>,
    r: Result<String, crate::error::YnabError>,
)
    requires
        resolution_matches(r, kind, name, resources),
    ensures
        r is Ok <==> name_matches(resources, name_key(name)).len() == 1,
{
}

// ---------------------------------------------------------------------------
// Secrets file
// ---------------------------------------------------------------------------

/// The entry a change leaves for `profile`.
pub open spec fn after_change(
    m: Map<Seq<char>, ProfileSecrets>,
    profile: Seq<char>,
    change: FileChange,
) -> Map<Seq<char>, ProfileSecrets> {
    m.insert(
        profile,
        changed_entry(
            if m.dom().contains(profile) {
                m[profile]
            } else {
                empty_entry()
            },
            change,
        ),
    )
}

/// A stored session is read back, a cleared one reads as none, the other
/// credential of the profile is kept, and other profiles are untouched.
pub proof fn law_secrets_read_after_write(
    m: Map<Seq<char>, ProfileSecrets>,
    profile: Seq<char>,
    other: Seq<char>,
    change: FileChange,
)
    ensures
        after_change(m, profile, change).dom().contains(profile),
        change matches FileChange::SetSession(s) ==> after_change(m, profile, change)[profile].session
            == Some(s),
        change is ClearSession ==> after_change(m, profile, change)[profile].session is None,
        change matches FileChange::SetOAuthClientSecret(c) ==> after_change(
            m,
            profile,
            change,
        )[profile].oauth_client_secret == Some(c),
        !(change is SetOAuthClientSecret) ==> after_change(m, profile, change)[profile].oauth_client_secret
            == (if m.dom().contains(profile) {
            m[profile].oauth_client_secret
        } else {
            None
        }),
        other != profile ==> after_change(m, profile, change).dom().contains(other)
            == m.dom().contains(other),
        other != profile && m.dom().contains(other) ==> after_change(m, profile, change)[other]
            == m[other],
{
}

// ---------------------------------------------------------------------------
// Amounts
// ---------------------------------------------------------------------------

/// Trailing white space goes the same way with a character in front:
/// when `x` starts with a character that is not white space,
/// `trim_end(c + x) == c + trim_end(x)`.
proof fn lemma_trim_end_prefix(c: char, x: Seq<char>)
    requires
        x.len() > 0,
        !is_white_space(x[0]),
    ensures
        trim_end(seq![c] + x) == seq![c] + trim_end(x),
    decreases x.len(),
{
    let y = seq![c] + x;
    if is_white_space(x.last()) {
        assert(x.len() > 1);
        assert(y.last() == x.last());
        assert(y.drop_last() =~= seq![c] + x.drop_last());
        lemma_trim_end_prefix(c, x.drop_last());
    } else {
        assert(y.last() == x.last());
    }
}

/// A leading `-` negates an amount and a leading `+` leaves it as it is: an
/// unsigned amount text that does not start with white space reads with
/// either sign in front exactly when it reads alone, and to its negation or
/// itself.
pub proof fn law_amount_sign(x: Seq<char>)
    requires
        x.len() > 0,
        !is_white_space(x[0]),
        x[0] != '-',
        x[0] != '+',
    ensures
        amount_spec("-"@ + x) is Ok <==> amount_spec(x) is Ok,
        amount_spec("+"@ + x) is Ok <==> amount_spec(x) is Ok,
        amount_spec(x) is Ok ==> amount_spec("-"@ + x)->Ok_0 == -amount_spec(x)->Ok_0,
        amount_spec(x) is Ok ==> amount_spec("+"@ + x)->Ok_0 == amount_spec(x)->Ok_0,
{
    reveal_strlit("-");
    reveal_strlit("+");
    let neg = "-"@ + x;
    let pos = "+"@ + x;
    assert("-"@ =~= seq!['-']);
    assert("+"@ =~= seq!['+']);
    assert(!is_white_space('-'));
    assert(!is_white_space('+'));
    assert(trim_start(x) == x);
    assert(trim_start(neg) == neg);
    assert(trim_start(pos) == pos);
    lemma_trim_end_prefix('-', x);
    lemma_trim_end_prefix('+', x);
    let t = trim_end(x);
    assert(crate::text::trimmed(x) == t);
    assert(crate::text::trimmed(neg) == seq!['-'] + t);
    assert(crate::text::trimmed(pos) == seq!['+'] + t);
    assert(t.len() > 0 && t[0] == x[0]) by {
        lemma_trim_end_keeps_first(x);
    }
    assert((seq!['-'] + t).drop_first() =~= t);
    assert((seq!['+'] + t).drop_first() =~= t);
}

proof fn lemma_trim_end_keeps_first(x: Seq<char>)
    requires
        x.len() > 0,
        !is_white_space(x[0]),
    ensures
        trim_end(x).len() > 0,
        trim_end(x)[0] == x[0],
    decreases x.len(),
{
    if is_white_space(x.last()) {
        assert(x.len() > 1);
        lemma_trim_end_keeps_first(x.drop_last());
    }
}

// ---------------------------------------------------------------------------
// JSON objects
// ---------------------------------------------------------------------------

/// The first position whose key is not below `key` (the length when every
/// key is below it).
proof fn first_not_below(e: Seq<(Seq<char>, JsonV)>, key: Seq<char>) -> (i: int)
    ensures
        0 <= i <= e.len(),
        forall|j: int| 0 <= j < i ==> chars_lt(#[trigger] e[j].0, key),
        i < e.len() ==> !chars_lt(e[i].0, key),
    decreases e.len(),
{
    if e.len() == 0 {
        0
    } else {
        let i = first_not_below(e.drop_last(), key);
        assert forall|j: int| 0 <= j < i implies chars_lt(#[trigger] e[j].0, key) by {
            assert(e[j] == e.drop_last()[j]);
        }
        if i < e.len() - 1 {
            assert(e[i] == e.drop_last()[i]);
            i
        } else if chars_lt(e.last().0, key) {
            e.len() as int
        } else {
            i
        }
    }
}

/// Where the keys of a sorted sequence stand relative to `key`, split at
/// the first position `i` not below it: no position other than `i` holds
/// `key`.
proof fn lemma_only_at_split(e: Seq<(Seq<char>, JsonV)>, key: Seq<char>, i: int, j: int)
    requires
        keys_sorted(e),
        0 <= i <= e.len(),
        forall|m: int| 0 <= m < i ==> chars_lt(#[trigger] e[m].0, key),
        i < e.len() ==> !chars_lt(e[i].0, key),
        0 <= j < e.len(),
        j != i,
    ensures
        e[j].0 != key,
{
    if j < i {
        assert(chars_lt(e[j].0, key));
        if e[j].0 == key {
            lemma_chars_lt_irreflexive(key);
        }
    } else {
        assert(chars_lt(e[i].0, e[j].0));
        if e[i].0 == key {
            lemma_sorted_unique(e, i, j);
        } else {
            lemma_chars_lt_total(e[i].0, key);
            lemma_chars_lt_transitive(key, e[i].0, e[j].0);
            if e[j].0 == key {
                lemma_chars_lt_irreflexive(key);
            }
        }
    }
}

/// A JSON object reads back what was stored: after storing `val` under
/// `key`, `key` reads as `val`, and every other key reads as before.
pub proof fn law_object_read_after_write(
    e: Seq<(Seq<char>, JsonV)>,
    key: Seq<char>,
    val: JsonV,
    other: Seq<char>,
)
    requires
        keys_sorted(e),
    ensures
        lookup(insert_entry(e, key, val), key) == Some(val),
        other != key ==> lookup(insert_entry(e, key, val), other) == lookup(e, other),
{
    let i = first_not_below(e, key);
    lemma_insert_entry_split(e, key, val, i);
    let r = insert_entry(e, key, val);
    let replace = i < e.len() && e[i].0 == key;
    assert forall|j: int| 0 <= j < e.len() && j != i implies #[trigger] e[j].0 != key by {
        lemma_only_at_split(e, key, i, j);
    }
    // the positions of `r` and where they come from in `e`
    if replace {
        assert(r == e.update(i, (key, val)));
        assert forall|j: int| 0 <= j < r.len() && j != i implies #[trigger] r[j].0 != key by {
            assert(r[j] == e[j]);
        }
        lemma_lookup_at(r, key, i);
        if other != key {
            if exists|j: int| 0 <= j < e.len() && #[trigger] e[j].0 == other {
                let j = choose|j: int| 0 <= j < e.len() && #[trigger] e[j].0 == other;
                assert(j != i);
                assert forall|m: int| 0 <= m < e.len() && m != j implies #[trigger] e[m].0 != other by {
                    lemma_sorted_unique(e, j, m);
                }
                lemma_lookup_at(e, other, j);
                assert(r[j] == e[j]);
                assert forall|m: int| 0 <= m < r.len() && m != j implies #[trigger] r[m].0 != other by {
                    if m != i {
                        assert(r[m] == e[m]);
                    }
                }
                lemma_lookup_at(r, other, j);
            } else {
                lemma_lookup_sorted_absent(e, other);
                assert forall|m: int| 0 <= m < r.len() implies #[trigger] r[m].0 != other by {
                    if m != i {
                        assert(r[m] == e[m]);
                    }
                }
                lemma_lookup_sorted_absent(r, other);
            }
        }
    } else {
        assert(r == e.subrange(0, i).push((key, val)) + e.subrange(i, e.len() as int));
        assert(r.len() == e.len() + 1);
        assert(r[i] == (key, val));
        assert forall|j: int| 0 <= j < r.len() && j != i implies #[trigger] r[j].0 != key by {
            if j < i {
                assert(r[j] == e[j]);
            } else {
                assert(r[j] == e[j - 1]);
                if i < e.len() && j - 1 == i {
                    assert(e[i].0 != key);
                }
            }
        }
        lemma_lookup_at(r, key, i);
        if other != key {
            if exists|j: int| 0 <= j < e.len() && #[trigger] e[j].0 == other {
                let j = choose|j: int| 0 <= j < e.len() && #[trigger] e[j].0 == other;
                assert forall|m: int| 0 <= m < e.len() && m != j implies #[trigger] e[m].0 != other by {
                    lemma_sorted_unique(e, j, m);
                }
                lemma_lookup_at(e, other, j);
                let rj = if j < i { j } else { j + 1 };
                assert(r[rj] == e[j]);
                assert forall|m: int| 0 <= m < r.len() && m != rj implies #[trigger] r[m].0 != other by {
                    if m < i {
                        assert(r[m] == e[m]);
                    } else if m > i {
                        assert(r[m] == e[m - 1]);
                    }
                }
                lemma_lookup_at(r, other, rj);
            } else {
                lemma_lookup_sorted_absent(e, other);
                assert forall|m: int| 0 <= m < r.len() implies #[trigger] r[m].0 != other by {
                    if m < i {
                        assert(r[m] == e[m]);
                    } else if m > i {
                        assert(r[m] == e[m - 1]);
                    }
                }
                lemma_lookup_sorted_absent(r, other);
            }
        }
    }
}

// ---------------------------------------------------------------------------
// Profiles
// ---------------------------------------------------------------------------

/// A profile reads back what was stored: after `update_profile` stores `p`
/// under an existing `name` (which `profile` then reads from the
/// configuration's profiles), `name` reads as `p` and every other profile
/// reads as before.
pub proof fn law_profile_read_after_update(
    profiles: Map<Seq<char>, ProfileConfig>,
    name: Seq<char>,
    p: ProfileConfig,
    other: Seq<char>,
)
    requires
        profiles.dom().contains(name),
    ensures
        profiles.insert(name, p).dom().contains(name),
        profiles.insert(name, p)[name] == p,
        other != name ==> profiles.insert(name, p).dom().contains(other) == profiles.dom().contains(
            other,
        ),
        other != name && profiles.dom().contains(other) ==> profiles.insert(name, p)[other]
            == profiles[other],
{
}

// ---------------------------------------------------------------------------
// Local filters and search
// ---------------------------------------------------------------------------

/// A listing keeps exactly the transactions whose `date` member reads as a
/// date in the inclusive range the options give, and whose `cleared` member
/// is one the cleared filter accepts (`cleared` and `reconciled` for
/// cleared, `uncleared` for uncleared).
pub proof fn law_listing_filter_range(t: JsonV, o: TransactionListOptions)
    ensures
        filters_keep(t, o) ==> str_member(t, "date"@) is Some && parsed_date(
            str_member(t, "date"@)->Some_0,
        ) is Some,
        filters_keep(t, o) && o.end_date is Some ==> !date_lt(
            o.end_date->Some_0,
            transaction_date(t)->Some_0,
        ),
        filters_keep(t, o) && o.start_date is Some ==> !date_lt(
            transaction_date(t)->Some_0,
            o.start_date->Some_0,
        ),
        filters_keep(t, o) && o.cleared_filter == Some(TransactionClearedFilter::Cleared) ==> (
        str_member(t, "cleared"@) == Some("cleared"@) || str_member(t, "cleared"@) == Some(
            "reconciled"@,
        )),
        filters_keep(t, o) && o.cleared_filter == Some(TransactionClearedFilter::Uncleared) ==> str_member(
            t,
            "cleared"@,
        ) == Some("uncleared"@),
        (transaction_date(t) is Some && (o.start_date is Some ==> !date_lt(
            transaction_date(t)->Some_0,
            o.start_date->Some_0,
        )) && (o.end_date is Some ==> !date_lt(o.end_date->Some_0, transaction_date(t)->Some_0))
            && (o.cleared_filter == Some(TransactionClearedFilter::Cleared) ==> (str_member(
            t,
            "cleared"@,
        ) == Some("cleared"@) || str_member(t, "cleared"@) == Some("reconciled"@))) && (
        o.cleared_filter == Some(TransactionClearedFilter::Uncleared) ==> str_member(t, "cleared"@)
            == Some("uncleared"@))) ==> filters_keep(t, o),
{
    reveal_strlit("cleared");
    reveal_strlit("reconciled");
    reveal_strlit("uncleared");
    if str_member(t, "cleared"@) is None {
        assert(cleared_status(t) =~= Seq::<char>::empty());
        assert("cleared"@.len() == 7);
        assert("reconciled"@.len() == 10);
        assert("uncleared"@.len() == 9);
    }
}

/// Whether `needle`, trimmed, occurs in the string member `field`, ignoring
/// case.
pub open spec fn member_mentions(t: JsonV, field: Seq<char>, needle: Seq<char>) -> bool {
    &&& trimmed(needle).len() > 0
    &&& str_member(t, field) matches Some(v)
    &&& contains_seq(lowercase(v), lowercase(trimmed(needle)))
}

/// A search by query alone keeps exactly the transactions whose payee,
/// memo, account or category name mentions the query; a search by one
/// field keeps exactly those whose field mentions it.
pub proof fn law_search_fields(t: JsonV, q: String)
    ensures
        search_keeps(
            t,
            TransactionSearchOptions { query: Some(q), payee: None, memo: None, account: None, category: None },
        ) <==> (member_mentions(t, "payee_name"@, q@) || member_mentions(t, "memo"@, q@)
            || member_mentions(t, "account_name"@, q@) || member_mentions(t, "category_name"@, q@)),
        search_keeps(
            t,
            TransactionSearchOptions { query: None, payee: Some(q), memo: None, account: None, category: None },
        ) <==> member_mentions(t, "payee_name"@, q@),
        search_keeps(
            t,
            TransactionSearchOptions { query: None, payee: None, memo: Some(q), account: None, category: None },
        ) <==> member_mentions(t, "memo"@, q@),
        search_keeps(
            t,
            TransactionSearchOptions { query: None, payee: None, memo: None, account: Some(q), category: None },
        ) <==> member_mentions(t, "account_name"@, q@),
        search_keeps(
            t,
            TransactionSearchOptions { query: None, payee: None, memo: None, account: None, category: Some(q) },
        ) <==> member_mentions(t, "category_name"@, q@),
{
}

/// A search keeps only transactions meeting every criterion it is given.
pub proof fn law_search_conjunction(t: JsonV, o: TransactionSearchOptions)
    ensures
        search_keeps(t, o) && o.payee is Some ==> member_mentions(t, "payee_name"@, o.payee->Some_0@),
        search_keeps(t, o) && o.memo is Some ==> member_mentions(t, "memo"@, o.memo->Some_0@),
        search_keeps(t, o) && o.account is Some ==> member_mentions(t, "account_name"@, o.account->Some_0@),
        search_keeps(t, o) && o.category is Some ==> member_mentions(t, "category_name"@, o.category->Some_0@),
{
}

// ---------------------------------------------------------------------------
// Scheduled frequencies
// ---------------------------------------------------------------------------

/// The MCP parameter for the same frequency as a command-line argument.
pub open spec fn frequency_param_of(f: ScheduledFrequencyArg) -> ScheduledFrequencyParam {
    match f {
        ScheduledFrequencyArg::Never => ScheduledFrequencyParam::Never,
        ScheduledFrequencyArg::Daily => ScheduledFrequencyParam::Daily,
        ScheduledFrequencyArg::Weekly => ScheduledFrequencyParam::Weekly,
        ScheduledFrequencyArg::EveryOtherWeek => ScheduledFrequencyParam::EveryOtherWeek,
        ScheduledFrequencyArg::TwiceAMonth => ScheduledFrequencyParam::TwiceAMonth,
        ScheduledFrequencyArg::Every4Weeks => ScheduledFrequencyParam::Every4Weeks,
        ScheduledFrequencyArg::Monthly => ScheduledFrequencyParam::Monthly,
        ScheduledFrequencyArg::EveryOtherMonth => ScheduledFrequencyParam::EveryOtherMonth,
        ScheduledFrequencyArg::Every3Months => ScheduledFrequencyParam::Every3Months,
        ScheduledFrequencyArg::Every4Months => ScheduledFrequencyParam::Every4Months,
        ScheduledFrequencyArg::TwiceAYear => ScheduledFrequencyParam::TwiceAYear,
        ScheduledFrequencyArg::Yearly => ScheduledFrequencyParam::Yearly,
        ScheduledFrequencyArg::EveryOtherYear => ScheduledFrequencyParam::EveryOtherYear,
    }
}

/// Different frequencies are sent under different API names, on the command
/// line and through MCP alike, and a frequency is sent under the same name
/// whichever of the two it comes from.
pub proof fn law_frequency_names(a: ScheduledFrequencyArg, b: ScheduledFrequencyArg)
    ensures
        a != b ==> frequency_arg_value(a) != frequency_arg_value(b),
        frequency_param_of(a) != frequency_param_of(b) ==> frequency_value(frequency_param_of(a))
            != frequency_value(frequency_param_of(b)),
        frequency_arg_value(a) == frequency_value(frequency_param_of(a)),
{
    reveal_strlit("never");
    reveal_strlit("daily");
    reveal_strlit("weekly");
    reveal_strlit("everyOtherWeek");
    reveal_strlit("twiceAMonth");
    reveal_strlit("every4Weeks");
    reveal_strlit("monthly");
    reveal_strlit("everyOtherMonth");
    reveal_strlit("every3Months");
    reveal_strlit("every4Months");
    reveal_strlit("twiceAYear");
    reveal_strlit("yearly");
    reveal_strlit("everyOtherYear");
    if a != b {
        let x = frequency_arg_value(a);
        let y = frequency_arg_value(b);
        if x == y {
            assert(x.len() == y.len());
            assert(x[0] == y[0]);
            assert(x[x.len() - 1] == y[y.len() - 1]);
            assert(x[5] == y[5]);
        }
    }
}

// ---------------------------------------------------------------------------
// Objects built member by member
// ---------------------------------------------------------------------------

/// Storing an entry keeps the keys in order; a key below `key` and below
/// every key of `e` stays below every key after the store.
proof fn lemma_insert_entry_sorted(e: Seq<(Seq<char>, JsonV)>, key: Seq<char>, val: JsonV, x: Seq<char>)
    requires
        keys_sorted(e),
    ensures
        keys_sorted(insert_entry(e, key, val)),
        chars_lt(x, key) && (forall|i: int| 0 <= i < e.len() ==> chars_lt(x, #[trigger] e[i].0))
            ==> (forall|j: int|
            0 <= j < insert_entry(e, key, val).len() ==> chars_lt(
                x,
                #[trigger] insert_entry(e, key, val)[j].0,
            )),
    decreases e.len(),
{
    let r = insert_entry(e, key, val);
    if e.len() == 0 {
    } else if e[0].0 == key {
        assert(r == e.update(0, (key, val)));
        assert forall|a: int, b: int| 0 <= a < b < r.len() implies chars_lt(
            #[trigger] r[a].0,
            #[trigger] r[b].0,
        ) by {
            assert(r[a].0 == e[a].0);
            assert(r[b].0 == e[b].0);
        }
        if chars_lt(x, key) && (forall|i: int| 0 <= i < e.len() ==> chars_lt(x, #[trigger] e[i].0)) {
            assert forall|j: int| 0 <= j < r.len() implies chars_lt(x, #[trigger] r[j].0) by {
                assert(r[j].0 == e[j].0);
            }
        }
    } else if chars_lt(key, e[0].0) {
        assert(r == seq![(key, val)] + e);
        assert forall|a: int, b: int| 0 <= a < b < r.len() implies chars_lt(
            #[trigger] r[a].0,
            #[trigger] r[b].0,
        ) by {
            if a == 0 {
                assert(r[b] == e[b - 1]);
                if b > 1 {
                    assert(chars_lt(e[0].0, e[b - 1].0));
                    lemma_chars_lt_transitive(key, e[0].0, e[b - 1].0);
                }
            } else {
                assert(r[a] == e[a - 1]);
                assert(r[b] == e[b - 1]);
            }
        }
        if chars_lt(x, key) && (forall|i: int| 0 <= i < e.len() ==> chars_lt(x, #[trigger] e[i].0)) {
            assert forall|j: int| 0 <= j < r.len() implies chars_lt(x, #[trigger] r[j].0) by {
                if j > 0 {
                    assert(r[j] == e[j - 1]);
                }
            }
        }
    } else {
        let rest = e.drop_first();
        lemma_chars_lt_total(e[0].0, key);
        assert forall|a: int, b: int| 0 <= a < b < rest.len() implies chars_lt(
            #[trigger] rest[a].0,
            #[trigger] rest[b].0,
        ) by {
            assert(rest[a] == e[a + 1]);
            assert(rest[b] == e[b + 1]);
        }
        assert forall|i: int| 0 <= i < rest.len() implies chars_lt(e[0].0, #[trigger] rest[i].0) by {
            assert(rest[i] == e[i + 1]);
        }
        lemma_insert_entry_sorted(rest, key, val, e[0].0);
        lemma_insert_entry_sorted(rest, key, val, x);
        let ir = insert_entry(rest, key, val);
        assert(r == seq![e[0]] + ir);
        assert forall|a: int, b: int| 0 <= a < b < r.len() implies chars_lt(
            #[trigger] r[a].0,
            #[trigger] r[b].0,
        ) by {
            assert(r[b] == ir[b - 1]);
            if a > 0 {
                assert(r[a] == ir[a - 1]);
            }
        }
        if chars_lt(x, key) && (forall|i: int| 0 <= i < e.len() ==> chars_lt(x, #[trigger] e[i].0)) {
            assert forall|i: int| 0 <= i < rest.len() implies chars_lt(x, #[trigger] rest[i].0) by {
                assert(rest[i] == e[i + 1]);
            }
            assert forall|j: int| 0 <= j < r.len() implies chars_lt(x, #[trigger] r[j].0) by {
                if j > 0 {
                    assert(r[j] == ir[j - 1]);
                } else {
                    assert(chars_lt(x, e[0].0));
                }
            }
        }
    }
}

/// An object built from members reads each key as the last member with that
/// key gave it.
pub proof fn lemma_object_of_lookup(m: Seq<(Seq<char>, JsonV)>, key: Seq<char>)
    ensures
        keys_sorted(object_of(m)),
        lookup(object_of(m), key) == lookup(m, key),
    decreases m.len(),
{
    if m.len() > 0 {
        let prev = m.drop_last();
        lemma_object_of_lookup(prev, key);
        lemma_insert_entry_sorted(object_of(prev), m.last().0, m.last().1, m.last().0);
        law_object_read_after_write(object_of(prev), m.last().0, m.last().1, key);
    }
}

/// Reading a key from members `a` followed by `b`: the last of `b` with that
/// key, else the last of `a`.
pub proof fn lemma_lookup_concat(a: Seq<(Seq<char>, JsonV)>, b: Seq<(Seq<char>, JsonV)>, key: Seq<char>)
    ensures
        lookup(a + b, key) == if lookup(b, key) is Some {
            lookup(b, key)
        } else {
            lookup(a, key)
        },
    decreases b.len(),
{
    if b.len() == 0 {
        assert(a + b =~= a);
    } else {
        assert((a + b).drop_last() =~= a + b.drop_last());
        assert((a + b).last() == b.last());
        lemma_lookup_concat(a, b.drop_last(), key);
    }
}

/// Reading after an optional member: the member's value when it is present
/// under that key, else what came before.
proof fn lemma_lookup_after_optional(a: Seq<(Seq<char>, JsonV)>, key: Seq<char>, v: Option<JsonV>, k: Seq<char>)
    ensures
        lookup(a + opt_member(key, v), k) == if key == k && v is Some {
            v
        } else {
            lookup(a, k)
        },
{
    reveal_with_fuel(lookup, 2);
    lemma_lookup_concat(a, opt_member(key, v), k);
    match v {
        Some(x) => {
            let b = seq![(key, x)];
            assert(opt_member(key, v) == b);
            assert(b.last() == (key, x));
            assert(b.drop_last() =~= Seq::<(Seq<char>, JsonV)>::empty());
        },
        None => {
            assert(opt_member(key, v) =~= Seq::<(Seq<char>, JsonV)>::empty());
        },
    }
}

/// Reading one of three members with distinct keys.
proof fn lemma_lookup_three(
    k0: Seq<char>,
    v0: JsonV,
    k1: Seq<char>,
    v1: JsonV,
    k2: Seq<char>,
    v2: JsonV,
    k: Seq<char>,
)
    ensures
        lookup(seq![(k0, v0), (k1, v1), (k2, v2)], k) == if k == k2 {
            Some(v2)
        } else if k == k1 {
            Some(v1)
        } else if k == k0 {
            Some(v0)
        } else {
            None::<JsonV>
        },
{
    reveal_with_fuel(lookup, 4);
    let e = seq![(k0, v0), (k1, v1), (k2, v2)];
    let e1 = seq![(k0, v0), (k1, v1)];
    let e0 = seq![(k0, v0)];
    assert(e.last() == (k2, v2));
    assert(e.drop_last() =~= e1);
    assert(e1.last() == (k1, v1));
    assert(e1.drop_last() =~= e0);
    assert(e0.last() == (k0, v0));
    assert(e0.drop_last() =~= Seq::<(Seq<char>, JsonV)>::empty());
}

/// A text field as a JSON member value, when present.
pub open spec fn str_value(v: Option<String>) -> Option<JsonV> {
    match v {
        Some(s) => Some(JsonV::Str(s@)),
        None => None,
    }
}

/// A flag as a JSON member value, when present.
pub open spec fn bool_value(v: Option<bool>) -> Option<JsonV> {
    match v {
        Some(b) => Some(JsonV::Bool(b)),
        None => None,
    }
}

/// The transaction a create request sends holds each field of the
/// transaction under its own key: the account, date and amount always,
/// every optional field exactly when it is given, with its value.
#[verifier::spinoff_prover]
#[verifier::rlimit(40)]
pub proof fn law_create_body_fields(t: SaveTransaction)
    ensures
        lookup(object_of(save_transaction_members(t)), "account_id"@) == Some(JsonV::Str(t.account_id@)),
        lookup(object_of(save_transaction_members(t)), "date"@) == Some(JsonV::Str(t.date@)),
        lookup(object_of(save_transaction_members(t)), "amount"@) == Some(int_view(t.amount)),
        lookup(object_of(save_transaction_members(t)), "id"@) == str_value(t.id),
        lookup(object_of(save_transaction_members(t)), "import_id"@) == str_value(t.import_id),
        lookup(object_of(save_transaction_members(t)), "payee_id"@) == str_value(t.payee_id),
        lookup(object_of(save_transaction_members(t)), "payee_name"@) == str_value(t.payee_name),
        lookup(object_of(save_transaction_members(t)), "category_id"@) == str_value(t.category_id),
        lookup(object_of(save_transaction_members(t)), "memo"@) == str_value(t.memo),
        lookup(object_of(save_transaction_members(t)), "cleared"@) == str_value(t.cleared),
        lookup(object_of(save_transaction_members(t)), "approved"@) == bool_value(t.approved),
        lookup(object_of(save_transaction_members(t)), "flag_color"@) == str_value(t.flag_color),
{
    reveal_field_names();
    let m = save_transaction_members(t);
    assert forall|k: Seq<char>| lookup(object_of(m), k) == #[trigger] create_member_value(t, k) by {
        lemma_object_of_lookup(m, k);
        let base = seq![
            ("account_id"@, JsonV::Str(t.account_id@)),
            ("date"@, JsonV::Str(t.date@)),
            ("amount"@, int_view(t.amount)),
        ];
        lemma_lookup_three(
            "account_id"@,
            JsonV::Str(t.account_id@),
            "date"@,
            JsonV::Str(t.date@),
            "amount"@,
            int_view(t.amount),
            k,
        );
        let p1 = base + opt_member("id"@, str_value(t.id));
        let p2 = p1 + opt_member("import_id"@, str_value(t.import_id));
        let p3 = p2 + opt_member("payee_id"@, str_value(t.payee_id));
        let p4 = p3 + opt_member("payee_name"@, str_value(t.payee_name));
        let p5 = p4 + opt_member("category_id"@, str_value(t.category_id));
        let p6 = p5 + opt_member("memo"@, str_value(t.memo));
        let p7 = p6 + opt_member("cleared"@, str_value(t.cleared));
        let p8 = p7 + opt_member("approved"@, bool_value(t.approved));
        let p9 = p8 + opt_member("flag_color"@, str_value(t.flag_color));
        assert(m == p9);
        lemma_lookup_after_optional(base, "id"@, str_value(t.id), k);
        lemma_lookup_after_optional(p1, "import_id"@, str_value(t.import_id), k);
        lemma_lookup_after_optional(p2, "payee_id"@, str_value(t.payee_id), k);
        lemma_lookup_after_optional(p3, "payee_name"@, str_value(t.payee_name), k);
        lemma_lookup_after_optional(p4, "category_id"@, str_value(t.category_id), k);
        lemma_lookup_after_optional(p5, "memo"@, str_value(t.memo), k);
        lemma_lookup_after_optional(p6, "cleared"@, str_value(t.cleared), k);
        lemma_lookup_after_optional(p7, "approved"@, bool_value(t.approved), k);
        lemma_lookup_after_optional(p8, "flag_color"@, str_value(t.flag_color), k);
    }
    assert(create_member_value(t, "account_id"@) == Some(JsonV::Str(t.account_id@)));
    assert(create_member_value(t, "date"@) == Some(JsonV::Str(t.date@)));
    assert(create_member_value(t, "amount"@) == Some(int_view(t.amount)));
    assert(create_member_value(t, "id"@) == str_value(t.id));
    assert(create_member_value(t, "import_id"@) == str_value(t.import_id));
    assert(create_member_value(t, "payee_id"@) == str_value(t.payee_id));
    assert(create_member_value(t, "payee_name"@) == str_value(t.payee_name));
    assert(create_member_value(t, "category_id"@) == str_value(t.category_id));
    assert(create_member_value(t, "memo"@) == str_value(t.memo));
    assert(create_member_value(t, "cleared"@) == str_value(t.cleared));
    assert(create_member_value(t, "approved"@) == bool_value(t.approved));
    assert(create_member_value(t, "flag_color"@) == str_value(t.flag_color));
}

/// The value the create request sends for `k`, read off the fields.
spec fn create_member_value(t: SaveTransaction, k: Seq<char>) -> Option<JsonV> {
    if k == "flag_color"@ && t.flag_color is Some {
        str_value(t.flag_color)
    } else if k == "approved"@ && t.approved is Some {
        bool_value(t.approved)
    } else if k == "cleared"@ && t.cleared is Some {
        str_value(t.cleared)
    } else if k == "memo"@ && t.memo is Some {
        str_value(t.memo)
    } else if k == "category_id"@ && t.category_id is Some {
        str_value(t.category_id)
    } else if k == "payee_name"@ && t.payee_name is Some {
        str_value(t.payee_name)
    } else if k == "payee_id"@ && t.payee_id is Some {
        str_value(t.payee_id)
    } else if k == "import_id"@ && t.import_id is Some {
        str_value(t.import_id)
    } else if k == "id"@ && t.id is Some {
        str_value(t.id)
    } else if k == "amount"@ {
        Some(int_view(t.amount))
    } else if k == "date"@ {
        Some(JsonV::Str(t.date@))
    } else if k == "account_id"@ {
        Some(JsonV::Str(t.account_id@))
    } else {
        None
    }
}

/// The member `f` of an object when it is text, as a member value.
pub open spec fn text_copy(e: Seq<(Seq<char>, JsonV)>, f: Seq<char>) -> Option<JsonV> {
    match lookup(e, f) {
        Some(JsonV::Str(v)) => Some(JsonV::Str(v)),
        _ => None,
    }
}

/// The member `f` of an object when it is a flag, as a member value.
pub open spec fn flag_copy(e: Seq<(Seq<char>, JsonV)>, f: Seq<char>) -> Option<JsonV> {
    match lookup(e, f) {
        Some(JsonV::Bool(b)) => Some(JsonV::Bool(b)),
        _ => None,
    }
}

/// The members of the export of the object `e`, when it exports to an
/// object.
pub open spec fn exported_object(e: Seq<(Seq<char>, JsonV)>, index: nat) -> Seq<(Seq<char>, JsonV)> {
    match transaction_export(JsonV::Object(e), index) {
        Ok(Some(JsonV::Object(o))) => o,
        _ => Seq::empty(),
    }
}

/// What an exported transaction holds under `k`, read off the listed one.
spec fn export_member_value(e: Seq<(Seq<char>, JsonV)>, k: Seq<char>) -> Option<JsonV> {
    if k == "transfer_account_id"@ && text_copy(e, k) is Some {
        text_copy(e, k)
    } else if k == "flag_color"@ && text_copy(e, k) is Some {
        text_copy(e, k)
    } else if k == "approved"@ && flag_copy(e, k) is Some {
        flag_copy(e, k)
    } else if k == "cleared"@ && text_copy(e, k) is Some {
        text_copy(e, k)
    } else if k == "memo"@ && text_copy(e, k) is Some {
        text_copy(e, k)
    } else if k == "category_id"@ && text_copy(e, k) is Some {
        text_copy(e, k)
    } else if k == "payee_name"@ && text_copy(e, k) is Some {
        text_copy(e, k)
    } else if k == "payee_id"@ && text_copy(e, k) is Some {
        text_copy(e, k)
    } else if k == "import_id"@ && text_copy(e, k) is Some {
        text_copy(e, k)
    } else {
        None
    }
}

/// A listed transaction that exports keeps its optional members in the
/// export: each text member the import takes (`import_id`, `payee_id`,
/// `payee_name`, `category_id`, `memo`, `cleared`, `flag_color`,
/// `transfer_account_id`) and the `approved` flag appear unchanged when the
/// listed transaction has them with that type, and not otherwise; the
/// account and amount are carried over as they are.
#[verifier::spinoff_prover]
#[verifier::rlimit(40)]
pub proof fn law_export_carries_fields(e: Seq<(Seq<char>, JsonV)>, index: nat)
    requires
        transaction_export(JsonV::Object(e), index) matches Ok(Some(_)),
    ensures
        transaction_export(JsonV::Object(e), index)->Ok_0->Some_0 is Object,
        lookup(exported_object(e, index), "import_id"@) == text_copy(e, "import_id"@),
        lookup(exported_object(e, index), "payee_id"@) == text_copy(e, "payee_id"@),
        lookup(exported_object(e, index), "payee_name"@) == text_copy(e, "payee_name"@),
        lookup(exported_object(e, index), "category_id"@) == text_copy(e, "category_id"@),
        lookup(exported_object(e, index), "memo"@) == text_copy(e, "memo"@),
        lookup(exported_object(e, index), "cleared"@) == text_copy(e, "cleared"@),
        lookup(exported_object(e, index), "flag_color"@) == text_copy(e, "flag_color"@),
        lookup(exported_object(e, index), "transfer_account_id"@) == text_copy(
            e,
            "transfer_account_id"@,
        ),
        lookup(exported_object(e, index), "approved"@) == flag_copy(e, "approved"@),
        lookup(exported_object(e, index), "account_id"@) == text_copy(e, "account_id"@),
        lookup(exported_object(e, index), "date"@) == Some(
            JsonV::Str(iso_date_outcome(string_member(e, "date"@)->Some_0)->Ok_0),
        ),
        lookup(exported_object(e, index), "amount"@) is Some && lookup(exported_object(e, index), "amount"@)->Some_0.i64_of()
            == int_member(e, "amount"@),
{
    reveal_field_names();
    let acct = string_member(e, "account_id"@)->Some_0;
    let amount = int_member(e, "amount"@)->Some_0;
    let d = iso_date_outcome(string_member(e, "date"@)->Some_0)->Ok_0;
    let base = transaction_members(e, acct, d, amount);
    let o = exported_object(e, index);
    assert(lookup(e, "account_id"@) == Some(JsonV::Str(acct)));
    assert(int_view(amount).i64_of() == Some(amount));
    assert forall|k: Seq<char>| k != "subtransactions"@ implies lookup(o, k)
        == #[trigger] export_member_value_full(e, acct, d, amount, k) by {
        lemma_export_members_lookup(e, acct, d, amount, k);
        match lookup(e, "subtransactions"@) {
            Some(sv) => match subtransactions_export(sv, index) {
                Ok(subs) => if subs.len() > 0 {
                    let full = base.push(("subtransactions"@, JsonV::Array(subs)));
                    lemma_object_of_lookup(full, k);
                    assert(full.drop_last() =~= base);
                } else {
                    lemma_object_of_lookup(base, k);
                },
                Err(_) => {},
            },
            None => {
                lemma_object_of_lookup(base, k);
            },
        }
    }
    assert(export_member_value_full(e, acct, d, amount, "import_id"@) == text_copy(e, "import_id"@));
    assert(export_member_value_full(e, acct, d, amount, "payee_id"@) == text_copy(e, "payee_id"@));
    assert(export_member_value_full(e, acct, d, amount, "payee_name"@) == text_copy(e, "payee_name"@));
    assert(export_member_value_full(e, acct, d, amount, "category_id"@) == text_copy(e, "category_id"@));
    assert(export_member_value_full(e, acct, d, amount, "memo"@) == text_copy(e, "memo"@));
    assert(export_member_value_full(e, acct, d, amount, "cleared"@) == text_copy(e, "cleared"@));
    assert(export_member_value_full(e, acct, d, amount, "flag_color"@) == text_copy(e, "flag_color"@));
    assert(export_member_value_full(e, acct, d, amount, "transfer_account_id"@) == text_copy(
        e,
        "transfer_account_id"@,
    ));
    assert(export_member_value_full(e, acct, d, amount, "approved"@) == flag_copy(e, "approved"@));
    assert(export_member_value_full(e, acct, d, amount, "account_id"@) == text_copy(e, "account_id"@));
    assert(export_member_value_full(e, acct, d, amount, "amount"@) == Some(int_view(amount)));
    assert(export_member_value_full(e, acct, d, amount, "date"@) == Some(JsonV::Str(d)));
}

#[verifier::spinoff_prover]
#[verifier::rlimit(40)]
proof fn lemma_export_members_lookup(
    e: Seq<(Seq<char>, JsonV)>,
    acct: Seq<char>,
    d: Seq<char>,
    amount: i64,
    k: Seq<char>,
)
    requires
        k != "subtransactions"@,
    ensures
        lookup(transaction_members(e, acct, d, amount), k) == export_member_value_full(e, acct, d, amount, k),
{
    reveal_field_names();
    let base = transaction_members(e, acct, d, amount);
        let three = seq![
            ("account_id"@, JsonV::Str(acct)),
            ("date"@, JsonV::Str(d)),
            ("amount"@, int_view(amount)),
        ];
        lemma_lookup_three(
            "account_id"@,
            JsonV::Str(acct),
            "date"@,
            JsonV::Str(d),
            "amount"@,
            int_view(amount),
            k,
        );
        let p1 = three + opt_member("import_id"@, text_copy(e, "import_id"@));
        let p2 = p1 + opt_member("payee_id"@, text_copy(e, "payee_id"@));
        let p3 = p2 + opt_member("payee_name"@, text_copy(e, "payee_name"@));
        let p4 = p3 + opt_member("category_id"@, text_copy(e, "category_id"@));
        let p5 = p4 + opt_member("memo"@, text_copy(e, "memo"@));
        let p6 = p5 + opt_member("cleared"@, text_copy(e, "cleared"@));
        let p7 = p6 + opt_member("approved"@, flag_copy(e, "approved"@));
        let p8 = p7 + opt_member("flag_color"@, text_copy(e, "flag_color"@));
        let p9 = p8 + opt_member("transfer_account_id"@, text_copy(e, "transfer_account_id"@));
        lemma_copied_is_optional(e, "import_id"@);
        lemma_copied_is_optional(e, "payee_id"@);
        lemma_copied_is_optional(e, "payee_name"@);
        lemma_copied_is_optional(e, "category_id"@);
        lemma_copied_is_optional(e, "memo"@);
        lemma_copied_is_optional(e, "cleared"@);
        lemma_copied_is_optional(e, "flag_color"@);
        lemma_copied_is_optional(e, "transfer_account_id"@);
        lemma_copied_flag_is_optional(e, "approved"@);
        assert(base =~= p9);
        lemma_lookup_after_optional(three, "import_id"@, text_copy(e, "import_id"@), k);
        lemma_lookup_after_optional(p1, "payee_id"@, text_copy(e, "payee_id"@), k);
        lemma_lookup_after_optional(p2, "payee_name"@, text_copy(e, "payee_name"@), k);
        lemma_lookup_after_optional(p3, "category_id"@, text_copy(e, "category_id"@), k);
        lemma_lookup_after_optional(p4, "memo"@, text_copy(e, "memo"@), k);
        lemma_lookup_after_optional(p5, "cleared"@, text_copy(e, "cleared"@), k);
        lemma_lookup_after_optional(p6, "approved"@, flag_copy(e, "approved"@), k);
        lemma_lookup_after_optional(p7, "flag_color"@, text_copy(e, "flag_color"@), k);
        lemma_lookup_after_optional(p8, "transfer_account_id"@, text_copy(e, "transfer_account_id"@), k);
}

/// What an exported transaction holds under `k` (other than
/// `subtransactions`), read off the listed one and its required members.
spec fn export_member_value_full(
    e: Seq<(Seq<char>, JsonV)>,
    acct: Seq<char>,
    d: Seq<char>,
    amount: i64,
    k: Seq<char>,
) -> Option<JsonV> {
    if k == "subtransactions"@ {
        None
    } else if export_member_value(e, k) is Some {
        export_member_value(e, k)
    } else if k == "amount"@ {
        Some(int_view(amount))
    } else if k == "date"@ {
        Some(JsonV::Str(d))
    } else if k == "account_id"@ {
        Some(JsonV::Str(acct))
    } else {
        None
    }
}

proof fn lemma_copied_is_optional(e: Seq<(Seq<char>, JsonV)>, f: Seq<char>)
    ensures
        copied_str(e, f) == opt_member(f, text_copy(e, f)),
{
    match lookup(e, f) {
        Some(JsonV::Str(v)) => {},
        _ => {
            assert(copied_str(e, f) =~= opt_member(f, text_copy(e, f)));
        },
    }
}

proof fn lemma_copied_flag_is_optional(e: Seq<(Seq<char>, JsonV)>, f: Seq<char>)
    ensures
        copied_bool(e, f) == opt_member(f, flag_copy(e, f)),
{
    match lookup(e, f) {
        Some(JsonV::Bool(b)) => {},
        _ => {
            assert(copied_bool(e, f) =~= opt_member(f, flag_copy(e, f)));
        },
    }
}

/// The value an update request sends for `k`, read off the fields.
spec fn update_member_value(t: UpdateTransaction, k: Seq<char>) -> Option<JsonV> {
    if k == "flag_color"@ && t.flag_color is Some {
        str_value(t.flag_color)
    } else if k == "approved"@ && t.approved is Some {
        bool_value(t.approved)
    } else if k == "cleared"@ && t.cleared is Some {
        str_value(t.cleared)
    } else if k == "memo"@ && t.memo is Some {
        str_value(t.memo)
    } else if k == "category_id"@ && t.category_id is Some {
        str_value(t.category_id)
    } else if k == "payee_name"@ && t.payee_name is Some {
        str_value(t.payee_name)
    } else if k == "payee_id"@ && t.payee_id is Some {
        str_value(t.payee_id)
    } else if k == "amount"@ && t.amount is Some {
        Some(int_view(t.amount->Some_0))
    } else if k == "date"@ && t.date is Some {
        str_value(t.date)
    } else if k == "account_id"@ && t.account_id is Some {
        str_value(t.account_id)
    } else {
        None
    }
}

/// The transaction an update request sends holds exactly the fields that
/// are given, each under its own key with its value.
#[verifier::spinoff_prover]
#[verifier::rlimit(40)]
pub proof fn law_update_body_fields(t: UpdateTransaction)
    ensures
        lookup(object_of(update_transaction_members(t)), "account_id"@) == str_value(t.account_id),
        lookup(object_of(update_transaction_members(t)), "date"@) == str_value(t.date),
        lookup(object_of(update_transaction_members(t)), "amount"@) == match t.amount {
            Some(a) => Some(int_view(a)),
            None => None,
        },
        lookup(object_of(update_transaction_members(t)), "payee_id"@) == str_value(t.payee_id),
        lookup(object_of(update_transaction_members(t)), "payee_name"@) == str_value(t.payee_name),
        lookup(object_of(update_transaction_members(t)), "category_id"@) == str_value(t.category_id),
        lookup(object_of(update_transaction_members(t)), "memo"@) == str_value(t.memo),
        lookup(object_of(update_transaction_members(t)), "cleared"@) == str_value(t.cleared),
        lookup(object_of(update_transaction_members(t)), "approved"@) == bool_value(t.approved),
        lookup(object_of(update_transaction_members(t)), "flag_color"@) == str_value(t.flag_color),
{
    reveal_field_names();
    let m = update_transaction_members(t);
    let amount_v: Option<JsonV> = match opt_int(t.amount) {
        Some(a) => Some(int_view(a as i64)),
        None => None,
    };
    assert(amount_v == match t.amount {
        Some(a) => Some(int_view(a)),
        None => None::<JsonV>,
    });
    assert forall|k: Seq<char>| lookup(object_of(m), k) == #[trigger] update_member_value(t, k) by {
        lemma_object_of_lookup(m, k);
        let p0 = Seq::<(Seq<char>, JsonV)>::empty();
        let p1 = p0 + opt_member("account_id"@, str_value(t.account_id));
        let p2 = p1 + opt_member("date"@, str_value(t.date));
        let p3 = p2 + opt_member("amount"@, amount_v);
        let p4 = p3 + opt_member("payee_id"@, str_value(t.payee_id));
        let p5 = p4 + opt_member("payee_name"@, str_value(t.payee_name));
        let p6 = p5 + opt_member("category_id"@, str_value(t.category_id));
        let p7 = p6 + opt_member("memo"@, str_value(t.memo));
        let p8 = p7 + opt_member("cleared"@, str_value(t.cleared));
        let p9 = p8 + opt_member("approved"@, bool_value(t.approved));
        let p10 = p9 + opt_member("flag_color"@, str_value(t.flag_color));
        assert(m =~= p10);
        lemma_lookup_after_optional(p0, "account_id"@, str_value(t.account_id), k);
        lemma_lookup_after_optional(p1, "date"@, str_value(t.date), k);
        lemma_lookup_after_optional(p2, "amount"@, amount_v, k);
        lemma_lookup_after_optional(p3, "payee_id"@, str_value(t.payee_id), k);
        lemma_lookup_after_optional(p4, "payee_name"@, str_value(t.payee_name), k);
        lemma_lookup_after_optional(p5, "category_id"@, str_value(t.category_id), k);
        lemma_lookup_after_optional(p6, "memo"@, str_value(t.memo), k);
        lemma_lookup_after_optional(p7, "cleared"@, str_value(t.cleared), k);
        lemma_lookup_after_optional(p8, "approved"@, bool_value(t.approved), k);
        lemma_lookup_after_optional(p9, "flag_color"@, str_value(t.flag_color), k);
    }
    assert(update_member_value(t, "account_id"@) == str_value(t.account_id));
    assert(update_member_value(t, "date"@) == str_value(t.date));
    assert(update_member_value(t, "amount"@) == amount_v);
    assert(update_member_value(t, "payee_id"@) == str_value(t.payee_id));
    assert(update_member_value(t, "payee_name"@) == str_value(t.payee_name));
    assert(update_member_value(t, "category_id"@) == str_value(t.category_id));
    assert(update_member_value(t, "memo"@) == str_value(t.memo));
    assert(update_member_value(t, "cleared"@) == str_value(t.cleared));
    assert(update_member_value(t, "approved"@) == bool_value(t.approved));
    assert(update_member_value(t, "flag_color"@) == str_value(t.flag_color));
}

/// The value a new scheduled transaction holds for `k`.
spec fn scheduled_member_value(
    account_id: Seq<char>,
    date: Seq<char>,
    amount: int,
    frequency: Seq<char>,
    payee_id: Option<String>,
    payee_name: Option<String>,
    category_id: Option<String>,
    memo: Option<String>,
    flag_color: Option<String>,
    k: Seq<char>,
) -> Option<JsonV> {
    if k == "flag_color"@ && flag_color is Some {
        str_value(flag_color)
    } else if k == "memo"@ && memo is Some {
        str_value(memo)
    } else if k == "category_id"@ && category_id is Some {
        str_value(category_id)
    } else if k == "payee_name"@ && payee_name is Some {
        str_value(payee_name)
    } else if k == "payee_id"@ && payee_id is Some {
        str_value(payee_id)
    } else if k == "frequency"@ {
        Some(JsonV::Str(frequency))
    } else if k == "amount"@ {
        Some(int_view(amount as i64))
    } else if k == "date"@ {
        Some(JsonV::Str(date))
    } else if k == "account_id"@ {
        Some(JsonV::Str(account_id))
    } else {
        None
    }
}

/// A new scheduled transaction holds its account, normalized date, amount
/// and frequency as given, and each optional field exactly when it is given.
#[verifier::spinoff_prover]
#[verifier::rlimit(40)]
pub proof fn law_scheduled_create_fields(
    account_id: Seq<char>,
    date: Seq<char>,
    amount: Seq<char>,
    frequency: Seq<char>,
    payee_id: Option<String>,
    payee_name: Option<String>,
    category_id: Option<String>,
    memo: Option<String>,
    flag_color: Option<String>,
)
    requires
        scheduled_create_outcome(
            account_id,
            date,
            amount,
            frequency,
            payee_id,
            payee_name,
            category_id,
            memo,
            flag_color,
        ) is Ok,
    ensures
        ({
            let o = scheduled_create_outcome(
                account_id,
                date,
                amount,
                frequency,
                payee_id,
                payee_name,
                category_id,
                memo,
                flag_color,
            )->Ok_0;
            &&& o is Object
            &&& lookup(o->Object_0, "account_id"@) == Some(JsonV::Str(account_id))
            &&& lookup(o->Object_0, "date"@) == Some(JsonV::Str(iso_date_outcome(date)->Ok_0))
            &&& lookup(o->Object_0, "amount"@) == Some(int_view(amount_spec(amount)->Ok_0 as i64))
            &&& lookup(o->Object_0, "frequency"@) == Some(JsonV::Str(frequency))
            &&& lookup(o->Object_0, "payee_id"@) == str_value(payee_id)
            &&& lookup(o->Object_0, "payee_name"@) == str_value(payee_name)
            &&& lookup(o->Object_0, "category_id"@) == str_value(category_id)
            &&& lookup(o->Object_0, "memo"@) == str_value(memo)
            &&& lookup(o->Object_0, "flag_color"@) == str_value(flag_color)
        }),
{
    reveal_field_names();
    let d = iso_date_outcome(date)->Ok_0;
    let a = amount_spec(amount)->Ok_0;
    let req = scheduled_required_members(account_id, d, a, frequency);
    let m = req + scheduled_optional_members(payee_id, payee_name, category_id, memo, flag_color);
    assert forall|k: Seq<char>| lookup(object_of(m), k) == #[trigger] scheduled_member_value(
        account_id,
        d,
        a,
        frequency,
        payee_id,
        payee_name,
        category_id,
        memo,
        flag_color,
        k,
    ) by {
        lemma_object_of_lookup(m, k);
        lemma_lookup_four(
            "account_id"@,
            JsonV::Str(account_id),
            "date"@,
            JsonV::Str(d),
            "amount"@,
            int_view(a as i64),
            "frequency"@,
            JsonV::Str(frequency),
            k,
        );
        let p1 = req + opt_member("payee_id"@, str_value(payee_id));
        let p2 = p1 + opt_member("payee_name"@, str_value(payee_name));
        let p3 = p2 + opt_member("category_id"@, str_value(category_id));
        let p4 = p3 + opt_member("memo"@, str_value(memo));
        let p5 = p4 + opt_member("flag_color"@, str_value(flag_color));
        assert(m =~= p5);
        lemma_lookup_after_optional(req, "payee_id"@, str_value(payee_id), k);
        lemma_lookup_after_optional(p1, "payee_name"@, str_value(payee_name), k);
        lemma_lookup_after_optional(p2, "category_id"@, str_value(category_id), k);
        lemma_lookup_after_optional(p3, "memo"@, str_value(memo), k);
        lemma_lookup_after_optional(p4, "flag_color"@, str_value(flag_color), k);
    }
    let v = |k: Seq<char>|
        scheduled_member_value(
            account_id,
            d,
            a,
            frequency,
            payee_id,
            payee_name,
            category_id,
            memo,
            flag_color,
            k,
        );
    assert(v("account_id"@) == Some(JsonV::Str(account_id)));
    assert(v("date"@) == Some(JsonV::Str(d)));
    assert(v("amount"@) == Some(int_view(a as i64)));
    assert(v("frequency"@) == Some(JsonV::Str(frequency)));
    assert(v("payee_id"@) == str_value(payee_id));
    assert(v("payee_name"@) == str_value(payee_name));
    assert(v("category_id"@) == str_value(category_id));
    assert(v("memo"@) == str_value(memo));
    assert(v("flag_color"@) == str_value(flag_color));
}

/// A text value as a member value, when present.
pub open spec fn text_value(v: Option<Seq<char>>) -> Option<JsonV> {
    match v {
        Some(t) => Some(JsonV::Str(t)),
        None => None,
    }
}

/// An amount as a member value, when present.
pub open spec fn amount_value(v: Option<int>) -> Option<JsonV> {
    match v {
        Some(a) => Some(int_view(a as i64)),
        None => None,
    }
}

/// What a scheduled-transaction change holds under `k`.
spec fn scheduled_change_value(
    account_id: Option<String>,
    date: Option<Seq<char>>,
    amount: Option<int>,
    payee_id: Option<String>,
    payee_name: Option<String>,
    category_id: Option<String>,
    memo: Option<String>,
    flag_color: Option<String>,
    frequency: Option<Seq<char>>,
    k: Seq<char>,
) -> Option<JsonV> {
    if k == "frequency"@ && frequency is Some {
        text_value(frequency)
    } else if k == "flag_color"@ && flag_color is Some {
        str_value(flag_color)
    } else if k == "memo"@ && memo is Some {
        str_value(memo)
    } else if k == "category_id"@ && category_id is Some {
        str_value(category_id)
    } else if k == "payee_name"@ && payee_name is Some {
        str_value(payee_name)
    } else if k == "payee_id"@ && payee_id is Some {
        str_value(payee_id)
    } else if k == "amount"@ && amount is Some {
        amount_value(amount)
    } else if k == "date"@ && date is Some {
        text_value(date)
    } else if k == "account_id"@ && account_id is Some {
        str_value(account_id)
    } else {
        None
    }
}

/// A scheduled-transaction change holds exactly the fields that are given,
/// each under its own key with its value.
#[verifier::spinoff_prover]
#[verifier::rlimit(40)]
pub proof fn law_scheduled_update_fields(
    account_id: Option<String>,
    date: Option<Seq<char>>,
    amount: Option<int>,
    payee_id: Option<String>,
    payee_name: Option<String>,
    category_id: Option<String>,
    memo: Option<String>,
    flag_color: Option<String>,
    frequency: Option<Seq<char>>,
)
    ensures
        ({
            let o = object_of(
                scheduled_update_members(
                    account_id,
                    date,
                    amount,
                    payee_id,
                    payee_name,
                    category_id,
                    memo,
                    flag_color,
                    frequency,
                ),
            );
            &&& lookup(o, "account_id"@) == str_value(account_id)
            &&& lookup(o, "date"@) == text_value(date)
            &&& lookup(o, "amount"@) == amount_value(amount)
            &&& lookup(o, "payee_id"@) == str_value(payee_id)
            &&& lookup(o, "payee_name"@) == str_value(payee_name)
            &&& lookup(o, "category_id"@) == str_value(category_id)
            &&& lookup(o, "memo"@) == str_value(memo)
            &&& lookup(o, "flag_color"@) == str_value(flag_color)
            &&& lookup(o, "frequency"@) == text_value(frequency)
        }),
{
    reveal_field_names();
    lemma_scheduled_change_lookup(account_id, date, amount, payee_id, payee_name, category_id, memo, flag_color, frequency, "account_id"@);
    assert(scheduled_change_value(account_id, date, amount, payee_id, payee_name, category_id, memo, flag_color, frequency, "account_id"@) == str_value(account_id));
    lemma_scheduled_change_lookup(account_id, date, amount, payee_id, payee_name, category_id, memo, flag_color, frequency, "date"@);
    assert(scheduled_change_value(account_id, date, amount, payee_id, payee_name, category_id, memo, flag_color, frequency, "date"@) == text_value(date));
    lemma_scheduled_change_lookup(account_id, date, amount, payee_id, payee_name, category_id, memo, flag_color, frequency, "amount"@);
    assert(scheduled_change_value(account_id, date, amount, payee_id, payee_name, category_id, memo, flag_color, frequency, "amount"@) == amount_value(amount));
    lemma_scheduled_change_lookup(account_id, date, amount, payee_id, payee_name, category_id, memo, flag_color, frequency, "payee_id"@);
    assert(scheduled_change_value(account_id, date, amount, payee_id, payee_name, category_id, memo, flag_color, frequency, "payee_id"@) == str_value(payee_id));
    lemma_scheduled_change_lookup(account_id, date, amount, payee_id, payee_name, category_id, memo, flag_color, frequency, "payee_name"@);
    assert(scheduled_change_value(account_id, date, amount, payee_id, payee_name, category_id, memo, flag_color, frequency, "payee_name"@) == str_value(payee_name));
    lemma_scheduled_change_lookup(account_id, date, amount, payee_id, payee_name, category_id, memo, flag_color, frequency, "category_id"@);
    assert(scheduled_change_value(account_id, date, amount, payee_id, payee_name, category_id, memo, flag_color, frequency, "category_id"@) == str_value(category_id));
    lemma_scheduled_change_lookup(account_id, date, amount, payee_id, payee_name, category_id, memo, flag_color, frequency, "memo"@);
    assert(scheduled_change_value(account_id, date, amount, payee_id, payee_name, category_id, memo, flag_color, frequency, "memo"@) == str_value(memo));
    lemma_scheduled_change_lookup(account_id, date, amount, payee_id, payee_name, category_id, memo, flag_color, frequency, "flag_color"@);
    assert(scheduled_change_value(account_id, date, amount, payee_id, payee_name, category_id, memo, flag_color, frequency, "flag_color"@) == str_value(flag_color));
    lemma_scheduled_change_lookup(account_id, date, amount, payee_id, payee_name, category_id, memo, flag_color, frequency, "frequency"@);
    assert(scheduled_change_value(account_id, date, amount, payee_id, payee_name, category_id, memo, flag_color, frequency, "frequency"@) == text_value(frequency));
}

#[verifier::spinoff_prover]
#[verifier::rlimit(40)]
proof fn lemma_scheduled_change_lookup(
    account_id: Option<String>,
    date: Option<Seq<char>>,
    amount: Option<int>,
    payee_id: Option<String>,
    payee_name: Option<String>,
    category_id: Option<String>,
    memo: Option<String>,
    flag_color: Option<String>,
    frequency: Option<Seq<char>>,
    k: Seq<char>,
)
    ensures
        lookup(
            object_of(
                scheduled_update_members(account_id, date, amount, payee_id, payee_name, category_id, memo, flag_color, frequency),
            ),
            k,
        ) == scheduled_change_value(account_id, date, amount, payee_id, payee_name, category_id, memo, flag_color, frequency, k),
{
    reveal_field_names();
    let m = scheduled_update_members(account_id, date, amount, payee_id, payee_name, category_id, memo, flag_color, frequency);
    lemma_object_of_lookup(m, k);
    let p0 = Seq::<(Seq<char>, JsonV)>::empty();
    let p1 = p0 + opt_member("account_id"@, str_value(account_id));
    let p2 = p1 + opt_member("date"@, text_value(date));
    let p3 = p2 + opt_member("amount"@, amount_value(amount));
    let p4 = p3 + opt_member("payee_id"@, str_value(payee_id));
    let p5 = p4 + opt_member("payee_name"@, str_value(payee_name));
    let p6 = p5 + opt_member("category_id"@, str_value(category_id));
    let p7 = p6 + opt_member("memo"@, str_value(memo));
    let p8 = p7 + opt_member("flag_color"@, str_value(flag_color));
    let p9 = p8 + opt_member("frequency"@, text_value(frequency));
    assert(m =~= p9);
    lemma_lookup_after_optional(p0, "account_id"@, str_value(account_id), k);
    lemma_lookup_after_optional(p1, "date"@, text_value(date), k);
    lemma_lookup_after_optional(p2, "amount"@, amount_value(amount), k);
    lemma_lookup_after_optional(p3, "payee_id"@, str_value(payee_id), k);
    lemma_lookup_after_optional(p4, "payee_name"@, str_value(payee_name), k);
    lemma_lookup_after_optional(p5, "category_id"@, str_value(category_id), k);
    lemma_lookup_after_optional(p6, "memo"@, str_value(memo), k);
    lemma_lookup_after_optional(p7, "flag_color"@, str_value(flag_color), k);
    lemma_lookup_after_optional(p8, "frequency"@, text_value(frequency), k);
}

/// Reading one of four members with distinct keys.
proof fn lemma_lookup_four(
    k0: Seq<char>,
    v0: JsonV,
    k1: Seq<char>,
    v1: JsonV,
    k2: Seq<char>,
    v2: JsonV,
    k3: Seq<char>,
    v3: JsonV,
    k: Seq<char>,
)
    ensures
        lookup(seq![(k0, v0), (k1, v1), (k2, v2), (k3, v3)], k) == if k == k3 {
            Some(v3)
        } else if k == k2 {
            Some(v2)
        } else if k == k1 {
            Some(v1)
        } else if k == k0 {
            Some(v0)
        } else {
            None::<JsonV>
        },
{
    let e = seq![(k0, v0), (k1, v1), (k2, v2), (k3, v3)];
    assert(e.last() == (k3, v3));
    assert(e.drop_last() =~= seq![(k0, v0), (k1, v1), (k2, v2)]);
    lemma_lookup_three(k0, v0, k1, v1, k2, v2, k);
}

// ---------------------------------------------------------------------------
// Account and transaction types
// ---------------------------------------------------------------------------

/// The MCP parameter for the same account type as a command-line argument.
pub open spec fn account_param_of(t: AccountTypeArg) -> AccountTypeParam {
    match t {
        AccountTypeArg::Checking => AccountTypeParam::Checking,
        AccountTypeArg::Savings => AccountTypeParam::Savings,
        AccountTypeArg::Cash => AccountTypeParam::Cash,
        AccountTypeArg::CreditCard => AccountTypeParam::CreditCard,
        AccountTypeArg::OtherAsset => AccountTypeParam::OtherAsset,
        AccountTypeArg::OtherLiability => AccountTypeParam::OtherLiability,
    }
}

/// Different account types, and different transaction type filters, are
/// sent under different API names; an account type is sent under the same
/// name from the command line and through MCP.
pub proof fn law_type_names(
    a: AccountTypeArg,
    b: AccountTypeArg,
    x: TransactionApiTypeArg,
    y: TransactionApiTypeArg,
)
    ensures
        a != b ==> account_type_arg_value(a) != account_type_arg_value(b),
        account_param_of(a) != account_param_of(b) ==> account_type_value(account_param_of(a))
            != account_type_value(account_param_of(b)),
        account_type_arg_value(a) == account_type_value(account_param_of(a)),
        x != y ==> transaction_type_value(x) != transaction_type_value(y),
{
    reveal_strlit("checking");
    reveal_strlit("savings");
    reveal_strlit("cash");
    reveal_strlit("creditCard");
    reveal_strlit("otherAsset");
    reveal_strlit("otherLiability");
    reveal_strlit("uncategorized");
    reveal_strlit("unapproved");
    if a != b && account_type_arg_value(a) == account_type_arg_value(b) {
        let u = account_type_arg_value(a);
        let w = account_type_arg_value(b);
        assert(u.len() == w.len());
        assert(u[0] == w[0]);
        assert(u[5] == w[5]);
    }
    if x != y {
        assert(transaction_type_value(x).len() != transaction_type_value(y).len());
    }
}

/// What an exported subtransaction holds under `k`.
spec fn sub_member_value(e: Seq<(Seq<char>, JsonV)>, amount: i64, k: Seq<char>) -> Option<JsonV> {
    if k == "transfer_account_id"@ && text_copy(e, k) is Some {
        text_copy(e, k)
    } else if k == "memo"@ && text_copy(e, k) is Some {
        text_copy(e, k)
    } else if k == "category_id"@ && text_copy(e, k) is Some {
        text_copy(e, k)
    } else if k == "payee_name"@ && text_copy(e, k) is Some {
        text_copy(e, k)
    } else if k == "payee_id"@ && text_copy(e, k) is Some {
        text_copy(e, k)
    } else if k == "amount"@ {
        Some(int_view(amount))
    } else {
        None
    }
}

/// An exported subtransaction keeps its amount and, unchanged, each text
/// member the import takes (`payee_id`, `payee_name`, `category_id`,
/// `memo`, `transfer_account_id`) that the listed one has.
#[verifier::spinoff_prover]
#[verifier::rlimit(40)]
pub proof fn law_export_sub_fields(e: Seq<(Seq<char>, JsonV)>, amount: i64)
    ensures
        lookup(object_of(sub_members(e, amount)), "amount"@) == Some(int_view(amount)),
        lookup(object_of(sub_members(e, amount)), "payee_id"@) == text_copy(e, "payee_id"@),
        lookup(object_of(sub_members(e, amount)), "payee_name"@) == text_copy(e, "payee_name"@),
        lookup(object_of(sub_members(e, amount)), "category_id"@) == text_copy(e, "category_id"@),
        lookup(object_of(sub_members(e, amount)), "memo"@) == text_copy(e, "memo"@),
        lookup(object_of(sub_members(e, amount)), "transfer_account_id"@) == text_copy(
            e,
            "transfer_account_id"@,
        ),
{
    reveal_field_names();
    let m = sub_members(e, amount);
    assert forall|k: Seq<char>| lookup(object_of(m), k) == #[trigger] sub_member_value(e, amount, k) by {
        reveal_with_fuel(lookup, 2);
        lemma_object_of_lookup(m, k);
        let p0 = seq![("amount"@, int_view(amount))];
        assert(p0.drop_last() =~= Seq::<(Seq<char>, JsonV)>::empty());
        let p1 = p0 + opt_member("payee_id"@, text_copy(e, "payee_id"@));
        let p2 = p1 + opt_member("payee_name"@, text_copy(e, "payee_name"@));
        let p3 = p2 + opt_member("category_id"@, text_copy(e, "category_id"@));
        let p4 = p3 + opt_member("memo"@, text_copy(e, "memo"@));
        let p5 = p4 + opt_member("transfer_account_id"@, text_copy(e, "transfer_account_id"@));
        lemma_copied_is_optional(e, "payee_id"@);
        lemma_copied_is_optional(e, "payee_name"@);
        lemma_copied_is_optional(e, "category_id"@);
        lemma_copied_is_optional(e, "memo"@);
        lemma_copied_is_optional(e, "transfer_account_id"@);
        assert(m =~= p5);
        lemma_lookup_after_optional(p0, "payee_id"@, text_copy(e, "payee_id"@), k);
        lemma_lookup_after_optional(p1, "payee_name"@, text_copy(e, "payee_name"@), k);
        lemma_lookup_after_optional(p2, "category_id"@, text_copy(e, "category_id"@), k);
        lemma_lookup_after_optional(p3, "memo"@, text_copy(e, "memo"@), k);
        lemma_lookup_after_optional(p4, "transfer_account_id"@, text_copy(e, "transfer_account_id"@), k);
    }
    assert(sub_member_value(e, amount, "amount"@) == Some(int_view(amount)));
    assert(sub_member_value(e, amount, "payee_id"@) == text_copy(e, "payee_id"@));
    assert(sub_member_value(e, amount, "payee_name"@) == text_copy(e, "payee_name"@));
    assert(sub_member_value(e, amount, "category_id"@) == text_copy(e, "category_id"@));
    assert(sub_member_value(e, amount, "memo"@) == text_copy(e, "memo"@));
    assert(sub_member_value(e, amount, "transfer_account_id"@) == text_copy(e, "transfer_account_id"@));
}

/// The names of the members transactions are sent and exported with.
proof fn reveal_field_names()
    ensures
        "account_id"@.len() == 10,
        "date"@.len() == 4,
        "amount"@.len() == 6,
        "id"@.len() == 2,
        "import_id"@.len() == 9,
        "payee_id"@.len() == 8,
        "payee_name"@.len() == 10,
        "category_id"@.len() == 11,
        "memo"@.len() == 4,
        "cleared"@.len() == 7,
        "approved"@.len() == 8,
        "flag_color"@.len() == 10,
        "transfer_account_id"@.len() == 19,
        "subtransactions"@.len() == 15,
        "frequency"@.len() == 9,
        "frequency"@ != "import_id"@,
        "account_id"@ != "payee_name"@,
        "account_id"@ != "flag_color"@,
        "payee_name"@ != "flag_color"@,
        "date"@ != "memo"@,
        "payee_id"@ != "approved"@,
{
    reveal_strlit("account_id");
    reveal_strlit("date");
    reveal_strlit("amount");
    reveal_strlit("id");
    reveal_strlit("import_id");
    reveal_strlit("payee_id");
    reveal_strlit("payee_name");
    reveal_strlit("category_id");
    reveal_strlit("memo");
    reveal_strlit("cleared");
    reveal_strlit("approved");
    reveal_strlit("flag_color");
    reveal_strlit("transfer_account_id");
    reveal_strlit("subtransactions");
    reveal_strlit("frequency");
    assert("frequency"@[0] != "import_id"@[0]);
    assert("account_id"@[0] != "payee_name"@[0]);
    assert("account_id"@[0] != "flag_color"@[0]);
    assert("payee_name"@[0] != "flag_color"@[0]);
    assert("date"@[0] != "memo"@[0]);
    assert("payee_id"@[0] != "approved"@[0]);
}

} // verus!
