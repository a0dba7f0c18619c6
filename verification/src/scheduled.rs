//! The bodies of scheduled-transaction requests.

use vstd::prelude::*;

use crate::app::{object_of, ObjectBuilder};
use crate::inputs::{iso_date_outcome, issue_of, typed_amount, typed_iso_date, InputError, InputIssue};
use crate::json::{int_view, Json, JsonV};
use crate::mcp_types::{
    add_opt_str, opt_amount, opt_amount_outcome, opt_date, opt_date_outcome, opt_int, opt_member,
    opt_str_member,
};
use crate::models::amount_spec;

verus! {

/// The members every new scheduled transaction has, in order.
pub open spec fn scheduled_required_members(
    account_id: Seq<char>,
    date: Seq<char>,
    amount: int,
    frequency: Seq<char>,
) -> Seq<(Seq<char>, JsonV)> {
    seq![
        ("account_id"@, JsonV::Str(account_id)),
        ("date"@, JsonV::Str(date)),
        ("amount"@, int_view(amount as i64)),
        ("frequency"@, JsonV::Str(frequency)),
    ]
}

/// The optional members of a scheduled transaction, in order.
pub open spec fn scheduled_optional_members(
    payee_id: Option<String>,
    payee_name: Option<String>,
    category_id: Option<String>,
    memo: Option<String>,
    flag_color: Option<String>,
) -> Seq<(Seq<char>, JsonV)> {
    opt_str_member("payee_id"@, payee_id) + opt_str_member("payee_name"@, payee_name)
        + opt_str_member("category_id"@, category_id) + opt_str_member("memo"@, memo)
        + opt_str_member("flag_color"@, flag_color)
}

/// The new scheduled transaction: the date, then the amount, must read.
pub open spec fn scheduled_create_outcome(
    account_id: Seq<char>,
    date: Seq<char>,
    amount: Seq<char>,
    frequency: Seq<char>,
    payee_id: Option<String>,
    payee_name: Option<String>,
    category_id: Option<String>,
    memo: Option<String>,
    flag_color: Option<String>,
) -> Result<JsonV, InputIssue> {
    match iso_date_outcome(date) {
        Err(m) => Err(InputIssue::Date(m)),
        Ok(d) => match amount_spec(amount) {
            Err(m) => Err(InputIssue::Amount(m)),
            Ok(a) => Ok(
                JsonV::Object(
                    object_of(
                        scheduled_required_members(account_id, d, a, frequency)
                            + scheduled_optional_members(
                            payee_id,
                            payee_name,
                            category_id,
                            memo,
                            flag_color,
                        ),
                    ),
                ),
            ),
        },
    }
}

/// The view of an outcome carrying JSON that may fail on a typed value.
pub open spec fn json_input_outcome(r: Result<Json, InputError>) -> Result<JsonV, InputIssue> {
    match r {
        Ok(j) => Ok(j@),
        Err(e) => Err(issue_of(e)),
    }
}

fn add_optional_members(
    o: &mut ObjectBuilder,
    payee_id: &Option<String>,
    payee_name: &Option<String>,
    category_id: &Option<String>,
    memo: &Option<String>,
    flag_color: &Option<String>,
)
    requires
        old(o).map@ == object_of(old(o).members@),
    ensures
        final(o).map@ == object_of(final(o).members@),
        final(o).members@ == old(o).members@ + scheduled_optional_members(
            *payee_id,
            *payee_name,
            *category_id,
            *memo,
            *flag_color,
        ),
{
    let ghost m0 = o.members@;
    add_opt_str(o, "payee_id", payee_id);
    add_opt_str(o, "payee_name", payee_name);
    add_opt_str(o, "category_id", category_id);
    add_opt_str(o, "memo", memo);
    add_opt_str(o, "flag_color", flag_color);
    proof {
        assert(o.members@ =~= m0 + scheduled_optional_members(
            *payee_id,
            *payee_name,
            *category_id,
            *memo,
            *flag_color,
        ));
    }
}

/// Builds a new scheduled transaction.
pub fn scheduled_create_payload(
    account_id: &str,
    date: &str,
    amount: &str,
    frequency: &str,
    payee_id: &Option<String>,
    payee_name: &Option<String>,
    category_id: &Option<String>,
    memo: &Option<String>,
    flag_color: &Option<String>,
) -> (r: Result<Json, InputError>)
    ensures
        json_input_outcome(r) == scheduled_create_outcome(
            account_id@,
            date@,
            amount@,
            frequency@,
            *payee_id,
            *payee_name,
            *category_id,
            *memo,
            *flag_color,
        ),
{
    let d = match typed_iso_date(date) {
        Ok(d) => d,
        Err(e) => {
            return Err(e);
        },
    };
    let a = match typed_amount(amount) {
        Ok(a) => a,
        Err(e) => {
            return Err(e);
        },
    };
    let mut o = ObjectBuilder::new();
    o.add("account_id", Json::from_str(account_id));
    o.add("date", Json::String(d));
    o.add("amount", Json::from_i64(a));
    o.add("frequency", Json::from_str(frequency));
    let ghost req = o.members@;
    add_optional_members(&mut o, payee_id, payee_name, category_id, memo, flag_color);
    proof {
        assert(req =~= scheduled_required_members(account_id@, iso_date_outcome(date@)->Ok_0, a as int, frequency@));
    }
    Ok(Json::Object(o.map))
}

/// The members of a scheduled-transaction change, in order.
pub open spec fn scheduled_update_members(
    account_id: Option<String>,
    date: Option<Seq<char>>,
    amount: Option<int>,
    payee_id: Option<String>,
    payee_name: Option<String>,
    category_id: Option<String>,
    memo: Option<String>,
    flag_color: Option<String>,
    frequency: Option<Seq<char>>,
) -> Seq<(Seq<char>, JsonV)> {
    opt_str_member("account_id"@, account_id) + opt_member(
        "date"@,
        match date {
            Some(d) => Some(JsonV::Str(d)),
            None => None,
        },
    ) + opt_member(
        "amount"@,
        match amount {
            Some(a) => Some(int_view(a as i64)),
            None => None,
        },
    ) + scheduled_optional_members(payee_id, payee_name, category_id, memo, flag_color)
        + opt_member(
        "frequency"@,
        match frequency {
            Some(f) => Some(JsonV::Str(f)),
            None => None,
        },
    )
}

/// A scheduled-transaction change: the date, then the amount, must read;
/// `None` when it changes nothing.
pub open spec fn scheduled_update_outcome(
    account_id: Option<String>,
    date: Option<String>,
    amount: Option<String>,
    payee_id: Option<String>,
    payee_name: Option<String>,
    category_id: Option<String>,
    memo: Option<String>,
    flag_color: Option<String>,
    frequency: Option<Seq<char>>,
) -> Result<Option<JsonV>, InputIssue> {
    match opt_date_outcome(date) {
        Err(m) => Err(m),
        Ok(d) => match opt_amount_outcome(amount) {
            Err(m) => Err(m),
            Ok(a) => {
                let members = scheduled_update_members(
                    account_id,
                    d,
                    a,
                    payee_id,
                    payee_name,
                    category_id,
                    memo,
                    flag_color,
                    frequency,
                );
                if members.len() == 0 {
                    Ok(None)
                } else {
                    Ok(Some(JsonV::Object(object_of(members))))
                }
            },
        },
    }
}

/// The view of an optional JSON outcome.
pub open spec fn opt_json_input_outcome(r: Result<Option<Json>, InputError>) -> Result<
    Option<JsonV>,
    InputIssue,
> {
    match r {
        Ok(Some(j)) => Ok(Some(j@)),
        Ok(None) => Ok(None),
        Err(e) => Err(issue_of(e)),
    }
}

/// Builds a scheduled-transaction change; `None` when it changes nothing.
pub fn scheduled_update_payload(
    account_id: &Option<String>,
    date: &Option<String>,
    amount: &Option<String>,
    payee_id: &Option<String>,
    payee_name: &Option<String>,
    category_id: &Option<String>,
    memo: &Option<String>,
    flag_color: &Option<String>,
    frequency: Option<&str>,
) -> (r: Result<Option<Json>, InputError>)
    ensures
        opt_json_input_outcome(r) == scheduled_update_outcome(
            *account_id,
            *date,
            *amount,
            *payee_id,
            *payee_name,
            *category_id,
            *memo,
            *flag_color,
            match frequency {
                Some(f) => Some(f@),
                None => None,
            },
        ),
{
    let d = match opt_date(date) {
        Ok(d) => d,
        Err(e) => {
            return Err(e);
        },
    };
    let a = match opt_amount(amount) {
        Ok(a) => a,
        Err(e) => {
            return Err(e);
        },
    };
    let mut o = ObjectBuilder::new();
    add_opt_str(&mut o, "account_id", account_id);
    let ghost m1 = o.members@;
    if let Some(v) = &d {
        o.add("date", Json::String(v.clone()));
    }
    let ghost m2 = o.members@;
    if let Some(v) = a {
        o.add("amount", Json::from_i64(v));
    }
    let ghost m3 = o.members@;
    add_optional_members(&mut o, payee_id, payee_name, category_id, memo, flag_color);
    let ghost m4 = o.members@;
    if let Some(f) = frequency {
        o.add("frequency", Json::from_str(f));
    }
    proof {
        let dv = match d {
            Some(x) => Some(x@),
            None => None,
        };
        let fv = match frequency {
            Some(f) => Some(f@),
            None => None,
        };
        assert(m2 =~= m1 + opt_member(
            "date"@,
            match dv {
                Some(x) => Some(JsonV::Str(x)),
                None => None,
            },
        ));
        assert(m3 =~= m2 + opt_member(
            "amount"@,
            match opt_int(a) {
                Some(x) => Some(int_view(x as i64)),
                None => None,
            },
        ));
        assert(o.members@ =~= m4 + opt_member(
            "frequency"@,
            match fv {
                Some(x) => Some(JsonV::Str(x)),
                None => None,
            },
        ));
        assert(o.members@ =~= scheduled_update_members(
            *account_id,
            dv,
            opt_int(a),
            *payee_id,
            *payee_name,
            *category_id,
            *memo,
            *flag_color,
            fv,
        ));
    }
    if o.map.len() == 0 {
        proof {
            lemma_object_of_len(o.members@);
        }
        return Ok(None);
    }
    proof {
        if o.members@.len() == 0 {
            assert(object_of(o.members@) =~= Seq::<(Seq<char>, JsonV)>::empty());
        }
    }
    Ok(Some(Json::Object(o.map)))
}

/// An object built from members is empty only when there are none.
proof fn lemma_object_of_len(members: Seq<(Seq<char>, JsonV)>)
    ensures
        object_of(members).len() == 0 ==> members.len() == 0,
{
    if members.len() > 0 {
        crate::json::lemma_insert_entry_nonempty(
            object_of(members.drop_last()),
            members.last().0,
            members.last().1,
        );
    }
}

} // verus!
