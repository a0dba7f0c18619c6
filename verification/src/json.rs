//! A JSON document model whose objects keep their keys in ascending
//! code-point order, one entry per key (the canonical map order of a JSON
//! object whose keys are compared as strings).

use serde_json::{Number, Value};
use vstd::prelude::*;

use crate::text::{
    chars_lt, lemma_chars_lt_asymmetric, lemma_chars_lt_irreflexive, lemma_chars_lt_total,
    lemma_chars_lt_transitive, str_eq, str_lt,
};

verus! {

/// A JSON number: a non-negative integer, a negative integer, or any other
/// number carried by its text.
#[derive(Debug, PartialEq, Eq)]
pub enum JsonNumber {
    PosInt(u64),
    NegInt(i64),
    Float(String),
}

/// A JSON value.
#[derive(Debug, PartialEq, Eq)]
pub enum Json {
    Null,
    Bool(bool),
    Number(JsonNumber),
    String(String),
    Array(Vec<Json>),
    Object(JsonMap),
}

/// A JSON object: entries in strictly ascending key order.
#[derive(Debug, PartialEq, Eq)]
pub struct JsonMap {
    entries: Vec<(String, Json)>,
}

/// The mathematical model of a JSON number.
pub enum NumV {
    PosInt(u64),
    NegInt(i64),
    Float(Seq<char>),
}

/// The mathematical model of a JSON value.
pub enum JsonV {
    Null,
    Bool(bool),
    Number(NumV),
    Str(Seq<char>),
    Array(Seq<JsonV>),
    Object(Seq<(Seq<char>, JsonV)>),
}

pub open spec fn num_view(n: JsonNumber) -> NumV {
    match n {
        JsonNumber::PosInt(u) => NumV::PosInt(u),
        JsonNumber::NegInt(i) => NumV::NegInt(i),
        JsonNumber::Float(s) => NumV::Float(s@),
    }
}

/// The model of a JSON value.
pub open spec fn json_view(j: Json) -> JsonV
    decreases j,
{
    match j {
        Json::Null => JsonV::Null,
        Json::Bool(b) => JsonV::Bool(b),
        Json::Number(n) => JsonV::Number(num_view(n)),
        Json::String(s) => JsonV::Str(s@),
        Json::Array(v) => JsonV::Array(items_view(v@)),
        Json::Object(m) => JsonV::Object(map_view(m)),
    }
}

/// The models of a sequence of values.
pub open spec fn items_view(s: Seq<Json>) -> Seq<JsonV>
    decreases s,
{
    if s.len() == 0 {
        Seq::empty()
    } else {
        items_view(s.drop_last()).push(json_view(s.last()))
    }
}

/// The model of an object: its entries, keys by their characters.
pub closed spec fn map_view(m: JsonMap) -> Seq<(Seq<char>, JsonV)>
    decreases m,
{
    entries_view(m.entries@)
}

pub closed spec fn entries_view(s: Seq<(String, Json)>) -> Seq<(Seq<char>, JsonV)>
    decreases s,
{
    if s.len() == 0 {
        Seq::empty()
    } else {
        entries_view(s.drop_last()).push((s.last().0@, json_view(s.last().1)))
    }
}

impl View for Json {
    type V = JsonV;

    open spec fn view(&self) -> JsonV {
        json_view(*self)
    }
}

impl View for JsonMap {
    type V = Seq<(Seq<char>, JsonV)>;

    open spec fn view(&self) -> Seq<(Seq<char>, JsonV)> {
        map_view(*self)
    }
}

/// Keys strictly ascending.
pub open spec fn keys_sorted(e: Seq<(Seq<char>, JsonV)>) -> bool {
    forall|i: int, j: int| 0 <= i < j < e.len() ==> chars_lt(#[trigger] e[i].0, #[trigger] e[j].0)
}

/// The value stored under `key`, if any.
pub open spec fn lookup(e: Seq<(Seq<char>, JsonV)>, key: Seq<char>) -> Option<JsonV>
    decreases e.len(),
{
    if e.len() == 0 {
        None
    } else if e.last().0 == key {
        Some(e.last().1)
    } else {
        lookup(e.drop_last(), key)
    }
}

/// The entries after storing `val` under `key`: an existing entry for `key`
/// is replaced, otherwise the entry goes where the key order puts it.
pub open spec fn insert_entry(e: Seq<(Seq<char>, JsonV)>, key: Seq<char>, val: JsonV) -> Seq<
    (Seq<char>, JsonV),
>
    decreases e.len(),
{
    if e.len() == 0 {
        seq![(key, val)]
    } else if e[0].0 == key {
        e.update(0, (key, val))
    } else if chars_lt(key, e[0].0) {
        seq![(key, val)] + e
    } else {
        seq![e[0]] + insert_entry(e.drop_first(), key, val)
    }
}

impl JsonV {
    /// The member `key` of an object; nothing for any other value.
    pub open spec fn member(self, key: Seq<char>) -> Option<JsonV> {
        match self {
            JsonV::Object(e) => lookup(e, key),
            _ => None,
        }
    }

    pub open spec fn str_of(self) -> Option<Seq<char>> {
        match self {
            JsonV::Str(s) => Some(s),
            _ => None,
        }
    }

    pub open spec fn bool_of(self) -> Option<bool> {
        match self {
            JsonV::Bool(b) => Some(b),
            _ => None,
        }
    }

    /// The value as a signed 64-bit integer, when it is an integer in range.
    pub open spec fn i64_of(self) -> Option<i64> {
        match self {
            JsonV::Number(NumV::PosInt(u)) => if u <= i64::MAX {
                Some(u as i64)
            } else {
                None
            },
            JsonV::Number(NumV::NegInt(i)) => Some(i),
            _ => None,
        }
    }

    /// The value as an unsigned 64-bit integer, when it is a non-negative integer.
    pub open spec fn u64_of(self) -> Option<u64> {
        match self {
            JsonV::Number(NumV::PosInt(u)) => Some(u),
            _ => None,
        }
    }
}

/// The model of the number `n`.
pub open spec fn int_view(n: i64) -> JsonV {
    if n < 0 {
        JsonV::Number(NumV::NegInt(n))
    } else {
        JsonV::Number(NumV::PosInt(n as u64))
    }
}

// ---------------------------------------------------------------------------
// Entry-sequence lemmas.
// ---------------------------------------------------------------------------

proof fn lemma_entries_view_len(s: Seq<(String, Json)>)
    ensures
        entries_view(s).len() == s.len(),
    decreases s.len(),
{
    if s.len() > 0 {
        lemma_entries_view_len(s.drop_last());
    }
}

proof fn lemma_entries_view_index(s: Seq<(String, Json)>, i: int)
    requires
        0 <= i < s.len(),
    ensures
        entries_view(s).len() == s.len(),
        entries_view(s)[i] == (s[i].0@, json_view(s[i].1)),
    decreases s.len(),
{
    lemma_entries_view_len(s);
    if i < s.len() - 1 {
        lemma_entries_view_index(s.drop_last(), i);
    }
}

proof fn lemma_entries_view_ext(s: Seq<(String, Json)>, t: Seq<(Seq<char>, JsonV)>)
    requires
        s.len() == t.len(),
        forall|i: int| 0 <= i < s.len() ==> t[i] == (#[trigger] s[i].0@, json_view(s[i].1)),
    ensures
        entries_view(s) == t,
{
    lemma_entries_view_len(s);
    assert forall|i: int| 0 <= i < s.len() implies entries_view(s)[i] == t[i] by {
        lemma_entries_view_index(s, i);
    }
    assert(entries_view(s) =~= t);
}

pub proof fn lemma_items_view_len(s: Seq<Json>)
    ensures
        items_view(s).len() == s.len(),
    decreases s.len(),
{
    if s.len() > 0 {
        lemma_items_view_len(s.drop_last());
    }
}

pub proof fn lemma_items_view_index(s: Seq<Json>, i: int)
    requires
        0 <= i < s.len(),
    ensures
        items_view(s).len() == s.len(),
        items_view(s)[i] == json_view(s[i]),
    decreases s.len(),
{
    lemma_items_view_len(s);
    if i < s.len() - 1 {
        lemma_items_view_index(s.drop_last(), i);
    }
}

pub proof fn lemma_items_view_push(s: Seq<Json>, j: Json)
    ensures
        items_view(s.push(j)) == items_view(s).push(json_view(j)),
{
    assert(s.push(j).drop_last() =~= s);
}

/// A key not below any key of a sorted sequence is found where the scan stops.
pub(crate) proof fn lemma_lookup_sorted_absent(e: Seq<(Seq<char>, JsonV)>, key: Seq<char>)
    requires
        forall|i: int| 0 <= i < e.len() ==> #[trigger] e[i].0 != key,
    ensures
        lookup(e, key) is None,
    decreases e.len(),
{
    if e.len() > 0 {
        lemma_lookup_sorted_absent(e.drop_last(), key);
    }
}

pub(crate) proof fn lemma_lookup_at(e: Seq<(Seq<char>, JsonV)>, key: Seq<char>, i: int)
    requires
        0 <= i < e.len(),
        e[i].0 == key,
        forall|j: int| 0 <= j < e.len() && j != i ==> #[trigger] e[j].0 != key,
    ensures
        lookup(e, key) == Some(e[i].1),
    decreases e.len(),
{
    if i < e.len() - 1 {
        lemma_lookup_at(e.drop_last(), key, i);
    }
}

/// In a sorted sequence each key occurs once.
pub(crate) proof fn lemma_sorted_unique(e: Seq<(Seq<char>, JsonV)>, i: int, j: int)
    requires
        keys_sorted(e),
        0 <= i < e.len(),
        0 <= j < e.len(),
        i != j,
    ensures
        e[i].0 != e[j].0,
{
    if i < j {
        assert(chars_lt(e[i].0, e[j].0));
        if e[i].0 == e[j].0 {
            lemma_chars_lt_irreflexive(e[i].0);
        }
    } else {
        assert(chars_lt(e[j].0, e[i].0));
        if e[i].0 == e[j].0 {
            lemma_chars_lt_irreflexive(e[i].0);
        }
    }
}

/// Storing a value leaves at least one entry.
pub proof fn lemma_insert_entry_nonempty(e: Seq<(Seq<char>, JsonV)>, key: Seq<char>, val: JsonV)
    ensures
        insert_entry(e, key, val).len() > 0,
    decreases e.len(),
{
    if e.len() > 0 && e[0].0 != key && !chars_lt(key, e[0].0) {
        lemma_insert_entry_nonempty(e.drop_first(), key, val);
    }
}

/// `insert_entry` agrees with a split at the first key not below `key`.
pub(crate) proof fn lemma_insert_entry_split(
    e: Seq<(Seq<char>, JsonV)>,
    key: Seq<char>,
    val: JsonV,
    i: int,
)
    requires
        0 <= i <= e.len(),
        forall|j: int| 0 <= j < i ==> chars_lt(#[trigger] e[j].0, key),
        i < e.len() ==> !chars_lt(e[i].0, key),
    ensures
        i < e.len() && e[i].0 == key ==> insert_entry(e, key, val) == e.update(i, (key, val)),
        !(i < e.len() && e[i].0 == key) ==> insert_entry(e, key, val) == e.subrange(0, i).push(
            (key, val),
        ) + e.subrange(i, e.len() as int),
    decreases i,
{
    if i == 0 {
        if e.len() == 0 {
            assert(seq![(key, val)] =~= e.subrange(0, 0).push((key, val)) + e.subrange(0, 0));
        } else if e[0].0 == key {
        } else {
            lemma_chars_lt_total(e[0].0, key);
            assert(seq![(key, val)] + e =~= e.subrange(0, 0).push((key, val)) + e.subrange(
                0,
                e.len() as int,
            ));
        }
    } else {
        let rest = e.drop_first();
        assert forall|j: int| 0 <= j < i - 1 implies chars_lt(#[trigger] rest[j].0, key) by {
            assert(rest[j] == e[j + 1]);
        }
        lemma_insert_entry_split(rest, key, val, i - 1);
        assert(chars_lt(e[0].0, key));
        if e[0].0 == key {
            lemma_chars_lt_irreflexive(key);
        }
        lemma_chars_lt_asymmetric(e[0].0, key);
        if i < e.len() && e[i].0 == key {
            assert(seq![e[0]] + rest.update(i - 1, (key, val)) =~= e.update(i, (key, val)));
        } else {
            assert(seq![e[0]] + (rest.subrange(0, i - 1).push((key, val)) + rest.subrange(
                i - 1,
                rest.len() as int,
            )) =~= e.subrange(0, i).push((key, val)) + e.subrange(i, e.len() as int));
        }
    }
}

// ---------------------------------------------------------------------------
// Executable operations.
// ---------------------------------------------------------------------------

impl JsonMap {
    #[verifier::type_invariant]
    closed spec fn sorted(self) -> bool {
        keys_sorted(map_view(self))
    }

    /// An empty object.
    pub fn new() -> (m: JsonMap)
        ensures
            m@ == Seq::<(Seq<char>, JsonV)>::empty(),
    {
        let m = JsonMap { entries: Vec::new() };
        proof {
            assert(map_view(m) =~= Seq::<(Seq<char>, JsonV)>::empty());
        }
        m
    }

    /// The number of entries.
    pub fn len(&self) -> (n: usize)
        ensures
            n == self@.len(),
    {
        proof {
            lemma_entries_view_len(self.entries@);
        }
        self.entries.len()
    }

    /// The `i`-th entry in key order.
    pub fn entry(&self, i: usize) -> (r: (&String, &Json))
        requires
            i < self@.len(),
        ensures
            self@[i as int] == (r.0@, json_view(*r.1)),
    {
        proof {
            lemma_entries_view_len(self.entries@);
            lemma_entries_view_index(self.entries@, i as int);
        }
        let e = &self.entries[i];
        (&e.0, &e.1)
    }

    /// The value stored under `key`.
    pub fn get(&self, key: &str) -> (r: Option<&Json>)
        ensures
            match r {
                Some(v) => lookup(self@, key@) == Some(json_view(*v)),
                None => lookup(self@, key@) is None,
            },
    {
        proof {
            use_type_invariant(self);
            lemma_entries_view_len(self.entries@);
        }
        let ghost e = self@;
        let mut i: usize = 0;
        while i < self.entries.len()
            invariant
                e == map_view(*self),
                keys_sorted(e),
                e.len() == self.entries@.len(),
                i <= e.len(),
                forall|j: int| 0 <= j < i ==> #[trigger] e[j].0 != key@,
            decreases self.entries@.len() - i,
        {
            proof {
                lemma_entries_view_index(self.entries@, i as int);
            }
            if str_eq(self.entries[i].0.as_str(), key) {
                proof {
                    assert forall|j: int| 0 <= j < e.len() && j != i implies #[trigger] e[j].0
                        != key@ by {
                        lemma_sorted_unique(e, i as int, j);
                    }
                    lemma_lookup_at(e, key@, i as int);
                }
                return Some(&self.entries[i].1);
            }
            i = i + 1;
        }
        proof {
            lemma_lookup_sorted_absent(e, key@);
        }
        None
    }

    /// Stores `val` under `key`, replacing an earlier value.
    pub fn insert(&mut self, key: String, val: Json)
        ensures
            final(self)@ == insert_entry(old(self)@, key@, json_view(val)),
            keys_sorted(final(self)@),
    {
        proof {
            use_type_invariant(&*self);
            lemma_entries_view_len(self.entries@);
        }
        let ghost e = self@;
        let mut i: usize = 0;
        while i < self.entries.len()
            invariant
                e == map_view(*self),
                keys_sorted(e),
                e.len() == self.entries@.len(),
                i <= e.len(),
                forall|j: int| 0 <= j < i ==> chars_lt(#[trigger] e[j].0, key@),
            ensures
                e == map_view(*self),
                keys_sorted(e),
                e.len() == self.entries@.len(),
                i <= e.len(),
                forall|j: int| 0 <= j < i ==> chars_lt(#[trigger] e[j].0, key@),
                i < e.len() ==> !chars_lt(e[i as int].0, key@),
            decreases self.entries@.len() - i,
        {
            proof {
                lemma_entries_view_index(self.entries@, i as int);
            }
            if !str_lt(self.entries[i].0.as_str(), key.as_str()) {
                break;
            }
            i = i + 1;
        }
        proof {
            if i < e.len() {
                lemma_entries_view_index(self.entries@, i as int);
            }
            lemma_insert_entry_split(e, key@, json_view(val), i as int);
        }
        let ghost kv = key@;
        let ghost vv = json_view(val);
        let replace = i < self.entries.len() && str_eq(self.entries[i].0.as_str(), key.as_str());
        let ghost old_entries = self.entries@;
        let mut entries = Vec::new();
        std::mem::swap(&mut entries, &mut self.entries);
        if replace {
            entries.set(i, (key, val));
        } else {
            entries.insert(i, (key, val));
        }
        proof {
            let target = insert_entry(e, kv, vv);
            if replace {
                assert forall|j: int| 0 <= j < entries@.len() implies target[j] == (
                    #[trigger] entries@[j].0@,
                    json_view(entries@[j].1),
                ) by {
                    if j != i {
                        lemma_entries_view_index(old_entries, j);
                    }
                }
                lemma_entries_view_ext(entries@, target);
            } else {
                assert forall|j: int| 0 <= j < entries@.len() implies target[j] == (
                    #[trigger] entries@[j].0@,
                    json_view(entries@[j].1),
                ) by {
                    if j < i {
                        lemma_entries_view_index(old_entries, j);
                    } else if j > i {
                        lemma_entries_view_index(old_entries, j - 1);
                    }
                }
                lemma_entries_view_ext(entries@, target);
            }
            // the new sequence is still sorted
            if !replace && i < e.len() {
                lemma_entries_view_index(old_entries, i as int);
                lemma_chars_lt_total(e[i as int].0, kv);
                assert(chars_lt(kv, e[i as int].0));
            }
            assert forall|a: int, b: int| 0 <= a < b < target.len() implies chars_lt(
                #[trigger] target[a].0,
                #[trigger] target[b].0,
            ) by {
                if replace {
                    if a != i && b != i {
                    } else if a == i {
                        assert(e[a].0 == kv);
                    } else {
                        assert(e[b].0 == kv);
                    }
                } else {
                    if b < i {
                    } else if a > i {
                        assert(target[a] == e[a - 1]);
                        assert(target[b] == e[b - 1]);
                    } else if a == i {
                        // key before every later entry
                        assert(target[b] == e[b - 1]);
                        if i < e.len() {
                            if b - 1 > i {
                                lemma_chars_lt_transitive(kv, e[i as int].0, e[b - 1].0);
                            }
                        }
                    } else if b == i {
                    } else {
                        // a < i < b
                        assert(target[b] == e[b - 1]);
                        assert(target[a] == e[a]);
                        lemma_chars_lt_transitive(e[a].0, kv, e[i as int].0);
                        if b - 1 > i {
                            lemma_chars_lt_transitive(e[a].0, e[i as int].0, e[b - 1].0);
                        }
                    }
                }
            }
        }
        self.entries = entries;
    }
}

impl Json {
    /// A string value.
    pub fn from_str(s: &str) -> (j: Json)
        ensures
            j@ == JsonV::Str(s@),
    {
        Json::String(s.to_owned())
    }

    /// An integer value, stored the way a JSON integer is stored.
    pub fn from_i64(n: i64) -> (j: Json)
        ensures
            j@ == int_view(n),
    {
        if n < 0 {
            Json::Number(JsonNumber::NegInt(n))
        } else {
            Json::Number(JsonNumber::PosInt(n as u64))
        }
    }

    /// The string held by the value.
    pub fn as_str(&self) -> (r: Option<&String>)
        ensures
            match r {
                Some(s) => self@.str_of() == Some(s@),
                None => self@.str_of() is None,
            },
    {
        match self {
            Json::String(s) => Some(s),
            _ => None,
        }
    }

    /// The boolean held by the value.
    pub fn as_bool(&self) -> (r: Option<bool>)
        ensures
            r == self@.bool_of(),
    {
        match self {
            Json::Bool(b) => Some(*b),
            _ => None,
        }
    }

    /// The value as a signed 64-bit integer.
    pub fn as_i64(&self) -> (r: Option<i64>)
        ensures
            r == self@.i64_of(),
    {
        match self {
            Json::Number(JsonNumber::PosInt(u)) => {
                if *u <= i64::MAX as u64 {
                    Some(*u as i64)
                } else {
                    None
                }
            },
            Json::Number(JsonNumber::NegInt(i)) => Some(*i),
            _ => None,
        }
    }

    /// The value as an unsigned 64-bit integer.
    pub fn as_u64(&self) -> (r: Option<u64>)
        ensures
            r == self@.u64_of(),
    {
        match self {
            Json::Number(JsonNumber::PosInt(u)) => Some(*u),
            _ => None,
        }
    }

    /// The elements of an array value.
    pub fn as_array(&self) -> (r: Option<&Vec<Json>>)
        ensures
            match r {
                Some(v) => self@ == JsonV::Array(items_view(v@)),
                None => !(self@ is Array),
            },
    {
        match self {
            Json::Array(v) => Some(v),
            _ => None,
        }
    }

    /// The entries of an object value.
    pub fn as_object(&self) -> (r: Option<&JsonMap>)
        ensures
            match r {
                Some(m) => self@ == JsonV::Object(m@),
                None => !(self@ is Object),
            },
    {
        match self {
            Json::Object(m) => Some(m),
            _ => None,
        }
    }

    /// The member `key` of an object value.
    pub fn get(&self, key: &str) -> (r: Option<&Json>)
        ensures
            match r {
                Some(v) => self@.member(key@) == Some(json_view(*v)),
                None => self@.member(key@) is None,
            },
    {
        match self {
            Json::Object(m) => m.get(key),
            _ => None,
        }
    }

    /// A copy of the value.
    pub fn deep_copy(&self) -> (r: Json)
        ensures
            r@ == self@,
        decreases self,
    {
        broadcast use vstd::std_specs::vec::axiom_vec_index_decreases;

        match self {
            Json::Null => Json::Null,
            Json::Bool(b) => Json::Bool(*b),
            Json::Number(JsonNumber::PosInt(u)) => Json::Number(JsonNumber::PosInt(*u)),
            Json::Number(JsonNumber::NegInt(i)) => Json::Number(JsonNumber::NegInt(*i)),
            Json::Number(JsonNumber::Float(s)) => Json::Number(JsonNumber::Float(s.clone())),
            Json::String(s) => Json::String(s.clone()),
            Json::Array(v) => {
                let mut out: Vec<Json> = Vec::new();
                let mut i: usize = 0;
                while i < v.len()
                    invariant
                        *self == Json::Array(*v),
                        i <= v@.len(),
                        items_view(out@) == items_view(v@.subrange(0, i as int)),
                    decreases v@.len() - i,
                {
                    proof {
                        assert(decreases_to!(*self => (*self)->Array_0));
                        assert(decreases_to!(*v => v[i as int]));
                    }
                    let c = v[i].deep_copy();
                    proof {
                        lemma_items_view_push(out@, c);
                        lemma_items_view_push(v@.subrange(0, i as int), v@[i as int]);
                        assert(v@.subrange(0, i as int).push(v@[i as int]) =~= v@.subrange(
                            0,
                            i + 1,
                        ));
                    }
                    out.push(c);
                    i = i + 1;
                }
                proof {
                    assert(v@.subrange(0, v@.len() as int) =~= v@);
                }
                Json::Array(out)
            },
            Json::Object(m) => {
                proof {
                    use_type_invariant(m);
                }
                Json::Object(m.deep_copy())
            },
        }
    }
}

/// The models of a sequence of strings, as JSON strings.
pub open spec fn strings_view(s: Seq<String>) -> Seq<JsonV> {
    Seq::new(s.len(), |i: int| JsonV::Str(s[i]@))
}

/// The model of an optional value.
pub open spec fn opt_view(o: Option<Json>) -> Option<JsonV> {
    match o {
        Some(j) => Some(json_view(j)),
        None => None,
    }
}

/// An array of JSON strings holding `v`'s strings in order.
pub fn string_array(v: &Vec<String>) -> (j: Json)
    ensures
        j@ == JsonV::Array(strings_view(v@)),
{
    let mut out: Vec<Json> = Vec::new();
    let mut i: usize = 0;
    while i < v.len()
        invariant
            i <= v@.len(),
            items_view(out@) == strings_view(v@.subrange(0, i as int)),
        decreases v@.len() - i,
    {
        let item = Json::String(v[i].clone());
        proof {
            lemma_items_view_push(out@, item);
            assert(strings_view(v@.subrange(0, i + 1)) =~= strings_view(
                v@.subrange(0, i as int),
            ).push(JsonV::Str(v@[i as int]@)));
        }
        out.push(item);
        i = i + 1;
    }
    proof {
        assert(v@.subrange(0, v@.len() as int) =~= v@);
    }
    Json::Array(out)
}

/// An object value with one member.
pub fn object_with(key: &str, val: Json) -> (j: JsonMap)
    ensures
        j@ == insert_entry(Seq::empty(), key@, json_view(val)),
{
    let mut m = JsonMap::new();
    m.insert(key.to_owned(), val);
    m
}

impl JsonMap {
    /// A copy of the object.
    pub fn deep_copy(&self) -> (r: JsonMap)
        ensures
            r@ == self@,
        decreases self,
    {
        proof {
            use_type_invariant(self);
            lemma_entries_view_len(self.entries@);
        }
        let mut out: Vec<(String, Json)> = Vec::new();
        let mut i: usize = 0;
        while i < self.entries.len()
            invariant
                i <= self.entries@.len(),
                out@.len() == i,
                keys_sorted(map_view(*self)),
                forall|j: int|
                    0 <= j < i ==> (#[trigger] out@[j]).0@ == self.entries@[j].0@ && json_view(
                        out@[j].1,
                    ) == json_view(self.entries@[j].1),
            decreases self.entries@.len() - i,
        {
            proof {
                assert(decreases_to!(self => self.entries@[i as int].1));
            }
            let k = self.entries[i].0.clone();
            let v = self.entries[i].1.deep_copy();
            out.push((k, v));
            i = i + 1;
        }
        proof {
            let t = entries_view(self.entries@);
            assert forall|j: int| 0 <= j < out@.len() implies t[j] == (
                #[trigger] out@[j].0@,
                json_view(out@[j].1),
            ) by {
                lemma_entries_view_index(self.entries@, j);
            }
            lemma_entries_view_ext(out@, t);
        }
        JsonMap { entries: out }
    }
}

// ---------------------------------------------------------------------------
// Serialized text
// ---------------------------------------------------------------------------

/// `serde_json::Value`, the value the serializer writes.
#[verifier::external_type_specification]
#[verifier::external_body]
pub struct ExSerdeValue(serde_json::Value);

/// The compact text `serde_json::to_string` writes for a value.
pub uninterp spec fn json_compact_text(v: JsonV) -> Seq<char>;

/// The indented text `serde_json::to_string_pretty` writes for a value.
pub uninterp spec fn json_pretty_text(v: JsonV) -> Seq<char>;

/// A value as a `serde_json::Value`, member for member (a number by its
/// `serde_json::Number`; a number text `serde_json` does not read becomes
/// `null`). Nothing is stated of the result.
#[verifier::external_body]
fn serde_value(j: &Json) -> Value {
    match j {
        Json::Null => Value::Null,
        Json::Bool(b) => Value::Bool(*b),
        Json::Number(JsonNumber::PosInt(u)) => Value::from(*u),
        Json::Number(JsonNumber::NegInt(i)) => Value::from(*i),
        Json::Number(JsonNumber::Float(t)) => t.parse::<Number>().map_or(Value::Null, Value::Number),
        Json::String(s) => Value::String(s.clone()),
        Json::Array(v) => Value::Array(v.iter().map(serde_value).collect()),
        Json::Object(m) => Value::Object(m.entries.iter().map(|(k, v)| (k.clone(), serde_value(v))).collect()),
    }
}

/// The compact text of a value (`serde_json::to_string`): the text
/// `json_compact_text` names.
#[verifier::external_body]
pub(crate) fn compact_text(j: &Json) -> (r: String)
    ensures
        r@ == json_compact_text(j@),
{
    serde_json::to_string(&serde_value(j)).unwrap_or_default()
}

/// The indented text of a value (`serde_json::to_string_pretty`): the text
/// `json_pretty_text` names.
#[verifier::external_body]
pub(crate) fn pretty_text(j: &Json) -> (r: String)
    ensures
        r@ == json_pretty_text(j@),
{
    serde_json::to_string_pretty(&serde_value(j)).unwrap_or_default()
}

} // verus!
