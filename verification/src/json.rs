//! JSON values as the library reads them, with lookups specified over the
//! object's member list. Parsing and printing go through `serde_json`.

use vstd::prelude::*;

verus! {

/// A JSON value. Numbers keep their decimal text; objects keep their members
/// in order.
#[derive(Debug)]
pub enum JsonValue {
    Null,
    Bool(bool),
    Number(String),
    String(String),
    Array(Vec<JsonValue>),
    Object(Vec<(String, JsonValue)>),
}

/// The value of the first member named `key`.
pub open spec fn member(entries: Seq<(String, JsonValue)>, key: Seq<char>) -> Option<JsonValue>
    decreases entries.len(),
{
    if entries.len() == 0 {
        None
    } else if entries[0].0@ == key {
        Some(entries[0].1)
    } else {
        member(entries.drop_first(), key)
    }
}

/// `v[key]` for an object `v`; nothing for any other value.
pub open spec fn json_get(v: JsonValue, key: Seq<char>) -> Option<JsonValue> {
    match v {
        JsonValue::Object(entries) => member(entries@, key),
        _ => None,
    }
}

/// The text of a JSON string value.
pub open spec fn json_str(v: JsonValue) -> Option<Seq<char>> {
    match v {
        JsonValue::String(s) => Some(s@),
        _ => None,
    }
}

/// The text of the string member `key` of `v`, if `v` has one.
pub open spec fn json_str_member(v: JsonValue, key: Seq<char>) -> Option<Seq<char>> {
    match json_get(v, key) {
        Some(m) => json_str(m),
        None => None,
    }
}

/// The index of the first member named `key`; the length when there is none.
pub open spec fn first_index(entries: Seq<(String, JsonValue)>, key: Seq<char>) -> int
    decreases entries.len(),
{
    if entries.len() == 0 {
        0
    } else if entries[0].0@ == key {
        0
    } else {
        1 + first_index(entries.drop_first(), key)
    }
}

/// `r` is the member list `entries` with member `key` set to `value`: the
/// first member of that name is replaced in place; when there is none, the
/// member is appended. Every other member stays where it was.
pub open spec fn member_set(entries: Seq<(String, JsonValue)>, key: Seq<char>, value: JsonValue, r: Seq<(String, JsonValue)>) -> bool {
    let i = first_index(entries, key);
    &&& r.len() == if i < entries.len() {
        entries.len()
    } else {
        entries.len() + 1
    }
    &&& r[i].0@ == key
    &&& r[i].1 == value
    &&& forall|j: int| 0 <= j < entries.len() && j != i ==> r[j] == entries[j]
}

/// `member` finds the member at `j` when `j` is the first index named `key`.
pub proof fn lemma_member_first(entries: Seq<(String, JsonValue)>, key: Seq<char>, j: int)
    requires
        0 <= j < entries.len(),
        entries[j].0@ == key,
        forall|i: int| 0 <= i < j ==> (#[trigger] entries[i]).0@ != key,
    ensures
        member(entries, key) == Some(entries[j].1),
        first_index(entries, key) == j,
    decreases j,
{
    if j > 0 {
        let rest = entries.drop_first();
        assert forall|i: int| 0 <= i < j - 1 implies (#[trigger] rest[i]).0@ != key by {
            assert(rest[i] == entries[i + 1]);
        }
        lemma_member_first(rest, key, j - 1);
    }
}

/// `member` finds nothing when no index is named `key`.
pub proof fn lemma_member_none(entries: Seq<(String, JsonValue)>, key: Seq<char>)
    requires
        forall|i: int| 0 <= i < entries.len() ==> (#[trigger] entries[i]).0@ != key,
    ensures
        member(entries, key) is None,
        first_index(entries, key) == entries.len(),
    decreases entries.len(),
{
    if entries.len() > 0 {
        let rest = entries.drop_first();
        assert forall|i: int| 0 <= i < rest.len() implies (#[trigger] rest[i]).0@ != key by {
            assert(rest[i] == entries[i + 1]);
        }
        lemma_member_none(rest, key);
    }
}

/// Sets the member `key` of an object's member list to `value`: in place of
/// the first member of that name, or appended when there is none. The other
/// names keep their values.
pub fn set_member(entries: Vec<(String, JsonValue)>, key: &str, value: JsonValue) -> (r: Vec<(String, JsonValue)>)
    ensures
        member_set(entries@, key@, value, r@),
        member(r@, key@) == Some(value),
        forall|k: Seq<char>| k != key@ ==> #[trigger] member(r@, k) == member(entries@, k),
{
    let mut es = entries;
    let ghost old_es = es@;
    let n = es.len();
    let mut i: usize = 0;
    while i < n
        invariant
            n == es@.len(),
            es@ == old_es,
            old_es == entries@,
            i <= n,
            forall|j: int| 0 <= j < i ==> (#[trigger] es@[j]).0@ != key@,
        decreases n - i,
    {
        if crate::text::str_eq(es[i].0.as_str(), key) {
            es.set(i, (key.to_owned(), value));
            proof {
                assert forall|j: int| 0 <= j < i implies (#[trigger] es@[j]).0@ != key@ by {
                    assert(es@[j] == old_es[j]);
                }
                lemma_member_first(es@, key@, i as int);
                lemma_member_first(old_es, key@, i as int);
                assert(member_set(old_es, key@, value, es@));
                assert forall|k: Seq<char>| k != key@ implies #[trigger] member(es@, k) == member(old_es, k) by {
                    if exists|j: int| 0 <= j < old_es.len() && (#[trigger] old_es[j]).0@ == k {
                        let j0 = choose|j: int| 0 <= j < old_es.len() && (#[trigger] old_es[j]).0@ == k;
                        let jm = first_named(old_es, k, j0);
                        assert(jm != i);
                        assert forall|t: int| 0 <= t < jm implies (#[trigger] es@[t]).0@ != k by {
                            if t != i {
                                assert(es@[t] == old_es[t]);
                            }
                        }
                        assert(es@[jm] == old_es[jm]);
                        lemma_member_first(old_es, k, jm);
                        lemma_member_first(es@, k, jm);
                    } else {
                        assert forall|t: int| 0 <= t < es@.len() implies (#[trigger] es@[t]).0@ != k by {
                            if t != i {
                                assert(es@[t] == old_es[t]);
                            }
                        }
                        lemma_member_none(old_es, k);
                        lemma_member_none(es@, k);
                    }
                }
            }
            return es;
        }
        i = i + 1;
    }
    es.push((key.to_owned(), value));
    proof {
        assert forall|j: int| 0 <= j < n implies (#[trigger] es@[j]).0@ != key@ by {
            assert(es@[j] == old_es[j]);
        }
        lemma_member_first(es@, key@, n as int);
        lemma_member_none(old_es, key@);
        assert(member_set(old_es, key@, value, es@));
        assert forall|k: Seq<char>| k != key@ implies #[trigger] member(es@, k) == member(old_es, k) by {
            if exists|j: int| 0 <= j < old_es.len() && (#[trigger] old_es[j]).0@ == k {
                let j0 = choose|j: int| 0 <= j < old_es.len() && (#[trigger] old_es[j]).0@ == k;
                let jm = first_named(old_es, k, j0);
                assert forall|t: int| 0 <= t < jm implies (#[trigger] es@[t]).0@ != k by {
                    assert(es@[t] == old_es[t]);
                }
                assert(es@[jm] == old_es[jm]);
                lemma_member_first(old_es, k, jm);
                lemma_member_first(es@, k, jm);
            } else {
                assert forall|t: int| 0 <= t < es@.len() implies (#[trigger] es@[t]).0@ != k by {
                    if t < n {
                        assert(es@[t] == old_es[t]);
                    }
                }
                lemma_member_none(old_es, k);
                lemma_member_none(es@, k);
            }
        }
    }
    es
}

/// The first index named `key`, given that index `j` is named so.
proof fn first_named(entries: Seq<(String, JsonValue)>, key: Seq<char>, j: int) -> (f: int)
    requires
        0 <= j < entries.len(),
        entries[j].0@ == key,
    ensures
        0 <= f <= j,
        entries[f].0@ == key,
        forall|i: int| 0 <= i < f ==> (#[trigger] entries[i]).0@ != key,
    decreases j,
{
    if exists|i: int| 0 <= i < j && (#[trigger] entries[i]).0@ == key {
        let i = choose|i: int| 0 <= i < j && (#[trigger] entries[i]).0@ == key;
        first_named(entries, key, i)
    } else {
        j
    }
}

/// Looks up the first member named `key` in an object's member list.
pub fn find_member<'a>(entries: &'a Vec<(String, JsonValue)>, key: &str) -> (r: Option<&'a JsonValue>)
    ensures
        match r {
            Some(x) => member(entries@, key@) == Some(*x),
            None => member(entries@, key@) is None,
        },
{
    let n = entries.len();
    let mut i: usize = 0;
    assert(entries@.skip(0) =~= entries@);
    while i < n
        invariant
            n == entries@.len(),
            i <= n,
            member(entries@, key@) == member(entries@.skip(i as int), key@),
        decreases n - i,
    {
        if crate::text::str_eq(entries[i].0.as_str(), key) {
            return Some(&entries[i].1);
        }
        proof {
            assert(entries@.skip(i as int).drop_first() =~= entries@.skip(i + 1));
        }
        i = i + 1;
    }
    None
}

impl JsonValue {
    /// `self[key]` when `self` is an object with such a member.
    pub fn get(&self, key: &str) -> (r: Option<&JsonValue>)
        ensures
            match r {
                Some(x) => json_get(*self, key@) == Some(*x),
                None => json_get(*self, key@) is None,
            },
    {
        match self {
            JsonValue::Object(entries) => find_member(entries, key),
            _ => None,
        }
    }

    /// The text of a string value.
    pub fn as_str(&self) -> (r: Option<&str>)
        ensures
            match r {
                Some(s) => json_str(*self) == Some(s@),
                None => json_str(*self) is None,
            },
    {
        match self {
            JsonValue::String(s) => Some(s.as_str()),
            _ => None,
        }
    }

    /// Whether this is `null`.
    pub fn is_null(&self) -> (r: bool)
        ensures
            r == (*self is Null),
    {
        match self {
            JsonValue::Null => true,
            _ => false,
        }
    }
}

/// `a` and `b` are the same JSON value, member for member.
pub open spec fn same_json(a: JsonValue, b: JsonValue) -> bool
    decreases a,
{
    match (a, b) {
        (JsonValue::Null, JsonValue::Null) => true,
        (JsonValue::Bool(x), JsonValue::Bool(y)) => x == y,
        (JsonValue::Number(x), JsonValue::Number(y)) => x@ == y@,
        (JsonValue::String(x), JsonValue::String(y)) => x@ == y@,
        (JsonValue::Array(v), JsonValue::Array(w)) => v@.len() == w@.len() && forall|i: int|
            0 <= i < v@.len() ==> same_json(#[trigger] v@[i], w@[i]),
        (JsonValue::Object(v), JsonValue::Object(w)) => v@.len() == w@.len() && forall|i: int|
            0 <= i < v@.len() ==> (#[trigger] v@[i]).0@ == w@[i].0@ && same_json(v@[i].1, w@[i].1),
        _ => false,
    }
}

impl JsonValue {
    /// A copy of this value, member for member.
    pub fn deep_copy(&self) -> (r: JsonValue)
        ensures
            same_json(*self, r),
        decreases self,
    {
        match self {
            JsonValue::Null => JsonValue::Null,
            JsonValue::Bool(b) => JsonValue::Bool(*b),
            JsonValue::Number(n) => JsonValue::Number(n.clone()),
            JsonValue::String(s) => JsonValue::String(s.clone()),
            JsonValue::Array(v) => {
                let mut out: Vec<JsonValue> = Vec::new();
                for i in 0..v.len()
                    invariant
                        *self == JsonValue::Array(*v),
                        out@.len() == i,
                        forall|j: int| 0 <= j < i ==> same_json(#[trigger] v@[j], out@[j]),
                {
                    proof {
                        assert(decreases_to!(*self => (*self)->Array_0));
                        assert(decreases_to!(*v => v@));
                        assert(decreases_to!(v@ => v@[i as int]));
                    }
                    out.push(v[i].deep_copy());
                }
                JsonValue::Array(out)
            },
            JsonValue::Object(v) => {
                let mut out: Vec<(String, JsonValue)> = Vec::new();
                for i in 0..v.len()
                    invariant
                        *self == JsonValue::Object(*v),
                        out@.len() == i,
                        forall|j: int|
                            0 <= j < i ==> (#[trigger] v@[j]).0@ == out@[j].0@ && same_json(v@[j].1, out@[j].1),
                {
                    proof {
                        assert(decreases_to!(*self => (*self)->Object_0));
                        assert(decreases_to!(*v => v@));
                        assert(decreases_to!(v@ => v@[i as int]));
                        assert(decreases_to!(v@[i as int] => v@[i as int].1));
                    }
                    out.push((v[i].0.clone(), v[i].1.deep_copy()));
                }
                JsonValue::Object(out)
            },
        }
    }
}

/// A copy of an optional JSON value.
pub fn copy_opt_json(v: &Option<JsonValue>) -> (r: Option<JsonValue>)
    ensures
        match (*v, r) {
            (Some(a), Some(b)) => same_json(a, b),
            (None, None) => true,
            _ => false,
        },
{
    match v {
        Some(a) => Some(a.deep_copy()),
        None => None,
    }
}

/// A JSON string value holding `s`.
pub fn json_string(s: &str) -> (v: JsonValue)
    ensures
        json_str(v) == Some(s@),
{
    JsonValue::String(s.to_owned())
}

#[verifier::external_type_specification]
#[verifier::external_body]
pub struct ExSerdeJsonValue(serde_json::Value);

/// The value that `serde_json::from_str` reads from `text`, if the text is JSON.
pub uninterp spec fn spec_parse_json(text: Seq<char>) -> Option<JsonValue>;

/// The compact text that `serde_json::to_string` writes for `v`.
pub uninterp spec fn spec_json_text(v: JsonValue) -> Seq<char>;

/// Carries a `serde_json` value over into a `JsonValue`, member for member.
#[verifier::external_body]
fn from_serde(v: serde_json::Value) -> JsonValue {
    match v {
        serde_json::Value::Null => JsonValue::Null,
        serde_json::Value::Bool(b) => JsonValue::Bool(b),
        serde_json::Value::Number(n) => JsonValue::Number(n.to_string()),
        serde_json::Value::String(s) => JsonValue::String(s),
        serde_json::Value::Array(a) => JsonValue::Array(a.into_iter().map(from_serde).collect()),
        serde_json::Value::Object(m) => JsonValue::Object(m.into_iter().map(|(k, x)| (k, from_serde(x))).collect()),
    }
}

/// Carries a `JsonValue` over into a `serde_json` value, member for member.
#[verifier::external_body]
fn to_serde(v: &JsonValue) -> serde_json::Value {
    match v {
        JsonValue::Null => serde_json::Value::Null,
        JsonValue::Bool(b) => serde_json::Value::Bool(*b),
        JsonValue::Number(n) => n.parse::<serde_json::Number>().map_or(serde_json::Value::Null, serde_json::Value::Number),
        JsonValue::String(s) => serde_json::Value::String(s.clone()),
        JsonValue::Array(a) => serde_json::Value::Array(a.iter().map(to_serde).collect()),
        JsonValue::Object(m) => serde_json::Value::Object(m.iter().map(|(k, x)| (k.clone(), to_serde(x))).collect()),
    }
}

/// Parses `text` with `serde_json::from_str` into a JSON value; `None` when
/// the text is not JSON. Trusted: the result is only known to be the one
/// `spec_parse_json` names for the text.
#[verifier::external_body]
pub(crate) fn parse_json(text: &str) -> (r: Option<JsonValue>)
    ensures
        r == spec_parse_json(text@),
{
    serde_json::from_str::<serde_json::Value>(text).ok().map(from_serde)
}

/// Writes `v` as compact JSON text with `serde_json::to_string` (empty on
/// the failure that a `Value` never meets). Trusted: the text is only known
/// to be the one `spec_json_text` names for the value.
#[verifier::external_body]
pub(crate) fn json_to_string(v: &JsonValue) -> (r: String)
    ensures
        r@ == spec_json_text(*v),
{
    serde_json::to_string(&to_serde(v)).unwrap_or_default()
}

} // verus!
