//! The JSON document model that responses are decoded from and request
//! bodies are encoded to, with readers for optional fields.

use vstd::prelude::*;
use crate::http::{decode_error, opt_text, Error};
use crate::map::{inserted, StringMap};

verus! {

/// A JSON document. Numbers keep their literal text; an object keeps its
/// members in document order.
#[derive(Debug, PartialEq)]
pub enum JsonValue {
    Null,
    Bool(bool),
    Number(String),
    Text(String),
    Array(Vec<JsonValue>),
    Object(Vec<(String, JsonValue)>),
}

/// Whether `c` is a decimal digit.
pub open spec fn is_digit(c: char) -> bool {
    '0' <= c && c <= '9'
}

/// The value of digit `c`.
pub open spec fn digit_value(c: char) -> int {
    (c as u32) as int - ('0' as u32) as int
}

/// Whether every character of `s` is a decimal digit.
pub open spec fn all_digits(s: Seq<char>) -> bool {
    forall|i: int| 0 <= i < s.len() ==> is_digit(#[trigger] s[i])
}

/// The number that the digits `s` denote.
pub open spec fn digits_value(s: Seq<char>) -> int
    decreases s.len(),
{
    if s.len() == 0 {
        0
    } else {
        digits_value(s.drop_last()) * 10 + digit_value(s.last())
    }
}

/// The integer that the numeral `s` denotes: digits, optionally after a `-`.
pub open spec fn int_value(s: Seq<char>) -> Option<int> {
    if s.len() > 0 && all_digits(s) {
        Some(digits_value(s))
    } else if s.len() > 1 && s[0] == '-' && all_digits(s.drop_first()) {
        Some(-digits_value(s.drop_first()))
    } else {
        None
    }
}

/// The `i64` that the numeral `s` denotes, if it is one and fits.
pub open spec fn i64_value(s: Seq<char>) -> Option<i64> {
    match int_value(s) {
        Some(n) => if i64::MIN <= n <= i64::MAX {
            Some(n as i64)
        } else {
            None
        },
        None => None,
    }
}

proof fn lemma_digits_nonneg(s: Seq<char>)
    requires
        all_digits(s),
    ensures
        digits_value(s) >= 0,
    decreases s.len(),
{
    if s.len() > 0 {
        assert(all_digits(s.drop_last())) by {
            assert forall|i: int| 0 <= i < s.drop_last().len() implies is_digit(#[trigger] s.drop_last()[i]) by {
                assert(s.drop_last()[i] == s[i]);
            }
        }
        lemma_digits_nonneg(s.drop_last());
        assert(is_digit(s[s.len() - 1]));
    }
}

proof fn lemma_digits_grow(s: Seq<char>, i: int)
    requires
        all_digits(s),
        0 <= i <= s.len(),
    ensures
        digits_value(s.take(i)) <= digits_value(s),
    decreases s.len() - i,
{
    if i < s.len() {
        lemma_digits_grow(s, i + 1);
        let t = s.take(i + 1);
        assert(t.drop_last() =~= s.take(i));
        assert(all_digits(s.take(i))) by {
            assert forall|j: int| 0 <= j < s.take(i).len() implies is_digit(#[trigger] s.take(i)[j]) by {
                assert(s.take(i)[j] == s[j]);
            }
        }
        lemma_digits_nonneg(s.take(i));
        assert(is_digit(s[i]));
        assert(t.last() == s[i]);
    } else {
        assert(s.take(i) =~= s);
    }
}

/// The magnitude of the digits of `s` from `start`; `None` when a character
/// is not a digit or the value exceeds 2^63.
fn digits_from(s: &str, start: usize) -> (r: Option<u64>)
    requires
        start <= s@.len(),
    ensures
        r is Some <==> (all_digits(s@.skip(start as int)) && digits_value(s@.skip(start as int)) <= 0x8000_0000_0000_0000),
        r is Some ==> r->Some_0 as int == digits_value(s@.skip(start as int)),
{
    let n = s.unicode_len();
    let ghost t = s@.skip(start as int);
    let mut acc: u64 = 0;
    let mut i: usize = start;
    assert(t.take(0) =~= Seq::<char>::empty());
    while i < n
        invariant
            n == s@.len(),
            start <= i <= n,
            t == s@.skip(start as int),
            all_digits(t.take(i - start)),
            acc as int == digits_value(t.take(i - start)),
            acc <= 0x8000_0000_0000_0000,
        decreases n - i,
    {
        let c = s.get_char(i);
        let ghost k = i - start;
        assert(t[k] == c);
        if !('0' <= c && c <= '9') {
            assert(!all_digits(t));
            return None;
        }
        let d: u64 = (c as u32 - '0' as u32) as u64;
        assert(t.take(k + 1).drop_last() =~= t.take(k));
        assert(t.take(k + 1).last() == c);
        assert(all_digits(t.take(k + 1))) by {
            assert forall|j: int| 0 <= j < t.take(k + 1).len() implies is_digit(#[trigger] t.take(k + 1)[j]) by {
                if j < k {
                    assert(t.take(k + 1)[j] == t.take(k)[j]);
                }
            }
        }
        if acc > 922_337_203_685_477_580 || (acc == 922_337_203_685_477_580 && d > 8) {
            assert(digits_value(t.take(k + 1)) > 0x8000_0000_0000_0000);
            proof {
                if all_digits(t) {
                    lemma_digits_grow(t, k + 1);
                }
            }
            return None;
        }
        acc = acc * 10 + d;
        i = i + 1;
    }
    assert(t.take(i - start) =~= t);
    Some(acc)
}

/// Reads a JSON numeral as an `i64`.
pub fn parse_i64(s: &str) -> (r: Option<i64>)
    ensures
        r == i64_value(s@),
{
    let n = s.unicode_len();
    if n == 0 {
        return None;
    }
    if s.get_char(0) == '-' {
        if n == 1 {
            return None;
        }
        assert(s@.skip(1) =~= s@.drop_first());
        match digits_from(s, 1) {
            Some(m) => {
                if m <= 0x7fff_ffff_ffff_ffff {
                    Some(-(m as i64))
                } else {
                    Some(i64::MIN)
                }
            },
            None => {
                proof {
                    if all_digits(s@.drop_first()) {
                        lemma_digits_nonneg(s@.drop_first());
                    }
                }
                None
            },
        }
    } else {
        assert(s@.skip(0) =~= s@);
        assert(!is_digit(s@[0]) ==> !all_digits(s@));
        match digits_from(s, 0) {
            Some(m) => {
                if m <= 0x7fff_ffff_ffff_ffff {
                    Some(m as i64)
                } else {
                    None
                }
            },
            None => None,
        }
    }
}

/// The value of the first member of `members` named `key`.
pub open spec fn lookup(members: Seq<(String, JsonValue)>, key: Seq<char>) -> Option<JsonValue>
    decreases members.len(),
{
    if members.len() == 0 {
        None
    } else if members[0].0@ == key {
        Some(members[0].1)
    } else {
        lookup(members.drop_first(), key)
    }
}

/// The view of a JSON text value.
pub open spec fn text_of(v: JsonValue) -> Seq<char> {
    match v {
        JsonValue::Text(s) => s@,
        _ => Seq::empty(),
    }
}

/// An optional string member: absent or `null` is `Some(None)`, a string is
/// `Some(Some(text))`, anything else does not decode (`None`).
pub open spec fn text_field(members: Seq<(String, JsonValue)>, key: Seq<char>) -> Option<Option<Seq<char>>> {
    match lookup(members, key) {
        None => Some(None),
        Some(JsonValue::Null) => Some(None),
        Some(JsonValue::Text(s)) => Some(Some(s@)),
        Some(_) => None,
    }
}

/// An optional integer member: absent or `null` is `Some(None)`, a numeral
/// that fits in an `i64` is `Some(Some(n))`, anything else does not decode.
pub open spec fn int_field(members: Seq<(String, JsonValue)>, key: Seq<char>) -> Option<Option<i64>> {
    match lookup(members, key) {
        None => Some(None),
        Some(JsonValue::Null) => Some(None),
        Some(JsonValue::Number(t)) => match i64_value(t@) {
            Some(n) => Some(Some(n)),
            None => None,
        },
        Some(_) => None,
    }
}

/// Whether every element of `items` is a JSON string.
pub open spec fn all_texts(items: Seq<JsonValue>) -> bool {
    forall|i: int| 0 <= i < items.len() ==> (#[trigger] items[i]) is Text
}

/// An optional list of strings: absent or `null` is `Some(None)`, an array of
/// strings is `Some(Some(texts))`, anything else does not decode.
pub open spec fn texts_field(members: Seq<(String, JsonValue)>, key: Seq<char>) -> Option<Option<Seq<Seq<char>>>> {
    match lookup(members, key) {
        None => Some(None),
        Some(JsonValue::Null) => Some(None),
        Some(JsonValue::Array(a)) => if all_texts(a@) {
            Some(Some(a@.map_values(|x: JsonValue| text_of(x))))
        } else {
            None
        },
        Some(_) => None,
    }
}

/// Whether every member of `members` is a string or `null`.
pub open spec fn all_opt_texts(members: Seq<(String, JsonValue)>) -> bool {
    forall|i: int| 0 <= i < members.len() ==> ((#[trigger] members[i]).1 is Text || members[i].1 is Null)
}

/// The value of a member of a string-to-optional-string mapping: `null` is
/// `None`.
pub open spec fn opt_string_of(v: JsonValue) -> Option<String> {
    match v {
        JsonValue::Text(s) => Some(s),
        _ => None,
    }
}

/// The mapping that the members of an object bind, left to right: a later
/// member with the key of an earlier one replaces its value.
pub open spec fn dict_of(members: Seq<(String, JsonValue)>) -> Seq<(String, Option<String>)>
    decreases members.len(),
{
    if members.len() == 0 {
        Seq::empty()
    } else {
        inserted(dict_of(members.drop_last()), members.last().0, opt_string_of(members.last().1))
    }
}

/// An optional string-to-optional-string mapping: absent or `null` is
/// `Some(None)`, an object whose members are strings or `null` is
/// `Some(Some(entries))`, anything else does not decode.
pub open spec fn dict_field(members: Seq<(String, JsonValue)>, key: Seq<char>) -> Option<Option<Seq<(String, Option<String>)>>> {
    match lookup(members, key) {
        None => Some(None),
        Some(JsonValue::Null) => Some(None),
        Some(JsonValue::Object(m)) => if all_opt_texts(m@) {
            Some(Some(dict_of(m@)))
        } else {
            None
        },
        Some(_) => None,
    }
}

/// An optional array member: absent or `null` is `Some(None)`, an array is
/// `Some(Some(items))`, anything else does not decode.
pub open spec fn array_field(members: Seq<(String, JsonValue)>, key: Seq<char>) -> Option<Option<Seq<JsonValue>>> {
    match lookup(members, key) {
        None => Some(None),
        Some(JsonValue::Null) => Some(None),
        Some(JsonValue::Array(a)) => Some(Some(a@)),
        Some(_) => None,
    }
}

/// The view of an optional list of strings.
pub open spec fn opt_texts(o: Option<Vec<String>>) -> Option<Seq<Seq<char>>> {
    match o {
        Some(v) => Some(v@.map_values(|s: String| s@)),
        None => None,
    }
}

/// The entries of an optional string-to-optional-string mapping.
pub open spec fn opt_dict(o: Option<StringMap<Option<String>>>) -> Option<Seq<(String, Option<String>)>> {
    match o {
        Some(d) => Some(d@),
        None => None,
    }
}

/// The first member of `members` named `key`.
pub fn get<'a>(members: &'a Vec<(String, JsonValue)>, key: &str) -> (r: Option<&'a JsonValue>)
    ensures
        match r {
            Some(v) => lookup(members@, key@) == Some(*v),
            None => lookup(members@, key@) is None,
        },
{
    let k = key.to_owned();
    let mut i: usize = 0;
    assert(members@.skip(0) =~= members@);
    while i < members.len()
        invariant
            i <= members.len(),
            k@ == key@,
            lookup(members@, key@) == lookup(members@.skip(i as int), key@),
        decreases members.len() - i,
    {
        assert(members@.skip(i as int)[0] == members@[i as int]);
        if members[i].0 == k {
            return Some(&members[i].1);
        }
        assert(members@.skip(i as int).drop_first() =~= members@.skip(i + 1));
        i = i + 1;
    }
    None
}

/// Reads an optional string member.
pub fn read_text(members: &Vec<(String, JsonValue)>, key: &str) -> (r: Result<Option<String>, Error>)
    ensures
        r is Ok <==> text_field(members@, key@) is Some,
        r is Ok ==> opt_text(r->Ok_0) == text_field(members@, key@)->Some_0,
        r is Err ==> r->Err_0 is Decode && r->Err_0->Decode_0@ == key@,
{
    match get(members, key) {
        None => Ok(None),
        Some(JsonValue::Null) => Ok(None),
        Some(JsonValue::Text(s)) => Ok(Some(s.clone())),
        Some(_) => Err(decode_error(key)),
    }
}

/// Reads an optional integer member.
pub fn read_int(members: &Vec<(String, JsonValue)>, key: &str) -> (r: Result<Option<i64>, Error>)
    ensures
        r is Ok <==> int_field(members@, key@) is Some,
        r is Ok ==> r->Ok_0 == int_field(members@, key@)->Some_0,
        r is Err ==> r->Err_0 is Decode && r->Err_0->Decode_0@ == key@,
{
    match get(members, key) {
        None => Ok(None),
        Some(JsonValue::Null) => Ok(None),
        Some(JsonValue::Number(t)) => match parse_i64(t.as_str()) {
            Some(n) => Ok(Some(n)),
            None => Err(decode_error(key)),
        },
        Some(_) => Err(decode_error(key)),
    }
}

/// The strings of `items`, when every element is a string.
fn texts_of(items: &Vec<JsonValue>) -> (r: Option<Vec<String>>)
    ensures
        r is Some <==> all_texts(items@),
        r is Some ==> r->Some_0@.map_values(|s: String| s@) == items@.map_values(|x: JsonValue| text_of(x)),
{
    let mut out: Vec<String> = Vec::new();
    let mut i: usize = 0;
    while i < items.len()
        invariant
            i <= items.len(),
            out@.len() == i,
            all_texts(items@.take(i as int)),
            out@.map_values(|s: String| s@) == items@.take(i as int).map_values(|x: JsonValue| text_of(x)),
        decreases items.len() - i,
    {
        let ghost before = out@;
        match &items[i] {
            JsonValue::Text(s) => {
                let c = s.clone();
                assert(text_of(items@[i as int]) == c@);
                out.push(c);
            },
            _ => {
                assert(!(items@[i as int] is Text));
                assert(!all_texts(items@));
                return None;
            },
        }
        assert(items@.take(i + 1) =~= items@.take(i as int).push(items@[i as int]));
        assert(out@ == before.push(out@[i as int]));
        assert forall|j: int| #![trigger out@[j]] 0 <= j < i + 1 implies out@.map_values(|s: String| s@)[j]
            == items@.take(i + 1).map_values(|x: JsonValue| text_of(x))[j] by {
            if j < i {
                assert(before.map_values(|s: String| s@)[j] == items@.take(i as int).map_values(|x: JsonValue| text_of(x))[j]);
            }
        }
        assert(out@.map_values(|s: String| s@) =~= items@.take(i + 1).map_values(|x: JsonValue| text_of(x)));
        i = i + 1;
    }
    assert(items@.take(i as int) =~= items@);
    Some(out)
}

/// The mapping that an object whose members are strings or `null` binds.
fn opt_texts_of(members: &Vec<(String, JsonValue)>) -> (r: Option<StringMap<Option<String>>>)
    ensures
        r is Some <==> all_opt_texts(members@),
        r is Some ==> r->Some_0@ == dict_of(members@),
{
    let mut out: StringMap<Option<String>> = StringMap::new();
    let mut i: usize = 0;
    assert(members@.take(0) =~= Seq::<(String, JsonValue)>::empty());
    while i < members.len()
        invariant
            i <= members.len(),
            all_opt_texts(members@.take(i as int)),
            out@ == dict_of(members@.take(i as int)),
        decreases members.len() - i,
    {
        let name = members[i].0.clone();
        let value = match &members[i].1 {
            JsonValue::Text(s) => Some(s.clone()),
            JsonValue::Null => None,
            _ => {
                assert(!(members@[i as int].1 is Text || members@[i as int].1 is Null));
                assert(!all_opt_texts(members@));
                return None;
            },
        };
        assert(value == opt_string_of(members@[i as int].1));
        out.insert(name, value);
        assert(members@.take(i + 1).drop_last() =~= members@.take(i as int));
        assert(members@.take(i + 1).last() == members@[i as int]);
        i = i + 1;
    }
    assert(members@.take(i as int) =~= members@);
    Some(out)
}

/// Reads an optional list of strings.
pub fn read_texts(members: &Vec<(String, JsonValue)>, key: &str) -> (r: Result<Option<Vec<String>>, Error>)
    ensures
        r is Ok <==> texts_field(members@, key@) is Some,
        r is Ok ==> opt_texts(r->Ok_0) == texts_field(members@, key@)->Some_0,
        r is Err ==> r->Err_0 is Decode && r->Err_0->Decode_0@ == key@,
{
    match get(members, key) {
        None => Ok(None),
        Some(JsonValue::Null) => Ok(None),
        Some(JsonValue::Array(a)) => match texts_of(a) {
            Some(out) => Ok(Some(out)),
            None => Err(decode_error(key)),
        },
        Some(_) => Err(decode_error(key)),
    }
}

/// Reads an optional string-to-optional-string mapping.
pub fn read_dict(members: &Vec<(String, JsonValue)>, key: &str) -> (r: Result<Option<StringMap<Option<String>>>, Error>)
    ensures
        r is Ok <==> dict_field(members@, key@) is Some,
        r is Ok ==> opt_dict(r->Ok_0) == dict_field(members@, key@)->Some_0,
        r is Err ==> r->Err_0 is Decode && r->Err_0->Decode_0@ == key@,
{
    match get(members, key) {
        None => Ok(None),
        Some(JsonValue::Null) => Ok(None),
        Some(JsonValue::Object(m)) => match opt_texts_of(m) {
            Some(out) => Ok(Some(out)),
            None => Err(decode_error(key)),
        },
        Some(_) => Err(decode_error(key)),
    }
}

/// Reads an optional array member.
pub fn read_array<'a>(members: &'a Vec<(String, JsonValue)>, key: &str) -> (r: Result<Option<&'a Vec<JsonValue>>, Error>)
    ensures
        r is Ok <==> array_field(members@, key@) is Some,
        r is Ok ==> match r->Ok_0 {
            Some(a) => array_field(members@, key@)->Some_0 == Some(a@),
            None => array_field(members@, key@)->Some_0 is None,
        },
        r is Err ==> r->Err_0 is Decode && r->Err_0->Decode_0@ == key@,
{
    match get(members, key) {
        None => Ok(None),
        Some(JsonValue::Null) => Ok(None),
        Some(JsonValue::Array(a)) => Ok(Some(a)),
        Some(_) => Err(decode_error(key)),
    }
}

} // verus!
