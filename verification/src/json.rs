//! The JSON values that the record service answers with and that the local
//! record cache holds: how the fetching reads them, how the `json` crate
//! compares them, and their reading from and writing to text with that
//! crate.
use vstd::prelude::*;
use crate::text::{decimal, decimal_string};

verus! {

/// A JSON number as the `json` crate keeps it: sign, mantissa and decimal
/// exponent.
#[derive(Clone, Copy, Debug)]
pub struct JsonNumber {
    pub positive: bool,
    pub mantissa: u64,
    pub exponent: i16,
}

/// A JSON value. The entries of an object keep their order; an object that
/// the `json` crate parsed holds each key once.
#[derive(Debug)]
pub enum JsonDoc {
    Null,
    Bool(bool),
    Number(JsonNumber),
    Text(String),
    Array(Vec<JsonDoc>),
    Object(Vec<(String, JsonDoc)>),
}

/// Ten to the power `n`.
pub open spec fn pow10(n: nat) -> nat
    decreases n,
{
    if n == 0 {
        1
    } else {
        10 * pow10((n - 1) as nat)
    }
}

/// The product of ten to the power of each base-twenty digit of `e` but its
/// leading one.
pub open spec fn power_product(e: nat) -> nat
    decreases e,
{
    if e < 20 {
        1
    } else {
        pow10(e % 20) * power_product(e / 20)
    }
}

/// What the `json` crate's `decimal_power` gives: ten to the power `e` below
/// twenty; above, its loop multiplies, saturating at `u64::MAX`, the powers
/// of ten of the base-twenty digits of `e` but the leading one.
pub open spec fn decimal_power(e: nat) -> nat {
    if e < 20 {
        pow10(e)
    } else if power_product(e) > 0xffff_ffff_ffff_ffff {
        0xffff_ffff_ffff_ffff
    } else {
        power_product(e)
    }
}

/// Whether the `json` crate's `==` holds two numbers equal: two zeros are;
/// numbers of different signs are not; with equal exponents the mantissas
/// decide; otherwise the mantissa of the larger exponent, times
/// `decimal_power` of the difference and wrapped to 64 bits, must equal the
/// other mantissa.
pub open spec fn json_numbers_equal(a: JsonNumber, b: JsonNumber) -> bool {
    let d = a.exponent - b.exponent;
    if a.mantissa == 0 && b.mantissa == 0 {
        true
    } else if a.positive != b.positive {
        false
    } else if d == 0 {
        a.mantissa == b.mantissa
    } else if d > 0 {
        (a.mantissa * decimal_power(d as nat)) % 0x1_0000_0000_0000_0000 == b.mantissa
    } else {
        a.mantissa == (b.mantissa * decimal_power((-d) as nat)) % 0x1_0000_0000_0000_0000
    }
}

/// Whether the `json` crate compares two numbers without overflowing its
/// `i16` exponent arithmetic: it answers at once where both are zero or the
/// signs differ; otherwise the difference of the exponents, and its
/// negation, must fit in an `i16`.
pub open spec fn numbers_compare_safely(a: JsonNumber, b: JsonNumber) -> bool {
    ||| a.mantissa == 0 && b.mantissa == 0
    ||| a.positive != b.positive
    ||| -32767 <= a.exponent - b.exponent <= 32767
}

/// The text of an integer: its decimal notation, with `-` before a negative
/// one.
pub open spec fn int_text(x: int) -> Seq<char> {
    if x >= 0 {
        decimal(x as nat)
    } else {
        "-"@ + decimal((-x) as nat)
    }
}

/// A JSON text of a number that the `json` crate's parser reads back with
/// exactly its sign, mantissa and exponent: the mantissa's digits, then `e`
/// and the exponent; for a negative exponent, `0.` and the digits, whose
/// count the exponent after `e` makes up for (so that the exponent written
/// is never below -32767, the least that the parser reads whole); `-` before
/// it all for a negative number.
pub open spec fn number_text(n: JsonNumber) -> Seq<char> {
    let sign = if n.positive { ""@ } else { "-"@ };
    let digits = decimal(n.mantissa as nat);
    if n.exponent >= 0 {
        sign + digits + "e"@ + decimal(n.exponent as nat)
    } else {
        sign + "0."@ + digits + "e"@ + int_text(n.exponent + digits.len())
    }
}

/// A number below ten to the power `k` has at most `k` digits.
proof fn lemma_decimal_len(n: nat, k: nat)
    requires
        1 <= k,
        n < pow10(k),
    ensures
        decimal(n).len() <= k,
    decreases k,
{
    if n >= 10 {
        if k == 1 {
            assert(pow10(1) == 10) by {
                reveal_with_fuel(pow10, 2);
            }
        } else {
            lemma_decimal_len(n / 10, (k - 1) as nat);
        }
    }
}

/// The text of an integer.
fn int_string(x: i64) -> (r: String)
    requires
        x > i64::MIN,
    ensures
        r@ == int_text(x as int),
{
    if x >= 0 {
        decimal_string(x as u64)
    } else {
        let mut r = String::from_str("-");
        r.append(decimal_string((-x) as u64).as_str());
        r
    }
}

/// The text of a number that the `json` crate reads back with exactly its
/// parts (see [`number_text`]).
pub fn number_string(n: JsonNumber) -> (r: String)
    ensures
        r@ == number_text(n),
{
    let mut r = if n.positive {
        String::new()
    } else {
        String::from_str("-")
    };
    let digits = decimal_string(n.mantissa);
    proof {
        reveal_strlit("");
        assert(r@ == (if n.positive { ""@ } else { "-"@ }));
    }
    if n.exponent >= 0 {
        r.append(digits.as_str());
        r.append("e");
        r.append(decimal_string(n.exponent as u64).as_str());
    } else {
        proof {
            reveal_with_fuel(pow10, 21);
            assert(pow10(20) == 100000000000000000000nat);
            lemma_decimal_len(n.mantissa as nat, 20);
        }
        let count: usize = digits.unicode_len();
        let shifted: i64 = n.exponent as i64 + count as i64;
        r.append("0.");
        r.append(digits.as_str());
        r.append("e");
        r.append(int_string(shifted).as_str());
    }
    r
}

/// The `json` crate's number with exactly the parts of `n`: the crate's
/// parser reads [`number_string`] back so (an integer part, or `0.` and a
/// fraction, followed by an exponent, keep their digits in the mantissa and
/// count them in the exponent, without taking trailing zeros away, as
/// `Number::from_parts` would). It serves the bodies of [`number_eq`] and
/// [`value_of`] alone, and nothing is claimed of it.
#[verifier::external_body]
fn number_value(n: JsonNumber) -> json::JsonValue {
    match json::parse(number_string(n).as_str()) {
        Ok(v) => v,
        Err(_) => json::JsonValue::Null,
    }
}

/// Compares the two numbers, each with exactly its parts, with the `json`
/// crate's `==`. That `==` subtracts the exponents as `i16` values and
/// negates a negative difference, which overflows unless
/// [`numbers_compare_safely`] holds; its answer is [`json_numbers_equal`],
/// as the crate's `PartialEq` for `Number` and its `decimal_power` show.
#[verifier::external_body]
fn number_eq(a: JsonNumber, b: JsonNumber) -> (r: bool)
    requires
        numbers_compare_safely(a, b),
    ensures
        r == json_numbers_equal(a, b),
{
    number_value(a) == number_value(b)
}

/// Whether the `json` crate can compare the two numbers (see
/// [`numbers_compare_safely`]).
pub fn check_numbers(a: JsonNumber, b: JsonNumber) -> (r: bool)
    ensures
        r == numbers_compare_safely(a, b),
{
    let d: i32 = a.exponent as i32 - b.exponent as i32;
    (a.mantissa == 0 && b.mantissa == 0) || a.positive != b.positive || (-32767 <= d && d <= 32767)
}

/// The index of the first entry of `entries` with key `key`.
pub open spec fn entry_index(entries: Seq<(String, JsonDoc)>, key: Seq<char>) -> Option<int>
    decreases entries.len(),
{
    if entries.len() == 0 {
        None
    } else if entries[0].0@ == key {
        Some(0)
    } else {
        match entry_index(entries.drop_first(), key) {
            Some(i) => Some(i + 1),
            None => None,
        }
    }
}

proof fn lemma_entry_index_bounds(entries: Seq<(String, JsonDoc)>, key: Seq<char>)
    ensures
        entry_index(entries, key) matches Some(i) ==> 0 <= i < entries.len() && entries[i].0@ == key,
    decreases entries.len(),
{
    if entries.len() > 0 && entries[0].0@ != key {
        lemma_entry_index_bounds(entries.drop_first(), key);
    }
}

/// The index of the first entry of `entries` with key `key`.
pub fn find_entry(entries: &Vec<(String, JsonDoc)>, key: &str) -> (r: Option<usize>)
    ensures
        match r {
            Some(i) => entry_index(entries@, key@) == Some(i as int),
            None => entry_index(entries@, key@) is None,
        },
{
    let wanted = String::from_str(key);
    let mut i: usize = 0;
    assert(entries@.skip(0) =~= entries@);
    while i < entries.len()
        invariant
            i <= entries@.len(),
            wanted@ == key@,
            entry_index(entries@, key@) == match entry_index(entries@.skip(i as int), key@) {
                Some(j) => Some(j + i),
                None => None,
            },
        decreases entries.len() - i,
    {
        assert(entries@.skip(i as int).drop_first() =~= entries@.skip(i + 1));
        if entries[i].0 == wanted {
            return Some(i);
        }
        i = i + 1;
    }
    assert(entries@.skip(i as int) =~= Seq::<(String, JsonDoc)>::empty());
    None
}

/// The value under `key` of an object; `Null` for a missing key or a value
/// that is no object (the `json` crate's indexing by a key).
pub open spec fn member(d: JsonDoc, key: Seq<char>) -> JsonDoc {
    match d {
        JsonDoc::Object(entries) => match entry_index(entries@, key) {
            Some(i) => entries@[i].1,
            None => JsonDoc::Null,
        },
        _ => JsonDoc::Null,
    }
}

/// The members of an array; none for a value that is no array.
pub open spec fn elements(d: JsonDoc) -> Seq<JsonDoc> {
    match d {
        JsonDoc::Array(v) => v@,
        _ => Seq::empty(),
    }
}

/// The element at `i` of an array; `Null` past its end or for a value that
/// is no array (the `json` crate's indexing by a position).
pub open spec fn element(d: JsonDoc, i: int) -> JsonDoc {
    if 0 <= i < elements(d).len() {
        elements(d)[i]
    } else {
        JsonDoc::Null
    }
}

/// The length of an array or object; 0 for other values.
pub open spec fn json_len(d: JsonDoc) -> nat {
    match d {
        JsonDoc::Array(v) => v@.len(),
        JsonDoc::Object(entries) => entries@.len(),
        _ => 0,
    }
}

/// The text of a string value.
pub open spec fn text_of(d: JsonDoc) -> Option<Seq<char>> {
    match d {
        JsonDoc::Text(s) => Some(s@),
        _ => None,
    }
}

/// JSON equality as the `json` crate has it: numbers by value, arrays member
/// by member, objects by the same keys with equal values.
pub open spec fn same_json(a: JsonDoc, b: JsonDoc) -> bool
    decreases a,
{
    match (a, b) {
        (JsonDoc::Null, JsonDoc::Null) => true,
        (JsonDoc::Bool(x), JsonDoc::Bool(y)) => x == y,
        (JsonDoc::Number(x), JsonDoc::Number(y)) => json_numbers_equal(x, y),
        (JsonDoc::Text(x), JsonDoc::Text(y)) => x@ == y@,
        (JsonDoc::Array(x), JsonDoc::Array(y)) => x@.len() == y@.len() && forall|i: int|
            0 <= i < x@.len() ==> same_json(#[trigger] x@[i], y@[i]),
        (JsonDoc::Object(x), JsonDoc::Object(y)) => x@.len() == y@.len() && forall|i: int|
            0 <= i < x@.len() ==> (entry_index(y@, #[trigger] x@[i].0@) matches Some(j) && same_json(
                x@[i].1,
                y@[j].1,
            )),
        _ => false,
    }
}

impl JsonDoc {
    /// The value under `key`, where `self` is an object that has the key;
    /// `None` stands for the `Null` that a missing key reads as.
    pub fn get(&self, key: &str) -> (r: Option<&JsonDoc>)
        ensures
            match r {
                Some(v) => *v == member(*self, key@),
                None => member(*self, key@) == JsonDoc::Null,
            },
    {
        match self {
            JsonDoc::Object(entries) => match find_entry(entries, key) {
                Some(i) => {
                    proof {
                        lemma_entry_index_bounds(entries@, key@);
                    }
                    Some(&entries[i].1)
                },
                None => None,
            },
            _ => None,
        }
    }

    /// The value under `key`, taken out of `self`.
    pub fn take_member(self, key: &str) -> (r: JsonDoc)
        ensures
            r == member(self, key@),
    {
        match self {
            JsonDoc::Object(entries) => {
                let mut entries = entries;
                match find_entry(&entries, key) {
                    Some(i) => {
                        proof {
                            lemma_entry_index_bounds(entries@, key@);
                        }
                        entries.swap_remove(i).1
                    },
                    None => JsonDoc::Null,
                }
            },
            _ => JsonDoc::Null,
        }
    }

    /// The members of an array, taken out of it; none for other values.
    pub fn into_elements(self) -> (r: Vec<JsonDoc>)
        ensures
            r@ == elements(self),
    {
        match self {
            JsonDoc::Array(v) => v,
            _ => Vec::new(),
        }
    }

    /// The members of an array, where `self` is one.
    pub fn members(&self) -> (r: Option<&Vec<JsonDoc>>)
        ensures
            match r {
                Some(v) => v@ == elements(*self),
                None => elements(*self) == Seq::<JsonDoc>::empty(),
            },
    {
        match self {
            JsonDoc::Array(v) => Some(v),
            _ => None,
        }
    }

    /// The element at `i`, where `self` is an array that long; `None` stands
    /// for the `Null` that any other position reads as.
    pub fn at(&self, i: usize) -> (r: Option<&JsonDoc>)
        ensures
            match r {
                Some(v) => *v == element(*self, i as int),
                None => element(*self, i as int) == JsonDoc::Null,
            },
    {
        match self {
            JsonDoc::Array(v) => if i < v.len() {
                Some(&v[i])
            } else {
                None
            },
            _ => None,
        }
    }

    /// The length of an array or object; 0 for other values.
    pub fn len(&self) -> (r: usize)
        ensures
            r == json_len(*self),
    {
        match self {
            JsonDoc::Array(v) => v.len(),
            JsonDoc::Object(entries) => entries.len(),
            _ => 0,
        }
    }

    /// The text of a string value.
    pub fn as_text(&self) -> (r: Option<&String>)
        ensures
            match r {
                Some(s) => text_of(*self) == Some(s@),
                None => text_of(*self) is None,
            },
    {
        match self {
            JsonDoc::Text(s) => Some(s),
            _ => None,
        }
    }

    /// Whether `self` is `Null`.
    pub fn is_null(&self) -> (r: bool)
        ensures
            r == (*self == JsonDoc::Null),
    {
        match self {
            JsonDoc::Null => true,
            _ => false,
        }
    }
}

/// The first `n` members of two arrays are equal, pair by pair.
pub open spec fn same_up_to(x: Seq<JsonDoc>, y: Seq<JsonDoc>, n: int) -> bool {
    forall|k: int| 0 <= k < n ==> same_json(#[trigger] x[k], y[k])
}

/// The first `n` entries of object `x` have equal values under the same key
/// in object `y`.
pub open spec fn same_entries_up_to(x: Seq<(String, JsonDoc)>, y: Seq<(String, JsonDoc)>, n: int) -> bool {
    forall|k: int|
        0 <= k < n ==> (entry_index(y, #[trigger] x[k].0@) matches Some(j) && same_json(x[k].1, y[j].1))
}

/// Whether [`json_equal`] gets through the two values without an overflow:
/// every pair of numbers that it compares before it knows the answer passes
/// [`numbers_compare_safely`]. Like the `json` crate's `==`, it compares
/// arrays of one length member by member and objects of one length entry by
/// entry, by the first value's keys, and stops at the first pair that
/// differs. (Within an object the crate compares the second value's entry
/// with the first's; the answer is the same, as its number comparison is
/// symmetric, but inside nested objects its order of keys can differ.)
pub open spec fn json_eq_safe(a: JsonDoc, b: JsonDoc) -> bool
    decreases a,
{
    match (a, b) {
        (JsonDoc::Number(x), JsonDoc::Number(y)) => numbers_compare_safely(x, y),
        (JsonDoc::Array(x), JsonDoc::Array(y)) => x@.len() != y@.len() || forall|i: int|
            0 <= i < x@.len() && same_up_to(x@, y@, i) ==> json_eq_safe(#[trigger] x@[i], y@[i]),
        (JsonDoc::Object(x), JsonDoc::Object(y)) => x@.len() != y@.len() || forall|i: int|
            0 <= i < x@.len() && same_entries_up_to(x@, y@, i) ==> (entry_index(y@, #[trigger] x@[i].0@) matches Some(
                j,
            ) ==> json_eq_safe(x@[i].1, y@[j].1)),
        _ => true,
    }
}

/// Whether two JSON values are equal as the `json` crate compares them,
/// where the crate gets through the comparison; `None` where it would
/// overflow (see [`json_eq_safe`]).
pub fn json_eq_checked(a: &JsonDoc, b: &JsonDoc) -> (r: Option<bool>)
    ensures
        r == (if json_eq_safe(*a, *b) { Some(same_json(*a, *b)) } else { None::<bool> }),
        (*a is Text && *b is Text) ==> r == Some(a->Text_0@ == b->Text_0@),
    decreases a,
{
    match (a, b) {
        (JsonDoc::Null, JsonDoc::Null) => Some(true),
        (JsonDoc::Bool(x), JsonDoc::Bool(y)) => Some(*x == *y),
        (JsonDoc::Number(x), JsonDoc::Number(y)) => if check_numbers(*x, *y) {
            Some(number_eq(*x, *y))
        } else {
            None
        },
        (JsonDoc::Text(x), JsonDoc::Text(y)) => Some(*x == *y),
        (JsonDoc::Array(x), JsonDoc::Array(y)) => {
            if x.len() != y.len() {
                return Some(false);
            }
            let mut i: usize = 0;
            while i < x.len()
                invariant
                    i <= x@.len(),
                    x@.len() == y@.len(),
                    *a == JsonDoc::Array(*x),
                    *b == JsonDoc::Array(*y),
                    same_up_to(x@, y@, i as int),
                    forall|k: int| 0 <= k < i ==> json_eq_safe(#[trigger] x@[k], y@[k]),
                decreases x.len() - i,
            {
                proof {
                    assert(decreases_to!(*a => (*a)->Array_0));
                    assert(decreases_to!(*x => x@));
                    assert(decreases_to!(x@ => x@[i as int]));
                }
                match json_eq_checked(&x[i], &y[i]) {
                    None => {
                        assert(!json_eq_safe(x@[i as int], y@[i as int]));
                        return None;
                    },
                    Some(false) => {
                        proof {
                            assert forall|j: int|
                                0 <= j < x@.len() && same_up_to(x@, y@, j) implies json_eq_safe(
                                #[trigger] x@[j],
                                y@[j],
                            ) by {
                                if j > i {
                                    assert(same_json(x@[i as int], y@[i as int]));
                                }
                            }
                            assert(!same_json(x@[i as int], y@[i as int]));
                        }
                        return Some(false);
                    },
                    Some(true) => {},
                }
                i = i + 1;
            }
            Some(true)
        },
        (JsonDoc::Object(x), JsonDoc::Object(y)) => {
            if x.len() != y.len() {
                return Some(false);
            }
            let mut i: usize = 0;
            while i < x.len()
                invariant
                    i <= x@.len(),
                    x@.len() == y@.len(),
                    *a == JsonDoc::Object(*x),
                    *b == JsonDoc::Object(*y),
                    same_entries_up_to(x@, y@, i as int),
                    forall|k: int|
                        0 <= k < i ==> (entry_index(y@, #[trigger] x@[k].0@) matches Some(j) && json_eq_safe(
                            x@[k].1,
                            y@[j].1,
                        )),
                decreases x.len() - i,
            {
                proof {
                    lemma_entry_index_bounds(y@, x@[i as int].0@);
                }
                match find_entry(y, x[i].0.as_str()) {
                    None => {
                        proof {
                            assert forall|j: int|
                                0 <= j < x@.len() && same_entries_up_to(x@, y@, j) implies (entry_index(
                                y@,
                                #[trigger] x@[j].0@,
                            ) matches Some(m) ==> json_eq_safe(x@[j].1, y@[m].1)) by {
                                if j > i {
                                    assert(entry_index(y@, x@[i as int].0@) is Some);
                                }
                            }
                        }
                        return Some(false);
                    },
                    Some(j) => {
                        proof {
                            assert(decreases_to!(*a => (*a)->Object_0));
                            assert(decreases_to!(*x => x@));
                            assert(decreases_to!(x@ => x@[i as int]));
                            assert(decreases_to!(x@[i as int] => x@[i as int].1));
                        }
                        match json_eq_checked(&x[i].1, &y[j].1) {
                            None => {
                                return None;
                            },
                            Some(false) => {
                                proof {
                                    assert forall|m: int|
                                        0 <= m < x@.len() && same_entries_up_to(x@, y@, m) implies (entry_index(
                                        y@,
                                        #[trigger] x@[m].0@,
                                    ) matches Some(n) ==> json_eq_safe(x@[m].1, y@[n].1)) by {
                                        if m > i {
                                            assert(entry_index(y@, x@[i as int].0@) matches Some(n) && same_json(
                                                x@[i as int].1,
                                                y@[n].1,
                                            ));
                                        }
                                    }
                                }
                                return Some(false);
                            },
                            Some(true) => {},
                        }
                    },
                }
                i = i + 1;
            }
            Some(true)
        },
        _ => Some(false),
    }
}

/// Whether two JSON values are equal as the `json` crate compares them, on
/// values that the crate compares without an overflow.
pub fn json_equal(a: &JsonDoc, b: &JsonDoc) -> (r: bool)
    requires
        json_eq_safe(*a, *b),
    ensures
        r == same_json(*a, *b),
        (*a is Text && *b is Text) ==> r == (a->Text_0@ == b->Text_0@),
{
    match json_eq_checked(a, b) {
        Some(r) => r,
        None => false,
    }
}

/// Two JSON strings are equal exactly when their texts are, character for
/// character, and comparing them never overflows; a string is never equal to
/// a value of another kind.
pub proof fn lemma_text_equality(x: String, y: String, other: JsonDoc)
    ensures
        same_json(JsonDoc::Text(x), JsonDoc::Text(y)) <==> x@ == y@,
        json_eq_safe(JsonDoc::Text(x), JsonDoc::Text(y)),
        !(other is Text) ==> !same_json(JsonDoc::Text(x), other) && !same_json(other, JsonDoc::Text(x)),
{
}

/// `null` equals `null` only, and two booleans are equal exactly when they
/// are the same; a number equals itself.
pub proof fn lemma_scalar_equality(p: bool, q: bool, n: JsonNumber, other: JsonDoc)
    ensures
        same_json(JsonDoc::Null, other) <==> other is Null,
        same_json(JsonDoc::Bool(p), JsonDoc::Bool(q)) <==> p == q,
        same_json(JsonDoc::Number(n), JsonDoc::Number(n)),
{
}

/// The value of `json::JsonValue`, the `json` crate's JSON value. It is
/// only carried between the calls into the crate.
#[verifier::external_type_specification]
#[verifier::external_body]
pub struct ExJsonValue(json::JsonValue);

/// What `json::parse` makes of a text, in the library's values; `None` where
/// the crate refuses the text.
pub uninterp spec fn parsed_json(text: Seq<char>) -> Option<JsonDoc>;

/// The text that `json::JsonValue::pretty` writes for an array of the
/// values, indented by `spaces`, each number with exactly its sign, mantissa
/// and exponent and each text as a string. For values that [`parse_json`]
/// read, that is the text that the crate writes for the values it parsed.
pub uninterp spec fn pretty_json(values: Seq<JsonDoc>, spaces: nat) -> Seq<char>;

/// The library's value of a value of the `json` crate, member by member:
/// short and long strings alike become text, and a number keeps the parts
/// that `json::number::Number::as_parts` gives. It serves the body of
/// [`parse_json`] alone, and nothing is claimed of it.
#[verifier::external_body]
fn doc_of(v: &json::JsonValue) -> JsonDoc {
    match v {
        json::JsonValue::Null => JsonDoc::Null,
        json::JsonValue::Boolean(b) => JsonDoc::Bool(*b),
        json::JsonValue::Number(n) => {
            let (positive, mantissa, exponent) = n.as_parts();
            JsonDoc::Number(JsonNumber { positive, mantissa, exponent })
        },
        json::JsonValue::Short(t) => JsonDoc::Text(t.to_string()),
        json::JsonValue::String(t) => JsonDoc::Text(t.clone()),
        json::JsonValue::Array(items) => JsonDoc::Array(items.iter().map(doc_of).collect()),
        json::JsonValue::Object(o) => JsonDoc::Object(o.iter().map(|(k, v)| (k.to_string(), doc_of(v))).collect()),
    }
}

/// The `json` crate's value of a value of the library, member by member; a
/// number keeps exactly its parts (see [`number_value`]), so that `1.0` is
/// written `1.0`. It serves the body of [`pretty_values`] alone, and nothing
/// is claimed of it.
#[verifier::external_body]
fn value_of(d: &JsonDoc) -> json::JsonValue {
    match d {
        JsonDoc::Null => json::JsonValue::Null,
        JsonDoc::Bool(b) => json::JsonValue::Boolean(*b),
        JsonDoc::Number(n) => number_value(*n),
        JsonDoc::Text(t) => json::JsonValue::String(t.clone()),
        JsonDoc::Array(items) => json::JsonValue::Array(items.iter().map(value_of).collect()),
        JsonDoc::Object(entries) => json::JsonValue::Object(entries.iter().map(|(k, v)| (k, value_of(v))).collect()),
    }
}

/// Parses `text` with `json::parse`. The contract names the result, which
/// depends on the text alone; which texts the crate takes is not stated.
#[verifier::external_body]
pub(crate) fn parse_json(text: &str) -> (r: Option<JsonDoc>)
    ensures
        r == parsed_json(text@),
{
    match json::parse(text) {
        Ok(v) => Some(doc_of(&v)),
        Err(_) => None,
    }
}

/// Writes the values as one JSON array with `json::JsonValue::pretty`,
/// indented by `spaces`. The contract names the result, which depends on
/// the values and the indent alone.
#[verifier::external_body]
pub(crate) fn pretty_values(values: &Vec<JsonDoc>, spaces: u16) -> (r: String)
    ensures
        r@ == pretty_json(values@, spaces as nat),
{
    json::JsonValue::Array(values.iter().map(value_of).collect()).pretty(spaces)
}

} // verus!
