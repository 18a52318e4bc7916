//! JSON values: what the resources hold of free form.

use vstd::prelude::*;
use crate::numeral::{all_digits, decimal, digits_value, lemma_decimal_reads};
use crate::number::{same_number, Real};
use crate::text::{chars_of, digit, is_digit, joined, same};
use crate::textmap::TextMap;

verus! {

/// A number of a JSON value.
#[derive(Debug, PartialEq)]
pub struct Number {
    /// The number as JSON writes it.
    pub text: String,
    /// The number as a floating-point number.
    pub float: Real,
    /// The number as a 64-bit signed integer, where it is one.
    pub integer: Option<i64>,
}

/// A JSON value.
#[derive(Debug, PartialEq)]
pub enum Json {
    Null,
    Bool(bool),
    Number(Number),
    Text(String),
    Array(Vec<Json>),
    Object(TextMap<Json>),
}

impl Clone for Number {
    fn clone(&self) -> (r: Self)
        ensures
            r == *self,
    {
        Number {
            text: self.text.clone(),
            float: self.float.clone(),
            integer: self.integer,
        }
    }
}

/// Two JSON values hold the same: the same numbers and texts, in the same shape.
pub closed spec fn alike(a: Json, b: Json) -> bool
    decreases a,
{
    match (a, b) {
        (Json::Null, Json::Null) => true,
        (Json::Bool(x), Json::Bool(y)) => x == y,
        (Json::Number(x), Json::Number(y)) => {
            &&& x.text@ == y.text@
            &&& same_number(x.float, y.float)
            &&& x.integer == y.integer
        },
        (Json::Text(x), Json::Text(y)) => x@ == y@,
        (Json::Array(x), Json::Array(y)) => {
            &&& x@.len() == y@.len()
            &&& forall|i: int| 0 <= i < x@.len() ==> alike(#[trigger] x@[i], y@[i])
        },
        (Json::Object(x), Json::Object(y)) => {
            &&& x.items@.len() == y.items@.len()
            &&& forall|i: int|
                0 <= i < x.items@.len() ==> x.items@[i].0@ == y.items@[i].0@ && alike(
                    (#[trigger] x.items@[i]).1,
                    y.items@[i].1,
                )
        },
        _ => false,
    }
}

/// Two numbers are equal: the same number, or the two zeros of floating point.
pub open spec fn equal_numbers(x: Number, y: Number) -> bool {
    ||| x.integer is None && y.integer is None && x.float.is_zero() && y.float.is_zero()
    ||| x.text@ == y.text@ && same_number(x.float, y.float) && x.integer == y.integer
}

/// Two JSON values are equal: equal numbers and the same texts, in the same shape.
pub closed spec fn equal(a: Json, b: Json) -> bool
    decreases a,
{
    match (a, b) {
        (Json::Null, Json::Null) => true,
        (Json::Bool(x), Json::Bool(y)) => x == y,
        (Json::Number(x), Json::Number(y)) => equal_numbers(x, y),
        (Json::Text(x), Json::Text(y)) => x@ == y@,
        (Json::Array(x), Json::Array(y)) => {
            &&& x@.len() == y@.len()
            &&& forall|i: int| 0 <= i < x@.len() ==> equal(#[trigger] x@[i], y@[i])
        },
        (Json::Object(x), Json::Object(y)) => {
            &&& x.items@.len() == y.items@.len()
            &&& forall|i: int|
                0 <= i < x.items@.len() ==> x.items@[i].0@ == y.items@[i].0@ && equal(
                    (#[trigger] x.items@[i]).1,
                    y.items@[i].1,
                )
        },
        _ => false,
    }
}

impl Clone for Json {
    fn clone(&self) -> (r: Self)
        ensures
            alike(*self, r),
    {
        self.duplicate()
    }
}

impl Default for Json {
    fn default() -> (r: Self)
        ensures
            r is Null,
    {
        Json::Null
    }
}

/// The digit of a hexadecimal numeral.
pub open spec fn hex_digit(n: int) -> char {
    if n < 10 {
        ('0' as int + n) as char
    } else {
        ('a' as int + n - 10) as char
    }
}

/// A character inside a JSON string: quotes, backslashes and control characters are escaped.
pub open spec fn escaped(c: char) -> Seq<char> {
    if c == '"' || c == '\\' {
        seq!['\\', c]
    } else if c == '\u{8}' {
        seq!['\\', 'b']
    } else if c == '\t' {
        seq!['\\', 't']
    } else if c == '\n' {
        seq!['\\', 'n']
    } else if c == '\u{c}' {
        seq!['\\', 'f']
    } else if c == '\r' {
        seq!['\\', 'r']
    } else if (c as int) < 0x20 {
        seq!['\\', 'u', '0', '0', hex_digit(c as int / 16), hex_digit(c as int % 16)]
    } else {
        seq![c]
    }
}

/// The inside of a JSON string.
pub open spec fn escaped_text(s: Seq<char>) -> Seq<char>
    decreases s.len(),
{
    if s.len() == 0 {
        Seq::empty()
    } else {
        escaped_text(s.drop_last()) + escaped(s.last())
    }
}

/// A text as a JSON string.
pub open spec fn quoted(s: Seq<char>) -> Seq<char> {
    seq!['"'] + escaped_text(s) + seq!['"']
}

/// `s` as a JSON string: what `Display` of `serde_json::Value::String` writes for `s`. It puts
/// the text in quotes and escapes quotes, backslashes and the characters below U+0020, five of
/// them by a letter and the others by their number; everything else stands as it is.
#[verifier::external_body]
fn quote(s: &str) -> (r: String)
    ensures
        r@ == quoted(s@),
{
    serde_json::Value::String(s.to_string()).to_string()
}

/// A JSON value as compact JSON text.
pub closed spec fn written(j: Json) -> Seq<char>
    decreases j,
{
    match j {
        Json::Null => "null"@,
        Json::Bool(b) => if b {
            "true"@
        } else {
            "false"@
        },
        Json::Number(n) => n.text@,
        Json::Text(s) => quoted(s@),
        Json::Array(v) => "["@ + written_elements(v@) + "]"@,
        Json::Object(m) => "{"@ + written_members(m.items@) + "}"@,
    }
}

/// The elements of an array, with commas between them.
spec fn written_elements(s: Seq<Json>) -> Seq<char>
    decreases s,
{
    if s.len() == 0 {
        Seq::empty()
    } else if s.len() == 1 {
        written(s[0])
    } else {
        written_elements(s.drop_last()) + ","@ + written(s[s.len() - 1])
    }
}

/// The members of an object, with commas between them.
spec fn written_members(s: Seq<(String, Json)>) -> Seq<char>
    decreases s,
{
    if s.len() == 0 {
        Seq::empty()
    } else if s.len() == 1 {
        quoted(s[0].0@) + ":"@ + written(s[0].1)
    } else {
        written_members(s.drop_last()) + ","@ + quoted(s[s.len() - 1].0@) + ":"@ + written(
            s[s.len() - 1].1,
        )
    }
}

proof fn lemma_elements(s: Seq<Json>)
    ensures
        written_elements(s) == joined(s.map_values(|j: Json| written(j)), ","@),
    decreases s.len(),
{
    let parts = s.map_values(|j: Json| written(j));
    if s.len() > 1 {
        lemma_elements(s.drop_last());
        assert(parts.drop_last() =~= s.drop_last().map_values(|j: Json| written(j)));
    }
}

/// A member of an object as JSON text.
pub open spec fn written_member(e: (Seq<char>, Json)) -> Seq<char> {
    quoted(e.0) + ":"@ + written(e.1)
}

proof fn lemma_members(s: Seq<(String, Json)>)
    ensures
        written_members(s) == joined(
            s.map_values(|e: (String, Json)| written_member((e.0@, e.1))),
            ","@,
        ),
    decreases s.len(),
{
    let parts = s.map_values(|e: (String, Json)| written_member((e.0@, e.1)));
    if s.len() > 1 {
        lemma_members(s.drop_last());
        assert(parts.drop_last() =~= s.drop_last().map_values(
            |e: (String, Json)| written_member((e.0@, e.1)),
        ));
        let front = written_members(s.drop_last());
        let last = s[s.len() - 1];
        assert(front + ","@ + quoted(last.0@) + ":"@ + written(last.1) =~= front + ","@
            + written_member((last.0@, last.1)));
    }
}

/// What the text of a value is: compact JSON, with the members of an object in the order of
/// their names.
pub proof fn values_are_written_compactly(j: Json)
    ensures
        match j {
            Json::Null => written(j) == "null"@,
            Json::Bool(b) => written(j) == (if b {
                "true"@
            } else {
                "false"@
            }),
            Json::Number(n) => written(j) == n.text@,
            Json::Text(s) => written(j) == quoted(s@),
            Json::Array(v) => written(j) == "["@ + joined(
                v@.map_values(|k: Json| written(k)),
                ","@,
            ) + "]"@,
            Json::Object(m) => written(j) == "{"@ + joined(
                m.entries().map_values(|e: (Seq<char>, Json)| written_member(e)),
                ","@,
            ) + "}"@,
        },
{
    match j {
        Json::Array(v) => {
            lemma_elements(v@);
        },
        Json::Object(m) => {
            lemma_members(m.items@);
            m.lemma_entries();
            assert(m.entries().map_values(|e: (Seq<char>, Json)| written_member(e))
                =~= m.items@.map_values(|e: (String, Json)| written_member((e.0@, e.1))));
        },
        _ => {},
    }
}

/// The number that a JSON value is, if it is one.
pub open spec fn float_of(j: Json) -> Option<Real> {
    match j {
        Json::Number(n) => Some(n.float),
        _ => None,
    }
}

/// The text that a JSON value is, if it is one.
pub open spec fn text_of(j: Json) -> Option<Seq<char>> {
    match j {
        Json::Text(s) => Some(s@),
        _ => None,
    }
}

/// The member `key` of a JSON value, if it is an object with that member.
pub open spec fn member_of(j: Json, key: Seq<char>) -> Option<Json> {
    match j {
        Json::Object(m) => if m@.contains_key(key) {
            Some(m@[key])
        } else {
            None
        },
        _ => None,
    }
}

/// The array index that `token` writes: digits without a needless zero.
pub open spec fn index_of_token(token: Seq<char>) -> Option<int> {
    if all_digits(token) && (token.len() == 1 || token[0] != '0') {
        Some(digits_value(token))
    } else {
        None
    }
}

/// What one step of a path leads to: the member of an object, or the element of an array.
pub open spec fn stepped(j: Json, token: Seq<char>) -> Option<Json> {
    match j {
        Json::Object(m) => member_of(j, token),
        Json::Array(v) => match index_of_token(token) {
            Some(i) => if 0 <= i < v@.len() {
                Some(v@[i])
            } else {
                None
            },
            None => None,
        },
        _ => None,
    }
}

/// What the path leads to.
pub open spec fn walked(j: Json, path: Seq<&str>) -> Option<Json>
    decreases path.len(),
{
    if path.len() == 0 {
        Some(j)
    } else {
        match walked(j, path.drop_last()) {
            Some(k) => stepped(k, path.last()@),
            None => None,
        }
    }
}

/// Digits that write a small number write small numbers all along.
proof fn lemma_digits_prefix(s: Seq<char>, k: int)
    requires
        all_digits(s),
        0 <= k <= s.len(),
    ensures
        0 <= digits_value(s.take(k)) <= digits_value(s),
    decreases s.len() - k,
{
    if k == s.len() {
        assert(s.take(k) =~= s);
        lemma_digits_nonneg(s);
    } else {
        lemma_digits_prefix(s, k + 1);
        assert(s.take(k + 1).drop_last() =~= s.take(k));
        assert(digit(s[k]));
        lemma_digits_nonneg(s.take(k));
    }
}

proof fn lemma_digits_nonneg(s: Seq<char>)
    requires
        forall|i: int| 0 <= i < s.len() ==> digit(#[trigger] s[i]),
    ensures
        0 <= digits_value(s),
    decreases s.len(),
{
    if s.len() > 0 {
        assert forall|i: int| 0 <= i < s.drop_last().len() implies digit(
            #[trigger] s.drop_last()[i],
        ) by {
            assert(digit(s[i]));
        }
        lemma_digits_nonneg(s.drop_last());
        assert(digit(s[s.len() - 1]));
    }
}

/// The index below `len` that `token` writes, if it writes one.
fn index_below(token: &str, len: usize) -> (r: Option<usize>)
    ensures
        r matches Some(i) ==> index_of_token(token@) == Some(i as int) && i < len,
        r is None ==> index_of_token(token@) is None || index_of_token(token@)->0 >= len,
{
    let v = chars_of(token);
    if v.len() == 0 {
        return None;
    }
    let mut k: usize = 0;
    while k < v.len()
        invariant
            k <= v.len(),
            v@ == token@,
            forall|j: int| 0 <= j < k ==> digit(#[trigger] token@[j]),
        decreases v.len() - k,
    {
        if !is_digit(v[k]) {
            return None;
        }
        k = k + 1;
    }
    assert(all_digits(token@));
    if v.len() > 1 && v[0] == '0' {
        return None;
    }
    let mut total: u128 = 0;
    let mut i: usize = 0;
    while i < v.len()
        invariant
            i <= v.len(),
            v@ == token@,
            all_digits(token@),
            index_of_token(token@) == Some(digits_value(token@)),
            0 <= total < 0x1_0000_0000_0000_0000,
            i > 0 ==> total < len,
            total == digits_value(token@.take(i as int)),
        decreases v.len() - i,
    {
        let c = v[i];
        assert(digit(token@[i as int]));
        assert(token@.take(i + 1).drop_last() =~= token@.take(i as int));
        let d: u128 = (c as u32) as u128 - 48;
        total = total * 10 + d;
        if total >= len as u128 {
            proof {
                lemma_digits_prefix(token@, i + 1);
            }
            return None;
        }
        i = i + 1;
    }
    assert(token@.take(i as int) =~= token@);
    Some(total as usize)
}

fn same_integer(a: Option<i64>, b: Option<i64>) -> (r: bool)
    ensures
        r == (a == b),
{
    match (a, b) {
        (Some(x), Some(y)) => x == y,
        (None, None) => true,
        _ => false,
    }
}

/// Two values are alike where they are of one kind and hold the same: the same truth value,
/// number or text, alike elements in the same order, or alike members under the same names.
pub proof fn alike_goes_by_shape(a: Json, b: Json)
    ensures
        alike(a, b) == (match (a, b) {
            (Json::Null, Json::Null) => true,
            (Json::Bool(x), Json::Bool(y)) => x == y,
            (Json::Number(x), Json::Number(y)) => {
                &&& x.text@ == y.text@
                &&& same_number(x.float, y.float)
                &&& x.integer == y.integer
            },
            (Json::Text(x), Json::Text(y)) => x@ == y@,
            (Json::Array(x), Json::Array(y)) => {
                &&& x@.len() == y@.len()
                &&& forall|i: int| 0 <= i < x@.len() ==> alike(#[trigger] x@[i], y@[i])
            },
            (Json::Object(x), Json::Object(y)) => {
                &&& x.entries().len() == y.entries().len()
                &&& forall|i: int|
                    0 <= i < x.entries().len() ==> (#[trigger] x.entries()[i]).0
                        == y.entries()[i].0 && alike(x.entries()[i].1, y.entries()[i].1)
            },
            _ => false,
        }),
{
    if a is Object && b is Object {
        let x = a->Object_0;
        let y = b->Object_0;
        x.lemma_entries();
        y.lemma_entries();
        if alike(a, b) {
            assert forall|i: int| 0 <= i < x.entries().len() implies (#[trigger] x.entries()[i]).0
                == y.entries()[i].0 && alike(x.entries()[i].1, y.entries()[i].1) by {
                assert(alike(x.items@[i].1, y.items@[i].1));
            }
        } else if x.items@.len() == y.items@.len() {
            let i = choose|i: int|
                0 <= i < x.items@.len() && !(x.items@[i].0@ == y.items@[i].0@ && alike(
                    (#[trigger] x.items@[i]).1,
                    y.items@[i].1,
                ));
            assert(x.entries()[i] == (x.items@[i].0@, x.items@[i].1));
        }
    }
}

/// Two values are equal where they are of one kind and hold the same truth value, an equal
/// number, the same text, equal elements in the same order, or equal members under the same
/// names.
pub proof fn equal_goes_by_shape(a: Json, b: Json)
    ensures
        equal(a, b) == (match (a, b) {
            (Json::Null, Json::Null) => true,
            (Json::Bool(x), Json::Bool(y)) => x == y,
            (Json::Number(x), Json::Number(y)) => equal_numbers(x, y),
            (Json::Text(x), Json::Text(y)) => x@ == y@,
            (Json::Array(x), Json::Array(y)) => {
                &&& x@.len() == y@.len()
                &&& forall|i: int| 0 <= i < x@.len() ==> equal(#[trigger] x@[i], y@[i])
            },
            (Json::Object(x), Json::Object(y)) => {
                &&& x.entries().len() == y.entries().len()
                &&& forall|i: int|
                    0 <= i < x.entries().len() ==> (#[trigger] x.entries()[i]).0
                        == y.entries()[i].0 && equal(x.entries()[i].1, y.entries()[i].1)
            },
            _ => false,
        }),
{
    if a is Object && b is Object {
        let x = a->Object_0;
        let y = b->Object_0;
        x.lemma_entries();
        y.lemma_entries();
        if equal(a, b) {
            assert forall|i: int| 0 <= i < x.entries().len() implies (#[trigger] x.entries()[i]).0
                == y.entries()[i].0 && equal(x.entries()[i].1, y.entries()[i].1) by {
                assert(equal(x.items@[i].1, y.items@[i].1));
            }
        } else if x.items@.len() == y.items@.len() {
            let i = choose|i: int|
                0 <= i < x.items@.len() && !(x.items@[i].0@ == y.items@[i].0@ && equal(
                    (#[trigger] x.items@[i]).1,
                    y.items@[i].1,
                ));
            assert(x.entries()[i] == (x.items@[i].0@, x.items@[i].1));
        }
    }
}

/// Values that are alike are equal, each to the other.
pub proof fn alike_values_are_equal(a: Json, b: Json)
    requires
        alike(a, b),
    ensures
        equal(a, b),
        equal(b, a),
    decreases a,
{
    match (a, b) {
        (Json::Array(x), Json::Array(y)) => {
            assert forall|i: int| 0 <= i < x@.len() implies equal(#[trigger] x@[i], y@[i]) && equal(
                y@[i],
                x@[i],
            ) by {
                assert(decreases_to!(a => a->Array_0));
                assert(decreases_to!(x => x@));
                assert(decreases_to!(x@ => x@[i]));
                alike_values_are_equal(x@[i], y@[i]);
            }
            assert forall|i: int| 0 <= i < y@.len() implies equal(#[trigger] y@[i], x@[i]) by {
                assert(equal(x@[i], y@[i]));
            }
        },
        (Json::Object(x), Json::Object(y)) => {
            let xs = x.items@;
            let ys = y.items@;
            assert forall|i: int| 0 <= i < xs.len() implies equal((#[trigger] xs[i]).1, ys[i].1)
                && equal(ys[i].1, xs[i].1) by {
                assert(decreases_to!(a => a->Object_0));
                assert(decreases_to!(x => x.items));
                assert(decreases_to!(x.items => x.items@));
                assert(decreases_to!(x.items@ => x.items@[i]));
                assert(decreases_to!(x.items@[i] => x.items@[i].1));
                alike_values_are_equal(xs[i].1, ys[i].1);
            }
            assert forall|i: int| 0 <= i < ys.len() implies ys[i].0@ == xs[i].0@ && equal(
                (#[trigger] ys[i]).1,
                xs[i].1,
            ) by {
                assert(equal(xs[i].1, ys[i].1));
            }
        },
        _ => {},
    }
}

/// A value is alike itself, and so are two values that are alike a third.
pub proof fn alike_is_an_equivalence(a: Json, b: Json, c: Json)
    ensures
        alike(a, a),
        alike(a, b) ==> alike(b, a),
        alike(a, b) && alike(b, c) ==> alike(a, c),
    decreases a,
{
    match a {
        Json::Array(x) => {
            assert(decreases_to!(a => a->Array_0));
            assert(decreases_to!(x => x@));
            assert forall|i: int| 0 <= i < x@.len() implies alike(#[trigger] x@[i], x@[i]) by {
                assert(decreases_to!(x@ => x@[i]));
                alike_is_an_equivalence(x@[i], x@[i], x@[i]);
            }
            if alike(a, b) {
                let y = b->Array_0;
                assert forall|i: int| 0 <= i < y@.len() implies alike(#[trigger] y@[i], x@[i]) by {
                    assert(decreases_to!(x@ => x@[i]));
                    assert(alike(x@[i], y@[i]));
                    alike_is_an_equivalence(x@[i], y@[i], y@[i]);
                }
                if alike(b, c) {
                    let z = c->Array_0;
                    assert forall|i: int| 0 <= i < x@.len() implies alike(
                        #[trigger] x@[i],
                        z@[i],
                    ) by {
                        assert(decreases_to!(x@ => x@[i]));
                        assert(alike(x@[i], y@[i]));
                        assert(alike(y@[i], z@[i]));
                        alike_is_an_equivalence(x@[i], y@[i], z@[i]);
                    }
                }
            }
        },
        Json::Object(x) => {
            assert(decreases_to!(a => a->Object_0));
            assert(decreases_to!(x => x.items));
            assert(decreases_to!(x.items => x.items@));
            let xs = x.items@;
            assert forall|i: int| 0 <= i < xs.len() implies xs[i].0@ == xs[i].0@ && alike(
                (#[trigger] xs[i]).1,
                xs[i].1,
            ) by {
                assert(decreases_to!(xs => xs[i]));
                assert(decreases_to!(xs[i] => xs[i].1));
                alike_is_an_equivalence(xs[i].1, xs[i].1, xs[i].1);
            }
            if alike(a, b) {
                let ys = b->Object_0.items@;
                assert forall|i: int| 0 <= i < ys.len() implies ys[i].0@ == xs[i].0@ && alike(
                    (#[trigger] ys[i]).1,
                    xs[i].1,
                ) by {
                    assert(decreases_to!(xs => xs[i]));
                    assert(decreases_to!(xs[i] => xs[i].1));
                    let e = xs[i];
                    alike_is_an_equivalence(xs[i].1, ys[i].1, ys[i].1);
                }
                if alike(b, c) {
                    let zs = c->Object_0.items@;
                    assert forall|i: int| 0 <= i < xs.len() implies xs[i].0@ == zs[i].0@ && alike(
                        (#[trigger] xs[i]).1,
                        zs[i].1,
                    ) by {
                        assert(decreases_to!(xs => xs[i]));
                        assert(decreases_to!(xs[i] => xs[i].1));
                        let e = ys[i];
                        alike_is_an_equivalence(xs[i].1, ys[i].1, zs[i].1);
                    }
                }
            }
        },
        _ => {},
    }
}

impl Json {
    fn duplicate(&self) -> (r: Self)
        ensures
            alike(*self, r),
        decreases self,
    {
        match self {
            Json::Null => Json::Null,
            Json::Bool(b) => Json::Bool(*b),
            Json::Number(n) => Json::Number(n.clone()),
            Json::Text(s) => Json::Text(s.clone()),
            Json::Array(v) => {
                let mut out: Vec<Json> = Vec::new();
                let mut i: usize = 0;
                while i < v.len()
                    invariant
                        i <= v.len(),
                        *self == Json::Array(*v),
                        out@.len() == i,
                        forall|k: int| 0 <= k < i ==> alike(#[trigger] v@[k], out@[k]),
                    decreases v.len() - i,
                {
                    assert(decreases_to!(*self => self->Array_0));
                    assert(decreases_to!(*v => v@));
                    assert(decreases_to!(v@ => v@[i as int]));
                    let e = v[i].duplicate();
                    out.push(e);
                    i = i + 1;
                }
                Json::Array(out)
            },
            Json::Object(m) => {
                let mut out: Vec<(String, Json)> = Vec::new();
                let mut i: usize = 0;
                while i < m.items.len()
                    invariant
                        i <= m.items.len(),
                        *self == Json::Object(*m),
                        out@.len() == i,
                        forall|k: int|
                            0 <= k < i ==> m.items@[k].0@ == out@[k].0@ && alike(
                                (#[trigger] m.items@[k]).1,
                                out@[k].1,
                            ),
                    decreases m.items.len() - i,
                {
                    assert(decreases_to!(*self => self->Object_0));
                    assert(decreases_to!(*m => m.items));
                    assert(decreases_to!(m.items => m.items@));
                    assert(decreases_to!(m.items@ => m.items@[i as int]));
                    assert(decreases_to!(m.items@[i as int] => m.items@[i as int].1));
                    let e = m.items[i].1.duplicate();
                    out.push((m.items[i].0.clone(), e));
                    i = i + 1;
                }
                assert forall|k: int| 0 <= k < out@.len() implies (#[trigger] out@[k]).0@
                    == m.items@[k].0@ by {
                    let e = m.items@[k];
                }
                Json::Object(TextMap::like(out, m))
            },
        }
    }

    /// Whether the two values are equal.
    pub fn is_equal(&self, other: &Json) -> (r: bool)
        ensures
            r == equal(*self, *other),
        decreases self,
    {
        match (self, other) {
            (Json::Null, Json::Null) => true,
            (Json::Bool(x), Json::Bool(y)) => *x == *y,
            (Json::Number(x), Json::Number(y)) => (x.integer.is_none() && y.integer.is_none()
                && x.float.vanishes() && y.float.vanishes()) || (same(
                x.text.as_str(),
                y.text.as_str(),
            ) && x.float.is_same(&y.float) && same_integer(x.integer, y.integer)),
            (Json::Text(x), Json::Text(y)) => same(x.as_str(), y.as_str()),
            (Json::Array(x), Json::Array(y)) => {
                if x.len() != y.len() {
                    return false;
                }
                let mut i: usize = 0;
                while i < x.len()
                    invariant
                        i <= x.len(),
                        x.len() == y.len(),
                        *self == Json::Array(*x),
                        *other == Json::Array(*y),
                        forall|k: int| 0 <= k < i ==> equal(#[trigger] x@[k], y@[k]),
                    decreases x.len() - i,
                {
                    assert(decreases_to!(*self => self->Array_0));
                    assert(decreases_to!(*x => x@));
                    assert(decreases_to!(x@ => x@[i as int]));
                    if !x[i].is_equal(&y[i]) {
                        assert(!equal(x@[i as int], y@[i as int]));
                        return false;
                    }
                    i = i + 1;
                }
                true
            },
            (Json::Object(x), Json::Object(y)) => {
                if x.items.len() != y.items.len() {
                    return false;
                }
                let mut i: usize = 0;
                while i < x.items.len()
                    invariant
                        i <= x.items.len(),
                        x.items.len() == y.items.len(),
                        *self == Json::Object(*x),
                        *other == Json::Object(*y),
                        forall|k: int|
                            0 <= k < i ==> x.items@[k].0@ == y.items@[k].0@ && equal(
                                (#[trigger] x.items@[k]).1,
                                y.items@[k].1,
                            ),
                    decreases x.items.len() - i,
                {
                    assert(decreases_to!(*self => self->Object_0));
                    assert(decreases_to!(*x => x.items));
                    assert(decreases_to!(x.items => x.items@));
                    assert(decreases_to!(x.items@ => x.items@[i as int]));
                    assert(decreases_to!(x.items@[i as int] => x.items@[i as int].1));
                    if !same(x.items[i].0.as_str(), y.items[i].0.as_str())
                        || !x.items[i].1.is_equal(&y.items[i].1) {
                        let ghost e = x.items@[i as int];
                        assert(!(e.0@ == y.items@[i as int].0@ && equal(
                            e.1,
                            y.items@[i as int].1,
                        )));
                        return false;
                    }
                    i = i + 1;
                }
                true
            },
            _ => false,
        }
    }

    /// The number that the value is, if it is one.
    pub fn as_f64(&self) -> (r: Option<&Real>)
        ensures
            r is Some <==> float_of(*self) is Some,
            r matches Some(x) ==> float_of(*self) == Some(*x),
    {
        match self {
            Json::Number(n) => Some(&n.float),
            _ => None,
        }
    }

    /// The text that the value is, if it is one.
    pub fn as_str(&self) -> (r: Option<&String>)
        ensures
            r is Some <==> text_of(*self) is Some,
            r matches Some(s) ==> text_of(*self) == Some(s@),
    {
        match self {
            Json::Text(s) => Some(s),
            _ => None,
        }
    }

    /// The member `key`, if the value is an object with that member.
    pub fn get(&self, key: &str) -> (r: Option<&Json>)
        ensures
            r is Some <==> member_of(*self, key@) is Some,
            r matches Some(j) ==> member_of(*self, key@) == Some(*j),
    {
        match self {
            Json::Object(m) => m.get(key),
            _ => None,
        }
    }

    /// Whether the value is `null`.
    pub fn is_null(&self) -> (r: bool)
        ensures
            r == (*self is Null),
    {
        match self {
            Json::Null => true,
            _ => false,
        }
    }

    fn step(&self, token: &str) -> (r: Option<&Json>)
        ensures
            r is Some <==> stepped(*self, token@) is Some,
            r matches Some(j) ==> stepped(*self, token@) == Some(*j),
    {
        match self {
            Json::Object(m) => m.get(token),
            Json::Array(v) => match index_below(token, v.len()) {
                Some(i) => Some(&v[i]),
                None => None,
            },
            _ => None,
        }
    }

    /// What the path leads to, if it leads anywhere.
    pub fn walk(&self, path: &Vec<&str>) -> (r: Option<&Json>)
        ensures
            r is Some <==> walked(*self, path@) is Some,
            r matches Some(j) ==> walked(*self, path@) == Some(*j),
    {
        let mut here: &Json = self;
        let mut i: usize = 0;
        while i < path.len()
            invariant
                i <= path.len(),
                walked(*self, path@.take(i as int)) == Some(*here),
            decreases path.len() - i,
        {
            assert(path@.take(i + 1).drop_last() =~= path@.take(i as int));
            match here.step(path[i]) {
                Some(next) => {
                    here = next;
                },
                None => {
                    proof {
                        lemma_walked_stops(*self, path@, i + 1);
                    }
                    return None;
                },
            }
            i = i + 1;
        }
        assert(path@.take(i as int) =~= path@);
        Some(here)
    }

    /// The value as compact JSON text.
    pub fn to_text(&self) -> (r: String)
        ensures
            r@ == written(*self),
        decreases self,
    {
        match self {
            Json::Null => "null".to_owned(),
            Json::Bool(b) => if *b {
                "true".to_owned()
            } else {
                "false".to_owned()
            },
            Json::Number(n) => n.text.clone(),
            Json::Text(s) => quote(s.as_str()),
            Json::Array(v) => {
                let mut body = String::new();
                let mut i: usize = 0;
                while i < v.len()
                    invariant
                        i <= v.len(),
                        *self == Json::Array(*v),
                        body@ == written_elements(v@.take(i as int)),
                    decreases v.len() - i,
                {
                    assert(v@.take(i + 1).drop_last() =~= v@.take(i as int));
                    if i > 0 {
                        body.append(",");
                    }
                    assert(decreases_to!(*self => self->Array_0));
                    assert(decreases_to!(*v => v@));
                    assert(decreases_to!(v@ => v@[i as int]));
                    let e = v[i].to_text();
                    body.append(e.as_str());
                    assert(i == 0 ==> body@ =~= e@);
                    i = i + 1;
                }
                assert(v@.take(i as int) =~= v@);
                let mut out = "[".to_owned();
                out.append(body.as_str());
                out.append("]");
                out
            },
            Json::Object(m) => {
                let mut body = String::new();
                let mut i: usize = 0;
                while i < m.items.len()
                    invariant
                        i <= m.items.len(),
                        *self == Json::Object(*m),
                        body@ == written_members(m.items@.take(i as int)),
                    decreases m.items.len() - i,
                {
                    let ghost before = body@;
                    assert(m.items@.take(i + 1).drop_last() =~= m.items@.take(i as int));
                    if i > 0 {
                        body.append(",");
                    }
                    let k = quote(m.items[i].0.as_str());
                    body.append(k.as_str());
                    body.append(":");
                    assert(decreases_to!(*self => self->Object_0));
                    assert(decreases_to!(*m => m.items));
                    assert(decreases_to!(m.items => m.items@));
                    assert(decreases_to!(m.items@ => m.items@[i as int]));
                    assert(decreases_to!(m.items@[i as int] => m.items@[i as int].1));
                    let e = m.items[i].1.to_text();
                    body.append(e.as_str());
                    assert(i == 0 ==> body@ =~= k@ + ":"@ + e@);
                    i = i + 1;
                }
                assert(m.items@.take(i as int) =~= m.items@);
                let mut out = "{".to_owned();
                out.append(body.as_str());
                out.append("}");
                out
            },
        }
    }
}

/// A path that leads nowhere after some steps leads nowhere at its end.
proof fn lemma_walked_stops(j: Json, path: Seq<&str>, k: int)
    requires
        0 <= k <= path.len(),
        walked(j, path.take(k)) is None,
    ensures
        walked(j, path) is None,
    decreases path.len() - k,
{
    if k == path.len() {
        assert(path.take(k) =~= path);
    } else {
        assert(path.take(k + 1).drop_last() =~= path.take(k));
        lemma_walked_stops(j, path, k + 1);
    }
}

/// A text is written between quotation marks, character by character: quotation marks and
/// backslashes behind a backslash, what no line may hold by its escape, and everything else as it
/// is.
pub proof fn a_text_is_quoted_character_by_character(a: Seq<char>, c: char)
    ensures
        escaped_text(a.push(c)) == escaped_text(a) + escaped(c),
        escaped_text(Seq::empty()).len() == 0,
        quoted(a)[0] == '"' && quoted(a).last() == '"',
        escaped(c) == seq![c] <==> c != '"' && c != '\\' && (c as int) >= 0x20,
        escaped('"') == seq!['\\', '"'],
        escaped('\\') == seq!['\\', '\\'],
        escaped('\n') == seq!['\\', 'n'],
        escaped('\t') == seq!['\\', 't'],
        escaped('\r') == seq!['\\', 'r'],
{
    assert(a.push(c).drop_last() =~= a);
    let e = escaped(c);
    if !(c != '"' && c != '\\' && (c as int) >= 0x20) {
        assert(e.len() >= 2);
    }
}

/// A path is walked one step after the other, a name into an object and a number into an array.
pub proof fn a_path_is_walked_step_by_step(j: Json, path: Seq<&'static str>, k: &'static str, v: Vec<Json>, i: nat)
    requires
        k@ == decimal(i),
    ensures
        walked(j, path.push(k)) == (match walked(j, path) {
            Some(x) => stepped(x, k@),
            None => None,
        }),
        walked(j, Seq::empty()) == Some(j),
        stepped(Json::Array(v), k@) == (if i < v@.len() {
            Some(v@[i as int])
        } else {
            None
        }),
        j is Object ==> stepped(j, k@) == member_of(j, k@),
        !(j is Object) && !(j is Array) ==> stepped(j, k@) is None,
{
    assert(path.push(k).drop_last() =~= path);
    lemma_decimal_reads(i);
}

} // verus!
