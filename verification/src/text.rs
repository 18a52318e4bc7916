//! Text as sequences of characters: comparison, searching, trimming, splitting,
//! and decimal numerals.

use vstd::prelude::*;

verus! {

broadcast use vstd::seq_lib::group_seq_properties;

/// Appends one character: `String::push` leaves the text followed by that character.
pub assume_specification[ std::string::String::push ](s: &mut std::string::String, c: char)
    ensures
        final(s)@ == old(s)@.push(c),
;

/// The characters of `s`, in order.
pub fn chars_of(s: &str) -> (r: Vec<char>)
    ensures
        r@ == s@,
{
    let mut out: Vec<char> = Vec::new();
    for c in it: s.chars()
        invariant
            it.seq() == s@,
            out@ == s@.take(it.index()),
    {
        out.push(c);
    }
    out
}

/// The characters of `v` from `from` up to `to`, as a text.
pub fn slice_text(v: &Vec<char>, from: usize, to: usize) -> (r: String)
    requires
        from <= to <= v@.len(),
    ensures
        r@ == v@.subrange(from as int, to as int),
{
    let mut out = String::new();
    let mut i: usize = from;
    while i < to
        invariant
            from <= i <= to <= v@.len(),
            out@ == v@.subrange(from as int, i as int),
        decreases to - i,
    {
        out.push(v[i]);
        i = i + 1;
    }
    out
}

/// Whether two texts hold the same characters.
pub fn same(a: &str, b: &str) -> (r: bool)
    ensures
        r == (a@ == b@),
{
    let x = chars_of(a);
    let y = chars_of(b);
    if x.len() != y.len() {
        return false;
    }
    let mut i: usize = 0;
    while i < x.len()
        invariant
            i <= x.len(),
            x.len() == y.len(),
            x@ == a@,
            y@ == b@,
            forall|k: int| 0 <= k < i ==> x@[k] == y@[k],
        decreases x.len() - i,
    {
        if x[i] != y[i] {
            return false;
        }
        i = i + 1;
    }
    assert(a@ =~= b@);
    true
}

/// `a`, and `b` behind it.
pub fn cat(a: &str, b: &str) -> (r: String)
    ensures
        r@ == a@ + b@,
{
    let mut s = a.to_owned();
    s.append(b);
    s
}

/// An owned copy of `s`.
pub fn owned(s: &str) -> (r: String)
    ensures
        r@ == s@,
{
    s.to_owned()
}

// ---------------------------------------------------------------------------
// Order
// ---------------------------------------------------------------------------

/// `a` comes before `b` in dictionary order of code points, which is the order of
/// the two texts' UTF-8 bytes.
pub open spec fn lex_lt(a: Seq<char>, b: Seq<char>) -> bool
    decreases a.len(),
{
    if b.len() == 0 {
        false
    } else if a.len() == 0 {
        true
    } else if a[0] != b[0] {
        (a[0] as int) < (b[0] as int)
    } else {
        lex_lt(a.drop_first(), b.drop_first())
    }
}

/// No text comes before itself.
pub proof fn lex_irreflexive(a: Seq<char>)
    ensures
        !lex_lt(a, a),
    decreases a.len(),
{
    if a.len() > 0 {
        lex_irreflexive(a.drop_first());
    }
}

/// The order is transitive.
pub proof fn lex_transitive(a: Seq<char>, b: Seq<char>, c: Seq<char>)
    requires
        lex_lt(a, b),
        lex_lt(b, c),
    ensures
        lex_lt(a, c),
    decreases a.len(),
{
    if a.len() > 0 && b.len() > 0 && c.len() > 0 && a[0] == b[0] && b[0] == c[0] {
        lex_transitive(a.drop_first(), b.drop_first(), c.drop_first());
    }
}

/// Of two different texts one comes before the other.
pub proof fn lex_total(a: Seq<char>, b: Seq<char>)
    ensures
        lex_lt(a, b) || a == b || lex_lt(b, a),
    decreases a.len(),
{
    if a.len() > 0 && b.len() > 0 && a[0] == b[0] {
        lex_total(a.drop_first(), b.drop_first());
        if a.drop_first() == b.drop_first() {
            assert(a =~= seq![a[0]] + a.drop_first());
            assert(b =~= seq![b[0]] + b.drop_first());
        }
    } else if a.len() == 0 && b.len() == 0 {
        assert(a =~= b);
    }
}

/// Two texts never come before each other.
pub proof fn lex_asymmetric(a: Seq<char>, b: Seq<char>)
    requires
        lex_lt(a, b),
    ensures
        !lex_lt(b, a),
        a != b,
{
    if lex_lt(b, a) {
        lex_transitive(a, b, a);
    }
    lex_irreflexive(a);
}

/// Whether `a` comes before `b`.
pub fn less(a: &str, b: &str) -> (r: bool)
    ensures
        r == lex_lt(a@, b@),
{
    let x = chars_of(a);
    let y = chars_of(b);
    let mut i: usize = 0;
    assert(a@.skip(0) =~= a@ && b@.skip(0) =~= b@);
    loop
        invariant
            x@ == a@,
            y@ == b@,
            i <= x.len(),
            i <= y.len(),
            lex_lt(a@, b@) == lex_lt(a@.skip(i as int), b@.skip(i as int)),
        decreases x.len() - i,
    {
        if i >= y.len() {
            return false;
        }
        if i >= x.len() {
            return true;
        }
        assert(a@.skip(i as int)[0] == x@[i as int] && b@.skip(i as int)[0] == y@[i as int]);
        if x[i] != y[i] {
            return x[i] < y[i];
        }
        assert(a@.skip(i as int).drop_first() =~= a@.skip(i + 1));
        assert(b@.skip(i as int).drop_first() =~= b@.skip(i + 1));
        i = i + 1;
    }
}

// ---------------------------------------------------------------------------
// Character classes
// ---------------------------------------------------------------------------

/// The characters with the Unicode property `White_Space`.
pub open spec fn whitespace(c: char) -> bool {
    ||| '\u{9}' <= c <= '\u{d}'
    ||| c == ' '
    ||| c == '\u{85}'
    ||| c == '\u{a0}'
    ||| c == '\u{1680}'
    ||| '\u{2000}' <= c <= '\u{200a}'
    ||| c == '\u{2028}'
    ||| c == '\u{2029}'
    ||| c == '\u{202f}'
    ||| c == '\u{205f}'
    ||| c == '\u{3000}'
}

/// Whether `c` has the Unicode property `White_Space`.
pub fn is_whitespace(c: char) -> (r: bool)
    ensures
        r == whitespace(c),
{
    ('\u{9}' <= c && c <= '\u{d}') || c == ' ' || c == '\u{85}' || c == '\u{a0}' || c
        == '\u{1680}' || ('\u{2000}' <= c && c <= '\u{200a}') || c == '\u{2028}' || c
        == '\u{2029}' || c == '\u{202f}' || c == '\u{205f}' || c == '\u{3000}'
}

/// The control characters: the Unicode general category `Cc`.
pub open spec fn control(c: char) -> bool {
    c <= '\u{1f}' || '\u{7f}' <= c <= '\u{9f}'
}

/// Whether `c` is a control character.
pub fn is_control(c: char) -> (r: bool)
    ensures
        r == control(c),
{
    c <= '\u{1f}' || ('\u{7f}' <= c && c <= '\u{9f}')
}

/// The decimal digits `0` to `9`.
pub open spec fn digit(c: char) -> bool {
    '0' <= c <= '9'
}

/// Whether `c` is a decimal digit.
pub fn is_digit(c: char) -> (r: bool)
    ensures
        r == digit(c),
{
    '0' <= c && c <= '9'
}

// ---------------------------------------------------------------------------
// Searching
// ---------------------------------------------------------------------------

/// `p` stands in `s` at position `i`.
pub open spec fn occurs_at(s: Seq<char>, p: Seq<char>, i: int) -> bool {
    0 <= i && i + p.len() <= s.len() && s.subrange(i, i + p.len()) == p
}

/// The first position of `p` in `s` at or after `from`, if there is one.
pub open spec fn find_from(s: Seq<char>, p: Seq<char>, from: int) -> Option<int>
    decreases s.len() + 1 - from,
{
    if from + p.len() > s.len() {
        None
    } else if occurs_at(s, p, from) {
        Some(from)
    } else {
        find_from(s, p, from + 1)
    }
}

/// `p` stands somewhere in `s`.
pub open spec fn holds(s: Seq<char>, p: Seq<char>) -> bool {
    find_from(s, p, 0) is Some
}

/// A position found is the first of all the positions at or after `from`.
pub proof fn lemma_find_from(s: Seq<char>, p: Seq<char>, from: int)
    requires
        0 <= from,
    ensures
        find_from(s, p, from) matches Some(k) ==> {
            &&& from <= k
            &&& occurs_at(s, p, k)
            &&& forall|j: int| from <= j < k ==> !occurs_at(s, p, j)
        },
        find_from(s, p, from) is None ==> forall|j: int| from <= j ==> !occurs_at(s, p, j),
    decreases s.len() + 1 - from,
{
    if from + p.len() <= s.len() && !occurs_at(s, p, from) {
        lemma_find_from(s, p, from + 1);
    }
}

/// Whether `p` stands in `s` at position `i`.
fn stands_at(s: &Vec<char>, p: &Vec<char>, i: usize) -> (r: bool)
    requires
        i + p@.len() <= s@.len(),
    ensures
        r == occurs_at(s@, p@, i as int),
{
    let mut k: usize = 0;
    while k < p.len()
        invariant
            k <= p.len(),
            i + p.len() <= s.len(),
            forall|j: int| 0 <= j < k ==> s@[i + j] == p@[j],
        decreases p.len() - k,
    {
        if s[i + k] != p[k] {
            assert(s@.subrange(i as int, i + p@.len())[k as int] != p@[k as int]);
            return false;
        }
        k = k + 1;
    }
    assert(s@.subrange(i as int, i + p@.len()) =~= p@);
    true
}

/// The first position of `p` in `s` at or after `from`.
pub fn find(s: &Vec<char>, p: &Vec<char>, from: usize) -> (r: Option<usize>)
    requires
        from <= s@.len(),
    ensures
        r is Some <==> find_from(s@, p@, from as int) is Some,
        r matches Some(k) ==> find_from(s@, p@, from as int) == Some(k as int),
{
    let mut i: usize = from;
    while i <= s.len() && p.len() <= s.len() - i
        invariant
            from <= i <= s@.len() + 1,
            find_from(s@, p@, from as int) == find_from(s@, p@, i as int),
        decreases s@.len() + 1 - i,
    {
        if stands_at(s, p, i) {
            return Some(i);
        }
        if i == s.len() {
            assert(find_from(s@, p@, i + 1) is None);
            return None;
        }
        i = i + 1;
    }
    None
}

/// Whether `needle` stands somewhere in `hay`.
pub fn contains(hay: &str, needle: &str) -> (r: bool)
    ensures
        r == holds(hay@, needle@),
{
    let h = chars_of(hay);
    let n = chars_of(needle);
    find(&h, &n, 0).is_some()
}

/// Whether `s` begins with `p`.
pub fn starts_with(s: &str, p: &str) -> (r: bool)
    ensures
        r == p@.is_prefix_of(s@),
{
    let x = chars_of(s);
    let y = chars_of(p);
    if y.len() > x.len() {
        return false;
    }
    let r = stands_at(&x, &y, 0);
    assert(s@.subrange(0, p@.len() as int) =~= s@.take(p@.len() as int));
    r
}

/// What follows `p` in `s`, where `s` begins with `p`.
pub open spec fn stripped(s: Seq<char>, p: Seq<char>) -> Option<Seq<char>> {
    if p.is_prefix_of(s) {
        Some(s.skip(p.len() as int))
    } else {
        None
    }
}

/// What follows `p` in `s`, where `s` begins with `p`.
pub fn strip_prefix(s: &str, p: &str) -> (r: Option<String>)
    ensures
        r.deep_view() == stripped(s@, p@),
{
    if starts_with(s, p) {
        let x = chars_of(s);
        let y = chars_of(p);
        let rest = slice_text(&x, y.len(), x.len());
        assert(rest@ =~= s@.skip(p@.len() as int));
        Some(rest)
    } else {
        None
    }
}

// ---------------------------------------------------------------------------
// Trimming
// ---------------------------------------------------------------------------

/// `s` without the white space that it begins with.
pub open spec fn trimmed_start(s: Seq<char>) -> Seq<char>
    decreases s.len(),
{
    if s.len() > 0 && whitespace(s[0]) {
        trimmed_start(s.drop_first())
    } else {
        s
    }
}

/// `s` without the white space that it ends with.
pub open spec fn trimmed_end(s: Seq<char>) -> Seq<char>
    decreases s.len(),
{
    if s.len() > 0 && whitespace(s.last()) {
        trimmed_end(s.drop_last())
    } else {
        s
    }
}

/// `s` without the white space at either end.
pub open spec fn trimmed(s: Seq<char>) -> Seq<char> {
    trimmed_end(trimmed_start(s))
}

/// `s` without the white space that it begins with.
pub fn trim_start(s: &str) -> (r: String)
    ensures
        r@ == trimmed_start(s@),
{
    let v = chars_of(s);
    let mut i: usize = 0;
    assert(s@.skip(0) =~= s@);
    while i < v.len() && is_whitespace(v[i])
        invariant
            v@ == s@,
            i <= v.len(),
            trimmed_start(s@) == trimmed_start(s@.skip(i as int)),
        decreases v.len() - i,
    {
        assert(s@.skip(i as int).drop_first() =~= s@.skip(i + 1));
        i = i + 1;
    }
    let r = slice_text(&v, i, v.len());
    assert(r@ =~= s@.skip(i as int));
    r
}

/// `s` without the white space that it ends with.
pub fn trim_end(s: &str) -> (r: String)
    ensures
        r@ == trimmed_end(s@),
{
    let v = chars_of(s);
    let mut i: usize = v.len();
    assert(s@.take(s@.len() as int) =~= s@);
    while i > 0 && is_whitespace(v[i - 1])
        invariant
            v@ == s@,
            i <= v.len(),
            trimmed_end(s@) == trimmed_end(s@.take(i as int)),
        decreases i,
    {
        assert(s@.take(i as int).drop_last() =~= s@.take(i - 1));
        i = i - 1;
    }
    let r = slice_text(&v, 0, i);
    assert(r@ =~= s@.take(i as int));
    r
}

/// `s` without the white space at either end.
pub fn trim(s: &str) -> (r: String)
    ensures
        r@ == trimmed(s@),
{
    let t = trim_start(s);
    trim_end(t.as_str())
}

// ---------------------------------------------------------------------------
// Splitting and joining
// ---------------------------------------------------------------------------

/// The position of the first character of `s` that is `c`, or the length of `s`.
pub open spec fn first_of(s: Seq<char>, c: char) -> int
    decreases s.len(),
{
    if s.len() == 0 || s[0] == c {
        0
    } else {
        1 + first_of(s.drop_first(), c)
    }
}

/// `first_of` is the end of the longest prefix without `c`.
pub proof fn lemma_first_of(s: Seq<char>, c: char)
    ensures
        0 <= first_of(s, c) <= s.len(),
        first_of(s, c) < s.len() ==> s[first_of(s, c)] == c,
        forall|j: int| 0 <= j < first_of(s, c) ==> s[j] != c,
    decreases s.len(),
{
    if s.len() > 0 && s[0] != c {
        let t = s.drop_first();
        lemma_first_of(t, c);
        assert forall|j: int| 0 <= j < first_of(s, c) implies s[j] != c by {
            if j > 0 {
                assert(s[j] == t[j - 1]);
            }
        }
    }
}

/// The position that `lemma_first_of` describes is `first_of`.
pub proof fn lemma_first_of_unique(s: Seq<char>, c: char, k: int)
    requires
        0 <= k <= s.len(),
        k < s.len() ==> s[k] == c,
        forall|j: int| 0 <= j < k ==> s[j] != c,
    ensures
        first_of(s, c) == k,
{
    lemma_first_of(s, c);
    if first_of(s, c) < k {
        assert(s[first_of(s, c)] != c);
    }
}

/// A line as it stands before a line feed, without a carriage return at its end.
pub open spec fn without_cr(line: Seq<char>) -> Seq<char> {
    if line.len() > 0 && line.last() == '\r' {
        line.drop_last()
    } else {
        line
    }
}

/// The lines of `s`. A line ends with a line feed or with a carriage return and a
/// line feed; the end of the last one may be missing.
pub open spec fn lines_of(s: Seq<char>) -> Seq<Seq<char>>
    decreases s.len(),
{
    let k = first_of(s, '\n');
    if s.len() == 0 {
        Seq::empty()
    } else if 0 <= k < s.len() {
        seq![without_cr(s.take(k))] + lines_of(s.skip(k + 1))
    } else {
        seq![s]
    }
}

/// The lines of `s`.
pub fn lines(s: &str) -> (r: Vec<String>)
    ensures
        r.deep_view() == lines_of(s@),
{
    let v = chars_of(s);
    let mut out: Vec<String> = Vec::new();
    let mut pos: usize = 0;
    assert(s@.skip(0) =~= s@);
    assert(out.deep_view() + lines_of(s@) =~= lines_of(s@));
    while pos < v.len()
        invariant
            v@ == s@,
            pos <= v.len(),
            out.deep_view() + lines_of(s@.skip(pos as int)) == lines_of(s@),
        decreases v.len() - pos,
    {
        let mut k: usize = pos;
        while k < v.len() && v[k] != '\n'
            invariant
                v@ == s@,
                pos <= k <= v.len(),
                forall|j: int| pos <= j < k ==> v@[j] != '\n',
            decreases v.len() - k,
        {
            k = k + 1;
        }
        let ghost rest = s@.skip(pos as int);
        let ghost before = out.deep_view();
        proof {
            lemma_first_of_unique(rest, '\n', k - pos);
        }
        if k < v.len() {
            let line = if k > pos && v[k - 1] == '\r' {
                slice_text(&v, pos, k - 1)
            } else {
                slice_text(&v, pos, k)
            };
            proof {
                assert(rest.take(k - pos) =~= s@.subrange(pos as int, k as int));
                assert(line@ =~= without_cr(rest.take(k - pos)));
                assert(rest.skip(k - pos + 1) =~= s@.skip(k + 1));
            }
            out.push(line);
            assert(out.deep_view() =~= before.push(line@));
            assert(before.push(line@) + lines_of(s@.skip(k + 1)) =~= before + (seq![line@]
                + lines_of(s@.skip(k + 1))));
            pos = k + 1;
        } else {
            let line = slice_text(&v, pos, k);
            assert(line@ =~= rest);
            out.push(line);
            assert(out.deep_view() =~= before.push(line@));
            assert(s@.skip(k as int).len() == 0);
            assert(before.push(line@) + lines_of(s@.skip(k as int)) =~= before + seq![line@]);
            pos = k;
        }
    }
    assert(s@.skip(pos as int).len() == 0);
    assert(out.deep_view() + lines_of(s@.skip(pos as int)) =~= out.deep_view());
    out
}

/// The end of the word that starts at `i`: the next white space, or the end of `s`.
pub open spec fn word_end(s: Seq<char>, i: int) -> int
    decreases s.len() - i,
{
    if i < s.len() && !whitespace(s[i]) {
        word_end(s, i + 1)
    } else {
        i
    }
}

/// A word does not end before it starts.
pub proof fn lemma_word_end(s: Seq<char>, i: int)
    requires
        0 <= i <= s.len(),
    ensures
        i <= word_end(s, i) <= s.len(),
    decreases s.len() - i,
{
    if i < s.len() && !whitespace(s[i]) {
        lemma_word_end(s, i + 1);
    }
}

/// The words of `s` from `i` on: the longest runs without white space.
pub open spec fn words_from(s: Seq<char>, i: int) -> Seq<Seq<char>>
    decreases s.len() - i,
{
    if i < 0 || i >= s.len() {
        Seq::empty()
    } else if whitespace(s[i]) {
        words_from(s, i + 1)
    } else {
        proof {
            lemma_word_end(s, i + 1);
        }
        seq![s.subrange(i, word_end(s, i))] + words_from(s, word_end(s, i))
    }
}

/// The words of `s`: the longest runs without white space.
pub fn words(s: &str) -> (r: Vec<String>)
    ensures
        r.deep_view() == words_from(s@, 0),
{
    let v = chars_of(s);
    let mut out: Vec<String> = Vec::new();
    let mut i: usize = 0;
    assert(out.deep_view() + words_from(s@, 0) =~= words_from(s@, 0));
    while i < v.len()
        invariant
            v@ == s@,
            i <= v.len(),
            out.deep_view() + words_from(s@, i as int) == words_from(s@, 0),
        decreases v.len() - i,
    {
        if is_whitespace(v[i]) {
            i = i + 1;
        } else {
            let mut k: usize = i;
            while k < v.len() && !is_whitespace(v[k])
                invariant
                    v@ == s@,
                    i <= k <= v.len(),
                    word_end(s@, i as int) == word_end(s@, k as int),
                decreases v.len() - k,
            {
                k = k + 1;
            }
            let ghost before = out.deep_view();
            proof {
                lemma_word_end(s@, i + 1);
            }
            let word = slice_text(&v, i, k);
            out.push(word);
            assert(out.deep_view() =~= before.push(word@));
            assert(before.push(word@) + words_from(s@, k as int) =~= before + (seq![word@]
                + words_from(s@, k as int)));
            i = k;
        }
    }
    assert(out.deep_view() + words_from(s@, i as int) =~= out.deep_view());
    out
}

/// The texts of `parts` one after another, with `sep` between each two.
pub open spec fn joined(parts: Seq<Seq<char>>, sep: Seq<char>) -> Seq<char>
    decreases parts.len(),
{
    if parts.len() == 0 {
        Seq::empty()
    } else if parts.len() == 1 {
        parts[0]
    } else {
        joined(parts.drop_last(), sep) + sep + parts.last()
    }
}

/// The texts of `parts` one after another, with `sep` between each two.
pub fn join(parts: &Vec<String>, sep: &str) -> (r: String)
    ensures
        r@ == joined(parts.deep_view(), sep@),
{
    let mut out = String::new();
    let mut i: usize = 0;
    while i < parts.len()
        invariant
            i <= parts.len(),
            out@ == joined(parts.deep_view().take(i as int), sep@),
        decreases parts.len() - i,
    {
        let ghost upto = parts.deep_view().take(i + 1);
        assert(upto.drop_last() =~= parts.deep_view().take(i as int));
        if i > 0 {
            out.append(sep);
        }
        out.append(parts[i].as_str());
        assert(i == 0 ==> out@ =~= upto[0]);
        i = i + 1;
    }
    assert(parts.deep_view().take(i as int) =~= parts.deep_view());
    out
}

// ---------------------------------------------------------------------------
// Pieces of a text
// ---------------------------------------------------------------------------

/// The piece stands somewhere in the text.
pub open spec fn shows(s: Seq<char>, piece: Seq<char>) -> bool {
    exists|i: int| #[trigger] occurs_at(s, piece, i)
}

/// A text shows itself.
pub proof fn lemma_shows_itself(s: Seq<char>)
    ensures
        shows(s, s),
{
    assert(s.subrange(0, s.len() as int) =~= s);
    assert(occurs_at(s, s, 0));
}

/// What a part shows the whole shows.
pub proof fn lemma_shows_part(a: Seq<char>, b: Seq<char>, c: Seq<char>, piece: Seq<char>)
    requires
        shows(b, piece),
    ensures
        shows(a + b + c, piece),
{
    let i = choose|i: int| #[trigger] occurs_at(b, piece, i);
    let s = a + b + c;
    assert(s.subrange(a.len() + i, a.len() + i + piece.len()) =~= b.subrange(i, i + piece.len()));
    assert(occurs_at(s, piece, a.len() + i));
}

/// What the front shows the whole shows.
pub broadcast proof fn lemma_shows_front(a: Seq<char>, b: Seq<char>, piece: Seq<char>)
    requires
        shows(a, piece),
    ensures
        #[trigger] shows(a + b, piece),
{
    lemma_shows_part(Seq::empty(), a, b, piece);
    assert(Seq::<char>::empty() + a + b =~= a + b);
}

/// What the back shows the whole shows.
pub broadcast proof fn lemma_shows_back(a: Seq<char>, b: Seq<char>, piece: Seq<char>)
    requires
        shows(b, piece),
    ensures
        #[trigger] shows(a + b, piece),
{
    lemma_shows_part(a, b, Seq::empty(), piece);
    assert(a + b + Seq::<char>::empty() =~= a + b);
}

/// What one of the texts shows, all of them joined show.
pub proof fn lemma_shows_joined(parts: Seq<Seq<char>>, sep: Seq<char>, i: int, piece: Seq<char>)
    requires
        0 <= i < parts.len(),
        shows(parts[i], piece),
    ensures
        shows(joined(parts, sep), piece),
    decreases parts.len(),
{
    broadcast use lemma_shows_front, lemma_shows_back;

    if parts.len() > 1 && i < parts.len() - 1 {
        lemma_shows_joined(parts.drop_last(), sep, i, piece);
    }
}

/// A text shows what stands between two others.
pub proof fn lemma_shows_between(a: Seq<char>, piece: Seq<char>, c: Seq<char>)
    ensures
        shows(a + piece + c, piece),
{
    lemma_shows_itself(piece);
    lemma_shows_part(a, piece, c, piece);
}

/// A value behind its label is shown, also where something parts the label from what stands before.
pub proof fn lemma_shows_labelled(a: Seq<char>, gap: Seq<char>, label: Seq<char>, v: Seq<char>)
    ensures
        shows(a + (gap + label) + v, label + v),
{
    let s = a + (gap + label) + v;
    let i = (a.len() + gap.len()) as int;
    let n = (label.len() + v.len()) as int;
    let part = s.subrange(i, i + n);
    assert(part.len() == (label + v).len());
    assert forall|k: int| 0 <= k < n implies part[k] == (label + v)[k] by {
        assert(part[k] == s[i + k]);
    }
    assert(part =~= label + v);
    assert(occurs_at(s, label + v, i));
}

/// What the front shows the whole shows, also with two texts behind it.
pub proof fn lemma_shows_front2(a: Seq<char>, b: Seq<char>, c: Seq<char>, piece: Seq<char>)
    requires
        shows(a, piece),
    ensures
        shows(a + b + c, piece),
{
    lemma_shows_front(a, b, piece);
    lemma_shows_front(a + b, c, piece);
}

/// A value between its label and what closes it is shown with both.
pub proof fn lemma_shows_enclosed(
    a: Seq<char>,
    gap: Seq<char>,
    label: Seq<char>,
    v: Seq<char>,
    close: Seq<char>,
    rest: Seq<char>,
)
    ensures
        shows(a + (gap + label) + v + (close + rest), label + v + close),
{
    let s = a + (gap + label) + v + (close + rest);
    let piece = label + v + close;
    let i = (a.len() + gap.len()) as int;
    let n = piece.len() as int;
    let part = s.subrange(i, i + n);
    assert(part.len() == piece.len());
    assert forall|k: int| 0 <= k < n implies part[k] == piece[k] by {
        assert(part[k] == s[i + k]);
    }
    assert(part =~= piece);
    assert(occurs_at(s, piece, i));
}

/// Three texts behind another are shown together.
pub proof fn lemma_shows_three(a: Seq<char>, l: Seq<char>, p: Seq<char>, r: Seq<char>)
    ensures
        shows(a + l + p + r, l + p + r),
{
    let s = a + l + p + r;
    let piece = l + p + r;
    let i = a.len() as int;
    let part = s.subrange(i, i + piece.len());
    assert(part.len() == piece.len());
    assert forall|k: int| 0 <= k < piece.len() implies part[k] == piece[k] by {
        assert(part[k] == s[i + k]);
    }
    assert(part =~= piece);
    assert(occurs_at(s, piece, i));
}

// ---------------------------------------------------------------------------
// What the operations do
// ---------------------------------------------------------------------------

/// Trimming takes the blanks at both ends and nothing else.
pub proof fn trimming_takes_the_ends(a: Seq<char>, core: Seq<char>, b: Seq<char>)
    requires
        forall|i: int| 0 <= i < a.len() ==> whitespace(#[trigger] a[i]),
        forall|i: int| 0 <= i < b.len() ==> whitespace(#[trigger] b[i]),
        core.len() > 0,
        !whitespace(core[0]),
        !whitespace(core.last()),
    ensures
        trimmed(a + core + b) == core,
        trimmed_start(a + core + b) == core + b,
        trimmed_end(a + core + b) == a + core,
        trimmed(a).len() == 0,
{
    lemma_trim_start(a, core + b);
    assert(a + core + b =~= a + (core + b));
    assert((core + b)[0] == core[0]);
    lemma_trim_end(core, b);
    lemma_trim_end(a + core, b);
    assert((a + core).last() == core.last());
    lemma_trim_start(a, Seq::empty());
    assert(a + Seq::<char>::empty() =~= a);
}

proof fn lemma_trim_start(a: Seq<char>, rest: Seq<char>)
    requires
        forall|i: int| 0 <= i < a.len() ==> whitespace(#[trigger] a[i]),
        rest.len() > 0 ==> !whitespace(rest[0]),
    ensures
        trimmed_start(a + rest) == rest,
    decreases a.len(),
{
    if a.len() == 0 {
        assert(a + rest =~= rest);
    } else {
        assert(whitespace(a[0]));
        assert((a + rest).drop_first() =~= a.drop_first() + rest);
        assert forall|i: int| 0 <= i < a.drop_first().len() implies whitespace(
            #[trigger] a.drop_first()[i],
        ) by {
            assert(whitespace(a[i + 1]));
        }
        lemma_trim_start(a.drop_first(), rest);
    }
}

proof fn lemma_trim_end(front: Seq<char>, b: Seq<char>)
    requires
        forall|i: int| 0 <= i < b.len() ==> whitespace(#[trigger] b[i]),
        front.len() > 0 ==> !whitespace(front.last()),
    ensures
        trimmed_end(front + b) == front,
    decreases b.len(),
{
    if b.len() == 0 {
        assert(front + b =~= front);
    } else {
        assert(whitespace(b[b.len() - 1]));
        assert((front + b).drop_last() =~= front + b.drop_last());
        assert forall|i: int| 0 <= i < b.drop_last().len() implies whitespace(
            #[trigger] b.drop_last()[i],
        ) by {
            assert(whitespace(b[i]));
        }
        lemma_trim_end(front, b.drop_last());
    }
}

/// A line break ends a line, a carriage return before it goes with it, and the rest is read on.
pub proof fn a_line_ends_at_its_break(a: Seq<char>, rest: Seq<char>)
    requires
        forall|i: int| 0 <= i < a.len() ==> #[trigger] a[i] != '\n',
    ensures
        lines_of(a + seq!['\n'] + rest)[0] == (if a.len() > 0 && a.last() == '\r' {
            a.drop_last()
        } else {
            a
        }),
        lines_of(a + seq!['\n'] + rest).drop_first() == lines_of(rest),
        a.len() > 0 ==> lines_of(a) == seq![a],
        lines_of(Seq::empty()).len() == 0,
{
    let s = a + seq!['\n'] + rest;
    lemma_first_of_unique(s, '\n', a.len() as int);
    assert(s.take(a.len() as int) =~= a);
    assert(s.skip((a.len() + 1) as int) =~= rest);
    let all = seq![without_cr(a)] + lines_of(rest);
    assert(all.drop_first() =~= lines_of(rest));
    lemma_first_of(a, '\n');
}

/// A text holds another exactly when it shows it somewhere, and what is found first is found.
pub proof fn holding_is_showing(s: Seq<char>, p: Seq<char>)
    ensures
        holds(s, p) <==> shows(s, p),
{
    lemma_find_from(s, p, 0);
    if holds(s, p) {
        assert(occurs_at(s, p, find_from(s, p, 0)->0));
    }
    if shows(s, p) {
        let i = choose|i: int| #[trigger] occurs_at(s, p, i);
    }
}

/// A prefix is taken off where it stands, and only there.
pub proof fn a_prefix_is_taken_off(p: Seq<char>, rest: Seq<char>, s: Seq<char>)
    ensures
        stripped(p + rest, p) == Some(rest),
        stripped(s, p) matches Some(r) ==> s == p + r,
{
    assert((p + rest).subrange(0, p.len() as int) =~= p);
    assert((p + rest).skip(p.len() as int) =~= rest);
    if let Some(r) = stripped(s, p) {
        assert(s =~= p + s.skip(p.len() as int));
    }
}

/// Texts are joined in their order, with the separator between two of them and nowhere else.
pub proof fn texts_are_joined_in_order(parts: Seq<Seq<char>>, x: Seq<char>, sep: Seq<char>)
    ensures
        parts.len() > 0 ==> joined(parts.push(x), sep) == joined(parts, sep) + sep + x,
        joined(seq![x], sep) == x,
        joined(Seq::empty(), sep).len() == 0,
{
    assert(parts.push(x).drop_last() =~= parts);
}

/// Texts are ordered as in a dictionary by code point: what they share in front does not matter, the
/// first difference decides, and a text comes before those that it begins.
pub proof fn texts_are_ordered_by_their_first_difference(
    front: Seq<char>,
    x: char,
    y: char,
    a: Seq<char>,
    b: Seq<char>,
)
    ensures
        (x as int) < (y as int) ==> lex_lt(front + seq![x] + a, front + seq![y] + b),
        lex_lt(front, front + seq![x] + a),
        !lex_lt(front + seq![x] + a, front),
    decreases front.len(),
{
    let p = front + seq![x] + a;
    let q = front + seq![y] + b;
    if front.len() > 0 {
        texts_are_ordered_by_their_first_difference(front.drop_first(), x, y, a, b);
        assert(p.drop_first() =~= front.drop_first() + seq![x] + a);
        assert(q.drop_first() =~= front.drop_first() + seq![y] + b);
    }
}

/// Words are what stands between blanks.
pub proof fn a_word_ends_at_a_blank(w: Seq<char>, c: char, rest: Seq<char>)
    requires
        w.len() > 0,
        forall|i: int| 0 <= i < w.len() ==> !whitespace(#[trigger] w[i]),
        whitespace(c),
    ensures
        words_from(w + seq![c] + rest, 0)[0] == w,
        words_from(w, 0) == seq![w],
        words_from(Seq::empty(), 0).len() == 0,
{
    let s = w + seq![c] + rest;
    lemma_word_run(s, 0, w.len() as int);
    assert(s[w.len() as int] == c);
    assert forall|i: int| 0 <= i < w.len() implies !whitespace(#[trigger] s[i]) by {
        assert(s[i] == w[i]);
    }
    assert(s.subrange(0, w.len() as int) =~= w);
    assert(!whitespace(s[0]));
    lemma_word_run(w, 0, w.len() as int);
    assert(w.subrange(0, w.len() as int) =~= w);
    assert(words_from(w, w.len() as int) =~= Seq::empty());
    assert(!whitespace(w[0]));
    assert(seq![w] + Seq::<Seq<char>>::empty() =~= seq![w]);
}

proof fn lemma_word_run(s: Seq<char>, i: int, e: int)
    requires
        0 <= i <= e <= s.len(),
    ensures
        (forall|k: int| i <= k < e ==> !whitespace(#[trigger] s[k])) && (e < s.len() ==> whitespace(
            s[e],
        )) ==> word_end(s, i) == e,
    decreases e - i,
{
    if i < e {
        lemma_word_run(s, i + 1, e);
    }
}

} // verus!
