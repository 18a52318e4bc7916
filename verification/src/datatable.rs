//! Searchable, sortable table for the console's long resource lists.
//!
//! Every list of experiments, campaigns, reports, templates, or workloads
//! has one interaction model: a filter box that matches any cell text,
//! click-to-sort headers, a row count, and a created-date column. Rows own their
//! cells as what is shown plus a parallel list of typed sort keys, so sorting never
//! depends on rendered markup.

use vstd::prelude::*;
use crate::calendar::ms_text;
use crate::lowercase::{lowered, to_lower};
use crate::numeral::{decimal, decimal_of, parse_i64, parsed};
use crate::order::{sorted, sorting_keeps_images, sorting_orders, stable_sort, Ordered};
use crate::text::{
    contains, holding_is_showing, holds, lemma_shows_between, lemma_shows_front2, less,
    lex_asymmetric, lex_lt, lex_total, lex_transitive, shows, words, words_from,
};

pub use crate::calendar::fmt_ms;

verus! {

broadcast use vstd::seq_lib::group_seq_properties;

// ---------------------------------------------------------------------------
// Columns
// ---------------------------------------------------------------------------

/// One column header.
#[derive(Debug, Clone, PartialEq)]
pub struct Col {
    pub title: &'static str,
    /// Whether clicking the header sorts by this column.
    pub sortable: bool,
}

impl Col {
    /// A column that holds data.
    pub fn new(title: &'static str) -> (r: Self)
        ensures
            r.title == title,
            r.sortable,
    {
        Col { title, sortable: true }
    }

    /// A column that holds actions (buttons, checkboxes) rather than data.
    pub fn action(title: &'static str) -> (r: Self)
        ensures
            r.title == title,
            !r.sortable,
    {
        Col { title, sortable: false }
    }
}

// ---------------------------------------------------------------------------
// Sort keys
// ---------------------------------------------------------------------------

/// Typed sort key for one cell. Missing values sort last in both directions.
#[derive(Debug, Clone, PartialEq)]
pub enum Key {
    Text(String),
    /// A whole number that a 64-bit floating-point number holds.
    Num(i128),
    Missing,
}

/// The whole numbers that a 64-bit floating-point number holds lie this far apart around `n`.
pub open spec fn spacing(n: int) -> int {
    let m = if n < 0 {
        -n
    } else {
        n
    };
    if m < 0x20_0000_0000_0000 {
        1
    } else if m < 0x40_0000_0000_0000 {
        2
    } else if m < 0x80_0000_0000_0000 {
        4
    } else if m < 0x100_0000_0000_0000 {
        8
    } else if m < 0x200_0000_0000_0000 {
        16
    } else if m < 0x400_0000_0000_0000 {
        32
    } else if m < 0x800_0000_0000_0000 {
        64
    } else if m < 0x1000_0000_0000_0000 {
        128
    } else if m < 0x2000_0000_0000_0000 {
        256
    } else if m < 0x4000_0000_0000_0000 {
        512
    } else {
        1024
    }
}

/// The multiple of `step` that is nearest to `n`; of two the one with the even factor.
pub open spec fn nearest(n: int, step: int) -> int {
    let q = n / step;
    let r = n % step;
    if 2 * r < step || (2 * r == step && q % 2 == 0) {
        q * step
    } else {
        (q + 1) * step
    }
}

/// The 64-bit integer as a 64-bit floating-point number.
pub open spec fn rounded(n: int) -> int {
    nearest(n, spacing(n))
}

fn spacing_of(n: i64) -> (r: i128)
    ensures
        r == spacing(n as int),
        1 <= r <= 1024,
{
    let m: i128 = if n < 0 {
        -(n as i128)
    } else {
        n as i128
    };
    if m < 0x20_0000_0000_0000 {
        1
    } else if m < 0x40_0000_0000_0000 {
        2
    } else if m < 0x80_0000_0000_0000 {
        4
    } else if m < 0x100_0000_0000_0000 {
        8
    } else if m < 0x200_0000_0000_0000 {
        16
    } else if m < 0x400_0000_0000_0000 {
        32
    } else if m < 0x800_0000_0000_0000 {
        64
    } else if m < 0x1000_0000_0000_0000 {
        128
    } else if m < 0x2000_0000_0000_0000 {
        256
    } else if m < 0x4000_0000_0000_0000 {
        512
    } else {
        1024
    }
}

/// The 64-bit integer as a 64-bit floating-point number.
pub fn to_double(n: i64) -> (r: i128)
    ensures
        r == rounded(n as int),
{
    let step: i128 = spacing_of(n);
    let q: i128 = crate::calendar::floor_div(n, step as i64) as i128;
    let rest: i128 = crate::calendar::floor_mod(n, step as i64) as i128;
    proof {
        assert(q * step <= n) by (nonlinear_arith)
            requires
                q == n as int / step as int,
                step >= 1,
        ;
        assert(q * step > n - step) by (nonlinear_arith)
            requires
                q == n as int / step as int,
                step >= 1,
        ;
        assert((q + 1) * step == q * step + step) by (nonlinear_arith);
    }
    let even = crate::calendar::floor_mod(q as i64, 2) == 0;
    if 2 * rest < step || (2 * rest == step && even) {
        q * step
    } else {
        (q + 1) * step
    }
}

/// A key that tells nothing.
pub open spec fn is_missing(k: Option<&Key>) -> bool {
    match k {
        Some(k) => k is Missing,
        None => true,
    }
}

/// The one key comes strictly before the other: numbers before texts, and what is missing
/// last.
pub open spec fn key_before(a: Key, b: Key) -> bool {
    match (a, b) {
        (Key::Num(x), Key::Num(y)) => x < y,
        (Key::Text(x), Key::Text(y)) => lex_lt(x@, y@),
        (Key::Missing, _) => false,
        (_, Key::Missing) => true,
        (Key::Num(_), Key::Text(_)) => true,
        (Key::Text(_), Key::Num(_)) => false,
    }
}

proof fn lemma_key_asymmetric(a: Key, b: Key)
    requires
        key_before(a, b),
    ensures
        !key_before(b, a),
{
    if let (Key::Text(x), Key::Text(y)) = (a, b) {
        lex_asymmetric(x@, y@);
    }
}

proof fn lemma_key_split(a: Key, b: Key, c: Key)
    requires
        key_before(a, c),
    ensures
        key_before(a, b) || key_before(b, c),
{
    if let (Key::Text(x), Key::Text(z)) = (a, c) {
        if let Key::Text(y) = b {
            lex_total(x@, y@);
            if lex_lt(y@, x@) {
                lex_transitive(y@, x@, z@);
            }
        }
    }
}

impl Key {
    /// The key of a text: case does not count.
    pub fn text(s: &str) -> (r: Self)
        ensures
            r matches Key::Text(t) && t@ == lowered(s@),
    {
        Key::Text(to_lower(s))
    }

    /// Epoch-millis string → numeric key.
    pub fn ms(ms: &Option<String>) -> (r: Self)
        ensures
            match ms {
                Some(s) => match parsed(s@) {
                    Some(n) => r == Key::Num(rounded(n) as i128),
                    None => r is Missing,
                },
                None => r is Missing,
            },
    {
        match ms {
            Some(s) => match parse_i64(s.as_str()) {
                Some(n) => Key::Num(to_double(n)),
                None => Key::Missing,
            },
            None => Key::Missing,
        }
    }

    /// Whether the key comes strictly before the other.
    pub fn comes_before(&self, other: &Key) -> (r: bool)
        ensures
            r == key_before(*self, *other),
    {
        match (self, other) {
            (Key::Num(x), Key::Num(y)) => *x < *y,
            (Key::Text(x), Key::Text(y)) => less(x.as_str(), y.as_str()),
            (Key::Missing, _) => false,
            (_, Key::Missing) => true,
            (Key::Num(_), Key::Text(_)) => true,
            (Key::Text(_), Key::Num(_)) => false,
        }
    }
}

// ---------------------------------------------------------------------------
// Rows
// ---------------------------------------------------------------------------

/// What a cell shows.
#[derive(Debug, Clone)]
pub enum Cell<E> {
    /// Plain text.
    Text(String),
    /// Muted secondary text.
    Muted(String),
    /// A phase.
    Phase(String),
    /// A date.
    Date(String),
    /// What the caller draws.
    Custom(E),
}

/// One table row.
#[derive(Debug, Clone)]
pub struct Row<E> {
    /// Stable identity (resource name) for DOM keying.
    pub key: String,
    /// What is shown, one per column.
    pub cells: Vec<Cell<E>>,
    /// Sort keys, one per column (`Key::Missing` for action columns).
    pub keys: Vec<Key>,
    /// Lowercased haystack the filter box matches against.
    pub search: String,
    /// Highlight as the current selection.
    pub selected: bool,
}

/// `after` is `before` with one more cell.
pub open spec fn has_one_more<E>(
    before: Row<E>,
    cell: Cell<E>,
    key: Key,
    search: Seq<char>,
    after: Row<E>,
) -> bool {
    &&& after.key@ == before.key@
    &&& after.cells@ == before.cells@.push(cell)
    &&& after.keys@ == before.keys@.push(key)
    &&& after.search@ == before.search@ + search + " "@
    &&& after.selected == before.selected
}

/// The keys of a text cell and of a date cell.
pub open spec fn is_text_key(k: Key, s: Seq<char>) -> bool {
    k matches Key::Text(t) && t@ == lowered(s)
}

impl<E> Row<E> {
    /// A row without cells.
    pub fn new(key: &str) -> (r: Self)
        ensures
            r.key@ == key@,
            r.cells@.len() == 0,
            r.keys@.len() == 0,
            r.search@ == Seq::<char>::empty(),
            !r.selected,
    {
        Row {
            key: key.to_owned(),
            cells: Vec::new(),
            keys: Vec::new(),
            search: String::new(),
            selected: false,
        }
    }

    fn add_cell(self, cell: Cell<E>, key: Key, search: &str) -> (r: Self)
        ensures
            has_one_more(self, cell, key, search@, r),
    {
        let mut row = self;
        row.search.append(search);
        row.search.append(" ");
        row.keys.push(key);
        row.cells.push(cell);
        row
    }

    /// Plain text cell: shown, sorted, and searched by the same string.
    pub fn text(self, s: &str) -> (r: Self)
        ensures
            exists|t: String, k: Key|
                t@ == s@ && is_text_key(k, s@) && #[trigger] has_one_more(
                    self,
                    Cell::Text(t),
                    k,
                    lowered(s@),
                    r,
                ),
    {
        let t = s.to_owned();
        let k = Key::text(s);
        let ghost (gt, gk) = (t, k);
        let r = self.add_cell(Cell::Text(t), k, to_lower(s).as_str());
        assert(has_one_more(self, Cell::Text(gt), gk, lowered(s@), r));
        r
    }

    /// Muted secondary text cell (details, hypotheses).
    pub fn muted(self, s: &str) -> (r: Self)
        ensures
            exists|t: String, k: Key|
                t@ == s@ && is_text_key(k, s@) && #[trigger] has_one_more(
                    self,
                    Cell::Muted(t),
                    k,
                    lowered(s@),
                    r,
                ),
    {
        let t = s.to_owned();
        let k = Key::text(s);
        let ghost (gt, gk) = (t, k);
        let r = self.add_cell(Cell::Muted(t), k, to_lower(s).as_str());
        assert(has_one_more(self, Cell::Muted(gt), gk, lowered(s@), r));
        r
    }

    /// Phase cell with the shared `.phase` styling.
    pub fn phase(self, s: &str) -> (r: Self)
        ensures
            exists|t: String, k: Key|
                t@ == s@ && is_text_key(k, s@) && #[trigger] has_one_more(
                    self,
                    Cell::Phase(t),
                    k,
                    lowered(s@),
                    r,
                ),
    {
        let t = s.to_owned();
        let k = Key::text(s);
        let ghost (gt, gk) = (t, k);
        let r = self.add_cell(Cell::Phase(t), k, to_lower(s).as_str());
        assert(has_one_more(self, Cell::Phase(gt), gk, lowered(s@), r));
        r
    }

    /// Created/started date from an epoch-millis string.
    pub fn date(self, ms: &Option<String>) -> (r: Self)
        ensures
            exists|t: String, k: Key|
                t@ == ms_text(*ms) && is_ms_key(*ms, k) && #[trigger] has_one_more(
                    self,
                    Cell::Date(t),
                    k,
                    ms_text(*ms),
                    r,
                ),
    {
        let shown = fmt_ms(ms);
        let search = fmt_ms(ms);
        let k = Key::ms(ms);
        let ghost (gt, gk) = (shown, k);
        let r = self.add_cell(Cell::Date(shown), k, search.as_str());
        assert(has_one_more(self, Cell::Date(gt), gk, ms_text(*ms), r));
        r
    }

    /// Custom cell with an explicit sort key and search text.
    pub fn cell(self, el: E, key: Key, search: &str) -> (r: Self)
        ensures
            has_one_more(self, Cell::Custom(el), key, lowered(search@), r),
    {
        self.add_cell(Cell::Custom(el), key, to_lower(search).as_str())
    }

    /// The row, highlighted or not.
    pub fn selected(self, on: bool) -> (r: Self)
        ensures
            r.key == self.key,
            r.cells == self.cells,
            r.keys == self.keys,
            r.search == self.search,
            r.selected == on,
    {
        let mut row = self;
        row.selected = on;
        row
    }
}

/// The key of an epoch-millis string.
pub open spec fn is_ms_key(ms: Option<String>, k: Key) -> bool {
    match ms {
        Some(s) => match parsed(s@) {
            Some(n) => k == Key::Num(rounded(n) as i128),
            None => k is Missing,
        },
        None => k is Missing,
    }
}

// ---------------------------------------------------------------------------
// Filter and order
// ---------------------------------------------------------------------------

/// The row holds every word of the query, whatever the case.
pub open spec fn row_matches<E>(row: Row<E>, query: Seq<char>) -> bool {
    forall|i: int|
        0 <= i < words_from(query, 0).len() ==> holds(
            row.search@,
            lowered(#[trigger] words_from(query, 0)[i]),
        )
}

/// The rows below `n` that match the query.
pub open spec fn matching<E>(rows: Seq<Row<E>>, query: Seq<char>, n: int) -> Seq<usize>
    decreases n,
{
    if n <= 0 {
        Seq::empty()
    } else if row_matches(rows[n - 1], query) {
        matching(rows, query, n - 1).push((n - 1) as usize)
    } else {
        matching(rows, query, n - 1)
    }
}

/// A row with its key in a column, to be put in ascending order.
pub struct Ascending<'a> {
    pub index: usize,
    pub key: Option<&'a Key>,
}

/// A row with its key in a column, to be put in descending order.
pub struct Descending<'a> {
    pub index: usize,
    pub key: Option<&'a Key>,
}

impl<'a> Ordered for Ascending<'a> {
    open spec fn before(self, other: Self) -> bool {
        !is_missing(self.key) && (is_missing(other.key) || key_before(
            *self.key->0,
            *other.key->0,
        ))
    }

    proof fn asymmetric(a: Self, b: Self) {
        if !is_missing(b.key) {
            lemma_key_asymmetric(*a.key->0, *b.key->0);
        }
    }

    proof fn split(a: Self, b: Self, c: Self) {
        if !is_missing(b.key) && !is_missing(c.key) {
            lemma_key_split(*a.key->0, *b.key->0, *c.key->0);
        }
    }

    fn precedes(&self, other: &Self) -> (r: bool) {
        match (self.key, other.key) {
            (None, _) => false,
            (Some(a), None) => !matches!(a, Key::Missing),
            (Some(a), Some(b)) => a.comes_before(b),
        }
    }
}

impl<'a> Ordered for Descending<'a> {
    open spec fn before(self, other: Self) -> bool {
        !is_missing(self.key) && (is_missing(other.key) || key_before(
            *other.key->0,
            *self.key->0,
        ))
    }

    proof fn asymmetric(a: Self, b: Self) {
        if !is_missing(b.key) {
            lemma_key_asymmetric(*b.key->0, *a.key->0);
        }
    }

    proof fn split(a: Self, b: Self, c: Self) {
        if !is_missing(b.key) && !is_missing(c.key) {
            lemma_key_split(*c.key->0, *b.key->0, *a.key->0);
        }
    }

    fn precedes(&self, other: &Self) -> (r: bool) {
        match (self.key, other.key) {
            (None, _) => false,
            (Some(a), None) => !matches!(a, Key::Missing),
            (Some(a), Some(b)) => match (a, b) {
                (Key::Missing, _) => false,
                (_, Key::Missing) => true,
                _ => b.comes_before(a),
            },
        }
    }
}

/// The key of the row in the column.
pub open spec fn key_in<E>(row: Row<E>, col: int) -> Option<Key> {
    if 0 <= col < row.keys@.len() {
        Some(row.keys@[col])
    } else {
        None
    }
}

/// The rows of the indices with their keys, in ascending order to be.
pub open spec fn ascending<'a, E>(rows: Seq<Row<E>>, idx: Seq<usize>, col: usize) -> Seq<
    Ascending<'a>,
> {
    idx.map_values(
        |i: usize|
            Ascending {
                index: i,
                key: match key_in(rows[i as int], col as int) {
                    Some(k) => Some(&k),
                    None => None,
                },
            },
    )
}

/// The rows of the indices with their keys, in descending order to be.
pub open spec fn descending<'a, E>(rows: Seq<Row<E>>, idx: Seq<usize>, col: usize) -> Seq<
    Descending<'a>,
> {
    idx.map_values(
        |i: usize|
            Descending {
                index: i,
                key: match key_in(rows[i as int], col as int) {
                    Some(k) => Some(&k),
                    None => None,
                },
            },
    )
}

/// The rows that are shown, in the order in which they are shown. `sort` gives a column, and
/// whether the order is descending.
pub open spec fn shown<E>(rows: Seq<Row<E>>, query: Seq<char>, sort: Option<(usize, bool)>) -> Seq<
    usize,
> {
    let idx = matching(rows, query, rows.len() as int);
    match sort {
        None => idx,
        Some((col, desc)) => if desc {
            sorted(descending(rows, idx, col)).map_values(|e: Descending| e.index)
        } else {
            sorted(ascending(rows, idx, col)).map_values(|e: Ascending| e.index)
        },
    }
}

fn lower_all(ws: &Vec<String>) -> (r: Vec<String>)
    ensures
        r@.len() == ws@.len(),
        forall|i: int| 0 <= i < r@.len() ==> (#[trigger] r@[i])@ == lowered(ws@[i]@),
{
    let mut out: Vec<String> = Vec::new();
    let mut i: usize = 0;
    while i < ws.len()
        invariant
            i <= ws.len(),
            out@.len() == i,
            forall|k: int| 0 <= k < i ==> (#[trigger] out@[k])@ == lowered(ws@[k]@),
        decreases ws.len() - i,
    {
        out.push(to_lower(ws[i].as_str()));
        i = i + 1;
    }
    out
}

fn row_holds<E>(row: &Row<E>, terms: &Vec<String>, Ghost(query): Ghost<Seq<char>>) -> (r: bool)
    requires
        terms@.len() == words_from(query, 0).len(),
        forall|i: int|
            0 <= i < terms@.len() ==> (#[trigger] terms@[i])@ == lowered(words_from(query, 0)[i]),
    ensures
        r == row_matches(*row, query),
{
    let mut i: usize = 0;
    while i < terms.len()
        invariant
            i <= terms.len(),
            terms@.len() == words_from(query, 0).len(),
            forall|i: int|
                0 <= i < terms@.len() ==> (#[trigger] terms@[i])@ == lowered(
                    words_from(query, 0)[i],
                ),
            forall|k: int|
                0 <= k < i ==> holds(row.search@, lowered(#[trigger] words_from(query, 0)[k])),
        decreases terms.len() - i,
    {
        if !contains(row.search.as_str(), terms[i].as_str()) {
            assert(terms@[i as int]@ == lowered(words_from(query, 0)[i as int]));
            return false;
        }
        assert(terms@[i as int]@ == lowered(words_from(query, 0)[i as int]));
        i = i + 1;
    }
    true
}

proof fn lemma_matching<E>(rows: Seq<Row<E>>, query: Seq<char>, n: int)
    requires
        0 <= n <= rows.len(),
        rows.len() <= usize::MAX,
    ensures
        forall|k: int|
            0 <= k < matching(rows, query, n).len() ==> (#[trigger] matching(rows, query, n)[k]) < n,
        forall|k: int|
            0 <= k < matching(rows, query, n).len() ==> row_matches(
                rows[#[trigger] matching(rows, query, n)[k] as int],
                query,
            ),
        forall|i: int|
            0 <= i < n && row_matches(#[trigger] rows[i], query) ==> matching(
                rows,
                query,
                n,
            ).contains(i as usize),
        forall|j: int, k: int|
            0 <= j < k < matching(rows, query, n).len() ==> (#[trigger] matching(rows, query, n)[j])
                < (#[trigger] matching(rows, query, n)[k]),
    decreases n,
{
    if n > 0 {
        lemma_matching(rows, query, n - 1);
        let before = matching(rows, query, n - 1);
        let now = matching(rows, query, n);
        assert forall|i: int| 0 <= i < n && row_matches(#[trigger] rows[i], query) implies now.contains(
            i as usize,
        ) by {
            if i < n - 1 {
                assert(before.contains(i as usize));
                let k = before.index_of(i as usize);
                assert(now[k] == i as usize);
            } else {
                assert(now[now.len() - 1] == i as usize);
            }
        }
    }
}

fn key_at<E>(row: &Row<E>, col: usize) -> (r: Option<&Key>)
    ensures
        match key_in(*row, col as int) {
            Some(k) => r == Some(&k),
            None => r is None,
        },
{
    if col < row.keys.len() {
        Some(&row.keys[col])
    } else {
        None
    }
}

/// Filter + sort `rows`: the indices of the rows that hold every word of the query, in the
/// order of the column's keys, with missing values last in both directions.
pub fn visible<E>(rows: &[Row<E>], query: &str, sort: Option<(usize, bool)>) -> (r: Vec<usize>)
    ensures
        r@ == shown(rows@, query@, sort),
{
    let ws = words(query);
    let terms = lower_all(&ws);
    let mut idx: Vec<usize> = Vec::new();
    let mut i: usize = 0;
    proof {
        assert forall|k: int| 0 <= k < terms@.len() implies (#[trigger] terms@[k])@ == lowered(
            words_from(query@, 0)[k],
        ) by {
            assert(ws.deep_view()[k] == ws@[k]@);
        }
    }
    while i < rows.len()
        invariant
            i <= rows.len(),
            terms@.len() == words_from(query@, 0).len(),
            forall|k: int|
                0 <= k < terms@.len() ==> (#[trigger] terms@[k])@ == lowered(
                    words_from(query@, 0)[k],
                ),
            idx@ == matching(rows@, query@, i as int),
        decreases rows.len() - i,
    {
        if row_holds(&rows[i], &terms, Ghost(query@)) {
            idx.push(i);
        }
        i = i + 1;
    }
    proof {
        lemma_matching(rows@, query@, rows@.len() as int);
    }
    match sort {
        None => idx,
        Some((col, desc)) => if desc {
            in_descending(rows, &idx, col)
        } else {
            in_ascending(rows, &idx, col)
        },
    }
}

fn in_ascending<E>(rows: &[Row<E>], idx: &Vec<usize>, col: usize) -> (r: Vec<usize>)
    requires
        forall|k: int| 0 <= k < idx@.len() ==> (#[trigger] idx@[k]) < rows@.len(),
    ensures
        r@ == sorted(ascending(rows@, idx@, col)).map_values(|e: Ascending| e.index),
{
    let ghost all = ascending(rows@, idx@, col);
    let mut entries: Vec<Ascending> = Vec::new();
    let mut i: usize = 0;
    while i < idx.len()
        invariant
            i <= idx.len(),
            forall|k: int| 0 <= k < idx@.len() ==> (#[trigger] idx@[k]) < rows@.len(),
            all == ascending(rows@, idx@, col),
            entries@ == all.take(i as int),
        decreases idx.len() - i,
    {
        let at: usize = idx[i];
        assert(idx@[i as int] < rows@.len());
        entries.push(Ascending { index: at, key: key_at(&rows[at], col) });
        assert(entries@[i as int] == all[i as int]);
        assert(entries@ =~= all.take(i + 1));
        i = i + 1;
    }
    assert(all.take(i as int) =~= all);
    let ordered = stable_sort(entries);
    let mut out: Vec<usize> = Vec::new();
    let mut j: usize = 0;
    let ghost indices = ordered@.map_values(|e: Ascending| e.index);
    while j < ordered.len()
        invariant
            j <= ordered.len(),
            indices == ordered@.map_values(|e: Ascending| e.index),
            out@ == indices.take(j as int),
        decreases ordered.len() - j,
    {
        out.push(ordered[j].index);
        assert(out@ =~= indices.take(j + 1));
        j = j + 1;
    }
    assert(indices.take(j as int) =~= indices);
    out
}

fn in_descending<E>(rows: &[Row<E>], idx: &Vec<usize>, col: usize) -> (r: Vec<usize>)
    requires
        forall|k: int| 0 <= k < idx@.len() ==> (#[trigger] idx@[k]) < rows@.len(),
    ensures
        r@ == sorted(descending(rows@, idx@, col)).map_values(|e: Descending| e.index),
{
    let ghost all = descending(rows@, idx@, col);
    let mut entries: Vec<Descending> = Vec::new();
    let mut i: usize = 0;
    while i < idx.len()
        invariant
            i <= idx.len(),
            forall|k: int| 0 <= k < idx@.len() ==> (#[trigger] idx@[k]) < rows@.len(),
            all == descending(rows@, idx@, col),
            entries@ == all.take(i as int),
        decreases idx.len() - i,
    {
        let at: usize = idx[i];
        assert(idx@[i as int] < rows@.len());
        entries.push(Descending { index: at, key: key_at(&rows[at], col) });
        assert(entries@[i as int] == all[i as int]);
        assert(entries@ =~= all.take(i + 1));
        i = i + 1;
    }
    assert(all.take(i as int) =~= all);
    let ordered = stable_sort(entries);
    let mut out: Vec<usize> = Vec::new();
    let mut j: usize = 0;
    let ghost indices = ordered@.map_values(|e: Descending| e.index);
    while j < ordered.len()
        invariant
            j <= ordered.len(),
            indices == ordered@.map_values(|e: Descending| e.index),
            out@ == indices.take(j as int),
        decreases ordered.len() - j,
    {
        out.push(ordered[j].index);
        assert(out@ =~= indices.take(j + 1));
        j = j + 1;
    }
    assert(indices.take(j as int) =~= indices);
    out
}

/// The filter hides no row that holds the words of the query and shows no other, and sorting
/// neither drops nor repeats a row: what is shown are the matching rows, each once.
pub proof fn shown_rows_are_the_matching_rows<E>(
    rows: Seq<Row<E>>,
    query: Seq<char>,
    sort: Option<(usize, bool)>,
)
    requires
        rows.len() <= usize::MAX,
    ensures
        shown(rows, query, sort).no_duplicates(),
        forall|i: usize| #[trigger]
            shown(rows, query, sort).contains(i) <==> i < rows.len() && row_matches(
                rows[i as int],
                query,
            ),
{
    broadcast use vstd::seq_lib::group_to_multiset_ensures;

    let idx = matching(rows, query, rows.len() as int);
    lemma_matching(rows, query, rows.len() as int);
    let all = shown(rows, query, sort);
    if let Some((col, desc)) = sort {
        if desc {
            let f = |e: Descending| e.index;
            sorting_keeps_images(descending(rows, idx, col), f);
            assert(descending(rows, idx, col).map_values(f) =~= idx);
        } else {
            let f = |e: Ascending| e.index;
            sorting_keeps_images(ascending(rows, idx, col), f);
            assert(ascending(rows, idx, col).map_values(f) =~= idx);
        }
    }
    assert(all.to_multiset() =~= idx.to_multiset());
    assert(idx.no_duplicates());
    idx.lemma_multiset_has_no_duplicates();
    all.lemma_multiset_has_no_duplicates_conv();
    assert forall|i: usize| #[trigger] all.contains(i) <==> i < rows.len() && row_matches(
        rows[i as int],
        query,
    ) by {
        assert(all.contains(i) <==> all.to_multiset().count(i) > 0);
        assert(idx.contains(i) <==> idx.to_multiset().count(i) > 0);
        if i < rows.len() && row_matches(rows[i as int], query) {
            assert(idx.contains(i));
        }
        if idx.contains(i) {
            let k = idx.index_of(i);
            assert(idx[k] < rows.len());
        }
    }
}

/// Without a sort column the rows stay in their order.
pub proof fn unsorted_rows_keep_their_order<E>(rows: Seq<Row<E>>, query: Seq<char>, j: int, k: int)
    requires
        rows.len() <= usize::MAX,
        0 <= j < k < shown(rows, query, None).len(),
    ensures
        shown(rows, query, None)[j] < shown(rows, query, None)[k],
{
    lemma_matching(rows, query, rows.len() as int);
}

/// A row without a key in the column.
pub open spec fn lacks_key<E>(row: Row<E>, col: usize) -> bool {
    match key_in(row, col as int) {
        Some(k) => k is Missing,
        None => true,
    }
}

/// Rows are shown in the order of their keys, descending or ascending, and what has no key
/// comes last in both directions.
pub proof fn shown_rows_are_in_order<E>(
    rows: Seq<Row<E>>,
    query: Seq<char>,
    col: usize,
    desc: bool,
    j: int,
    k: int,
)
    requires
        rows.len() <= usize::MAX,
        0 <= j < k < shown(rows, query, Some((col, desc))).len(),
    ensures
        ({
            let a = rows[shown(rows, query, Some((col, desc)))[j] as int];
            let b = rows[shown(rows, query, Some((col, desc)))[k] as int];
            &&& lacks_key(a, col) ==> lacks_key(b, col)
            &&& !lacks_key(a, col) && !lacks_key(b, col) ==> if desc {
                !key_before(key_in(a, col as int)->0, key_in(b, col as int)->0)
            } else {
                !key_before(key_in(b, col as int)->0, key_in(a, col as int)->0)
            }
        }),
{
    broadcast use vstd::seq_lib::group_to_multiset_ensures;

    let idx = matching(rows, query, rows.len() as int);
    if desc {
        let d = descending(rows, idx, col);
        let s = sorted(d);
        sorting_orders(d);
        lemma_from(d, s[j]);
        lemma_from(d, s[k]);
        assert(!s[k].before(s[j]));
    } else {
        let d = ascending(rows, idx, col);
        let s = sorted(d);
        sorting_orders(d);
        lemma_from(d, s[j]);
        lemma_from(d, s[k]);
        assert(!s[k].before(s[j]));
    }
}

/// What is sorted comes from what was to be sorted.
proof fn lemma_from<T: Ordered>(s: Seq<T>, x: T)
    requires
        sorted(s).contains(x),
    ensures
        s.contains(x),
{
    broadcast use vstd::seq_lib::group_to_multiset_ensures;

    sorting_orders(s);
    assert(sorted(s).to_multiset().count(x) > 0);
    assert(s.to_multiset().count(x) > 0);
}

// ---------------------------------------------------------------------------
// Headers and labels
// ---------------------------------------------------------------------------

/// The order after a click on the header of column `i`: ascending, and descending if it was
/// ascending by that column. The header of an action column changes nothing.
pub open spec fn next_order(order: Option<(usize, bool)>, i: usize, sortable: bool) -> Option<
    (usize, bool),
> {
    if !sortable {
        order
    } else if order == Some((i, false)) {
        Some((i, true))
    } else {
        Some((i, false))
    }
}

/// The order after a click on the header of column `i`.
pub fn toggled(order: Option<(usize, bool)>, i: usize, sortable: bool) -> (r: Option<(usize, bool)>)
    ensures
        r == next_order(order, i, sortable),
{
    if !sortable {
        return order;
    }
    match order {
        Some((col, false)) => if col == i {
            Some((i, true))
        } else {
            Some((i, false))
        },
        _ => Some((i, false)),
    }
}

/// The first click on a header gives the ascending order, the next one the descending order,
/// and the one after that the ascending order again.
pub proof fn clicks_alternate(order: Option<(usize, bool)>, i: usize)
    requires
        order != Some((i, false)),
    ensures
        next_order(order, i, true) == Some((i, false)),
        next_order(next_order(order, i, true), i, true) == Some((i, true)),
        next_order(next_order(next_order(order, i, true), i, true), i, true) == Some((i, false)),
{
}

/// The arrow behind the title of column `i`.
pub fn arrow(order: Option<(usize, bool)>, i: usize) -> (r: &'static str)
    ensures
        r@ == (if order == Some((i, true)) {
            " ▾"@
        } else if order == Some((i, false)) {
            " ▴"@
        } else {
            ""@
        }),
{
    match order {
        Some((col, desc)) => if col == i {
            if desc {
                " ▾"
            } else {
                " ▴"
            }
        } else {
            ""
        },
        None => "",
    }
}

/// How many rows are shown, of how many where some are hidden.
pub fn count_label(shown: usize, total: usize) -> (r: String)
    ensures
        r@ == (if shown == total {
            decimal(total as nat)
        } else {
            decimal(shown as nat) + " / "@ + decimal(total as nat)
        }),
{
    if shown == total {
        decimal_of(total as u64)
    } else {
        let mut s = decimal_of(shown as u64);
        s.append(" / ");
        s.append(decimal_of(total as u64).as_str());
        s
    }
}

/// What stands in a table that shows no row.
pub fn empty_label<'a>(total: usize, empty: &'a str) -> (r: &'a str)
    ensures
        r@ == (if total == 0 {
            empty@
        } else {
            "No rows match the filter."@
        }),
{
    if total == 0 {
        empty
    } else {
        "No rows match the filter."
    }
}

/// Numbers are ordered by size, texts as in a dictionary, numbers before texts, and what is missing
/// behind everything.
pub proof fn keys_are_ordered_by_kind(x: i128, y: i128, s: String, t: String, k: Key)
    ensures
        key_before(Key::Num(x), Key::Num(y)) <==> x < y,
        key_before(Key::Text(s), Key::Text(t)) <==> lex_lt(s@, t@),
        key_before(Key::Num(x), Key::Text(s)),
        !key_before(Key::Text(s), Key::Num(x)),
        !key_before(Key::Missing, k),
        !(k is Missing) ==> key_before(k, Key::Missing),
{
}

/// A number that a double holds exactly sorts by itself, and any other by the nearest double: no
/// further away than half the gap between two of them.
pub proof fn a_number_sorts_by_its_double(n: int)
    ensures
        -0x20_0000_0000_0000 < n < 0x20_0000_0000_0000 ==> rounded(n) == n,
        -spacing(n) <= 2 * (rounded(n) - n) <= spacing(n),
        rounded(n) % spacing(n) == 0,
{
    let step = spacing(n);
    let q = n / step;
    let r = n % step;
    vstd::arithmetic::div_mod::lemma_fundamental_div_mod(n, step);
    assert(q * step == step * q) by (nonlinear_arith);
    assert((q + 1) * step == step * q + step) by (nonlinear_arith)
        requires
            q * step == step * q,
    ;
    vstd::arithmetic::div_mod::lemma_mod_multiples_basic(q, step);
    vstd::arithmetic::div_mod::lemma_mod_multiples_basic(q + 1, step);
}

/// A row matches a query exactly when it holds every word of it, whatever the case.
pub proof fn a_row_matches_every_word<E>(row: Row<E>, query: Seq<char>, i: int)
    requires
        0 <= i < words_from(query, 0).len(),
    ensures
        !shows(row.search@, lowered(words_from(query, 0)[i])) ==> !row_matches(row, query),
        (forall|k: int|
            0 <= k < words_from(query, 0).len() ==> shows(
                row.search@,
                lowered(#[trigger] words_from(query, 0)[k]),
            )) ==> row_matches(row, query),
{
    holding_is_showing(row.search@, lowered(words_from(query, 0)[i]));
    assert forall|k: int| 0 <= k < words_from(query, 0).len() implies holds(
        row.search@,
        lowered(#[trigger] words_from(query, 0)[k]),
    ) == shows(row.search@, lowered(words_from(query, 0)[k])) by {
        holding_is_showing(row.search@, lowered(words_from(query, 0)[k]));
    }
}

/// A column that is not sortable keeps the order as it is; a first click sorts upwards.
pub proof fn a_fixed_column_keeps_the_order(order: Option<(usize, bool)>, i: usize)
    ensures
        next_order(order, i, false) == order,
        next_order(None, i, true) == Some((i, false)),
        next_order(Some((i, true)), i, true) == Some((i, false)),
        next_order(Some((i, false)), i, true) == Some((i, true)),
{
}

/// A text sorts by itself in lower case, a time by its milliseconds, and no time by nothing.
pub proof fn a_cell_sorts_by_what_it_shows(ms: Option<String>, k: Key, s: Seq<char>)
    ensures
        is_text_key(k, s) ==> (k matches Key::Text(t) && t@ == lowered(s)),
        is_ms_key(ms, k) && ms is None ==> k is Missing,
        is_ms_key(ms, k) ==> (ms matches Some(t) ==> (parsed(t@) matches Some(n) ==> k == Key::Num(
            rounded(n) as i128,
        ))),
        is_ms_key(ms, k) ==> (ms matches Some(t) ==> (parsed(t@) is None ==> k is Missing)),
{
}

/// The arrow stands at the sorted column alone, up or down as it is sorted; an empty table and a
/// filter that hides everything are told apart; and what is hidden is counted.
pub proof fn a_table_says_how_it_is_sorted(
    order: Option<(usize, bool)>,
    i: usize,
    a: &'static str,
    total: usize,
    empty: &'static str,
    e: &'static str,
)
    requires
        call_ensures(arrow, (order, i), a),
        call_ensures(empty_label, (total, empty), e),
    ensures
        a@ == seq![' ', '\u{25be}'] <==> order == Some((i, true)),
        a@ == seq![' ', '\u{25b4}'] <==> order == Some((i, false)),
        order is None ==> a@.len() == 0,
        total == 0 ==> e@ == empty@,
        total > 0 ==> e@ == "No rows match the filter."@,
{
    reveal_strlit(" ▾");
    reveal_strlit(" ▴");
    reveal_strlit("");
    assert(" ▾"@ =~= seq![' ', '\u{25be}']);
    assert(" ▴"@ =~= seq![' ', '\u{25b4}']);
    assert(" ▾"@[1] != " ▴"@[1]);
}

/// A row is found by every text that was put into it, in lower case, and stays found by what was in
/// it before; the new cell stands last, sorted by its own key.
pub proof fn a_row_is_found_by_its_cells<E>(
    before: Row<E>,
    s: &str,
    after: Row<E>,
    piece: Seq<char>,
    el: E,
    key: Key,
    custom: Row<E>,
)
    requires
        call_ensures(Row::<E>::text, (before, s), after),
        call_ensures(Row::<E>::cell, (before, el, key, s), custom),
    ensures
        shows(after.search@, lowered(s@)),
        shows(before.search@, piece) ==> shows(after.search@, piece),
        after.key@ == before.key@,
        after.cells@.len() == before.cells@.len() + 1,
        after.keys@.len() == before.keys@.len() + 1,
        after.keys@.last() matches Key::Text(t) && t@ == lowered(s@),
        after.cells@.last() matches Cell::Text(t) && t@ == s@,
        shows(custom.search@, lowered(s@)),
        custom.keys@.last() == key,
        custom.cells@.last() == Cell::Custom(el),
{
    let (t, k) = choose|t: String, k: Key|
        t@ == s@ && is_text_key(k, s@) && #[trigger] has_one_more(
            before,
            Cell::Text(t),
            k,
            lowered(s@),
            after,
        );
    lemma_shows_between(before.search@, lowered(s@), " "@);
    if shows(before.search@, piece) {
        lemma_shows_front2(before.search@, lowered(s@), " "@, piece);
    }
}

} // verus!
