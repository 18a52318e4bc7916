//! Citations of the form `[@key]` in authored text.

use vstd::prelude::*;
use crate::dossier::escape::{push_tex, tex_char};
use crate::research_report::Reference;
use crate::text::{chars_of, slice_text};
use crate::textmap::TextMap;
use crate::textset::{ascending, TextSet};

verus! {

broadcast use vstd::seq_lib::group_seq_properties;

/// The characters of a citation key.
pub open spec fn key_char(c: char) -> bool {
    ||| 'A' <= c <= 'Z'
    ||| 'a' <= c <= 'z'
    ||| '0' <= c <= '9'
    ||| c == '_'
    ||| c == ':'
    ||| c == '.'
    ||| c == '-'
}

/// Returns true for characters valid in a citation key `[@key]`.
pub fn is_key_char(c: char) -> (r: bool)
    ensures
        r == key_char(c),
{
    ('A' <= c && c <= 'Z') || ('a' <= c && c <= 'z') || ('0' <= c && c <= '9') || c == '_' || c
        == ':' || c == '.' || c == '-'
}

/// The end of the run of key characters that starts at `j`.
pub open spec fn key_end(s: Seq<char>, j: int) -> int
    decreases s.len() - j,
{
    if 0 <= j < s.len() && key_char(s[j]) {
        key_end(s, j + 1)
    } else {
        j
    }
}

/// A run of key characters ends at the first character that is none.
pub proof fn lemma_key_end(s: Seq<char>, j: int)
    requires
        0 <= j <= s.len(),
    ensures
        j <= key_end(s, j) <= s.len(),
        forall|k: int| j <= k < key_end(s, j) ==> key_char(#[trigger] s[k]),
        key_end(s, j) < s.len() ==> !key_char(s[key_end(s, j)]),
    decreases s.len() - j,
{
    if j < s.len() && key_char(s[j]) {
        lemma_key_end(s, j + 1);
    }
}

/// A citation stands at `i`: `[@`, one or more key characters, and `]`.
pub open spec fn cites_at(s: Seq<char>, i: int) -> bool {
    let e = key_end(s, i + 2);
    0 <= i && i + 1 < s.len() && s[i] == '[' && s[i + 1] == '@' && i + 2 < e < s.len() && s[e]
        == ']'
}

/// The key of the citation at `i`.
pub open spec fn key_at(s: Seq<char>, i: int) -> Seq<char> {
    s.subrange(i + 2, key_end(s, i + 2))
}

/// The keys cited in `s` from `i` on, in order of appearance.
pub open spec fn keys_from(s: Seq<char>, i: int) -> Seq<Seq<char>>
    decreases s.len() - i,
{
    if i < 0 || i >= s.len() {
        Seq::empty()
    } else if cites_at(s, i) {
        seq![key_at(s, i)] + keys_from(s, key_end(s, i + 2) + 1)
    } else {
        keys_from(s, i + 1)
    }
}

/// `s` from `i` on, with each citation in the form of a footnote reference.
pub open spec fn footnoted_from(s: Seq<char>, i: int) -> Seq<char>
    decreases s.len() - i,
{
    if i < 0 || i >= s.len() {
        Seq::empty()
    } else if cites_at(s, i) {
        seq!['[', '^'] + key_at(s, i) + seq![']'] + footnoted_from(s, key_end(s, i + 2) + 1)
    } else {
        seq![s[i]] + footnoted_from(s, i + 1)
    }
}

/// `s` from `i` on in LaTeX, with each citation as a `\cite` command.
pub open spec fn tex_cited_from(s: Seq<char>, i: int) -> Seq<char>
    decreases s.len() - i,
{
    if i < 0 || i >= s.len() {
        Seq::empty()
    } else if cites_at(s, i) {
        r"\cite{"@ + key_at(s, i) + seq!['}'] + tex_cited_from(s, key_end(s, i + 2) + 1)
    } else {
        tex_char(s[i]) + tex_cited_from(s, i + 1)
    }
}

/// The end of the key of the citation at `i`, if one stands there.
fn citation_at(v: &Vec<char>, i: usize) -> (r: Option<usize>)
    requires
        i < v@.len(),
    ensures
        r is Some <==> cites_at(v@, i as int),
        r matches Some(e) ==> e == key_end(v@, i + 2) && i + 2 < e < v@.len(),
{
    if v[i] != '[' || v.len() - i < 2 || v[i + 1] != '@' {
        return None;
    }
    let start: usize = i + 2;
    let mut j: usize = start;
    while j < v.len() && is_key_char(v[j])
        invariant
            start <= j <= v.len(),
            key_end(v@, start as int) == key_end(v@, j as int),
        decreases v.len() - j,
    {
        j = j + 1;
    }
    if j > start && j < v.len() && v[j] == ']' {
        Some(j)
    } else {
        None
    }
}

/// Extract every citation key referenced as `[@key]` in `text`, in order of
/// appearance, possibly with duplicates. A key must be non-empty and match
/// `[A-Za-z0-9_:.-]+`. Malformed patterns (`[@]`, unclosed `[@`) are skipped.
pub fn extract_citation_keys(text: &str) -> (r: Vec<String>)
    ensures
        r.deep_view() == keys_from(text@, 0),
{
    let v = chars_of(text);
    let mut keys: Vec<String> = Vec::new();
    let mut i: usize = 0;
    assert(keys.deep_view() + keys_from(text@, 0) =~= keys_from(text@, 0));
    while i < v.len()
        invariant
            v@ == text@,
            i <= v.len(),
            keys.deep_view() + keys_from(text@, i as int) == keys_from(text@, 0),
        decreases v.len() - i,
    {
        match citation_at(&v, i) {
            Some(e) => {
                let ghost before = keys.deep_view();
                let key = slice_text(&v, i + 2, e);
                keys.push(key);
                assert(keys.deep_view() =~= before.push(key@));
                assert(before.push(key@) + keys_from(text@, e + 1) =~= before + (seq![key@]
                    + keys_from(text@, e + 1)));
                i = e + 1;
            },
            None => {
                i = i + 1;
            },
        }
    }
    assert(keys.deep_view() + keys_from(text@, i as int) =~= keys.deep_view());
    keys
}

/// Rewrite `[@key]` citations to OKF v0.2 footnote form `[^key]`.
///
/// Only well-formed keys are rewritten, using the same charset as
/// `extract_citation_keys`, so malformed patterns are left exactly as the
/// author wrote them rather than being silently mangled.
pub fn cites_to_footnotes(text: &str) -> (r: String)
    ensures
        r@ == footnoted_from(text@, 0),
{
    let v = chars_of(text);
    let mut out = String::new();
    let mut i: usize = 0;
    assert(out@ + footnoted_from(text@, 0) =~= footnoted_from(text@, 0));
    while i < v.len()
        invariant
            v@ == text@,
            i <= v.len(),
            out@ + footnoted_from(text@, i as int) == footnoted_from(text@, 0),
        decreases v.len() - i,
    {
        let ghost before = out@;
        match citation_at(&v, i) {
            Some(e) => {
                let key = slice_text(&v, i + 2, e);
                out.push('[');
                out.push('^');
                out.append(key.as_str());
                out.push(']');
                assert(out@ + footnoted_from(text@, e + 1) =~= before + (seq!['[', '^'] + key@
                    + seq![']'] + footnoted_from(text@, e + 1)));
                i = e + 1;
            },
            None => {
                out.push(v[i]);
                assert(out@ + footnoted_from(text@, i + 1) =~= before + (seq![v@[i as int]]
                    + footnoted_from(text@, i + 1)));
                i = i + 1;
            },
        }
    }
    assert(out@ + footnoted_from(text@, i as int) =~= out@);
    out
}

/// Render `text` for LaTeX: replace each `[@key]` with `\cite{key}` and
/// tex-escape all surrounding text. Keys are not escaped (their charset is
/// already safe).
pub fn tex_body_with_cites(text: &str) -> (r: String)
    ensures
        r@ == tex_cited_from(text@, 0),
{
    let v = chars_of(text);
    let mut out = String::new();
    let mut i: usize = 0;
    assert(out@ + tex_cited_from(text@, 0) =~= tex_cited_from(text@, 0));
    while i < v.len()
        invariant
            v@ == text@,
            i <= v.len(),
            out@ + tex_cited_from(text@, i as int) == tex_cited_from(text@, 0),
        decreases v.len() - i,
    {
        let ghost before = out@;
        match citation_at(&v, i) {
            Some(e) => {
                let key = slice_text(&v, i + 2, e);
                out.append(r"\cite{");
                out.append(key.as_str());
                out.push('}');
                assert(out@ + tex_cited_from(text@, e + 1) =~= before + (r"\cite{"@ + key@
                    + seq!['}'] + tex_cited_from(text@, e + 1)));
                i = e + 1;
            },
            None => {
                push_tex(&mut out, v[i]);
                assert(out@ + tex_cited_from(text@, i + 1) =~= before + (tex_char(v@[i as int])
                    + tex_cited_from(text@, i + 1)));
                i = i + 1;
            },
        }
    }
    assert(out@ + tex_cited_from(text@, i as int) =~= out@);
    out
}

/// Text without a citation is left exactly as it was written.
pub proof fn text_without_citations_is_kept(s: Seq<char>)
    requires
        forall|i: int| 0 <= i < s.len() ==> !#[trigger] cites_at(s, i),
    ensures
        footnoted_from(s, 0) == s,
        keys_from(s, 0) == Seq::<Seq<char>>::empty(),
{
    lemma_kept_from(s, 0);
    assert(s.skip(0) =~= s);
}

proof fn lemma_kept_from(s: Seq<char>, i: int)
    requires
        0 <= i <= s.len(),
        forall|i: int| 0 <= i < s.len() ==> !#[trigger] cites_at(s, i),
    ensures
        footnoted_from(s, i) == s.skip(i),
        keys_from(s, i) == Seq::<Seq<char>>::empty(),
    decreases s.len() - i,
{
    if i < s.len() {
        assert(!cites_at(s, i));
        lemma_kept_from(s, i + 1);
        assert(seq![s[i]] + s.skip(i + 1) =~= s.skip(i));
    } else {
        assert(s.skip(i) =~= Seq::empty());
    }
}

/// Every key that is extracted is one or more key characters.
pub proof fn extracted_keys_are_keys(s: Seq<char>, n: int)
    requires
        0 <= n < keys_from(s, 0).len(),
    ensures
        keys_from(s, 0)[n].len() > 0,
        forall|k: int|
            0 <= k < keys_from(s, 0)[n].len() ==> key_char(#[trigger] keys_from(s, 0)[n][k]),
{
    lemma_keys_are_keys(s, 0, n);
}

proof fn lemma_keys_are_keys(s: Seq<char>, i: int, n: int)
    requires
        0 <= i,
        0 <= n < keys_from(s, i).len(),
    ensures
        keys_from(s, i)[n].len() > 0,
        forall|k: int|
            0 <= k < keys_from(s, i)[n].len() ==> key_char(#[trigger] keys_from(s, i)[n][k]),
    decreases s.len() - i,
{
    if cites_at(s, i) {
        lemma_key_end(s, i + 2);
        if n == 0 {
            assert(keys_from(s, i)[n] == key_at(s, i));
            assert forall|k: int| 0 <= k < key_at(s, i).len() implies key_char(
                #[trigger] key_at(s, i)[k],
            ) by {
                assert(key_char(s[i + 2 + k]));
            }
        } else {
            lemma_keys_are_keys(s, key_end(s, i + 2) + 1, n - 1);
        }
    } else {
        lemma_keys_are_keys(s, i + 1, n);
    }
}

/// A run of key characters is the same in the text and in what is made of it.
proof fn lemma_footnoted_run(s: Seq<char>, j: int)
    requires
        0 <= j <= s.len(),
    ensures
        ({
            let t = footnoted_from(s, j);
            let e = key_end(s, j);
            &&& j <= e <= s.len()
            &&& key_end(t, 0) == e - j
            &&& e - j <= t.len()
            &&& (e < s.len() <==> e - j < t.len())
            &&& e < s.len() ==> t[e - j] == s[e]
        }),
    decreases s.len() - j,
{
    let t = footnoted_from(s, j);
    if j < s.len() {
        if cites_at(s, j) {
            assert(t[0] == '[');
        } else {
            let u = footnoted_from(s, j + 1);
            assert(t[0] == s[j]);
            if key_char(s[j]) {
                lemma_footnoted_run(s, j + 1);
                assert(t =~= seq![s[j]] + u);
                lemma_key_end_shift(seq![s[j]], u, 0);
                assert(key_end(t, 0) == key_end(t, 1));
            }
        }
    }
}

/// Where a run of key characters ends does not depend on what stands in front of it.
proof fn lemma_key_end_shift(a: Seq<char>, b: Seq<char>, j: int)
    requires
        0 <= j <= b.len(),
    ensures
        key_end(a + b, a.len() + j) == a.len() + key_end(b, j),
    decreases b.len() - j,
{
    if j < b.len() && key_char(b[j]) {
        lemma_key_end_shift(a, b, j + 1);
        assert((a + b)[a.len() + j] == b[j]);
    }
}

proof fn lemma_cites_shift(a: Seq<char>, b: Seq<char>, p: int)
    requires
        0 <= p < b.len(),
    ensures
        cites_at(a + b, a.len() + p) == cites_at(b, p),
{
    let s = a + b;
    assert(s[a.len() + p] == b[p]);
    if p + 1 < b.len() {
        assert(s[a.len() + p + 1] == b[p + 1]);
        lemma_key_end_shift(a, b, p + 2);
        lemma_key_end(b, p + 2);
    }
}

proof fn lemma_key_end_prefix(a: Seq<char>, b: Seq<char>, j: int)
    requires
        0 <= j <= a.len(),
    ensures
        key_end(a, j) < a.len() ==> key_end(a + b, j) == key_end(a, j),
        key_end(a, j) >= a.len() ==> key_end(a + b, j) >= a.len(),
    decreases a.len() - j,
{
    if j < a.len() {
        assert((a + b)[j] == a[j]);
        if key_char(a[j]) {
            lemma_key_end_prefix(a, b, j + 1);
        }
    } else {
        lemma_key_end(a + b, j);
    }
}

proof fn lemma_tex_shift(a: Seq<char>, b: Seq<char>, p: int)
    requires
        0 <= p <= b.len(),
    ensures
        tex_cited_from(a + b, a.len() + p) == tex_cited_from(b, p),
    decreases b.len() - p,
{
    if p < b.len() {
        let s = a + b;
        lemma_cites_shift(a, b, p);
        assert(s[a.len() + p] == b[p]);
        if cites_at(b, p) {
            lemma_key_end_shift(a, b, p + 2);
            assert(key_at(s, a.len() + p) =~= key_at(b, p));
            lemma_key_end(b, p + 2);
            lemma_tex_shift(a, b, key_end(b, p + 2) + 1);
        } else {
            lemma_tex_shift(a, b, p + 1);
        }
    }
}

proof fn lemma_tex_pieces(a: Seq<char>, b: Seq<char>, i: int)
    requires
        0 <= i <= a.len(),
        forall|k: int|
            0 <= k < a.len() && #[trigger] cites_at(a + b, k) ==> key_end(a + b, k + 2) < a.len(),
    ensures
        tex_cited_from(a + b, i) == tex_cited_from(a, i) + tex_cited_from(b, 0),
    decreases a.len() - i,
{
    let s = a + b;
    if i == a.len() {
        lemma_tex_shift(a, b, 0);
        assert(tex_cited_from(a, i) + tex_cited_from(b, 0) =~= tex_cited_from(b, 0));
    } else {
        assert(s[i] == a[i]);
        if i + 1 < a.len() {
            assert(s[i + 1] == a[i + 1]);
            lemma_key_end_prefix(a, b, i + 2);
            lemma_key_end(a, i + 2);
        }
        if cites_at(s, i) {
            let e = key_end(s, i + 2);
            lemma_key_end(s, i + 2);
            assert(i + 2 < e < a.len());
            assert(s[e] == a[e]);
            assert(cites_at(a, i));
            assert(key_at(s, i) =~= key_at(a, i));
            lemma_tex_pieces(a, b, e + 1);
            let head = r"\cite{"@ + key_at(a, i) + seq!['}'];
            assert(head + (tex_cited_from(a, e + 1) + tex_cited_from(b, 0)) =~= head
                + tex_cited_from(a, e + 1) + tex_cited_from(b, 0));
        } else {
            assert(!cites_at(a, i)) by {
                if cites_at(a, i) {
                    let e = key_end(a, i + 2);
                    assert(s[e] == a[e]);
                }
            }
            lemma_tex_pieces(a, b, i + 1);
            assert(tex_char(a[i]) + (tex_cited_from(a, i + 1) + tex_cited_from(b, 0)) =~= tex_char(
                a[i],
            ) + tex_cited_from(a, i + 1) + tex_cited_from(b, 0));
        }
    }
}

/// The LaTeX of a text is that of its pieces, one behind the other, wherever it is parted
/// outside of its citations.
pub proof fn latex_goes_piece_by_piece(a: Seq<char>, b: Seq<char>)
    requires
        forall|k: int|
            0 <= k < a.len() && #[trigger] cites_at(a + b, k) ==> key_end(a + b, k + 2) < a.len(),
    ensures
        tex_cited_from(a + b, 0) == tex_cited_from(a, 0) + tex_cited_from(b, 0),
{
    lemma_tex_pieces(a, b, 0);
}

proof fn lemma_footnoted_cites_nothing(s: Seq<char>, i: int)
    requires
        0 <= i <= s.len(),
    ensures
        forall|p: int| 0 <= p < footnoted_from(s, i).len() ==> !#[trigger] cites_at(
            footnoted_from(s, i),
            p,
        ),
    decreases s.len() - i,
{
    let t = footnoted_from(s, i);
    if i < s.len() {
        if cites_at(s, i) {
            lemma_key_end(s, i + 2);
            let e = key_end(s, i + 2);
            let head = seq!['[', '^'] + key_at(s, i) + seq![']'];
            let u = footnoted_from(s, e + 1);
            lemma_footnoted_cites_nothing(s, e + 1);
            assert(t =~= head + u);
            assert forall|p: int| 0 <= p < t.len() implies !#[trigger] cites_at(t, p) by {
                if p >= head.len() {
                    lemma_cites_shift(head, u, p - head.len());
                    assert(!cites_at(u, p - head.len()));
                } else if p == 0 {
                    assert(t[1] == '^');
                } else if p == 1 {
                    assert(t[1] == '^');
                } else if p < head.len() - 1 {
                    assert(t[p] == s[i + p]);
                    assert(key_char(s[i + p]));
                } else {
                    assert(t[p] == ']');
                }
            }
        } else {
            let head = seq![s[i]];
            let u = footnoted_from(s, i + 1);
            lemma_footnoted_cites_nothing(s, i + 1);
            assert(t =~= head + u);
            assert forall|p: int| 0 <= p < t.len() implies !#[trigger] cites_at(t, p) by {
                if p > 0 {
                    lemma_cites_shift(head, u, p - 1);
                    assert(!cites_at(u, p - 1));
                } else if cites_at(t, 0) {
                    assert(t[1] == u[0]);
                    assert(i + 1 < s.len());
                    assert(!cites_at(s, i + 1));
                    assert(s[i + 1] == '@');
                    let v = footnoted_from(s, i + 2);
                    assert(u =~= seq![s[i + 1]] + v);
                    lemma_footnoted_run(s, i + 2);
                    assert(t =~= seq![s[i], s[i + 1]] + v);
                    lemma_key_end_shift(seq![s[i], s[i + 1]], v, 0);
                }
            }
        }
    }
}

/// What the rewriting to footnotes gives cites nothing any more in the form that authors
/// write, so rewriting it again changes nothing.
pub proof fn footnotes_leave_no_citation(s: Seq<char>)
    ensures
        keys_from(footnoted_from(s, 0), 0) == Seq::<Seq<char>>::empty(),
        footnoted_from(footnoted_from(s, 0), 0) == footnoted_from(s, 0),
{
    lemma_footnoted_cites_nothing(s, 0);
    text_without_citations_is_kept(footnoted_from(s, 0));
}

// ---------------------------------------------------------------------------
// Citations against references
// ---------------------------------------------------------------------------

/// Result of a citation consistency check between section bodies and the reference list.
#[derive(Debug)]
pub struct CitationCheck {
    /// Citation keys that appear in section bodies but have no matching `Reference.key`
    /// in the reference list (deduped, sorted).
    pub cited_undefined: Vec<String>,
    /// `Reference.key` values that are never cited in any section body (in
    /// reference-list order, deduped).
    pub defined_uncited: Vec<String>,
}

/// Some section cites `key`.
pub open spec fn is_cited(sections: Seq<(Seq<char>, String)>, key: Seq<char>) -> bool {
    exists|i: int|
        0 <= i < sections.len() && (#[trigger] keys_from(sections[i].1@, 0)).contains(key)
}

/// Some reference defines `key`.
pub open spec fn is_defined(references: Seq<Reference>, key: Seq<char>) -> bool {
    exists|i: int| 0 <= i < references.len() && (#[trigger] references[i]).key@ == key
}

/// The keys that `references` define and no section cites, each once.
pub open spec fn uncited(
    sections: Seq<(Seq<char>, String)>,
    references: Seq<Reference>,
) -> Seq<Seq<char>>
    decreases references.len(),
{
    if references.len() == 0 {
        Seq::empty()
    } else {
        let before = uncited(sections, references.drop_last());
        let key = references.last().key@;
        if is_cited(sections, key) || before.contains(key) {
            before
        } else {
            before.push(key)
        }
    }
}

/// `keys` are, in dictionary order, the keys that are cited and not defined.
pub open spec fn is_undefined_list(
    keys: Seq<Seq<char>>,
    sections: Seq<(Seq<char>, String)>,
    references: Seq<Reference>,
) -> bool {
    &&& ascending(keys)
    &&& forall|k: Seq<char>|
        #[trigger] keys.contains(k) <==> is_cited(sections, k) && !is_defined(references, k)
}

fn cited_set(sections: &TextMap<String>) -> (r: TextSet)
    ensures
        forall|k: Seq<char>| #[trigger] r@.contains(k) <==> is_cited(sections.entries(), k),
{
    let mut cited = TextSet::new();
    let n: usize = sections.len();
    let ghost e = sections.entries();
    let mut i: usize = 0;
    while i < n
        invariant
            i <= n,
            n == e.len(),
            e == sections.entries(),
            forall|k: Seq<char>| #[trigger] cited@.contains(k) <==> is_cited(e.take(i as int), k),
        decreases n - i,
    {
        let keys = extract_citation_keys(sections.value_at(i).as_str());
        let ghost had = cited@;
        let mut j: usize = 0;
        while j < keys.len()
            invariant
                j <= keys.len(),
                forall|k: Seq<char>| #[trigger]
                    cited@.contains(k) <==> had.contains(k) || keys.deep_view().take(
                        j as int,
                    ).contains(k),
            decreases keys.len() - j,
        {
            cited.insert(keys[j].clone());
            proof {
                let upto = keys.deep_view().take(j as int);
                let next = keys.deep_view().take(j + 1);
                assert(next =~= upto.push(keys.deep_view()[j as int]));
            }
            j = j + 1;
        }
        proof {
            assert(keys.deep_view().take(j as int) =~= keys.deep_view());
            let before = e.take(i as int);
            let now = e.take(i + 1);
            assert forall|k: Seq<char>| #[trigger] cited@.contains(k) <==> is_cited(now, k) by {
                if is_cited(before, k) {
                    let a = choose|a: int|
                        0 <= a < before.len() && (#[trigger] keys_from(before[a].1@, 0)).contains(k);
                    assert(now[a] == before[a]);
                    assert(keys_from(now[a].1@, 0).contains(k));
                }
                if keys.deep_view().contains(k) {
                    assert(now[i as int] == e[i as int]);
                    assert(keys_from(now[i as int].1@, 0).contains(k));
                }
                if is_cited(now, k) {
                    let a = choose|a: int|
                        0 <= a < now.len() && (#[trigger] keys_from(now[a].1@, 0)).contains(k);
                    if a < i {
                        assert(before[a] == now[a]);
                        assert(keys_from(before[a].1@, 0).contains(k));
                    }
                }
            }
        }
        i = i + 1;
    }
    assert(e.take(i as int) =~= e);
    cited
}

fn defined_set(references: &[Reference]) -> (r: TextSet)
    ensures
        forall|k: Seq<char>| #[trigger] r@.contains(k) <==> is_defined(references@, k),
{
    let mut defined = TextSet::new();
    let mut i: usize = 0;
    while i < references.len()
        invariant
            i <= references.len(),
            forall|k: Seq<char>| #[trigger]
                defined@.contains(k) <==> is_defined(references@.take(i as int), k),
        decreases references.len() - i,
    {
        let ghost had = defined@;
        defined.insert(references[i].key.clone());
        proof {
            let before = references@.take(i as int);
            let now = references@.take(i + 1);
            assert forall|k: Seq<char>| #[trigger] defined@.contains(k) <==> is_defined(now, k) by {
                if is_defined(before, k) {
                    let a = choose|a: int|
                        0 <= a < before.len() && (#[trigger] before[a]).key@ == k;
                    assert(now[a] == before[a]);
                }
                assert(now[i as int] == references@[i as int]);
                if is_defined(now, k) {
                    let a = choose|a: int| 0 <= a < now.len() && (#[trigger] now[a]).key@ == k;
                    if a < i {
                        assert(before[a] == now[a]);
                    }
                }
            }
        }
        i = i + 1;
    }
    assert(references@.take(i as int) =~= references@);
    defined
}

/// Pure check: scan all section bodies for `[@key]` citations and cross-reference
/// against the provided reference list. Seeded hypotheses and other fields are
/// NOT scanned — sections only.
pub fn citation_check(sections: &TextMap<String>, references: &[Reference]) -> (r: CitationCheck)
    ensures
        is_undefined_list(r.cited_undefined.deep_view(), sections.entries(), references@),
        r.defined_uncited.deep_view() == uncited(sections.entries(), references@),
{
    let ghost e = sections.entries();
    let cited = cited_set(sections);
    let defined = defined_set(references);
    let mut undefined = TextSet::new();
    let n: usize = cited.len();
    let ghost all = cited.elements();
    let mut i: usize = 0;
    while i < n
        invariant
            i <= n,
            n == all.len(),
            all == cited.elements(),
            forall|k: Seq<char>| #[trigger] defined@.contains(k) <==> is_defined(references@, k),
            forall|k: Seq<char>| #[trigger]
                undefined@.contains(k) <==> all.take(i as int).contains(k) && !is_defined(
                    references@,
                    k,
                ),
        decreases n - i,
    {
        let ghost upto = all.take(i as int);
        assert(all.take(i + 1) =~= upto.push(all[i as int]));
        if !defined.contains(cited.at(i).as_str()) {
            undefined.insert(cited.at(i).clone());
        }
        i = i + 1;
    }
    assert(all.take(i as int) =~= all);
    let cited_undefined = undefined.to_vec();
    proof {
        let keys = cited_undefined.deep_view();
        assert forall|k: Seq<char>| #[trigger] keys.contains(k) <==> is_cited(e, k) && !is_defined(
            references@,
            k,
        ) by {
            assert(keys.contains(k) <==> keys.to_set().contains(k));
            assert(all.contains(k) <==> cited@.contains(k));
        }
    }
    let mut seen = TextSet::new();
    let mut defined_uncited: Vec<String> = Vec::new();
    let mut j: usize = 0;
    while j < references.len()
        invariant
            j <= references.len(),
            e == sections.entries(),
            forall|k: Seq<char>| #[trigger] cited@.contains(k) <==> is_cited(e, k),
            defined_uncited.deep_view() == uncited(e, references@.take(j as int)),
            forall|k: Seq<char>| #[trigger]
                seen@.contains(k) <==> defined_uncited.deep_view().contains(k),
        decreases references.len() - j,
    {
        let key = &references[j].key;
        let ghost before = defined_uncited.deep_view();
        assert(references@.take(j + 1).drop_last() =~= references@.take(j as int));
        if !cited.contains(key.as_str()) {
            if seen.insert(key.clone()) {
                defined_uncited.push(key.clone());
                assert(defined_uncited.deep_view() =~= before.push(key@));
            }
        }
        j = j + 1;
    }
    assert(references@.take(j as int) =~= references@);
    CitationCheck { cited_undefined, defined_uncited }
}

/// A key is in neither list exactly where it is cited and defined, or neither.
pub proof fn lists_are_sound_and_complete(
    undefined: Seq<Seq<char>>,
    sections: Seq<(Seq<char>, String)>,
    references: Seq<Reference>,
    key: Seq<char>,
)
    requires
        is_undefined_list(undefined, sections, references),
    ensures
        undefined.contains(key) <==> is_cited(sections, key) && !is_defined(references, key),
        uncited(sections, references).contains(key) <==> is_defined(references, key) && !is_cited(
            sections,
            key,
        ),
        uncited(sections, references).no_duplicates(),
{
    lemma_uncited(sections, references, key);
}

proof fn lemma_uncited(
    sections: Seq<(Seq<char>, String)>,
    references: Seq<Reference>,
    key: Seq<char>,
)
    ensures
        uncited(sections, references).contains(key) <==> is_defined(references, key) && !is_cited(
            sections,
            key,
        ),
        uncited(sections, references).no_duplicates(),
    decreases references.len(),
{
    if references.len() > 0 {
        let rest = references.drop_last();
        lemma_uncited(sections, rest, key);
        let last = references.last().key@;
        if is_defined(rest, key) {
            let a = choose|a: int| 0 <= a < rest.len() && (#[trigger] rest[a]).key@ == key;
            assert(references[a].key@ == key);
        }
        if is_defined(references, key) {
            let a = choose|a: int|
                0 <= a < references.len() && (#[trigger] references[a]).key@ == key;
            if a < rest.len() {
                assert(rest[a].key@ == key);
            }
        }
        assert(references[references.len() - 1].key@ == last);
    }
}

// ---------------------------------------------------------------------------
// What becomes of a citation
// ---------------------------------------------------------------------------

/// A citation in a text is found by its key, becomes a footnote mark in Markdown and a cite command
/// in LaTeX, and what follows it is read on from behind it.
pub proof fn a_citation_is_found_and_turned(key: Seq<char>, rest: Seq<char>)
    requires
        key.len() > 0,
        forall|i: int|
            0 <= i < key.len() ==> {
                let c = #[trigger] key[i];
                'A' <= c <= 'Z' || 'a' <= c <= 'z' || '0' <= c <= '9' || c == '_' || c == ':' || c
                    == '.' || c == '-'
            },
    ensures
        ({
            let s = seq!['[', '@'] + key + seq![']'] + rest;
            &&& keys_from(s, 0) == seq![key] + keys_from(rest, 0)
            &&& footnoted_from(s, 0) == seq!['[', '^'] + key + seq![']'] + footnoted_from(rest, 0)
            &&& tex_cited_from(s, 0) == r"\cite{"@ + key + seq!['}'] + tex_cited_from(rest, 0)
        }),
{
    let front = seq!['[', '@'] + key + seq![']'];
    let s = front + rest;
    assert forall|k: int| 2 <= k < 2 + key.len() implies key_char(#[trigger] s[k]) by {
        assert(s[k] == key[k - 2]);
    }
    lemma_key_run(s, 2, (2 + key.len()) as int);
    assert(s[(2 + key.len()) as int] == ']');
    assert(key_end(s, 2) == 2 + key.len());
    assert(cites_at(s, 0));
    assert(key_at(s, 0) =~= key);
    lemma_read_on(front, rest, 0);
}

/// A character that begins no citation stays where it is.
pub proof fn other_text_stays(c: char, rest: Seq<char>)
    requires
        c != '[',
    ensures
        keys_from(seq![c] + rest, 0) == keys_from(rest, 0),
        footnoted_from(seq![c] + rest, 0) == seq![c] + footnoted_from(rest, 0),
        tex_cited_from(seq![c] + rest, 0) == tex_char(c) + tex_cited_from(rest, 0),
{
    let s = seq![c] + rest;
    assert(!cites_at(s, 0));
    lemma_read_on(seq![c], rest, 0);
}

proof fn lemma_key_run(s: Seq<char>, j: int, e: int)
    requires
        0 <= j <= e < s.len(),
    ensures
        (forall|k: int| j <= k < e ==> key_char(#[trigger] s[k])) && !key_char(s[e]) ==> key_end(
            s,
            j,
        ) == e,
    decreases e - j,
{
    if j < e {
        lemma_key_run(s, j + 1, e);
    }
}

proof fn lemma_read_on_end(a: Seq<char>, b: Seq<char>, j: int)
    requires
        0 <= j,
    ensures
        key_end(a + b, a.len() + j) == a.len() + key_end(b, j),
    decreases b.len() - j,
{
    if j < b.len() && key_char(b[j]) {
        assert((a + b)[a.len() + j] == b[j]);
        lemma_read_on_end(a, b, j + 1);
    } else if j < b.len() {
        assert((a + b)[a.len() + j] == b[j]);
    }
}

/// What stands before does not change what is read from a place on.
proof fn lemma_read_on(a: Seq<char>, b: Seq<char>, j: int)
    requires
        0 <= j,
    ensures
        keys_from(a + b, a.len() + j) == keys_from(b, j),
        footnoted_from(a + b, a.len() + j) == footnoted_from(b, j),
        tex_cited_from(a + b, a.len() + j) == tex_cited_from(b, j),
    decreases b.len() - j,
{
    let s = a + b;
    if j < b.len() {
        let n = a.len() as int;
        lemma_read_on_end(a, b, j + 2);
        assert(s[n + j] == b[j]);
        if j + 1 < b.len() {
            assert(s[n + j + 1] == b[j + 1]);
            lemma_key_end(b, j + 2);
        }
        let e = key_end(b, j + 2);
        if j + 1 < b.len() && e < b.len() {
            assert(s[n + e] == b[e]);
        }
        assert(cites_at(s, n + j) == cites_at(b, j));
        if cites_at(b, j) {
            assert(key_at(s, n + j) =~= key_at(b, j));
            lemma_read_on(a, b, e + 1);
        } else {
            lemma_read_on(a, b, j + 1);
        }
    }
}

/// What is reported as not cited is just what is defined and cited nowhere, each key once, and a
/// key that is cited but not defined is never among them.
pub proof fn what_is_uncited_is_defined_and_never_cited(
    sections: Seq<(Seq<char>, String)>,
    references: Seq<Reference>,
    key: Seq<char>,
)
    ensures
        uncited(sections, references).contains(key) <==> (exists|i: int|
            0 <= i < references.len() && (#[trigger] references[i]).key@ == key) && !(exists|i: int|
            0 <= i < sections.len() && (#[trigger] keys_from(sections[i].1@, 0)).contains(key)),
        uncited(sections, references).no_duplicates(),
    decreases references.len(),
{
    if references.len() > 0 {
        let before = references.drop_last();
        what_is_uncited_is_defined_and_never_cited(sections, before, key);
        let last = references.last().key@;
        let list = uncited(sections, before);
        assert(references[references.len() - 1].key@ == last);
        if !is_cited(sections, last) && !list.contains(last) {
            let more = list.push(last);
            assert(more[more.len() - 1] == last);
            if list.contains(key) {
                let k = list.index_of(key);
                assert(more[k] == key);
            }
            if more.contains(key) && key != last {
                let k = more.index_of(key);
                assert(list[k] == key);
            }
            assert(more.no_duplicates()) by {
                assert forall|i: int, j: int| 0 <= i < j < more.len() implies more[i] != more[j] by {
                    if j == more.len() - 1 {
                        assert(list.contains(list[i]));
                    }
                }
            }
        }
        if exists|i: int| 0 <= i < references.len() && (#[trigger] references[i]).key@ == key {
            let i = choose|i: int|
                0 <= i < references.len() && (#[trigger] references[i]).key@ == key;
            if i < before.len() {
                assert(before[i].key@ == key);
            }
        }
        if exists|i: int| 0 <= i < before.len() && (#[trigger] before[i]).key@ == key {
            let i = choose|i: int| 0 <= i < before.len() && (#[trigger] before[i]).key@ == key;
            assert(references[i].key@ == key);
        }
    }
}

} // verus!
