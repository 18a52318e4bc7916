//! The Open Knowledge Format: what makes a rendered document valid, and which of its
//! links lead nowhere.

use vstd::prelude::*;
use crate::text::{
    chars_of, control, find, find_from, is_control, is_whitespace, lemma_find_from, lines, lines_of,
    same, slice_text, starts_with, strip_prefix, stripped, trim, trim_end, trim_start, trimmed,
    trimmed_end, trimmed_start, whitespace,
};
use crate::textset::{ascending, TextSet};

verus! {

broadcast use vstd::seq_lib::group_seq_properties;

/// Outcome of checking a rendered document against OKF's v0.1 hard rules.
#[derive(Debug, PartialEq)]
pub struct OkfCheck {
    /// Hard-rule breaches. Non-empty means the reference validator would exit
    /// non-zero, so publication is blocked.
    pub violations: Vec<String>,
    /// Link problems. OKF's LINK_TOL makes these WARNINGS — they must never
    /// block publication — but the reference validator still reports them, and
    /// a dangling artifact pointer in a research record is worth surfacing.
    pub warnings: Vec<String>,
}

impl OkfCheck {
    /// Whether the document may be published.
    pub fn ok(&self) -> (r: bool)
        ensures
            r == (self.violations.deep_view().len() == 0),
    {
        self.violations.len() == 0
    }
}

// ---------------------------------------------------------------------------
// Frontmatter
// ---------------------------------------------------------------------------

/// The line opens or closes the frontmatter.
pub open spec fn is_fence(line: Seq<char>) -> bool {
    trimmed_end(line) == "---"@
}

/// The first fence at or after position `i`.
pub open spec fn fence_from(ls: Seq<Seq<char>>, i: int) -> Option<int>
    decreases ls.len() - i,
{
    if i < 0 || i >= ls.len() {
        None
    } else if is_fence(ls[i]) {
        Some(i)
    } else {
        fence_from(ls, i + 1)
    }
}

/// The lines of the frontmatter, between a fence on the first line and the next fence.
pub open spec fn frontmatter(doc: Seq<char>) -> Option<Seq<Seq<char>>> {
    let ls = lines_of(doc);
    if ls.len() > 0 && is_fence(ls[0]) {
        match fence_from(ls, 1) {
            Some(k) => Some(ls.subrange(1, k)),
            None => None,
        }
    } else {
        None
    }
}

/// The line holds a control character other than a tab.
pub open spec fn breaks_yaml(line: Seq<char>) -> bool {
    exists|i: int| 0 <= i < line.len() && control(#[trigger] line[i]) && line[i] != '\t'
}

/// Some line holds a control character other than a tab.
pub open spec fn any_breaks_yaml(ls: Seq<Seq<char>>) -> bool {
    exists|i: int| 0 <= i < ls.len() && breaks_yaml(#[trigger] ls[i])
}

/// `s` without the `p` that it begins with, however often.
pub open spec fn stripped_all(s: Seq<char>, p: Seq<char>) -> Seq<char>
    decreases s.len(),
{
    if p.len() > 0 && p.is_prefix_of(s) {
        stripped_all(s.skip(p.len() as int), p)
    } else {
        s
    }
}

/// `s` without the double quotes that it begins with.
pub open spec fn unquoted_start(s: Seq<char>) -> Seq<char>
    decreases s.len(),
{
    if s.len() > 0 && s[0] == '"' {
        unquoted_start(s.drop_first())
    } else {
        s
    }
}

/// `s` without the double quotes that it ends with.
pub open spec fn unquoted_end(s: Seq<char>) -> Seq<char>
    decreases s.len(),
{
    if s.len() > 0 && s.last() == '"' {
        unquoted_end(s.drop_last())
    } else {
        s
    }
}

/// `s` stands in single quotes.
pub open spec fn single_quoted(s: Seq<char>) -> bool {
    s.len() >= 2 && s[0] == '\'' && s.last() == '\''
}

/// The scalar without its quotes: one pair of single quotes, or else the double quotes around it.
pub open spec fn unquoted(s: Seq<char>) -> Seq<char> {
    if single_quoted(s) {
        s.subrange(1, s.len() - 1)
    } else {
        unquoted_end(unquoted_start(s))
    }
}

/// The value that a `type:` line gives.
pub open spec fn type_value(line: Seq<char>) -> Seq<char> {
    unquoted(trimmed(stripped_all(line, "type:"@)))
}

/// The first line that begins with `type:`.
pub open spec fn type_line(fm: Seq<Seq<char>>) -> Option<Seq<char>>
    decreases fm.len(),
{
    if fm.len() == 0 {
        None
    } else if "type:"@.is_prefix_of(fm[0]) {
        Some(fm[0])
    } else {
        type_line(fm.drop_first())
    }
}

/// What is wrong with the control characters of the frontmatter.
pub open spec fn control_violations(fm: Seq<Seq<char>>) -> Seq<Seq<char>> {
    if any_breaks_yaml(fm) {
        seq!["utf8-content: frontmatter contains a control character"@]
    } else {
        Seq::empty()
    }
}

/// What is wrong with the `type` of the frontmatter.
pub open spec fn type_violations(fm: Seq<Seq<char>>) -> Seq<Seq<char>> {
    match type_line(fm) {
        None => seq!["concept-type: concept frontmatter must include non-empty type"@],
        Some(line) => if type_value(line).len() == 0 {
            seq!["concept-type: concept frontmatter must include non-empty type (empty)"@]
        } else {
            Seq::empty()
        },
    }
}

/// The hard rules that the document breaks.
pub open spec fn violations_of(doc: Seq<char>) -> Seq<Seq<char>> {
    let ls = lines_of(doc);
    if !(ls.len() > 0 && is_fence(ls[0])) {
        seq!["concept-frontmatter: concept document is missing YAML frontmatter"@]
    } else {
        match frontmatter(doc) {
            None => seq!["concept-frontmatter: frontmatter block is never closed with `---`"@],
            Some(fm) => control_violations(fm) + type_violations(fm),
        }
    }
}

fn fence(line: &str) -> (r: bool)
    ensures
        r == is_fence(line@),
{
    same(trim_end(line).as_str(), "---")
}

fn line_breaks_yaml(line: &str) -> (r: bool)
    ensures
        r == breaks_yaml(line@),
{
    let v = chars_of(line);
    let mut i: usize = 0;
    while i < v.len()
        invariant
            i <= v.len(),
            v@ == line@,
            forall|k: int| 0 <= k < i ==> !(control(#[trigger] line@[k]) && line@[k] != '\t'),
        decreases v.len() - i,
    {
        if is_control(v[i]) && v[i] != '\t' {
            assert(control(line@[i as int]));
            return true;
        }
        i = i + 1;
    }
    false
}

fn strip_all(s: &str, p: &str) -> (r: String)
    requires
        p@.len() > 0,
    ensures
        r@ == stripped_all(s@, p@),
{
    let mut t = s.to_owned();
    while starts_with(t.as_str(), p)
        invariant
            p@.len() > 0,
            stripped_all(s@, p@) == stripped_all(t@, p@),
        decreases t@.len(),
    {
        let v = chars_of(t.as_str());
        let n: usize = chars_of(p).len();
        let rest = slice_text(&v, n, v.len());
        assert(rest@ =~= t@.skip(p@.len() as int));
        t = rest;
    }
    t
}

fn unquote(s: &str) -> (r: String)
    ensures
        r@ == unquoted(s@),
{
    let v = chars_of(s);
    let n: usize = v.len();
    if n >= 2 && v[0] == '\'' && v[n - 1] == '\'' {
        return slice_text(&v, 1, n - 1);
    }
    let mut i: usize = 0;
    assert(s@.skip(0) =~= s@);
    while i < v.len() && v[i] == '"'
        invariant
            v@ == s@,
            i <= v.len(),
            unquoted_start(s@) == unquoted_start(s@.skip(i as int)),
        decreases v.len() - i,
    {
        assert(s@.skip(i as int).drop_first() =~= s@.skip(i + 1));
        i = i + 1;
    }
    let ghost t = s@.skip(i as int);
    let mut j: usize = v.len();
    assert(s@.subrange(i as int, j as int) =~= t);
    while j > i && v[j - 1] == '"'
        invariant
            v@ == s@,
            i <= j <= v.len(),
            unquoted_end(t) == unquoted_end(s@.subrange(i as int, j as int)),
        decreases j,
    {
        let ghost u = s@.subrange(i as int, j as int);
        assert(u.last() == v@[j - 1]);
        assert(u.drop_last() =~= s@.subrange(i as int, j - 1));
        j = j - 1;
    }
    let r = slice_text(&v, i, j);
    assert(r@.len() > 0 ==> r@.last() == v@[j - 1]);
    r
}

/// Whether some line of `ls` between `from` and `to` holds a control character other than a tab.
fn has_control(ls: &Vec<String>, from: usize, to: usize) -> (r: bool)
    requires
        from <= to <= ls@.len(),
    ensures
        r == any_breaks_yaml(ls.deep_view().subrange(from as int, to as int)),
{
    let ghost fm = ls.deep_view().subrange(from as int, to as int);
    let mut i: usize = from;
    while i < to
        invariant
            from <= i <= to <= ls@.len(),
            fm == ls.deep_view().subrange(from as int, to as int),
            forall|k: int| 0 <= k < i - from ==> !breaks_yaml(#[trigger] fm[k]),
        decreases to - i,
    {
        assert(fm[i - from] == ls@[i as int]@);
        if line_breaks_yaml(ls[i].as_str()) {
            assert(breaks_yaml(fm[i - from]));
            return true;
        }
        i = i + 1;
    }
    false
}

/// The position of the first line of `ls` between `from` and `to` that begins with `type:`.
fn find_type(ls: &Vec<String>, from: usize, to: usize) -> (r: Option<usize>)
    requires
        from <= to <= ls@.len(),
    ensures
        r is Some <==> type_line(ls.deep_view().subrange(from as int, to as int)) is Some,
        r matches Some(k) ==> k < ls@.len() && type_line(
            ls.deep_view().subrange(from as int, to as int),
        ) == Some(ls@[k as int]@),
{
    let ghost all = ls.deep_view();
    let mut i: usize = from;
    while i < to
        invariant
            from <= i <= to <= ls@.len(),
            all == ls.deep_view(),
            type_line(all.subrange(from as int, to as int)) == type_line(
                all.subrange(i as int, to as int),
            ),
        decreases to - i,
    {
        let ghost rest = all.subrange(i as int, to as int);
        assert(rest[0] == ls@[i as int]@);
        if starts_with(ls[i].as_str(), "type:") {
            return Some(i);
        }
        assert(rest.drop_first() =~= all.subrange(i + 1, to as int));
        i = i + 1;
    }
    None
}

/// Validate a rendered dossier against the Open Knowledge Format hard rules.
///
/// OKF (Google Cloud, 2026) defines exactly three conditions the reference
/// validator exits non-zero on, and this mirrors them so a malformed document
/// is caught before it is published rather than by a downstream consumer:
///
///   UTF8_REQ  valid UTF-8            (a Rust `&str` is UTF-8 by construction,
///                                     so this cannot fail here; checked anyway
///                                     for control characters that break YAML)
///   FM_REQ    parseable YAML frontmatter delimited by `---`
///   TYPE_REQ  `type` present and non-empty
///
/// Broken links are LINK_TOL — warnings only, never a failure.
pub fn okf_check(doc: &str) -> (r: OkfCheck)
    ensures
        r.violations.deep_view() == violations_of(doc@),
        is_warning_list(r.warnings.deep_view(), doc@),
{
    let mut violations: Vec<String> = Vec::new();
    let warnings = link_warnings(doc);
    let ls = lines(doc);
    let ghost all = ls.deep_view();
    if ls.len() == 0 || !fence(ls[0].as_str()) {
        violations.push(
            "concept-frontmatter: concept document is missing YAML frontmatter".to_owned(),
        );
        assert(violations.deep_view() =~= violations_of(doc@));
        return OkfCheck { violations, warnings };
    }
    let mut k: usize = 1;
    while k < ls.len() && !fence(ls[k].as_str())
        invariant
            1 <= k <= ls.len(),
            all == ls.deep_view(),
            fence_from(all, 1) == fence_from(all, k as int),
        decreases ls.len() - k,
    {
        assert(all[k as int] == ls@[k as int]@);
        k = k + 1;
    }
    if k >= ls.len() {
        violations.push(
            "concept-frontmatter: frontmatter block is never closed with `---`".to_owned(),
        );
        assert(violations.deep_view() =~= violations_of(doc@));
        return OkfCheck { violations, warnings };
    }
    assert(all[k as int] == ls@[k as int]@);
    let ghost fm = all.subrange(1, k as int);
    assert(frontmatter(doc@) == Some(fm));
    if has_control(&ls, 1, k) {
        violations.push("utf8-content: frontmatter contains a control character".to_owned());
    }
    assert(violations.deep_view() =~= control_violations(fm));
    let ghost before = violations.deep_view();
    match find_type(&ls, 1, k) {
        None => {
            violations.push(
                "concept-type: concept frontmatter must include non-empty type".to_owned(),
            );
        },
        Some(i) => {
            proof {
                reveal_strlit("type:");
            }
            let rest = strip_all(ls[i].as_str(), "type:");
            let value = unquote(trim(rest.as_str()).as_str());
            if value.as_str().is_empty() {
                violations.push(
                    "concept-type: concept frontmatter must include non-empty type (empty)".to_owned(),
                );
            }
        },
    }
    assert(violations.deep_view() =~= before + type_violations(fm));
    OkfCheck { violations, warnings }
}

/// Whether a document may be published depends on its frontmatter alone: no link, broken or
/// not, ever blocks it.
pub proof fn links_never_block(a: Seq<char>, b: Seq<char>)
    requires
        frontmatter(a) is Some,
        frontmatter(a) == frontmatter(b),
    ensures
        violations_of(a) == violations_of(b),
{
}

// ---------------------------------------------------------------------------
// Links
// ---------------------------------------------------------------------------

/// The source that the line defines: the text between `[^` at its start and the first `]`,
/// where a colon follows that bracket.
pub open spec fn defined_id(line: Seq<char>) -> Option<Seq<char>> {
    match stripped(trimmed_start(line), "[^"@) {
        Some(rest) => match find_from(rest, "]"@, 0) {
            Some(end) => if end + 1 < rest.len() && rest[end + 1] == ':' {
                Some(rest.take(end))
            } else {
                None
            },
            None => None,
        },
        None => None,
    }
}

/// The sources that the text cites from `i` on: the texts between `[^` and `]`, where no
/// colon follows.
pub open spec fn uses_from(s: Seq<char>, i: int) -> Seq<Seq<char>>
    decreases s.len() + 1 - i,
{
    match find_from(s, "[^"@, i) {
        None => Seq::empty(),
        Some(k) => match find_from(s, "]"@, k + 2) {
            None => Seq::empty(),
            Some(e) => if i <= k && k + 2 <= e < s.len() {
                (if e + 1 < s.len() && s[e + 1] == ':' {
                    Seq::empty()
                } else {
                    seq![s.subrange(k + 2, e)]
                }) + uses_from(s, e + 1)
            } else {
                Seq::empty()
            },
        },
    }
}

/// Some line of the document defines the source.
pub open spec fn is_source(doc: Seq<char>, id: Seq<char>) -> bool {
    exists|i: int|
        0 <= i < lines_of(doc).len() && defined_id(#[trigger] lines_of(doc)[i]) == Some(id)
}

/// Some line of the document, other than a definition, cites the source.
pub open spec fn is_used(doc: Seq<char>, id: Seq<char>) -> bool {
    exists|i: int|
        0 <= i < lines_of(doc).len() && defined_id(#[trigger] lines_of(doc)[i]) is None
            && uses_from(lines_of(doc)[i], 0).contains(id)
}

/// The characters that part the tokens of a line.
pub open spec fn separator(c: char) -> bool {
    whitespace(c) || c == '|' || c == '`'
}

/// The end of the token that starts at `i`.
pub open spec fn token_end(s: Seq<char>, i: int) -> int
    decreases s.len() - i,
{
    if i < s.len() && !separator(s[i]) {
        token_end(s, i + 1)
    } else {
        i
    }
}

/// A token does not end before it starts.
pub proof fn lemma_token_end(s: Seq<char>, i: int)
    requires
        0 <= i <= s.len(),
    ensures
        i <= token_end(s, i) <= s.len(),
    decreases s.len() - i,
{
    if i < s.len() && !separator(s[i]) {
        lemma_token_end(s, i + 1);
    }
}

/// The tokens of `s` from `i` on: the longest runs without a separator.
pub open spec fn tokens_from(s: Seq<char>, i: int) -> Seq<Seq<char>>
    decreases s.len() - i,
{
    if i < 0 || i >= s.len() {
        Seq::empty()
    } else if separator(s[i]) {
        tokens_from(s, i + 1)
    } else {
        proof {
            lemma_token_end(s, i + 1);
        }
        seq![s.subrange(i, token_end(s, i))] + tokens_from(s, token_end(s, i))
    }
}

/// The token is the scheme with nothing behind it, or with a slash.
pub open spec fn is_dead(token: Seq<char>, scheme: Seq<char>) -> bool {
    stripped(token, scheme) matches Some(rest) && (rest.len() == 0 || rest[0] == '/')
}

/// The token is a URI that points nowhere.
pub open spec fn is_malformed(token: Seq<char>) -> bool {
    ||| is_dead(token, "gs://"@)
    ||| is_dead(token, "s3://"@)
    ||| is_dead(token, "http://"@)
    ||| is_dead(token, "https://"@)
    ||| is_dead(token, "configmap://"@)
}

/// Some line of the document holds the malformed URI.
pub open spec fn is_dead_pointer(doc: Seq<char>, token: Seq<char>) -> bool {
    is_malformed(token) && exists|i: int|
        0 <= i < lines_of(doc).len() && tokens_from(#[trigger] lines_of(doc)[i], 0).contains(token)
}

/// The warning of a citation without a definition.
pub open spec fn dangling_text(id: Seq<char>) -> Seq<char> {
    "link-target: citation [^"@ + id + "] has no matching source definition"@
}

/// The warning of a malformed URI.
pub open spec fn malformed_text(token: Seq<char>) -> Seq<char> {
    "link-target: malformed URI `"@ + token + "`"@
}

/// The document earns the warning.
pub open spec fn is_warning(doc: Seq<char>, w: Seq<char>) -> bool {
    ||| exists|id: Seq<char>|
        is_used(doc, id) && !is_source(doc, id) && w == #[trigger] dangling_text(id)
    ||| exists|t: Seq<char>| is_dead_pointer(doc, t) && w == #[trigger] malformed_text(t)
}

/// `ws` are, in dictionary order, the warnings that the document earns.
pub open spec fn is_warning_list(ws: Seq<Seq<char>>, doc: Seq<char>) -> bool {
    &&& ascending(ws)
    &&& forall|w: Seq<char>| #[trigger] ws.contains(w) <==> is_warning(doc, w)
}

/// A citation that nothing defines is never passed over, and one that is defined is never
/// warned about.
pub proof fn dangling_citations_are_warned_about(ws: Seq<Seq<char>>, doc: Seq<char>, id: Seq<char>)
    requires
        is_warning_list(ws, doc),
        is_used(doc, id),
    ensures
        ws.contains(dangling_text(id)) <==> !is_source(doc, id),
{
    let w = dangling_text(id);
    if ws.contains(w) {
        assert(is_warning(doc, w));
        if exists|other: Seq<char>|
            is_used(doc, other) && !is_source(doc, other) && w == #[trigger] dangling_text(other) {
            let other = choose|other: Seq<char>|
                is_used(doc, other) && !is_source(doc, other) && w == #[trigger] dangling_text(
                    other,
                );
            let n = "link-target: citation [^"@.len() as int;
            let m = "] has no matching source definition"@.len() as int;
            assert(w.subrange(n, w.len() - m) =~= id);
            assert(w.subrange(n, w.len() - m) =~= other);
        } else {
            let t = choose|t: Seq<char>| is_dead_pointer(doc, t) && w == #[trigger] malformed_text(t);
            reveal_strlit("link-target: citation [^");
            reveal_strlit("link-target: malformed URI `");
            assert(w[13] == 'c');
            assert(malformed_text(t)[13] == 'm');
        }
    }
}

fn definition(line: &str) -> (r: Option<String>)
    ensures
        r.deep_view() == defined_id(line@),
{
    let t = trim_start(line);
    match strip_prefix(t.as_str(), "[^") {
        Some(rest) => {
            let v = chars_of(rest.as_str());
            let close = chars_of("]");
            match find(&v, &close, 0) {
                Some(end) => {
                    proof {
                        reveal_strlit("]");
                        lemma_find_from(rest@, "]"@, 0);
                    }
                    let n: usize = v.len();
                    if end + 1 < n && v[end + 1] == ':' {
                        let id = slice_text(&v, 0, end);
                        assert(id@ =~= rest@.take(end as int));
                        Some(id)
                    } else {
                        None
                    }
                },
                None => None,
            }
        },
        None => None,
    }
}

/// Puts the sources that the line cites into `used`.
fn collect_uses(used: &mut TextSet, line: &str)
    ensures
        forall|id: Seq<char>| #[trigger]
            final(used)@.contains(id) <==> old(used)@.contains(id) || uses_from(
                line@,
                0,
            ).contains(id),
{
    let v = chars_of(line);
    let open = chars_of("[^");
    let close = chars_of("]");
    let ghost had = used@;
    let ghost mut seen: Seq<Seq<char>> = Seq::empty();
    proof {
        reveal_strlit("[^");
        reveal_strlit("]");
        assert(seen + uses_from(line@, 0) =~= uses_from(line@, 0));
    }
    let mut i: usize = 0;
    loop
        invariant
            v@ == line@,
            open@ == "[^"@,
            open@.len() == 2,
            close@ == "]"@,
            close@.len() == 1,
            i <= v.len(),
            seen + uses_from(line@, i as int) == uses_from(line@, 0),
            forall|id: Seq<char>| #[trigger]
                used@.contains(id) <==> had.contains(id) || seen.contains(id),
        ensures
            seen == uses_from(line@, 0),
        decreases v.len() - i,
    {
        proof {
            lemma_find_from(line@, "[^"@, i as int);
        }
        let k = match find(&v, &open, i) {
            Some(k) => k,
            None => {
                assert(seen + uses_from(line@, i as int) =~= seen);
                break;
            },
        };
        proof {
            lemma_find_from(line@, "]"@, k + 2);
        }
        let e = match find(&v, &close, k + 2) {
            Some(e) => e,
            None => {
                assert(seen + uses_from(line@, i as int) =~= seen);
                break;
            },
        };
        let ghost before = seen;
        if e + 1 < v.len() && v[e + 1] == ':' {
            assert(Seq::<Seq<char>>::empty() + uses_from(line@, e + 1) =~= uses_from(line@, e + 1));
        } else {
            let id = slice_text(&v, k + 2, e);
            used.insert(id);
            proof {
                seen = seen.push(id@);
                assert(seen + uses_from(line@, e + 1) =~= before + (seq![id@] + uses_from(
                    line@,
                    e + 1,
                )));
            }
        }
        i = e + 1;
    }
}

fn separates(c: char) -> (r: bool)
    ensures
        r == separator(c),
{
    is_whitespace(c) || c == '|' || c == '`'
}

fn dead(token: &str, scheme: &str) -> (r: bool)
    ensures
        r == is_dead(token@, scheme@),
{
    match strip_prefix(token, scheme) {
        Some(rest) => {
            let v = chars_of(rest.as_str());
            v.len() == 0 || v[0] == '/'
        },
        None => false,
    }
}

fn malformed(token: &str) -> (r: bool)
    ensures
        r == is_malformed(token@),
{
    dead(token, "gs://") || dead(token, "s3://") || dead(token, "http://") || dead(
        token,
        "https://",
    ) || dead(token, "configmap://")
}

/// Puts the malformed URIs of the line into `dead_pointers`.
fn collect_dead(dead_pointers: &mut TextSet, line: &str)
    ensures
        forall|t: Seq<char>| #[trigger]
            final(dead_pointers)@.contains(t) <==> old(dead_pointers)@.contains(t) || (tokens_from(
                line@,
                0,
            ).contains(t) && is_malformed(t)),
{
    let v = chars_of(line);
    let ghost had = dead_pointers@;
    let ghost mut seen: Seq<Seq<char>> = Seq::empty();
    assert(seen + tokens_from(line@, 0) =~= tokens_from(line@, 0));
    let mut i: usize = 0;
    while i < v.len()
        invariant
            v@ == line@,
            i <= v.len(),
            seen + tokens_from(line@, i as int) == tokens_from(line@, 0),
            forall|t: Seq<char>| #[trigger]
                dead_pointers@.contains(t) <==> had.contains(t) || (seen.contains(t)
                    && is_malformed(t)),
        decreases v.len() - i,
    {
        if separates(v[i]) {
            i = i + 1;
        } else {
            let mut k: usize = i;
            while k < v.len() && !separates(v[k])
                invariant
                    v@ == line@,
                    i <= k <= v.len(),
                    token_end(line@, i as int) == token_end(line@, k as int),
                decreases v.len() - k,
            {
                k = k + 1;
            }
            proof {
                lemma_token_end(line@, i + 1);
            }
            let token = slice_text(&v, i, k);
            let ghost before = seen;
            proof {
                seen = seen.push(token@);
                assert(seen + tokens_from(line@, k as int) =~= before + (seq![token@]
                    + tokens_from(line@, k as int)));
            }
            if malformed(token.as_str()) {
                dead_pointers.insert(token);
            }
            i = k;
        }
    }
    assert(seen + tokens_from(line@, i as int) =~= seen);
}

/// The sources that the document defines, those that it cites, and its malformed URIs.
fn collect(ls: &Vec<String>) -> (r: (TextSet, TextSet, TextSet))
    ensures
        forall|id: Seq<char>| #[trigger]
            r.0@.contains(id) <==> exists|i: int|
                0 <= i < ls@.len() && defined_id((#[trigger] ls@[i])@) == Some(id),
        forall|id: Seq<char>| #[trigger]
            r.1@.contains(id) <==> exists|i: int|
                0 <= i < ls@.len() && defined_id((#[trigger] ls@[i])@) is None && uses_from(
                    ls@[i]@,
                    0,
                ).contains(id),
        forall|t: Seq<char>| #[trigger]
            r.2@.contains(t) <==> is_malformed(t) && exists|i: int|
                0 <= i < ls@.len() && tokens_from((#[trigger] ls@[i])@, 0).contains(t),
{
    let mut defs = TextSet::new();
    let mut used = TextSet::new();
    let mut dead_pointers = TextSet::new();
    let mut i: usize = 0;
    while i < ls.len()
        invariant
            i <= ls.len(),
            forall|id: Seq<char>| #[trigger]
                defs@.contains(id) <==> exists|k: int|
                    0 <= k < i && defined_id((#[trigger] ls@[k])@) == Some(id),
            forall|id: Seq<char>| #[trigger]
                used@.contains(id) <==> exists|k: int|
                    0 <= k < i && defined_id((#[trigger] ls@[k])@) is None && uses_from(
                        ls@[k]@,
                        0,
                    ).contains(id),
            forall|t: Seq<char>| #[trigger]
                dead_pointers@.contains(t) <==> is_malformed(t) && exists|k: int|
                    0 <= k < i && tokens_from((#[trigger] ls@[k])@, 0).contains(t),
        decreases ls.len() - i,
    {
        let line = ls[i].as_str();
        match definition(line) {
            Some(id) => {
                defs.insert(id);
            },
            None => {
                collect_uses(&mut used, line);
            },
        }
        collect_dead(&mut dead_pointers, line);
        i = i + 1;
    }
    (defs, used, dead_pointers)
}

/// Static link integrity for a rendered dossier.
///
/// OKF's LINK_TOL makes broken links warnings rather than failures, so these
/// never block publication — but the reference validator does report them, and
/// an artifact pointer that goes nowhere is exactly the kind of rot that makes
/// a research record untrustworthy while still "passing".
///
/// STATIC ONLY — deliberately no network. A reconcile loop that fetched every
/// URL would be slow, flaky, and non-deterministic, which would defeat the
/// content-diff that stops the controller hot-looping. Liveness is already
/// covered where it belongs: the citation audit workload fetches sources and
/// returns UNREACHABLE.
pub fn link_warnings(doc: &str) -> (r: Vec<String>)
    ensures
        is_warning_list(r.deep_view(), doc@),
{
    let ls = lines(doc);
    let ghost all = ls.deep_view();
    let (defs, used, dead_pointers) = collect(&ls);
    proof {
        assert forall|id: Seq<char>| #[trigger] defs@.contains(id) <==> is_source(doc@, id) by {
            if is_source(doc@, id) {
                let i = choose|i: int|
                    0 <= i < all.len() && defined_id(#[trigger] all[i]) == Some(id);
                assert(ls@[i]@ == all[i]);
            }
            if defs@.contains(id) {
                let i = choose|i: int|
                    0 <= i < ls@.len() && defined_id((#[trigger] ls@[i])@) == Some(id);
                assert(all[i] == ls@[i]@);
            }
        }
        assert forall|id: Seq<char>| #[trigger] used@.contains(id) <==> is_used(doc@, id) by {
            if is_used(doc@, id) {
                let i = choose|i: int|
                    0 <= i < all.len() && defined_id(#[trigger] all[i]) is None && uses_from(
                        all[i],
                        0,
                    ).contains(id);
                assert(ls@[i]@ == all[i]);
            }
            if used@.contains(id) {
                let i = choose|i: int|
                    0 <= i < ls@.len() && defined_id((#[trigger] ls@[i])@) is None && uses_from(
                        ls@[i]@,
                        0,
                    ).contains(id);
                assert(all[i] == ls@[i]@);
            }
        }
        assert forall|t: Seq<char>| #[trigger]
            dead_pointers@.contains(t) <==> is_dead_pointer(doc@, t) by {
            if is_dead_pointer(doc@, t) {
                let i = choose|i: int|
                    0 <= i < all.len() && tokens_from(#[trigger] all[i], 0).contains(t);
                assert(ls@[i]@ == all[i]);
            }
            if dead_pointers@.contains(t) {
                let i = choose|i: int|
                    0 <= i < ls@.len() && tokens_from((#[trigger] ls@[i])@, 0).contains(t);
                assert(all[i] == ls@[i]@);
            }
        }
    }
    let mut out = TextSet::new();
    let n: usize = used.len();
    let ghost cites = used.elements();
    let mut i: usize = 0;
    while i < n
        invariant
            i <= n,
            n == cites.len(),
            cites == used.elements(),
            forall|w: Seq<char>| #[trigger]
                out@.contains(w) <==> exists|k: int|
                    0 <= k < i && !defs@.contains(cites[k]) && w == dangling_text(
                        #[trigger] cites[k],
                    ),
        decreases n - i,
    {
        let id = used.at(i);
        assert(cites[i as int] == id@);
        if !defs.contains(id.as_str()) {
            let mut w = "link-target: citation [^".to_owned();
            w.append(id.as_str());
            w.append("] has no matching source definition");
            out.insert(w);
        }
        i = i + 1;
    }
    let ghost first = out@;
    let m: usize = dead_pointers.len();
    let ghost deads = dead_pointers.elements();
    let mut j: usize = 0;
    while j < m
        invariant
            j <= m,
            m == deads.len(),
            deads == dead_pointers.elements(),
            forall|w: Seq<char>| #[trigger]
                out@.contains(w) <==> first.contains(w) || exists|k: int|
                    0 <= k < j && w == malformed_text(#[trigger] deads[k]),
        decreases m - j,
    {
        let t = dead_pointers.at(j);
        assert(deads[j as int] == t@);
        let mut w = "link-target: malformed URI `".to_owned();
        w.append(t.as_str());
        w.append("`");
        out.insert(w);
        j = j + 1;
    }
    let r = out.to_vec();
    proof {
        let ws = r.deep_view();
        assert forall|w: Seq<char>| #[trigger] ws.contains(w) <==> is_warning(doc@, w) by {
            assert(ws.contains(w) <==> ws.to_set().contains(w));
            if first.contains(w) {
                let k = choose|k: int|
                    0 <= k < n && !defs@.contains(cites[k]) && w == dangling_text(
                        #[trigger] cites[k],
                    );
                assert(used@.contains(cites[k])) by {
                    assert(cites.contains(cites[k]));
                }
            }
            if exists|k: int| 0 <= k < m && w == malformed_text(#[trigger] deads[k]) {
                let k = choose|k: int| 0 <= k < m && w == malformed_text(#[trigger] deads[k]);
                assert(dead_pointers@.contains(deads[k])) by {
                    assert(deads.contains(deads[k]));
                }
            }
            if exists|id: Seq<char>|
                is_used(doc@, id) && !is_source(doc@, id) && w == #[trigger] dangling_text(id) {
                let id = choose|id: Seq<char>|
                    is_used(doc@, id) && !is_source(doc@, id) && w == #[trigger] dangling_text(id);
                assert(used@.contains(id));
                let k = cites.index_of(id);
                assert(cites[k] == id);
                assert(!defs@.contains(cites[k]));
            }
            if exists|t: Seq<char>| is_dead_pointer(doc@, t) && w == #[trigger] malformed_text(t) {
                let t = choose|t: Seq<char>|
                    is_dead_pointer(doc@, t) && w == #[trigger] malformed_text(t);
                assert(dead_pointers@.contains(t));
                let k = deads.index_of(t);
                assert(deads[k] == t);
            }
        }
    }
    r
}

// ---------------------------------------------------------------------------
// What is checked
// ---------------------------------------------------------------------------

/// A document has its metadata between its first line, which must be a fence, and the next fence:
/// everything between them, and no fence among it.
pub proof fn metadata_stand_between_the_first_two_fences(doc: Seq<char>, i: int)
    ensures
        frontmatter(doc) matches Some(fm) ==> {
            let ls = lines_of(doc);
            &&& fm.len() + 2 <= ls.len()
            &&& trimmed_end(ls[0]) == seq!['-', '-', '-']
            &&& trimmed_end(ls[(fm.len() + 1) as int]) == seq!['-', '-', '-']
            &&& 0 <= i < fm.len() ==> fm[i] == ls[i + 1] && trimmed_end(fm[i]) != seq!['-', '-', '-']
        },
        lines_of(doc).len() > 0 && trimmed_end(lines_of(doc)[0]) == seq!['-', '-', '-'] && 0 < i
            < lines_of(doc).len() && trimmed_end(lines_of(doc)[i]) == seq!['-', '-', '-']
            ==> frontmatter(doc) is Some,
{
    reveal_strlit("---");
    assert("---"@ =~= seq!['-', '-', '-']);
    let ls = lines_of(doc);
    lemma_fence_from(ls, 1);
}

proof fn lemma_fence_from(ls: Seq<Seq<char>>, from: int)
    requires
        0 <= from,
    ensures
        fence_from(ls, from) matches Some(k) ==> from <= k < ls.len() && is_fence(ls[k])
            && forall|i: int| from <= i < k ==> !is_fence(#[trigger] ls[i]),
        fence_from(ls, from) is None ==> forall|i: int|
            from <= i < ls.len() ==> !is_fence(#[trigger] ls[i]),
    decreases ls.len() - from,
{
    if from < ls.len() && !is_fence(ls[from]) {
        lemma_fence_from(ls, from + 1);
    }
}

/// A document is valid exactly when it has metadata, no line of them holds a control character but
/// a tab, and they give a type that is not empty.
pub proof fn a_document_is_valid_with_a_type(doc: Seq<char>)
    ensures
        violations_of(doc).len() == 0 <==> frontmatter(doc) is Some && {
            let fm = frontmatter(doc)->0;
            &&& forall|i: int, j: int|
                0 <= i < fm.len() && 0 <= j < fm[i].len() && control(#[trigger] fm[i][j])
                    ==> fm[i][j] == '\t'
            &&& type_line(fm) is Some && type_value(type_line(fm)->0).len() > 0
        },
{
    if let Some(fm) = frontmatter(doc) {
        if any_breaks_yaml(fm) {
            let i = choose|i: int| 0 <= i < fm.len() && breaks_yaml(#[trigger] fm[i]);
            let j = choose|j: int|
                0 <= j < fm[i].len() && control(#[trigger] fm[i][j]) && fm[i][j] != '\t';
            assert(control(fm[i][j]));
            assert(control_violations(fm).len() == 1);
        } else {
            assert forall|i: int, j: int|
                0 <= i < fm.len() && 0 <= j < fm[i].len() && control(
                    #[trigger] fm[i][j],
                ) implies fm[i][j] == '\t' by {
                assert(!breaks_yaml(fm[i]));
            }
        }
    }
}

/// The type is that of the first line that begins with it.
pub proof fn the_first_type_counts(fm: Seq<Seq<char>>, i: int)
    requires
        0 <= i < fm.len(),
        "type:"@.is_prefix_of(fm[i]),
        forall|k: int| 0 <= k < i ==> !"type:"@.is_prefix_of(#[trigger] fm[k]),
    ensures
        type_line(fm) == Some(fm[i]),
    decreases fm.len(),
{
    if i > 0 {
        assert(!"type:"@.is_prefix_of(fm[0]));
        assert forall|k: int| 0 <= k < i - 1 implies !"type:"@.is_prefix_of(
            #[trigger] fm.drop_first()[k],
        ) by {
            assert(fm.drop_first()[k] == fm[k + 1]);
        }
        the_first_type_counts(fm.drop_first(), i - 1);
    }
}

/// A definition is a mark at the start of a line with a colon behind it, and defines what the mark
/// holds.
pub proof fn a_definition_defines_its_mark(id: Seq<char>, rest: Seq<char>)
    requires
        forall|i: int| 0 <= i < id.len() ==> #[trigger] id[i] != ']',
    ensures
        defined_id(seq!['[', '^'] + id + seq![']', ':'] + rest) == Some(id),
        rest.len() > 0 && rest[0] != ':' ==> defined_id(
            seq!['[', '^'] + id + seq![']'] + rest,
        ) is None,
        defined_id(seq!['[', '^'] + id + seq![']']) is None,
{
    lemma_mark(id, seq![']', ':'] + rest);
    assert(seq!['[', '^'] + id + seq![']', ':'] + rest =~= seq!['[', '^'] + id + (seq![']', ':']
        + rest));
    lemma_mark(id, seq![']'] + rest);
    assert(seq!['[', '^'] + id + seq![']'] + rest =~= seq!['[', '^'] + id + (seq![']'] + rest));
    lemma_mark(id, seq![']']);
}

proof fn lemma_mark(id: Seq<char>, tail: Seq<char>)
    requires
        forall|i: int| 0 <= i < id.len() ==> #[trigger] id[i] != ']',
        tail.len() > 0,
        tail[0] == ']',
    ensures
        defined_id(seq!['[', '^'] + id + tail) == (if tail.len() > 1 && tail[1] == ':' {
            Some(id)
        } else {
            None
        }),
{
    reveal_strlit("[^");
    reveal_strlit("]");
    let p = "[^"@;
    assert(p =~= seq!['[', '^']);
    assert("]"@ =~= seq![']']);
    let line = p + id + tail;
    assert(line[0] == '[');
    assert(!whitespace('['));
    assert(trimmed_start(line) == line);
    assert(line.subrange(0, 2) =~= p);
    let rest = line.skip(2);
    assert(rest =~= id + tail);
    lemma_find_from(rest, "]"@, 0);
    let n = id.len() as int;
    assert(rest.subrange(n, n + 1) =~= seq![']']);
    assert(crate::text::occurs_at(rest, "]"@, n));
    let e = find_from(rest, "]"@, 0)->0;
    if e < n {
        assert(rest.subrange(e, e + 1)[0] == ']');
        assert(rest[e] == id[e]);
    }
    assert(e == n);
    assert(rest.take(n) =~= id);
}

/// A pointer is dead when nothing stands behind its scheme, or no more than a path; with a host it is
/// none.
pub proof fn a_pointer_without_a_host_is_dead(scheme: Seq<char>, host: Seq<char>)
    ensures
        is_dead(scheme, scheme),
        is_dead(scheme + seq!['/'] + host, scheme),
        host.len() > 0 && host[0] != '/' ==> !is_dead(scheme + host, scheme),
{
    assert(scheme.subrange(0, scheme.len() as int) =~= scheme);
    assert(scheme.skip(scheme.len() as int).len() == 0);
    let a = scheme + seq!['/'] + host;
    assert(a.subrange(0, scheme.len() as int) =~= scheme);
    assert(a.skip(scheme.len() as int)[0] == '/');
    let b = scheme + host;
    assert(b.subrange(0, scheme.len() as int) =~= scheme);
    assert(b.skip(scheme.len() as int) =~= host);
}

/// A warning names what it is about, and there is one exactly for every citation without a source
/// and every dead pointer.
pub proof fn every_dead_pointer_is_warned_about(ws: Seq<Seq<char>>, doc: Seq<char>, t: Seq<char>)
    requires
        is_warning_list(ws, doc),
        is_dead_pointer(doc, t),
    ensures
        ws.contains("link-target: malformed URI `"@ + t + "`"@),
{
    assert(is_warning(doc, malformed_text(t)));
    assert(ws.contains(malformed_text(t)));
}

} // verus!
