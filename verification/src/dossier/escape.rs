//! Free text inside Markdown tables, YAML scalars and LaTeX.

use vstd::prelude::*;

verus! {

broadcast use vstd::seq_lib::group_seq_properties;

/// The texts that `f` gives for the characters of `s`, one after another.
pub open spec fn each(s: Seq<char>, f: spec_fn(char) -> Seq<char>) -> Seq<char>
    decreases s.len(),
{
    if s.len() == 0 {
        Seq::empty()
    } else {
        each(s.drop_last(), f) + f(s.last())
    }
}

/// `each` of two texts one after another.
pub proof fn lemma_each_concat(a: Seq<char>, b: Seq<char>, f: spec_fn(char) -> Seq<char>)
    ensures
        each(a + b, f) == each(a, f) + each(b, f),
    decreases b.len(),
{
    if b.len() == 0 {
        assert(a + b =~= a);
        assert(each(a, f) + each(b, f) =~= each(a, f));
    } else {
        lemma_each_concat(a, b.drop_last(), f);
        assert((a + b).drop_last() =~= a + b.drop_last());
        assert(each(a, f) + (each(b.drop_last(), f) + f(b.last())) =~= (each(a, f) + each(
            b.drop_last(),
            f,
        )) + f(b.last()));
    }
}

// ---------------------------------------------------------------------------
// Markdown
// ---------------------------------------------------------------------------

/// What stands in a Markdown table cell for `c`.
pub open spec fn md_char(c: char) -> Seq<char> {
    if c == '|' {
        seq!['\\', '|']
    } else if c == '\n' || c == '\r' {
        seq![' ']
    } else {
        seq![c]
    }
}

/// What stands in a Markdown table cell for `s`.
pub open spec fn md_escaped(s: Seq<char>) -> Seq<char> {
    each(s, |c: char| md_char(c))
}

/// Escape free text for a Markdown table cell so a stray `|` or newline can't
/// break the table layout.
pub fn md_cell(s: &str) -> (r: String)
    ensures
        r@ == md_escaped(s@),
{
    let mut out = String::new();
    for c in it: s.chars()
        invariant
            it.seq() == s@,
            out@ == md_escaped(s@.take(it.index())),
    {
        assert(s@.take(it.index() + 1).drop_last() =~= s@.take(it.index()));
        if c == '|' {
            out.push('\\');
            out.push('|');
        } else if c == '\n' || c == '\r' {
            out.push(' ');
        } else {
            out.push(c);
        }
        assert(out@ =~= md_escaped(s@.take(it.index())) + md_char(c));
    }
    assert(s@.take(s@.len() as int) =~= s@);
    out
}

/// A table cell holds no line break, and each bar in it has a backslash before it.
pub proof fn md_cell_keeps_the_table(s: Seq<char>)
    ensures
        forall|i: int|
            #![trigger md_escaped(s)[i]]
            0 <= i < md_escaped(s).len() ==> md_escaped(s)[i] != '\n' && md_escaped(s)[i] != '\r'
                && (md_escaped(s)[i] == '|' ==> i > 0 && md_escaped(s)[i - 1] == '\\'),
    decreases s.len(),
{
    if s.len() > 0 {
        md_cell_keeps_the_table(s.drop_last());
        let before = md_escaped(s.drop_last());
        let now = md_escaped(s);
        assert(now =~= before + md_char(s.last()));
        assert forall|i: int| #![trigger now[i]] 0 <= i < now.len() implies now[i] != '\n' && now[i]
            != '\r' && (now[i] == '|' ==> i > 0 && now[i - 1] == '\\') by {
            if i < before.len() {
                assert(now[i] == before[i]);
                if i > 0 {
                    assert(now[i - 1] == before[i - 1]);
                }
            } else {
                assert(now[i] == md_char(s.last())[i - before.len()]);
            }
        }
    }
}

// ---------------------------------------------------------------------------
// YAML
// ---------------------------------------------------------------------------

/// What stands in a double-quoted YAML scalar for `c`.
pub open spec fn yaml_char(c: char) -> Seq<char> {
    if c == '\\' {
        seq!['\\', '\\']
    } else if c == '"' {
        seq!['\\', '"']
    } else {
        seq![c]
    }
}

/// What stands between the quotes of a YAML scalar for `s`.
pub open spec fn yaml_escaped(s: Seq<char>) -> Seq<char> {
    each(s, |c: char| yaml_char(c))
}

/// `s` as a double-quoted YAML scalar.
pub open spec fn yaml_quoted(s: Seq<char>) -> Seq<char> {
    seq!['"'] + yaml_escaped(s) + seq!['"']
}

/// Quote a YAML scalar so a colon, `#`, or leading indicator cannot break the
/// frontmatter block — an unparseable block fails OKF's FM_REQ outright.
pub fn yaml_scalar(v: &str) -> (r: String)
    ensures
        r@ == yaml_quoted(v@),
{
    let mut out = String::new();
    out.push('"');
    assert(out@ =~= seq!['"'] + yaml_escaped(v@.take(0)));
    for c in it: v.chars()
        invariant
            it.seq() == v@,
            out@ == seq!['"'] + yaml_escaped(v@.take(it.index())),
    {
        let ghost upto = yaml_escaped(v@.take(it.index()));
        assert(v@.take(it.index() + 1).drop_last() =~= v@.take(it.index()));
        if c == '\\' {
            out.push('\\');
            out.push('\\');
        } else if c == '"' {
            out.push('\\');
            out.push('"');
        } else {
            out.push(c);
        }
        assert(out@ =~= seq!['"'] + (upto + yaml_char(c)));
    }
    assert(v@.take(v@.len() as int) =~= v@);
    out.push('"');
    assert(out@ =~= yaml_quoted(v@));
    out
}

/// What a reader of a double-quoted scalar makes of `s`, which starts behind the opening
/// quote: the text up to the first quote that no backslash escapes, and what follows it.
pub open spec fn yaml_read(s: Seq<char>) -> Option<(Seq<char>, Seq<char>)>
    decreases s.len(),
{
    if s.len() == 0 {
        None
    } else if s[0] == '"' {
        Some((Seq::empty(), s.drop_first()))
    } else if s[0] == '\\' {
        if s.len() == 1 {
            None
        } else {
            match yaml_read(s.skip(2)) {
                Some((text, rest)) => Some((seq![s[1]] + text, rest)),
                None => None,
            }
        }
    } else {
        match yaml_read(s.drop_first()) {
            Some((text, rest)) => Some((seq![s[0]] + text, rest)),
            None => None,
        }
    }
}

/// A reader that meets a scalar reads back the text that was quoted, and ends where the
/// scalar ends: nothing in the text can break out of the quotes.
pub proof fn yaml_scalar_reads_back(v: Seq<char>, rest: Seq<char>)
    ensures
        yaml_quoted(v)[0] == '"',
        yaml_read((yaml_quoted(v) + rest).drop_first()) == Some((v, rest)),
    decreases v.len(),
{
    lemma_yaml_read(v, rest);
    assert((yaml_quoted(v) + rest).drop_first() =~= yaml_escaped(v) + seq!['"'] + rest);
}

proof fn lemma_yaml_read(v: Seq<char>, rest: Seq<char>)
    ensures
        yaml_read(yaml_escaped(v) + seq!['"'] + rest) == Some((v, rest)),
    decreases v.len(),
{
    let f = |c: char| yaml_char(c);
    let tail = seq!['"'] + rest;
    if v.len() == 0 {
        let s = yaml_escaped(v) + seq!['"'] + rest;
        assert(s =~= tail);
        assert(s.drop_first() =~= rest);
        assert(v =~= Seq::empty());
    } else {
        let w = v.drop_first();
        lemma_yaml_read(w, rest);
        assert(v =~= seq![v[0]] + w);
        lemma_each_concat(seq![v[0]], w, f);
        assert(seq![v[0]].drop_last() =~= Seq::empty());
        assert(each(seq![v[0]].drop_last(), f) =~= Seq::empty());
        assert(each(seq![v[0]], f) =~= yaml_char(v[0]));
        let s = yaml_escaped(v) + seq!['"'] + rest;
        let t = yaml_escaped(w) + seq!['"'] + rest;
        assert(s =~= yaml_char(v[0]) + t);
        if v[0] == '\\' || v[0] == '"' {
            assert(s.skip(2) =~= t);
            assert(s[1] == v[0]);
        } else {
            assert(s.drop_first() =~= t);
        }
    }
}

// ---------------------------------------------------------------------------
// LaTeX
// ---------------------------------------------------------------------------

/// What stands in LaTeX for `c`.
pub open spec fn tex_char(c: char) -> Seq<char> {
    if c == '\\' {
        r"\textbackslash{}"@
    } else if c == '{' {
        r"\{"@
    } else if c == '}' {
        r"\}"@
    } else if c == '$' {
        r"\$"@
    } else if c == '&' {
        r"\&"@
    } else if c == '#' {
        r"\#"@
    } else if c == '%' {
        r"\%"@
    } else if c == '^' {
        r"\^{}"@
    } else if c == '_' {
        r"\_"@
    } else if c == '~' {
        r"\~{}"@
    } else {
        seq![c]
    }
}

/// What stands in LaTeX for `s`.
pub open spec fn tex_escaped(s: Seq<char>) -> Seq<char> {
    each(s, |c: char| tex_char(c))
}

/// Appends what stands in LaTeX for `c`.
pub(crate) fn push_tex(out: &mut String, c: char)
    ensures
        final(out)@ == old(out)@ + tex_char(c),
{
    if c == '\\' {
        out.append(r"\textbackslash{}");
    } else if c == '{' {
        out.append(r"\{");
    } else if c == '}' {
        out.append(r"\}");
    } else if c == '$' {
        out.append(r"\$");
    } else if c == '&' {
        out.append(r"\&");
    } else if c == '#' {
        out.append(r"\#");
    } else if c == '%' {
        out.append(r"\%");
    } else if c == '^' {
        out.append(r"\^{}");
    } else if c == '_' {
        out.append(r"\_");
    } else if c == '~' {
        out.append(r"\~{}");
    } else {
        out.push(c);
        assert(out@ =~= old(out)@ + tex_char(c));
    }
}

/// Escape free text for embedding in a LaTeX document. Processes each character
/// individually so backslash → `\textbackslash{}` does not re-escape the braces
/// introduced by subsequent substitutions.
///
/// Must be called on every piece of user-supplied text before writing it to the
/// LaTeX output. Code-ish values (params, URIs) should additionally be wrapped
/// in `\texttt{...}`.
pub fn tex_escape(s: &str) -> (r: String)
    ensures
        r@ == tex_escaped(s@),
{
    let mut out = String::new();
    for c in it: s.chars()
        invariant
            it.seq() == s@,
            out@ == tex_escaped(s@.take(it.index())),
    {
        assert(s@.take(it.index() + 1).drop_last() =~= s@.take(it.index()));
        push_tex(&mut out, c);
    }
    assert(s@.take(s@.len() as int) =~= s@);
    out
}

/// The characters that LaTeX reads as commands wherever no backslash escapes them.
pub open spec fn tex_active(c: char) -> bool {
    c == '$' || c == '&' || c == '#' || c == '%' || c == '_' || c == '^' || c == '~'
}

/// In escaped text, a character that LaTeX reads as a command has a backslash before it.
pub proof fn tex_escape_leaves_nothing_active(s: Seq<char>)
    ensures
        forall|i: int|
            #![trigger tex_escaped(s)[i]]
            0 <= i < tex_escaped(s).len() && tex_active(tex_escaped(s)[i]) ==> i > 0
                && tex_escaped(s)[i - 1] == '\\',
    decreases s.len(),
{
    if s.len() > 0 {
        tex_escape_leaves_nothing_active(s.drop_last());
        let before = tex_escaped(s.drop_last());
        let now = tex_escaped(s);
        let more = tex_char(s.last());
        assert(now =~= before + more);
        reveal_strlit(r"\textbackslash{}");
        reveal_strlit(r"\{");
        reveal_strlit(r"\}");
        reveal_strlit(r"\$");
        reveal_strlit(r"\&");
        reveal_strlit(r"\#");
        reveal_strlit(r"\%");
        reveal_strlit(r"\^{}");
        reveal_strlit(r"\_");
        reveal_strlit(r"\~{}");
        assert forall|i: int| #![trigger now[i]] 0 <= i < now.len() && tex_active(now[i]) implies i
            > 0 && now[i - 1] == '\\' by {
            if i < before.len() {
                assert(now[i] == before[i]);
                assert(now[i - 1] == before[i - 1]);
            } else {
                let k = i - before.len();
                assert(now[i] == more[k]);
                if k > 0 {
                    assert(now[i - 1] == more[k - 1]);
                }
            }
        }
    }
}

// ---------------------------------------------------------------------------
// What escaping does
// ---------------------------------------------------------------------------

/// A text is escaped character by character, in both formats and in YAML.
pub proof fn escaping_goes_piece_by_piece(a: Seq<char>, b: Seq<char>)
    ensures
        md_escaped(a + b) == md_escaped(a) + md_escaped(b),
        yaml_escaped(a + b) == yaml_escaped(a) + yaml_escaped(b),
        tex_escaped(a + b) == tex_escaped(a) + tex_escaped(b),
{
    lemma_each_concat(a, b, |c: char| md_char(c));
    lemma_each_concat(a, b, |c: char| yaml_char(c));
    lemma_each_concat(a, b, |c: char| tex_char(c));
}

/// A character that means nothing to a format is left as it is, and every other one is shown by
/// itself behind a backslash; only a line break in a table cell becomes a blank, and only a
/// backslash in LaTeX is spelled out.
pub proof fn a_special_character_is_escaped_as_itself(c: char)
    ensures
        ({
            let md = md_escaped(seq![c]);
            &&& md == seq!['\\', c] <==> c == '|'
            &&& md == seq![' '] <==> c == '\n' || c == '\r' || c == ' '
            &&& md == seq![c] <==> c != '|' && c != '\n' && c != '\r'
        }),
        ({
            let y = yaml_escaped(seq![c]);
            &&& y == seq!['\\', c] <==> c == '"' || c == '\\'
            &&& y == seq![c] <==> c != '"' && c != '\\'
        }),
        ({
            let t = tex_escaped(seq![c]);
            &&& t == seq![c] <==> !tex_active(c) && c != '\\' && c != '{' && c != '}'
            &&& t == seq!['\\', c] <==> c == '{' || c == '}' || c == '$' || c == '&' || c == '#'
                || c == '%' || c == '_'
            &&& t == seq!['\\', c, '{', '}'] <==> c == '^' || c == '~'
            &&& c == '\\' ==> t == r"\textbackslash{}"@
        }),
{
    let one = seq![c];
    assert(one.drop_last() =~= Seq::empty());
    reveal_with_fuel(each, 2);
    assert(one.last() == c);
    assert(md_escaped(one) =~= Seq::<char>::empty() + md_char(c));
    assert(yaml_escaped(one) =~= Seq::<char>::empty() + yaml_char(c));
    assert(tex_escaped(one) =~= Seq::<char>::empty() + tex_char(c));
    assert(Seq::<char>::empty() + md_char(c) =~= md_char(c));
    assert(Seq::<char>::empty() + yaml_char(c) =~= yaml_char(c));
    assert(Seq::<char>::empty() + tex_char(c) =~= tex_char(c));
    reveal_strlit(r"\textbackslash{}");
    reveal_strlit(r"\{");
    reveal_strlit(r"\}");
    reveal_strlit(r"\$");
    reveal_strlit(r"\&");
    reveal_strlit(r"\#");
    reveal_strlit(r"\%");
    reveal_strlit(r"\^{}");
    reveal_strlit(r"\_");
    reveal_strlit(r"\~{}");
    assert(r"\{"@ =~= seq!['\\', '{']);
    assert(r"\}"@ =~= seq!['\\', '}']);
    assert(r"\$"@ =~= seq!['\\', '$']);
    assert(r"\&"@ =~= seq!['\\', '&']);
    assert(r"\#"@ =~= seq!['\\', '#']);
    assert(r"\%"@ =~= seq!['\\', '%']);
    assert(r"\_"@ =~= seq!['\\', '_']);
    assert(r"\^{}"@ =~= seq!['\\', '^', '{', '}']);
    assert(r"\~{}"@ =~= seq!['\\', '~', '{', '}']);
    assert(r"\textbackslash{}"@.len() == 16);
    let md = md_char(c);
    let y = yaml_char(c);
    let t = tex_char(c);
    let two = seq!['\\', c];
    let four = seq!['\\', c, '{', '}'];
    assert(two.len() == 2 && one.len() == 1 && four.len() == 4);
    assert(seq![' '][0] == ' ');
    assert(one[0] == c);
    assert(two[0] == '\\' && two[1] == c);
}

/// A text without special characters is not changed.
pub proof fn a_harmless_text_stays(s: Seq<char>)
    ensures
        (forall|i: int|
            0 <= i < s.len() ==> #[trigger] s[i] != '|' && s[i] != '\n' && s[i] != '\r')
            ==> md_escaped(s) == s,
        (forall|i: int| 0 <= i < s.len() ==> #[trigger] s[i] != '"' && s[i] != '\\')
            ==> yaml_escaped(s) == s,
        (forall|i: int|
            0 <= i < s.len() ==> !tex_active(#[trigger] s[i]) && s[i] != '\\' && s[i] != '{' && s[i]
                != '}') ==> tex_escaped(s) == s,
    decreases s.len(),
{
    if s.len() == 0 {
        assert(s =~= Seq::empty());
    } else {
        a_harmless_text_stays(s.drop_last());
        assert forall|i: int| 0 <= i < s.drop_last().len() implies s.drop_last()[i] == s[i] by {}
        assert(s[s.len() - 1] == s.last());
        assert(s =~= s.drop_last() + seq![s.last()]);
    }
}

} // verus!
