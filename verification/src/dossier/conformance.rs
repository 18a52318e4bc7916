//! A rendered dossier is a valid Open Knowledge Format document.

use vstd::prelude::*;
use crate::benchmark_run::BenchmarkRun;
use crate::dossier::curation::{kept, Curation};
use crate::dossier::escape::{yaml_char, yaml_escaped, yaml_quoted};
use crate::dossier::markdown::{
    about_text, cutoff_line, frontmatter_body, frontmatter_text, markdown, markdown_body,
    references_of, resource_line, source_text, sources_text, status_text, subject_of, version,
};
use crate::dossier::okf::{
    any_breaks_yaml, breaks_yaml, control_violations, fence_from, frontmatter, is_fence,
    stripped_all, type_line, type_value, unquoted_end, unquoted_start, violations_of,
};
use crate::dossier::parts::{cutoff_of, is_filled, rows, title_of};
use crate::experiment::Experiment;
use crate::experiment_template::ExperimentTemplate;
use crate::research_campaign::ResearchCampaign;
use crate::research_report::{Reference, ReportMotivation, ReportSubject};
use crate::text::{
    control, first_of, lemma_first_of, lemma_first_of_unique, lines_of, trimmed, trimmed_end,
    trimmed_start, without_cr,
};

verus! {

broadcast use vstd::seq_lib::group_seq_properties;

/// The text holds no control character but tabs and line feeds.
pub open spec fn tame(s: Seq<char>) -> bool {
    forall|i: int| 0 <= i < s.len() ==> !control(#[trigger] s[i]) || s[i] == '\t' || s[i] == '\n'
}

/// The text, where there is one, is tame.
pub open spec fn tame_if_any(o: Option<String>) -> bool {
    o matches Some(s) ==> tame(s@)
}

/// What a reference puts into the frontmatter is tame.
pub open spec fn tame_reference(r: Reference) -> bool {
    &&& tame(r.key@)
    &&& tame(r.title@)
    &&& tame_if_any(r.url)
    &&& tame_if_any(r.doi)
    &&& tame_if_any(r.supports)
}

/// Everything that the caller puts into the frontmatter is tame.
pub open spec fn tame_inputs(
    campaign_name: Seq<char>,
    namespace: Seq<char>,
    exps: Seq<Experiment>,
    curation: Option<&Curation>,
) -> bool {
    &&& tame(campaign_name)
    &&& tame(namespace)
    &&& tame(title_of(curation, campaign_name))
    &&& cutoff_of(exps) matches Some(t) ==> tame(t)
    &&& subject_of(curation) matches Some(a) ==> tame(a.kind@) && tame(a.name@)
    &&& forall|i: int|
        0 <= i < references_of(curation).len() ==> tame_reference(
            #[trigger] references_of(curation)[i],
        )
}

// ---------------------------------------------------------------------------
// Lines
// ---------------------------------------------------------------------------

/// Lines of a text that ends with a line feed, and of what follows it.
pub proof fn lines_concat(a: Seq<char>, b: Seq<char>)
    requires
        a.len() > 0,
        a.last() == '\n',
    ensures
        lines_of(a + b) == lines_of(a) + lines_of(b),
    decreases a.len(),
{
    let k = first_of(a, '\n');
    lemma_first_of(a, '\n');
    assert(k < a.len());
    let s = a + b;
    lemma_first_of_unique(s, '\n', k);
    let rest = a.skip(k + 1);
    assert(s.take(k) =~= a.take(k));
    assert(s.skip(k + 1) =~= rest + b);
    if rest.len() > 0 {
        lines_concat(rest, b);
        assert(seq![without_cr(a.take(k))] + (lines_of(rest) + lines_of(b)) =~= seq![
            without_cr(a.take(k)),
        ] + lines_of(rest) + lines_of(b));
    } else {
        assert(rest + b =~= b);
        assert(lines_of(rest) =~= Seq::empty());
        assert(lines_of(a) =~= seq![without_cr(a.take(k))]);
    }
}

proof fn lemma_tame_lines(s: Seq<char>)
    requires
        tame(s),
    ensures
        forall|i: int| 0 <= i < lines_of(s).len() ==> !breaks_yaml(#[trigger] lines_of(s)[i]),
    decreases s.len(),
{
    if s.len() > 0 {
        let k = first_of(s, '\n');
        lemma_first_of(s, '\n');
        let ls = lines_of(s);
        if k < s.len() {
            let head = without_cr(s.take(k));
            let rest = s.skip(k + 1);
            assert(tame(rest)) by {
                assert forall|i: int| 0 <= i < rest.len() implies !control(#[trigger] rest[i])
                    || rest[i] == '\t' || rest[i] == '\n' by {
                    assert(rest[i] == s[i + k + 1]);
                }
            }
            lemma_tame_lines(rest);
            assert(!breaks_yaml(head)) by {
                assert forall|i: int| 0 <= i < head.len() implies !(control(#[trigger] head[i])
                    && head[i] != '\t') by {
                    assert(head[i] == s[i]);
                }
            }
            assert forall|i: int| 0 <= i < ls.len() implies !breaks_yaml(#[trigger] ls[i]) by {
                if i > 0 {
                    assert(ls[i] == lines_of(rest)[i - 1]);
                }
            }
        } else {
            assert forall|i: int| 0 <= i < s.len() implies !(control(#[trigger] s[i]) && s[i]
                != '\t') by {
                assert(s[i] != '\n');
            }
            assert(ls =~= seq![s]);
        }
    }
}

proof fn lemma_fence_from(ls: Seq<Seq<char>>, i: int, j: int)
    requires
        0 <= i <= j < ls.len(),
        is_fence(ls[j]),
    ensures
        fence_from(ls, i) is Some,
        i <= fence_from(ls, i)->0 <= j,
        is_fence(ls[fence_from(ls, i)->0]),
    decreases j - i,
{
    if !is_fence(ls[i]) {
        lemma_fence_from(ls, i + 1, j);
    }
}

// ---------------------------------------------------------------------------
// Tame texts
// ---------------------------------------------------------------------------

proof fn lemma_tame_concat(a: Seq<char>, b: Seq<char>)
    requires
        tame(a),
        tame(b),
    ensures
        tame(a + b),
{
    let s = a + b;
    assert forall|i: int| 0 <= i < s.len() implies !control(#[trigger] s[i]) || s[i] == '\t'
        || s[i] == '\n' by {
        if i < a.len() {
            assert(s[i] == a[i]);
        } else {
            assert(s[i] == b[i - a.len()]);
        }
    }
}

proof fn lemma_tame_escaped(s: Seq<char>)
    requires
        tame(s),
    ensures
        tame(yaml_escaped(s)),
    decreases s.len(),
{
    if s.len() > 0 {
        let t = s.drop_last();
        assert(tame(t)) by {
            assert forall|i: int| 0 <= i < t.len() implies !control(#[trigger] t[i]) || t[i] == '\t'
                || t[i] == '\n' by {
                assert(t[i] == s[i]);
            }
        }
        lemma_tame_escaped(t);
        let c = s[s.len() - 1];
        assert(!control(c) || c == '\t' || c == '\n');
        assert(tame(yaml_char(c)));
        lemma_tame_concat(yaml_escaped(t), yaml_char(c));
    }
}

proof fn lemma_tame_quoted(s: Seq<char>)
    requires
        tame(s),
    ensures
        tame(yaml_quoted(s)),
{
    lemma_tame_escaped(s);
    lemma_tame_concat(seq!['"'], yaml_escaped(s));
    lemma_tame_concat(seq!['"'] + yaml_escaped(s), seq!['"']);
}

proof fn lemma_tame_between(before: Seq<char>, s: Seq<char>, after: Seq<char>)
    requires
        tame(before),
        tame(s),
        tame(after),
    ensures
        tame(before + yaml_quoted(s) + after),
{
    lemma_tame_quoted(s);
    lemma_tame_concat(before, yaml_quoted(s));
    lemma_tame_concat(before + yaml_quoted(s), after);
}

proof fn lemma_tame_motivation(m: ReportMotivation)
    ensures
        tame("  motivation: "@ + m.named() + "\n"@),
{
    reveal_strlit("  motivation: ");
    reveal_strlit("\n");
    reveal_strlit("Assessing");
    reveal_strlit("Bookmarking");
    reveal_strlit("Classifying");
    reveal_strlit("Commenting");
    reveal_strlit("Describing");
    reveal_strlit("Editing");
    reveal_strlit("Highlighting");
    reveal_strlit("Identifying");
    reveal_strlit("Linking");
    reveal_strlit("Moderating");
    reveal_strlit("Questioning");
    reveal_strlit("Replying");
    reveal_strlit("Tagging");
    assert(tame("  motivation: "@));
    assert(tame(m.named()));
    assert(tame("\n"@));
    lemma_tame_concat("  motivation: "@, m.named());
    lemma_tame_concat("  motivation: "@ + m.named(), "\n"@);
}

proof fn lemma_about(about: Option<&ReportSubject>)
    requires
        about matches Some(a) ==> tame(a.kind@) && tame(a.name@),
    ensures
        tame(about_text(about)),
{
    if let Some(a) = about {
        reveal_strlit("about:\n  kind: ");
        reveal_strlit("\n  name: ");
        reveal_strlit("\n");
        let head = "about:\n  kind: "@ + yaml_quoted(a.kind@) + "\n  name: "@;
        lemma_tame_between("about:\n  kind: "@, a.kind@, "\n  name: "@);
        lemma_tame_between(head, a.name@, "\n"@);
        let tail = match a.motivation {
            Some(m) => "  motivation: "@ + m.named() + "\n"@,
            None => Seq::empty(),
        };
        if let Some(m) = a.motivation {
            lemma_tame_motivation(m);
        }
        lemma_tame_concat(head + yaml_quoted(a.name@) + "\n"@, tail);
    }
}

proof fn lemma_about_ends(about: Option<&ReportSubject>)
    ensures
        about_text(about).len() > 0 ==> about_text(about).last() == '\n',
{
    reveal_strlit("\n");
}

proof fn lemma_source(r: Reference)
    requires
        tame_reference(r),
    ensures
        tame(source_text(r)),
{
    reveal_strlit("  - id: ");
    reveal_strlit("\n");
    reveal_strlit("    resource: ");
    reveal_strlit("https://doi.org/");
    reveal_strlit("    title: ");
    reveal_strlit("    supports: ");
    lemma_tame_between("  - id: "@, r.key@, "\n"@);
    let a = "  - id: "@ + yaml_quoted(r.key@) + "\n"@;
    assert(tame(resource_line(r))) by {
        if is_filled(r.url) {
            lemma_tame_between("    resource: "@, r.url->0@, "\n"@);
        } else if is_filled(r.doi) {
            lemma_tame_concat("https://doi.org/"@, r.doi->0@);
            lemma_tame_between("    resource: "@, "https://doi.org/"@ + r.doi->0@, "\n"@);
        }
    }
    lemma_tame_concat(a, resource_line(r));
    lemma_tame_concat(a + resource_line(r), "    title: "@);
    lemma_tame_between(a + resource_line(r) + "    title: "@, r.title@, "\n"@);
    let b = a + resource_line(r) + "    title: "@ + yaml_quoted(r.title@) + "\n"@;
    let tail = if is_filled(r.supports) {
        "    supports: "@ + yaml_quoted(r.supports->0@) + "\n"@
    } else {
        Seq::empty()
    };
    if is_filled(r.supports) {
        lemma_tame_between("    supports: "@, r.supports->0@, "\n"@);
    }
    lemma_tame_concat(b, tail);
}

proof fn lemma_source_ends(r: Reference)
    ensures
        source_text(r).len() > 0,
        source_text(r).last() == '\n',
{
    reveal_strlit("\n");
}

proof fn lemma_source_rows(refs: Seq<Reference>)
    ensures
        (forall|i: int| 0 <= i < refs.len() ==> tame_reference(#[trigger] refs[i])) ==> tame(
            rows(refs, |r: Reference| source_text(r)),
        ),
        refs.len() > 0 ==> rows(refs, |r: Reference| source_text(r)).len() > 0 && rows(
            refs,
            |r: Reference| source_text(r),
        ).last() == '\n',
    decreases refs.len(),
{
    if refs.len() > 0 {
        let f = |r: Reference| source_text(r);
        let t = refs.drop_last();
        lemma_source_rows(t);
        lemma_source_ends(refs.last());
        assert(rows(refs, f) == rows(t, f) + source_text(refs.last()));
        if forall|i: int| 0 <= i < refs.len() ==> tame_reference(#[trigger] refs[i]) {
            assert forall|i: int| 0 <= i < t.len() implies tame_reference(#[trigger] t[i]) by {
                assert(t[i] == refs[i]);
            }
            assert(tame_reference(refs[refs.len() - 1]));
            lemma_source(refs.last());
            lemma_tame_concat(rows(t, f), source_text(refs.last()));
        }
    }
}

proof fn lemma_sources(refs: Seq<Reference>)
    ensures
        (forall|i: int| 0 <= i < refs.len() ==> tame_reference(#[trigger] refs[i])) ==> tame(
            sources_text(refs),
        ),
        sources_text(refs).len() > 0 ==> sources_text(refs).last() == '\n',
{
    if refs.len() > 0 {
        reveal_strlit("sources:\n");
        lemma_source_rows(refs);
        assert(tame("sources:\n"@));
        if forall|i: int| 0 <= i < refs.len() ==> tame_reference(#[trigger] refs[i]) {
            lemma_tame_concat("sources:\n"@, rows(refs, |r: Reference| source_text(r)));
        }
    }
}

proof fn lemma_status(campaign: ResearchCampaign)
    ensures
        tame(status_text(campaign)),
{
    reveal_strlit("stable");
    reveal_strlit("draft");
}

/// The frontmatter up to the subject.
spec fn front_head(
    title: Seq<char>,
    status: Seq<char>,
    cutoff: Option<Seq<char>>,
    campaign_name: Seq<char>,
    namespace: Seq<char>,
) -> Seq<char> {
    "type: Research Report\ntitle: "@ + yaml_quoted(title) + "\nstatus: "@ + status
        + "\ngenerated:\n  by: athena/"@ + version() + "\n"@ + cutoff_line(cutoff)
        + "tags:\n  - campaign/"@ + campaign_name + "\n  - namespace/"@ + namespace + "\n"@
}

proof fn lemma_head_tame(
    title: Seq<char>,
    status: Seq<char>,
    cutoff: Option<Seq<char>>,
    campaign_name: Seq<char>,
    namespace: Seq<char>,
)
    requires
        tame(title),
        tame(status),
        cutoff matches Some(t) ==> tame(t),
        tame(campaign_name),
        tame(namespace),
    ensures
        tame(front_head(title, status, cutoff, campaign_name, namespace)),
{
    reveal_strlit("type: Research Report\ntitle: ");
    reveal_strlit("\nstatus: ");
    reveal_strlit("\ngenerated:\n  by: athena/");
    reveal_strlit("0.1.0");
    reveal_strlit("\n");
    reveal_strlit("  at: ");
    reveal_strlit("tags:\n  - campaign/");
    reveal_strlit("\n  - namespace/");
    lemma_tame_between("type: Research Report\ntitle: "@, title, "\nstatus: "@);
    let a = "type: Research Report\ntitle: "@ + yaml_quoted(title) + "\nstatus: "@;
    lemma_tame_concat(a, status);
    let b = a + status;
    lemma_tame_concat(b, "\ngenerated:\n  by: athena/"@);
    let c = b + "\ngenerated:\n  by: athena/"@;
    lemma_tame_concat(c, version());
    lemma_tame_concat(c + version(), "\n"@);
    let d = c + version() + "\n"@;
    if let Some(t) = cutoff {
        lemma_tame_concat("  at: "@, t);
        lemma_tame_concat("  at: "@ + t, "\n"@);
    }
    lemma_tame_concat(d, cutoff_line(cutoff));
    let e = d + cutoff_line(cutoff);
    lemma_tame_concat(e, "tags:\n  - campaign/"@);
    let f = e + "tags:\n  - campaign/"@;
    lemma_tame_concat(f, campaign_name);
    lemma_tame_concat(f + campaign_name, "\n  - namespace/"@);
    let g = f + campaign_name + "\n  - namespace/"@;
    lemma_tame_concat(g, namespace);
    lemma_tame_concat(g + namespace, "\n"@);
}

/// The frontmatter begins with its type and ends with a line feed.
proof fn lemma_body_shape(
    title: Seq<char>,
    status: Seq<char>,
    cutoff: Option<Seq<char>>,
    campaign_name: Seq<char>,
    namespace: Seq<char>,
    about: Option<&ReportSubject>,
    refs: Seq<Reference>,
)
    ensures
        ({
            let f = frontmatter_body(
                title,
                status,
                cutoff,
                campaign_name,
                namespace,
                about,
                refs,
            );
            &&& f.len() > 0
            &&& f.last() == '\n'
            &&& "type: Research Report\n"@.is_prefix_of(f)
        }),
{
    reveal_strlit("\n");
    reveal_strlit("type: Research Report\n");
    reveal_strlit("type: Research Report\ntitle: ");
    lemma_about_ends(about);
    lemma_sources(refs);
    let h = front_head(title, status, cutoff, campaign_name, namespace);
    let f = frontmatter_body(title, status, cutoff, campaign_name, namespace, about, refs);
    assert(f == h + about_text(about) + sources_text(refs));
    assert(h.last() == '\n');
    let lit = "type: Research Report\ntitle: "@;
    let rest = yaml_quoted(title);
    assert(h.len() >= lit.len());
    lemma_head_begins(title, status, cutoff, campaign_name, namespace);
    let p = "type: Research Report\n"@;
    assert(p =~= lit.take(p.len() as int));
    assert(p =~= f.take(p.len() as int)) by {
        assert forall|i: int| 0 <= i < p.len() implies p[i] == f[i] by {
            assert(f[i] == h[i]);
            assert(h[i] == lit[i]);
        }
    }
}

proof fn lemma_head_begins(
    title: Seq<char>,
    status: Seq<char>,
    cutoff: Option<Seq<char>>,
    campaign_name: Seq<char>,
    namespace: Seq<char>,
)
    ensures
        ({
            let h = front_head(title, status, cutoff, campaign_name, namespace);
            let lit = "type: Research Report\ntitle: "@;
            &&& h.len() >= lit.len()
            &&& forall|i: int| 0 <= i < lit.len() ==> h[i] == lit[i]
        }),
{
    let h = front_head(title, status, cutoff, campaign_name, namespace);
    let lit = "type: Research Report\ntitle: "@;
    let rest = yaml_quoted(title) + "\nstatus: "@ + status + "\ngenerated:\n  by: athena/"@
        + version() + "\n"@ + cutoff_line(cutoff) + "tags:\n  - campaign/"@ + campaign_name
        + "\n  - namespace/"@ + namespace + "\n"@;
    assert(h =~= lit + rest);
}

/// The line that begins the frontmatter gives a type.
proof fn lemma_type_line()
    ensures
        ({
            let line = "type: Research Report"@;
            &&& "type:"@.is_prefix_of(line)
            &&& !is_fence(line)
            &&& type_value(line) == "Research Report"@
            &&& type_value(line).len() > 0
        }),
{
    reveal_strlit("type: Research Report");
    reveal_strlit("type:");
    reveal_strlit("Research Report");
    reveal_strlit("---");
    let line = "type: Research Report"@;
    let p = "type:"@;
    assert(p =~= line.take(5));
    assert(line.last() == 't');
    assert(trimmed_end(line) == line);
    let rest = line.skip(5);
    assert(rest[0] == ' ');
    assert(!p.is_prefix_of(rest)) by {
        assert(p[0] == 't');
    }
    assert(stripped_all(rest, p) == rest);
    assert(stripped_all(line, p) == rest);
    let value = rest.drop_first();
    assert(value =~= "Research Report"@);
    assert(value[0] == 'R');
    assert(value.last() == 't');
    assert(trimmed_start(value) == value);
    assert(trimmed_start(rest) == value);
    assert(trimmed_end(value) == value);
    assert(trimmed(rest) == value);
    assert(unquoted_start(value) == value);
    assert(unquoted_end(value) == value);
}

/// A document that begins with a fence, a body with a type line first, and a fence.
#[verifier::spinoff_prover]
#[verifier::rlimit(60)]
proof fn lemma_document(f: Seq<char>, rest: Seq<char>)
    requires
        f.len() > 0,
        f.last() == '\n',
        "type: Research Report\n"@.is_prefix_of(f),
    ensures
        ({
            let doc = "---\n"@ + f + "---\n\n"@ + rest;
            &&& frontmatter(doc) is Some
            &&& violations_of(doc) == control_violations(frontmatter(doc)->0)
            &&& tame(f) ==> violations_of(doc).len() == 0
        }),
{
    reveal_strlit("---\n");
    reveal_strlit("---\n\n");
    reveal_strlit("---");
    reveal_strlit("type: Research Report\n");
    reveal_strlit("type: Research Report");
    let open = "---\n"@;
    let close = "---\n\n"@;
    let doc = open + f + close + rest;
    assert(doc =~= open + (f + (close + rest)));
    lines_concat(open, f + (close + rest));
    lines_concat(f, close + rest);
    // the opening fence
    lemma_first_of_unique(open, '\n', 3);
    assert(open.take(3) =~= "---"@);
    assert(open.skip(4) =~= Seq::empty());
    assert(lines_of(open.skip(4)) =~= Seq::empty());
    assert(lines_of(open) =~= seq!["---"@]);
    assert("---"@.last() == '-');
    assert(trimmed_end("---"@) == "---"@);
    // the closing fence
    let tail = close + rest;
    lemma_first_of_unique(tail, '\n', 3);
    assert(tail.take(3) =~= "---"@);
    let tl = lines_of(tail);
    assert(tl[0] == "---"@);
    // the type line
    let line = "type: Research Report"@;
    let p = "type: Research Report\n"@;
    let n = line.len() as int;
    assert(p =~= line.push('\n'));
    assert forall|j: int| 0 <= j < p.len() implies f[j] == p[j] by {
        assert(f.take(p.len() as int)[j] == p[j]);
    }
    assert forall|j: int| 0 <= j < n implies f[j] != '\n' by {
        assert(f[j] == line[j]);
        assert(line[j] != '\n');
    }
    assert(f[n] == '\n');
    lemma_first_of_unique(f, '\n', n);
    assert(f.take(n) =~= line);
    assert(without_cr(line) == line);
    let fl = lines_of(f);
    assert(fl[0] == line);
    lemma_type_line();
    // the frontmatter
    let ls = lines_of(doc);
    assert(ls =~= seq!["---"@] + (fl + tl));
    let j = 1 + fl.len();
    assert(ls[0] == "---"@);
    assert(ls[1] == line);
    assert(ls[j as int] == tl[0]);
    lemma_fence_from(ls, 1, j as int);
    let k = fence_from(ls, 1)->0;
    assert(k > 1);
    let fm = ls.subrange(1, k);
    assert(frontmatter(doc) == Some(fm));
    assert(fm[0] == line);
    assert(type_line(fm) == Some(line));
    assert(violations_of(doc) =~= control_violations(fm));
    if tame(f) {
        lemma_tame_lines(f);
        assert forall|i: int| 0 <= i < fm.len() implies !breaks_yaml(#[trigger] fm[i]) by {
            assert(fm[i] == fl[i]);
        }
        assert(!any_breaks_yaml(fm));
    }
}

/// A rendered dossier always has a closed frontmatter with a type: the one hard rule that it
/// can break is that on control characters. Where what goes into the frontmatter holds none
/// but tabs and line feeds, the dossier is a valid OKF document, whatever its title, subject
/// and sources say.
pub proof fn rendered_dossier_is_valid_okf(
    campaign_name: Seq<char>,
    namespace: Seq<char>,
    campaign: ResearchCampaign,
    template: ExperimentTemplate,
    experiments: Seq<Experiment>,
    runs: Map<Seq<char>, Seq<BenchmarkRun>>,
    curation: Option<&Curation>,
)
    ensures
        ({
            let doc = markdown(
                campaign_name,
                namespace,
                campaign,
                template,
                experiments,
                runs,
                curation,
            );
            &&& frontmatter(doc) is Some
            &&& violations_of(doc) == control_violations(frontmatter(doc)->0)
            &&& tame_inputs(campaign_name, namespace, kept(experiments, curation), curation)
                ==> violations_of(doc).len() == 0
        }),
{
    let exps = kept(experiments, curation);
    let title = title_of(curation, campaign_name);
    let status = status_text(campaign);
    let cutoff = cutoff_of(exps);
    let about = subject_of(curation);
    let refs = references_of(curation);
    let f = frontmatter_body(title, status, cutoff, campaign_name, namespace, about, refs);
    let body = markdown_body(
        campaign_name,
        namespace,
        campaign,
        template,
        experiments,
        runs,
        curation,
    );
    assert(frontmatter_text(campaign_name, namespace, campaign, exps, curation) == "---\n"@ + f
        + "---\n\n"@);
    lemma_body_shape(title, status, cutoff, campaign_name, namespace, about, refs);
    lemma_document(f, body);
    if tame_inputs(campaign_name, namespace, exps, curation) {
        let h = front_head(title, status, cutoff, campaign_name, namespace);
        lemma_status(campaign);
        lemma_head_tame(title, status, cutoff, campaign_name, namespace);
        lemma_about(about);
        lemma_sources(refs);
        lemma_tame_concat(h, about_text(about));
        lemma_tame_concat(h + about_text(about), sources_text(refs));
    }
}

} // verus!
