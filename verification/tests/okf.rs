use athena::dossier::citations::cites_to_footnotes;
use athena::dossier::okf::okf_check;

#[test]
fn broken_links_warn_but_never_block_publication() {
    // OKF LINK_TOL: links are warnings, so a dangling citation must NOT
    // make the document invalid.
    let doc = "---\ntype: X\n---\nbody citing [^nowhere] and gs://\n";
    let c = okf_check(doc);
    assert!(c.ok(), "must remain valid: {:?}", c.violations);
    assert!(
        c.warnings.iter().any(|w| w.contains("[^nowhere]")),
        "dangling citation must warn: {:?}",
        c.warnings
    );
    assert!(
        c.warnings.iter().any(|w| w.contains("malformed URI")),
        "bare scheme must warn: {:?}",
        c.warnings
    );

    // A citation WITH a definition is silent.
    let ok = "---\ntype: X\n---\ncites [^src]\n\n[^src]: A title — <https://example.com/p>\n";
    assert!(
        okf_check(ok).warnings.is_empty(),
        "{:?}",
        okf_check(ok).warnings
    );
}

#[test]
fn authored_citations_are_rewritten_to_okf_footnotes() {
    assert_eq!(
        cites_to_footnotes("see [@smith24] here"),
        "see [^smith24] here"
    );
    // Malformed patterns are left exactly as authored rather than mangled.
    assert_eq!(
        cites_to_footnotes("[@] and [@unclosed"),
        "[@] and [@unclosed"
    );
    assert_eq!(cites_to_footnotes("no citations"), "no citations");
    // Multibyte content survives the scan.
    assert_eq!(cites_to_footnotes("σ rose [@a] — ok"), "σ rose [^a] — ok");
}

#[test]
fn okf_check_catches_each_hard_rule() {
    // FM_REQ — no opening delimiter at all.
    let v = okf_check("# Title\n\nbody").violations;
    assert!(
        v.iter().any(|x| x.starts_with("concept-frontmatter")),
        "{v:?}"
    );

    // FM_REQ — opened but never closed.
    let v = okf_check("---\ntype: X\nstill going").violations;
    assert!(v.iter().any(|x| x.contains("never closed")), "{v:?}");

    // TYPE_REQ — well-formed block, no type.
    let v = okf_check("---\ntitle: \"x\"\n---\nbody").violations;
    assert!(v.iter().any(|x| x.starts_with("concept-type")), "{v:?}");

    // TYPE_REQ — present but empty.
    let v = okf_check("---\ntype: \n---\nbody").violations;
    assert!(v.iter().any(|x| x.contains("empty")), "{v:?}");

    // LINK_TOL — a broken link is a WARNING in OKF, never a failure.
    assert!(okf_check("---\ntype: X\n---\n[dead](./nope.md)").ok());
}
