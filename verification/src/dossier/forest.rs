//! The derivation forest of a campaign: which experiment came from which.

use vstd::prelude::*;
use crate::dossier::curation::{derefs, parent_of};
use crate::experiment::{Experiment, ExperimentLineage, ParameterDelta};
use crate::json::float_of;
use crate::numeral::{decimal, decimal_of};
use crate::text::{
    join, joined, lemma_shows_back, lemma_shows_front, lemma_shows_itself, lemma_shows_joined,
    lemma_shows_part, same, shows,
};
use crate::textset::TextSet;

verus! {

broadcast use vstd::seq_lib::group_seq_properties;

/// One node of the derivation forest.
#[derive(Debug)]
pub struct TreeNode<'a> {
    pub exp: &'a Experiment,
    pub children: Vec<TreeNode<'a>>,
}

/// An experiment with what derives from it.
pub ghost struct Tree {
    pub exp: Experiment,
    pub children: Seq<Tree>,
}

impl<'a> TreeNode<'a> {
    /// The tree of which the node is the root.
    pub open spec fn tree(self) -> Tree
        decreases self,
    {
        Tree { exp: *self.exp, children: trees(self.children@) }
    }
}

/// The trees of which the nodes are the roots.
pub open spec fn trees(nodes: Seq<TreeNode>) -> Seq<Tree>
    decreases nodes,
{
    if nodes.len() == 0 {
        Seq::empty()
    } else {
        trees(nodes.drop_last()).push(nodes[nodes.len() - 1].tree())
    }
}

/// An experiment has the name.
pub open spec fn present(exps: Seq<Experiment>, name: Seq<char>) -> bool {
    exists|i: int| 0 <= i < exps.len() && (#[trigger] exps[i]).metadata.named() == name
}

/// The experiment has a lineage, and a parent of that lineage is not among the experiments.
pub open spec fn is_root(exps: Seq<Experiment>, e: Experiment) -> bool {
    e.spec.lineage is Some && (parent_of(e) matches Some(p) ==> !present(exps, p))
}

/// The roots, in the order of the experiments.
pub open spec fn roots(exps: Seq<Experiment>) -> Seq<Experiment> {
    exps.filter(|e: Experiment| is_root(exps, e))
}

/// The experiments that name `name` as their parent, in their order.
pub open spec fn children_in(exps: Seq<Experiment>, name: Seq<char>) -> Seq<Experiment> {
    exps.filter(|e: Experiment| parent_of(e) == Some(name))
}

/// The tree under `e`, down to `fuel` generations.
pub open spec fn grown(exps: Seq<Experiment>, e: Experiment, fuel: nat) -> Tree
    decreases fuel, 0nat,
{
    Tree {
        exp: e,
        children: if fuel == 0 {
            Seq::empty()
        } else {
            grown_all(exps, children_in(exps, e.metadata.named()), (fuel - 1) as nat)
        },
    }
}

/// The trees under the experiments of `s`, down to `fuel` generations.
pub open spec fn grown_all(exps: Seq<Experiment>, s: Seq<Experiment>, fuel: nat) -> Seq<Tree>
    decreases fuel, s.len() + 1,
{
    if s.len() == 0 {
        Seq::empty()
    } else {
        grown_all(exps, s.drop_last(), fuel).push(grown(exps, s.last(), fuel))
    }
}

/// The derivation forest. No line of descent without a repeated name is longer than the
/// list of experiments.
pub open spec fn forest(exps: Seq<Experiment>) -> Seq<Tree> {
    grown_all(exps, roots(exps), exps.len())
}

/// The names at generation `k` below the roots.
pub open spec fn level(exps: Seq<Experiment>, k: nat) -> Set<Seq<char>>
    decreases k,
{
    if k == 0 {
        Set::new(
            |name: Seq<char>|
                exists|i: int|
                    0 <= i < exps.len() && is_root(exps, #[trigger] exps[i])
                        && exps[i].metadata.named() == name,
        )
    } else {
        Set::new(
            |name: Seq<char>|
                exists|i: int|
                    0 <= i < exps.len() && exps[i].metadata.named() == name && (parent_of(
                        #[trigger] exps[i],
                    ) matches Some(p) && level(exps, (k - 1) as nat).contains(p)),
        )
    }
}

/// No line of descent from a root runs into a cycle: after as many generations as there are
/// experiments, none is left.
pub open spec fn grounded(exps: Seq<Experiment>) -> bool {
    forall|name: Seq<char>| !#[trigger] level(exps, exps.len()).contains(name)
}

/// The children of every node of the tree are all the experiments that name it as parent.
pub open spec fn complete(exps: Seq<Experiment>, t: Tree) -> bool
    decreases t,
{
    let kids = children_in(exps, t.exp.metadata.named());
    &&& t.children.len() == kids.len()
    &&& forall|i: int|
        0 <= i < t.children.len() ==> (#[trigger] t.children[i]).exp == kids[i] && complete(
            exps,
            t.children[i],
        )
}

proof fn lemma_grown_all(exps: Seq<Experiment>, s: Seq<Experiment>, fuel: nat)
    ensures
        grown_all(exps, s, fuel).len() == s.len(),
        forall|i: int|
            0 <= i < s.len() ==> #[trigger] grown_all(exps, s, fuel)[i] == grown(exps, s[i], fuel),
    decreases s.len(),
{
    if s.len() > 0 {
        lemma_grown_all(exps, s.drop_last(), fuel);
    }
}

proof fn lemma_child(exps: Seq<Experiment>, name: Seq<char>, k: int)
    requires
        0 <= k < children_in(exps, name).len(),
    ensures
        parent_of(children_in(exps, name)[k]) == Some(name),
        exps.contains(children_in(exps, name)[k]),
{
    let pred = |e: Experiment| parent_of(e) == Some(name);
    exps.filter_lemma(pred);
    assert(pred(exps.filter(pred)[k]));
    lemma_filter_selects(exps, pred, children_in(exps, name)[k]);
}

proof fn lemma_filter_selects(s: Seq<Experiment>, pred: spec_fn(Experiment) -> bool, e: Experiment)
    requires
        s.filter(pred).contains(e),
    ensures
        s.contains(e),
        pred(e),
    decreases s.len(),
{
    reveal(Seq::filter);
    if s.len() > 0 {
        let before = s.drop_last().filter(pred);
        if before.contains(e) {
            lemma_filter_selects(s.drop_last(), pred, e);
            let k = s.drop_last().index_of(e);
            assert(s[k] == e);
        } else {
            assert(s[s.len() - 1] == e);
        }
    }
}

/// A child stands one generation below its parent.
proof fn lemma_child_level(exps: Seq<Experiment>, name: Seq<char>, depth: nat, e: Experiment)
    requires
        level(exps, depth).contains(name),
        exps.contains(e),
        parent_of(e) == Some(name),
    ensures
        level(exps, depth + 1).contains(e.metadata.named()),
{
    let i = exps.index_of(e);
    assert(exps[i] == e);
}

proof fn lemma_grown_complete(exps: Seq<Experiment>, e: Experiment, fuel: nat, depth: nat)
    requires
        grounded(exps),
        depth + fuel == exps.len(),
        level(exps, depth).contains(e.metadata.named()),
    ensures
        complete(exps, grown(exps, e, fuel)),
    decreases fuel,
{
    if fuel == 0 {
        assert(level(exps, exps.len()).contains(e.metadata.named()));
    } else {
        let name = e.metadata.named();
        let kids = children_in(exps, name);
        let t = grown(exps, e, fuel);
        lemma_grown_all(exps, kids, (fuel - 1) as nat);
        assert forall|i: int| 0 <= i < t.children.len() implies (#[trigger] t.children[i]).exp
            == kids[i] && complete(exps, t.children[i]) by {
            lemma_child(exps, name, i);
            lemma_child_level(exps, name, depth, kids[i]);
            lemma_grown_complete(exps, kids[i], (fuel - 1) as nat, depth + 1);
        }
    }
}

/// The trees of the forest are those of the roots, and every node of them has as children
/// all the experiments that name it as parent: no subtree is pruned.
pub proof fn forest_is_complete(exps: Seq<Experiment>)
    requires
        grounded(exps),
    ensures
        forest(exps).len() == roots(exps).len(),
        forall|i: int|
            0 <= i < forest(exps).len() ==> (#[trigger] forest(exps)[i]).exp == roots(exps)[i]
                && complete(exps, forest(exps)[i]),
{
    let n = exps.len();
    lemma_grown_all(exps, roots(exps), n);
    assert forall|i: int| 0 <= i < forest(exps).len() implies (#[trigger] forest(exps)[i]).exp
        == roots(exps)[i] && complete(exps, forest(exps)[i]) by {
        let r = roots(exps)[i];
        let pred = |e: Experiment| is_root(exps, e);
        assert(roots(exps).contains(r));
        lemma_filter_selects(exps, pred, r);
        let k = exps.index_of(r);
        assert(exps[k] == r);
        assert(is_root(exps, exps[k]));
        lemma_grown_complete(exps, r, n, 0);
    }
}

/// An experiment with a lineage is a root of the forest exactly where no experiment has the
/// name of its parent: a dangling parent makes a root, and hides nothing.
pub proof fn dangling_parents_become_roots(exps: Seq<Experiment>, e: Experiment)
    requires
        exps.contains(e),
        e.spec.lineage is Some,
    ensures
        roots(exps).contains(e) <==> (parent_of(e) matches Some(p) ==> !present(exps, p)),
        parent_of(e) matches Some(p) ==> children_in(exps, p).contains(e),
{
    let pred = |e: Experiment| is_root(exps, e);
    exps.filter_lemma(pred);
    let i = exps.index_of(e);
    assert(exps[i] == e);
    if pred(e) {
        assert(exps.filter(pred).contains(exps[i]));
    }
    if roots(exps).contains(e) {
        lemma_filter_selects(exps, pred, e);
    }
    if let Some(p) = parent_of(e) {
        let of_p = |e: Experiment| parent_of(e) == Some(p);
        exps.filter_lemma(of_p);
        assert(of_p(exps[i]));
        assert(exps.filter(of_p).contains(exps[i]));
    }
}

fn parent_is(e: &Experiment, name: &str) -> (r: bool)
    ensures
        r == (parent_of(*e) == Some(name@)),
{
    match &e.spec.lineage {
        Some(l) => match &l.parent {
            Some(p) => same(p.as_str(), name),
            None => false,
        },
        None => false,
    }
}

fn names_of(exps: &[&Experiment]) -> (r: TextSet)
    ensures
        forall|n: Seq<char>| #[trigger] r@.contains(n) <==> present(derefs(exps@), n),
{
    let mut names = TextSet::new();
    let ghost all = derefs(exps@);
    let mut i: usize = 0;
    while i < exps.len()
        invariant
            i <= exps.len(),
            all == derefs(exps@),
            forall|n: Seq<char>| #[trigger] names@.contains(n) <==> present(all.take(i as int), n),
        decreases exps.len() - i,
    {
        let name = exps[i].metadata.name_any();
        names.insert(name);
        proof {
            let prev = all.take(i as int);
            let next = all.take(i + 1);
            assert(next[i as int] == *exps@[i as int]);
            assert forall|n: Seq<char>| #[trigger] names@.contains(n) <==> present(next, n) by {
                if present(prev, n) {
                    let a = choose|a: int|
                        0 <= a < prev.len() && (#[trigger] prev[a]).metadata.named() == n;
                    assert(next[a] == prev[a]);
                }
                if present(next, n) {
                    let a = choose|a: int|
                        0 <= a < next.len() && (#[trigger] next[a]).metadata.named() == n;
                    if a < i {
                        assert(prev[a] == next[a]);
                    }
                }
            }
        }
        i = i + 1;
    }
    assert(all.take(i as int) =~= all);
    names
}

fn root_check(e: &Experiment, names: &TextSet, Ghost(all): Ghost<Seq<Experiment>>) -> (r: bool)
    requires
        forall|n: Seq<char>| #[trigger] names@.contains(n) <==> present(all, n),
    ensures
        r == is_root(all, *e),
{
    match &e.spec.lineage {
        Some(l) => match &l.parent {
            Some(p) => !names.contains(p.as_str()),
            None => true,
        },
        None => false,
    }
}

/// Whether no line of descent from a root runs into a cycle.
pub fn lineage_is_grounded(exps: &[&Experiment]) -> (r: bool)
    ensures
        r == grounded(derefs(exps@)),
{
    let ghost all = derefs(exps@);
    let names = names_of(exps);
    let mut here = TextSet::new();
    let mut i: usize = 0;
    while i < exps.len()
        invariant
            i <= exps.len(),
            all == derefs(exps@),
            forall|n: Seq<char>| #[trigger] names@.contains(n) <==> present(all, n),
            forall|n: Seq<char>| #[trigger]
                here@.contains(n) <==> exists|k: int|
                    0 <= k < i && is_root(all, #[trigger] all[k]) && all[k].metadata.named() == n,
        decreases exps.len() - i,
    {
        assert(all[i as int] == *exps@[i as int]);
        if root_check(exps[i], &names, Ghost(all)) {
            here.insert(exps[i].metadata.name_any());
        }
        i = i + 1;
    }
    assert(here@ =~= level(all, 0));
    let mut k: usize = 0;
    while k < exps.len()
        invariant
            k <= exps.len(),
            all == derefs(exps@),
            here@ == level(all, k as nat),
        decreases exps.len() - k,
    {
        let mut next = TextSet::new();
        let mut j: usize = 0;
        while j < exps.len()
            invariant
                j <= exps.len(),
                all == derefs(exps@),
                here@ == level(all, k as nat),
                forall|n: Seq<char>| #[trigger]
                    next@.contains(n) <==> exists|a: int|
                        0 <= a < j && all[a].metadata.named() == n && (parent_of(
                            #[trigger] all[a],
                        ) matches Some(p) && level(all, k as nat).contains(p)),
            decreases exps.len() - j,
        {
            let e = exps[j];
            assert(all[j as int] == *e);
            let below = match &e.spec.lineage {
                Some(l) => match &l.parent {
                    Some(p) => here.contains(p.as_str()),
                    None => false,
                },
                None => false,
            };
            if below {
                next.insert(e.metadata.name_any());
            }
            j = j + 1;
        }
        assert(next@ =~= level(all, (k + 1) as nat));
        here = next;
        k = k + 1;
    }
    proof {
        assert(here@ == level(all, all.len()));
        if here.elements().len() == 0 {
            assert(here@ =~= Set::empty());
        } else {
            assert(here.elements().contains(here.elements()[0]));
            assert(level(all, all.len()).contains(here.elements()[0]));
        }
    }
    here.is_empty()
}

/// The tree under `exp`, which stands `depth` generations below a root.
fn attach<'a>(
    exp: &'a Experiment,
    exps: &[&'a Experiment],
    fuel: usize,
    Ghost(depth): Ghost<nat>,
) -> (r: TreeNode<'a>)
    requires
        grounded(derefs(exps@)),
        depth + fuel == exps@.len(),
        level(derefs(exps@), depth).contains(exp.metadata.named()),
    ensures
        r.tree() == grown(derefs(exps@), *exp, fuel as nat),
    decreases fuel,
{
    let ghost all = derefs(exps@);
    let name = exp.metadata.name_any();
    let ghost pred = |e: Experiment| parent_of(e) == Some(name@);
    proof {
        if fuel == 0 {
            assert(level(all, all.len()).contains(exp.metadata.named()));
        }
    }
    let mut children: Vec<TreeNode<'a>> = Vec::new();
    let mut i: usize = 0;
    proof {
        reveal(Seq::filter);
        assert(trees(children@) =~= grown_all(all, all.take(0).filter(pred), (fuel - 1) as nat));
    }
    while i < exps.len()
        invariant
            i <= exps.len(),
            all == derefs(exps@),
            grounded(all),
            fuel > 0,
            depth + fuel == exps@.len(),
            name@ == exp.metadata.named(),
            level(all, depth).contains(name@),
            pred == (|e: Experiment| parent_of(e) == Some(name@)),
            trees(children@) == grown_all(all, all.take(i as int).filter(pred), (fuel - 1) as nat),
        decreases exps.len() - i,
    {
        let kid = exps[i];
        proof {
            reveal(Seq::filter);
            assert(all[i as int] == *kid);
            assert(all.take(i + 1).drop_last() =~= all.take(i as int));
            assert(all.take(i + 1).last() == *kid);
        }
        if parent_is(kid, name.as_str()) {
            proof {
                assert(all.contains(all[i as int]));
                lemma_child_level(all, name@, depth, *kid);
            }
            let node = attach(kid, exps, fuel - 1, Ghost(depth + 1));
            let ghost before = children@;
            children.push(node);
            proof {
                assert(children@.drop_last() =~= before);
                let upto = all.take(i as int).filter(pred);
                assert(upto.push(*kid).drop_last() =~= upto);
            }
        }
        i = i + 1;
    }
    assert(all.take(i as int) =~= all);
    TreeNode { exp, children }
}

/// Build the derivation forest from `spec.lineage.parent`.
///
/// Roots are nodes with no parent, or whose parent is not in this campaign
/// (a dangling edge — kept as a root rather than dropped, so a broken pointer
/// is visible in the document instead of silently pruning a subtree).
/// Experiments with no lineage at all are skipped; the caller reports that.
pub fn build_forest<'a>(exps: &[&'a Experiment]) -> (r: Vec<TreeNode<'a>>)
    requires
        grounded(derefs(exps@)),
    ensures
        trees(r@) == forest(derefs(exps@)),
{
    let ghost all = derefs(exps@);
    let names = names_of(exps);
    let mut out: Vec<TreeNode<'a>> = Vec::new();
    let ghost pred = |e: Experiment| is_root(all, e);
    let mut i: usize = 0;
    proof {
        reveal(Seq::filter);
        assert(trees(out@) =~= grown_all(all, all.take(0).filter(pred), all.len()));
    }
    while i < exps.len()
        invariant
            i <= exps.len(),
            all == derefs(exps@),
            grounded(all),
            pred == (|e: Experiment| is_root(all, e)),
            forall|n: Seq<char>| #[trigger] names@.contains(n) <==> present(all, n),
            trees(out@) == grown_all(all, all.take(i as int).filter(pred), all.len()),
        decreases exps.len() - i,
    {
        let e = exps[i];
        proof {
            reveal(Seq::filter);
            assert(all[i as int] == *e);
            assert(all.take(i + 1).drop_last() =~= all.take(i as int));
            assert(all.take(i + 1).last() == *e);
        }
        if root_check(e, &names, Ghost(all)) {
            assert(is_root(all, all[i as int]));
            assert(level(all, 0).contains(e.metadata.named()));
            let node = attach(e, exps, exps.len(), Ghost(0));
            let ghost before = out@;
            out.push(node);
            proof {
                assert(out@.drop_last() =~= before);
                let upto = all.take(i as int).filter(pred);
                assert(upto.push(*e).drop_last() =~= upto);
            }
        }
        i = i + 1;
    }
    assert(all.take(i as int) =~= all);
    out
}

// ---------------------------------------------------------------------------
// The forest as text
// ---------------------------------------------------------------------------

/// What moved, in the search tree's short form.
pub open spec fn move_text(d: ParameterDelta) -> Seq<char> {
    match d.factor {
        Some(f) => d.param@ + " x"@ + f.fixed2@,
        None => d.param@ + "="@ + d.to.fixed4@,
    }
}

/// What moved, in the search tree's short form.
pub open spec fn moves_text(ds: Seq<ParameterDelta>) -> Seq<char> {
    joined(ds.map_values(|d: ParameterDelta| move_text(d)), ", "@)
}

/// The best measurement of the experiment, or a hyphen.
pub open spec fn best_text(e: Experiment) -> Seq<char> {
    match e.status {
        Some(s) => match s.metrics_detail {
            Some(m) => match m.best {
                Some(j) => match float_of(j) {
                    Some(x) => x.fixed4@,
                    None => "-"@,
                },
                None => "-"@,
            },
            None => "-"@,
        },
        None => "-"@,
    }
}

/// What the search tree says of an experiment's lineage: its role, its generation, and
/// what moved.
pub open spec fn lineage_text(e: Experiment) -> (Seq<char>, Seq<char>, Seq<char>) {
    match e.spec.lineage {
        Some(l) => (
            l.relation.named(),
            match l.generation {
                Some(g) => " g"@ + decimal(g as nat),
                None => Seq::empty(),
            },
            moves_text(l.perturbations@),
        ),
        None => ("?"@, Seq::empty(), Seq::empty()),
    }
}

/// What the search tree says of one experiment.
pub open spec fn node_text(e: Experiment) -> Seq<char> {
    let (role, generation, moves) = lineage_text(e);
    e.metadata.named() + " ["@ + role + generation + "] obj="@ + best_text(e) + (if moves.len()
        == 0 {
        Seq::empty()
    } else {
        "  ("@ + moves + ")"@
    })
}

/// The line of one experiment in the search tree.
pub open spec fn node_line(e: Experiment, pad: Seq<char>) -> Seq<char> {
    pad + node_text(e) + "\n"@
}

/// A tree as indented lines.
pub open spec fn drawn(t: Tree, pad: Seq<char>) -> Seq<char>
    decreases t,
{
    node_line(t.exp, pad) + drawn_all(t.children, pad + "  "@)
}

/// Trees as indented lines.
pub open spec fn drawn_all(ts: Seq<Tree>, pad: Seq<char>) -> Seq<char>
    decreases ts,
{
    if ts.len() == 0 {
        Seq::empty()
    } else {
        drawn_all(ts.drop_last(), pad) + drawn(ts[ts.len() - 1], pad)
    }
}

fn describe_moves(ds: &Vec<ParameterDelta>) -> (r: String)
    ensures
        r@ == moves_text(ds@),
{
    let mut parts: Vec<String> = Vec::new();
    let ghost all = ds@.map_values(|d: ParameterDelta| move_text(d));
    let mut i: usize = 0;
    while i < ds.len()
        invariant
            i <= ds.len(),
            all == ds@.map_values(|d: ParameterDelta| move_text(d)),
            parts.deep_view() == all.take(i as int),
        decreases ds.len() - i,
    {
        let ghost before = parts.deep_view();
        let d = &ds[i];
        let mut text = d.param.clone();
        match &d.factor {
            Some(f) => {
                text.append(" x");
                text.append(f.fixed2.as_str());
            },
            None => {
                text.append("=");
                text.append(d.to.fixed4.as_str());
            },
        }
        parts.push(text);
        assert(parts.deep_view() =~= before.push(text@));
        assert(before.push(text@) =~= all.take(i + 1));
        i = i + 1;
    }
    assert(all.take(i as int) =~= all);
    join(&parts, ", ")
}

fn describe_best(e: &Experiment) -> (r: String)
    ensures
        r@ == best_text(*e),
{
    match &e.status {
        Some(s) => match &s.metrics_detail {
            Some(m) => match &m.best {
                Some(j) => match j.as_f64() {
                    Some(x) => x.fixed4.clone(),
                    None => "-".to_owned(),
                },
                None => "-".to_owned(),
            },
            None => "-".to_owned(),
        },
        None => "-".to_owned(),
    }
}

/// What the search tree says of one experiment.
pub fn describe_node(e: &Experiment) -> (r: String)
    ensures
        r@ == node_text(*e),
{
    let mut s = e.metadata.name_any();
    s.append(" [");
    let mut moves = String::new();
    match &e.spec.lineage {
        Some(l) => {
            s.append(l.relation.label());
            match l.generation {
                Some(g) => {
                    let mut t = " g".to_owned();
                    t.append(decimal_of(g as u64).as_str());
                    s.append(t.as_str());
                },
                None => {
                    s.append("");
                    proof {
                        reveal_strlit("");
                        assert(""@ =~= Seq::empty());
                    }
                },
            }
            moves = describe_moves(&l.perturbations);
        },
        None => {
            s.append("?");
            s.append("");
            proof {
                reveal_strlit("");
                assert(""@ =~= Seq::empty());
            }
        },
    }
    s.append("] obj=");
    s.append(describe_best(e).as_str());
    if moves.as_str().is_empty() {
        assert(moves@ =~= Seq::empty());
        s.append(moves.as_str());
    } else {
        let mut t = "  (".to_owned();
        t.append(moves.as_str());
        t.append(")");
        s.append(t.as_str());
    }
    s
}

fn draw(node: &TreeNode<'_>, pad: &str) -> (r: String)
    ensures
        r@ == drawn(node.tree(), pad@),
    decreases node,
{
    let mut inner = pad.to_owned();
    inner.append("  ");
    let mut below = String::new();
    let mut i: usize = 0;
    while i < node.children.len()
        invariant
            i <= node.children.len(),
            inner@ == pad@ + "  "@,
            below@ == drawn_all(trees(node.children@.take(i as int)), inner@),
        decreases node.children.len() - i,
    {
        proof {
            assert(decreases_to!(*node => node.children));
            assert(decreases_to!(node.children => node.children@));
            assert(decreases_to!(node.children@ => node.children@[i as int]));
            let next = node.children@.take(i + 1);
            assert(next.drop_last() =~= node.children@.take(i as int));
            assert(trees(next).drop_last() =~= trees(node.children@.take(i as int)));
        }
        let t = draw(&node.children[i], inner.as_str());
        below.append(t.as_str());
        i = i + 1;
    }
    assert(node.children@.take(i as int) =~= node.children@);
    let mut s = pad.to_owned();
    s.append(describe_node(node.exp).as_str());
    s.append("\n");
    s.append(below.as_str());
    s
}

/// `depth` steps of indentation.
pub open spec fn indent(depth: nat) -> Seq<char>
    decreases depth,
{
    if depth == 0 {
        Seq::empty()
    } else {
        indent((depth - 1) as nat) + "  "@
    }
}

/// Appends the tree under `node` as indented lines.
pub fn render_tree_node(out: &mut String, node: &TreeNode<'_>, depth: usize)
    ensures
        final(out)@ == old(out)@ + drawn(node.tree(), indent(depth as nat)),
{
    let mut pad = String::new();
    let mut i: usize = 0;
    while i < depth
        invariant
            i <= depth,
            pad@ == indent(i as nat),
        decreases depth - i,
    {
        pad.append("  ");
        i = i + 1;
    }
    let text = draw(node, pad.as_str());
    out.append(text.as_str());
}

// ---------------------------------------------------------------------------
// What the drawing says
// ---------------------------------------------------------------------------

/// The line of an experiment in the search tree shows everything that moved: a change with a
/// factor as the parameter, an x and that factor, and only one without a factor as the parameter
/// and the value that it moved to.
pub proof fn a_node_shows_what_moved(e: Experiment, l: ExperimentLineage, i: int)
    requires
        e.spec.lineage == Some(l),
        0 <= i < l.perturbations@.len(),
    ensures
        ({
            let d = l.perturbations@[i];
            let moved = match d.factor {
                Some(f) => d.param@ + seq![' ', 'x'] + f.fixed2@,
                None => d.param@ + seq!['='] + d.to.fixed4@,
            };
            &&& shows(node_text(e), moved)
            &&& l.perturbations@.len() == 1 ==> shows(node_text(e), "  ("@ + moved + ")"@)
        }),
{
    reveal_strlit(" x");
    reveal_strlit("=");
    assert(" x"@ =~= seq![' ', 'x']);
    assert("="@ =~= seq!['=']);
    let d = l.perturbations@[i];
    let parts = l.perturbations@.map_values(|d: ParameterDelta| move_text(d));
    assert(parts[i] == move_text(d));
    lemma_shows_itself(parts[i]);
    lemma_shows_joined(parts, ", "@, i, parts[i]);
    let moves = moves_text(l.perturbations@);
    let (role, generation, m) = lineage_text(e);
    assert(moves.len() > 0) by {
        let k = choose|k: int| #[trigger] crate::text::occurs_at(moves, parts[i], k);
        assert(parts[i].len() > 0);
    }
    let front = e.metadata.named() + " ["@ + role + generation + "] obj="@ + best_text(e);
    lemma_shows_part("  ("@, moves, ")"@, parts[i]);
    lemma_shows_back(front, "  ("@ + moves + ")"@, parts[i]);
    if l.perturbations@.len() == 1 {
        assert(moves == parts[0]);
        lemma_shows_itself("  ("@ + moves + ")"@);
        lemma_shows_back(front, "  ("@ + moves + ")"@, "  ("@ + moves + ")"@);
    }
}

/// Where nothing moved nothing is shown to have moved: the line ends with the objective.
pub proof fn a_node_without_moves_ends_with_its_objective(e: Experiment)
    requires
        e.spec.lineage matches Some(l) ==> l.perturbations@.len() == 0,
    ensures
        ({
            let best = if e.status is Some && e.status->0.metrics_detail is Some
                && e.status->0.metrics_detail->0.best is Some
                && e.status->0.metrics_detail->0.best->0 is Number {
                e.status->0.metrics_detail->0.best->0->Number_0.float.fixed4@
            } else {
                seq!['-']
            };
            let generation = match e.spec.lineage {
                Some(l) => match l.generation {
                    Some(g) => seq![' ', 'g'] + decimal(g as nat),
                    None => Seq::empty(),
                },
                None => Seq::empty(),
            };
            let role = match e.spec.lineage {
                Some(l) => l.relation.named(),
                None => seq!['?'],
            };
            node_text(e) == e.metadata.named() + seq![' ', '['] + role + generation + seq![
                ']',
                ' ',
                'o',
                'b',
                'j',
                '=',
            ] + best
        }),
{
    reveal_strlit("-");
    reveal_strlit("?");
    reveal_strlit(" [");
    reveal_strlit(" g");
    reveal_strlit("] obj=");
    assert("-"@ =~= seq!['-']);
    assert("?"@ =~= seq!['?']);
    assert(" ["@ =~= seq![' ', '[']);
    assert(" g"@ =~= seq![' ', 'g']);
    assert("] obj="@ =~= seq![']', ' ', 'o', 'b', 'j', '=']);
    let (role, generation, m) = lineage_text(e);
    assert(m.len() == 0);
    let front = e.metadata.named() + " ["@ + role + generation + "] obj="@ + best_text(e);
    assert(front + Seq::<char>::empty() =~= front);
}

/// The line of an experiment begins with its name, its role, its generation and its objective,
/// whatever moved.
pub proof fn a_node_begins_with_its_role(e: Experiment, plain: Experiment, l: ExperimentLineage)
    requires
        e.spec.lineage == Some(l),
        plain.metadata == e.metadata,
        plain.status == e.status,
        plain.spec.lineage matches Some(p) && p.relation == l.relation && p.generation
            == l.generation && p.perturbations@.len() == 0,
    ensures
        node_text(plain).is_prefix_of(node_text(e)),
{
    let (role, generation, m) = lineage_text(plain);
    let front = e.metadata.named() + " ["@ + role + generation + "] obj="@ + best_text(e);
    assert(m.len() == 0);
    assert(front + Seq::<char>::empty() =~= front);
    assert(node_text(plain) =~= front);
    assert(node_text(e).subrange(0, front.len() as int) =~= front);
}

/// A tree is drawn with its root first, and every child with what derives from it is drawn one
/// step further in.
pub proof fn children_are_drawn_one_step_in(t: Tree, pad: Seq<char>, i: int)
    ensures
        (pad + node_text(t.exp) + seq!['\n']).is_prefix_of(drawn(t, pad)),
        0 <= i < t.children.len() ==> shows(
            drawn(t, pad),
            drawn(t.children[i], pad + seq![' ', ' ']),
        ),
        t.children.len() == 0 ==> drawn(t, pad) == pad + node_text(t.exp) + seq!['\n'],
{
    reveal_strlit("\n");
    reveal_strlit("  ");
    assert("\n"@ =~= seq!['\n']);
    assert("  "@ =~= seq![' ', ' ']);
    let line = pad + node_text(t.exp) + seq!['\n'];
    let below = drawn_all(t.children, pad + "  "@);
    assert(drawn(t, pad) == line + below);
    assert((line + below).subrange(0, line.len() as int) =~= line);
    if 0 <= i < t.children.len() {
        lemma_drawn_shows(t.children, pad + "  "@, i);
        lemma_shows_back(line, below, drawn(t.children[i], pad + "  "@));
    }
    if t.children.len() == 0 {
        assert(line + below =~= line);
    }
}

proof fn lemma_drawn_shows(ts: Seq<Tree>, pad: Seq<char>, i: int)
    requires
        0 <= i < ts.len(),
    ensures
        shows(drawn_all(ts, pad), drawn(ts[i], pad)),
    decreases ts.len(),
{
    let t = ts.drop_last();
    if i < t.len() {
        lemma_drawn_shows(t, pad, i);
        lemma_shows_front(drawn_all(t, pad), drawn(ts[ts.len() - 1], pad), drawn(ts[i], pad));
    } else {
        lemma_shows_itself(drawn(ts[i], pad));
        lemma_shows_back(drawn_all(t, pad), drawn(ts[i], pad), drawn(ts[i], pad));
    }
}

/// The trees of a forest stand one below the other, in their order.
pub proof fn trees_stand_in_order(ts: Seq<Tree>, t: Tree, pad: Seq<char>)
    ensures
        drawn_all(ts.push(t), pad) == drawn_all(ts, pad) + drawn(t, pad),
        drawn_all(Seq::empty(), pad) == Seq::<char>::empty(),
{
    assert(ts.push(t).drop_last() =~= ts);
}

/// Below an experiment stand just those whose lineage names it as the parent, in their order, and
/// the roots are those that have a lineage and whose parent is not at hand.
pub proof fn children_name_their_parent(exps: Seq<Experiment>, name: Seq<char>, e: Experiment)
    ensures
        children_in(exps, name).contains(e) <==> exps.contains(e) && (
        e.spec.lineage matches Some(l) && (l.parent matches Some(p) && p@ == name)),
        roots(exps).contains(e) <==> exps.contains(e) && (e.spec.lineage matches Some(l) && (
        l.parent matches Some(p) ==> forall|i: int|
            0 <= i < exps.len() ==> (#[trigger] exps[i]).metadata.named() != p@)),
        children_in(exps.push(e), name) == if e.spec.lineage matches Some(l) && (
        l.parent matches Some(p) && p@ == name) {
            children_in(exps, name).push(e)
        } else {
            children_in(exps, name)
        },
{
    let pred = |e: Experiment| parent_of(e) == Some(name);
    let root = |e: Experiment| is_root(exps, e);
    exps.filter_lemma(pred);
    exps.filter_lemma(root);
    if exps.contains(e) {
        let i = exps.index_of(e);
        if pred(e) {
            assert(exps.filter(pred).contains(exps[i]));
        }
        if root(e) {
            assert(exps.filter(root).contains(exps[i]));
        }
    }
    if children_in(exps, name).contains(e) {
        let k = children_in(exps, name).index_of(e);
        assert(pred(exps.filter(pred)[k]));
        lemma_filter_selects(exps, pred, e);
    }
    if roots(exps).contains(e) {
        let k = roots(exps).index_of(e);
        assert(root(exps.filter(root)[k]));
        lemma_filter_selects(exps, root, e);
        if let Some(p) = parent_of(e) {
            assert(!present(exps, p));
        }
    }
    assert(exps.push(e).drop_last() =~= exps);
    reveal(Seq::filter);
}

} // verus!
