use vstd::prelude::*;
use vstd::string::StringExecFns;

use crate::position::Range;
use crate::types::Diagnostic;
use crate::types::DiagnosticView;
use crate::types::Severity;
use crate::types::diagnostic_views;

verus! {

/// One node of the concrete syntax tree, carrying exactly what the
/// engine reads: the grammar kind, the error flags, the span, the source
/// text of the node, and the children in document order.
#[derive(Debug)]
pub struct SyntaxNode {
    pub kind: String,
    /// Whether the node is a named grammar rule rather than a literal token.
    pub named: bool,
    /// Whether the parser inserted this node to stand for a missing token.
    pub missing: bool,
    /// Whether the node itself is an error node.
    pub error: bool,
    /// Whether the node's subtree contains an error or missing node.
    pub has_error: bool,
    pub text: String,
    pub range: Range,
    pub children: Vec<SyntaxNode>,
}

/// The mathematical value of a syntax-tree node.
pub struct SyntaxNodeView {
    pub kind: Seq<char>,
    pub named: bool,
    pub missing: bool,
    pub error: bool,
    pub has_error: bool,
    pub text: Seq<char>,
    pub range: Range,
    pub children: Seq<SyntaxNodeView>,
}

/// The mathematical value of a node, children included.
pub open spec fn node_view(n: SyntaxNode) -> SyntaxNodeView
    decreases n,
{
    SyntaxNodeView {
        kind: n.kind@,
        named: n.named,
        missing: n.missing,
        error: n.error,
        has_error: n.has_error,
        text: n.text@,
        range: n.range,
        children: Seq::new(
            n.children@.len(),
            |i: int|
                if 0 <= i < n.children@.len() {
                    node_view(n.children@[i])
                } else {
                    arbitrary()
                },
        ),
    }
}

impl Clone for SyntaxNode {
    /// A deep copy with the same mathematical value.
    fn clone(&self) -> (r: Self)
        ensures
            node_view(r) == node_view(*self),
        decreases *self,
    {
        let mut kids: Vec<SyntaxNode> = Vec::new();
        let mut i: usize = 0;
        while i < self.children.len()
            invariant
                i <= self.children@.len(),
                kids@.len() == i,
                forall|j: int|
                    0 <= j < i ==> node_view(#[trigger] kids@[j]) == node_view(self.children@[j]),
            decreases self.children@.len() - i,
        {
            kids.push(self.children[i].clone());
            i = i + 1;
        }
        let r = SyntaxNode {
            kind: self.kind.clone(),
            named: self.named,
            missing: self.missing,
            error: self.error,
            has_error: self.has_error,
            text: self.text.clone(),
            range: self.range,
            children: kids,
        };
        proof {
            assert(node_view(r).children =~= node_view(*self).children);
        }
        r
    }
}

/// Consistency of the error flags as the parser reports them: an error
/// node, a missing node, and any node with an erroneous child is itself
/// flagged as lying in an error subtree.
pub open spec fn wf_syntax(n: SyntaxNodeView) -> bool
    decreases n,
{
    &&& ((n.error || n.missing) ==> n.has_error)
    &&& (forall|i: int|
        0 <= i < n.children.len() ==> ((#[trigger] n.children[i]).has_error ==> n.has_error))
    &&& (forall|i: int| 0 <= i < n.children.len() ==> wf_syntax(#[trigger] n.children[i]))
}

/// The source tag attached to every diagnostic this engine reports.
pub open spec fn diagnostic_source() -> Seq<char> {
    "Apollog"@
}

/// The message reported for a missing token of the given kind.
pub open spec fn missing_message(kind: Seq<char>) -> Seq<char> {
    "Incomplete syntax: expected '"@ + kind + "'"@
}

/// The diagnostics a node itself gives rise to, apart from its subtree.
pub open spec fn own_diagnostics(n: SyntaxNodeView) -> Seq<DiagnosticView> {
    if n.missing {
        seq![
            DiagnosticView {
                range: n.range,
                severity: Severity::Error,
                source: diagnostic_source(),
                message: missing_message(n.kind),
            },
        ]
    } else if n.error {
        seq![
            DiagnosticView {
                range: n.range,
                severity: Severity::Error,
                source: diagnostic_source(),
                message: "Syntax error"@,
            },
        ]
    } else {
        Seq::empty()
    }
}

/// The diagnostics of a whole subtree, in pre-order: the node's own
/// diagnostic first, then those of its children in document order. A
/// subtree not flagged as containing errors is pruned without a visit.
pub open spec fn node_diagnostics(n: SyntaxNodeView) -> Seq<DiagnosticView>
    decreases n, n.children.len() + 1,
{
    own_diagnostics(n) + if n.has_error {
        children_diagnostics(n, n.children.len() as int)
    } else {
        Seq::empty()
    }
}

/// The diagnostics of the first `i` children of `n`, in order.
pub open spec fn children_diagnostics(n: SyntaxNodeView, i: int) -> Seq<DiagnosticView>
    decreases n, i,
{
    if 0 < i <= n.children.len() {
        children_diagnostics(n, i - 1) + node_diagnostics(n.children[i - 1])
    } else {
        Seq::empty()
    }
}

/// A syntactically clean tree yields no diagnostics: a consistent tree
/// that is not flagged as containing errors collects an empty sequence.
pub proof fn lemma_clean_tree_no_diagnostics(n: SyntaxNodeView)
    requires
        wf_syntax(n),
        !n.has_error,
    ensures
        node_diagnostics(n) == Seq::<DiagnosticView>::empty(),
{
    assert(node_diagnostics(n) =~= Seq::<DiagnosticView>::empty());
}

/// Only errors are ever reported: every diagnostic a subtree collects
/// carries severity Error and this engine's source tag.
pub proof fn lemma_diagnostics_all_errors(n: SyntaxNodeView)
    ensures
        forall|j: int|
            0 <= j < node_diagnostics(n).len() ==> (#[trigger] node_diagnostics(n)[j]).severity
                == Severity::Error && node_diagnostics(n)[j].source == diagnostic_source(),
    decreases n, n.children.len() + 1,
{
    lemma_children_diagnostics_all_errors(n, n.children.len() as int);
}

/// The diagnostics of the first `i` children all carry severity Error
/// and the engine's source tag.
proof fn lemma_children_diagnostics_all_errors(n: SyntaxNodeView, i: int)
    requires
        i <= n.children.len(),
    ensures
        forall|j: int|
            0 <= j < children_diagnostics(n, i).len() ==> (#[trigger] children_diagnostics(
                n,
                i,
            )[j]).severity == Severity::Error && children_diagnostics(n, i)[j].source
                == diagnostic_source(),
    decreases n, i,
{
    if 0 < i <= n.children.len() {
        lemma_children_diagnostics_all_errors(n, i - 1);
        lemma_diagnostics_all_errors(n.children[i - 1]);
        let pre = children_diagnostics(n, i - 1);
        let child = node_diagnostics(n.children[i - 1]);
        assert forall|j: int| 0 <= j < children_diagnostics(n, i).len() implies (
        #[trigger] children_diagnostics(n, i)[j]).severity == Severity::Error
            && children_diagnostics(n, i)[j].source == diagnostic_source() by {
            if j < pre.len() {
                assert(children_diagnostics(n, i)[j] == pre[j]);
            } else {
                assert(children_diagnostics(n, i)[j] == child[j - pre.len()]);
            }
        }
    }
}

/// The subtree holds a missing-token node of the given grammar kind.
pub open spec fn subtree_has_missing(n: SyntaxNodeView, kind: Seq<char>) -> bool
    decreases n,
{
    (n.missing && n.kind == kind) || exists|i: int|
        0 <= i < n.children.len() && subtree_has_missing(#[trigger] n.children[i], kind)
}

/// Every diagnostic of a child that has one is also collected by the parent.
proof fn lemma_child_diag_included(n: SyntaxNodeView, i: int, m: int, d: DiagnosticView)
    requires
        0 <= i < m <= n.children.len(),
        node_diagnostics(n.children[i]).contains(d),
    ensures
        children_diagnostics(n, m).contains(d),
    decreases m,
{
    if i == m - 1 {
        let j = choose|j: int|
            0 <= j < node_diagnostics(n.children[i]).len() && node_diagnostics(n.children[i])[j]
                == d;
        let pre = children_diagnostics(n, m - 1);
        assert(children_diagnostics(n, m)[pre.len() + j] == d);
    } else {
        lemma_child_diag_included(n, i, m - 1, d);
        let k = choose|k: int|
            0 <= k < children_diagnostics(n, m - 1).len() && #[trigger] children_diagnostics(
                n,
                m - 1,
            )[k] == d;
        assert(children_diagnostics(n, m)[k] == d);
    }
}

/// Introducing a missing token is reported: a consistent tree holding a
/// missing-token node of some kind collects at least one diagnostic whose
/// message names that kind.
pub proof fn lemma_missing_token_reported(n: SyntaxNodeView, kind: Seq<char>)
    requires
        wf_syntax(n),
        subtree_has_missing(n, kind),
    ensures
        n.has_error,
        exists|j: int|
            0 <= j < node_diagnostics(n).len() && (#[trigger] node_diagnostics(n)[j]).message
                == missing_message(kind),
    decreases n,
{
    if n.missing && n.kind == kind {
        assert(node_diagnostics(n)[0].message == missing_message(kind));
    } else {
        let i = choose|i: int|
            0 <= i < n.children.len() && subtree_has_missing(#[trigger] n.children[i], kind);
        assert(wf_syntax(n.children[i]));
        lemma_missing_token_reported(n.children[i], kind);
        let cd = node_diagnostics(n.children[i]);
        let j = choose|j: int|
            0 <= j < cd.len() && (#[trigger] cd[j]).message == missing_message(kind);
        assert(cd.contains(cd[j]));
        lemma_child_diag_included(n, i, n.children.len() as int, cd[j]);
        let all = children_diagnostics(n, n.children.len() as int);
        let k = choose|k: int| 0 <= k < all.len() && all[k] == cd[j];
        assert(node_diagnostics(n)[own_diagnostics(n).len() + k] == cd[j]);
    }
}

/// Walks the subtree depth first and appends one diagnostic for every
/// error or missing-token node, in document order, pruning subtrees that
/// contain no error.
pub fn collect_errors(node: &SyntaxNode, diagnostics: &mut Vec<Diagnostic>)
    ensures
        diagnostic_views(final(diagnostics)@) == diagnostic_views(old(diagnostics)@)
            + node_diagnostics(node_view(*node)),
    decreases *node,
{
    let ghost nv = node_view(*node);
    let ghost entry = diagnostic_views(diagnostics@);
    if node.missing {
        let message = "Incomplete syntax: expected '".to_owned().concat(node.kind.as_str()).concat(
            "'",
        );
        let ghost old_d = diagnostics@;
        diagnostics.push(
            Diagnostic {
                range: node.range,
                severity: Severity::Error,
                source: "Apollog".to_owned(),
                message,
            },
        );
        proof {
            assert(diagnostic_views(diagnostics@) =~= diagnostic_views(old_d) + own_diagnostics(
                nv,
            ));
        }
    } else if node.error {
        let ghost old_d = diagnostics@;
        diagnostics.push(
            Diagnostic {
                range: node.range,
                severity: Severity::Error,
                source: "Apollog".to_owned(),
                message: "Syntax error".to_owned(),
            },
        );
        proof {
            assert(diagnostic_views(diagnostics@) =~= diagnostic_views(old_d) + own_diagnostics(
                nv,
            ));
        }
    } else {
        proof {
            assert(diagnostic_views(diagnostics@) =~= entry + own_diagnostics(nv));
        }
    }
    if node.has_error {
        let mut i: usize = 0;
        while i < node.children.len()
            invariant
                i <= node.children@.len(),
                nv == node_view(*node),
                entry == diagnostic_views(old(diagnostics)@),
                diagnostic_views(diagnostics@) == entry + own_diagnostics(nv)
                    + children_diagnostics(nv, i as int),
            decreases node.children@.len() - i,
        {
            let ghost before = diagnostic_views(diagnostics@);
            collect_errors(&node.children[i], diagnostics);
            proof {
                assert(node_view(node.children@[i as int]) == nv.children[i as int]);
                assert(diagnostic_views(diagnostics@) =~= entry + own_diagnostics(nv)
                    + children_diagnostics(nv, i + 1));
            }
            i = i + 1;
        }
        proof {
            assert(diagnostic_views(diagnostics@) =~= entry + node_diagnostics(nv));
        }
    } else {
        proof {
            assert(diagnostic_views(diagnostics@) =~= entry + node_diagnostics(nv));
        }
    }
}

} // verus!
