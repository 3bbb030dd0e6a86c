//! The missing-annotation rule.
//!
//! Two sub-checks. On a binding declaration it skips wildcard patterns,
//! declarations a macro expansion produced, and declarations a
//! compiler-internal desugaring synthesised — iteration lowering,
//! error-propagation shorthand, asynchronous lowering — and flags the
//! pattern of any remaining binding without an explicit type annotation.
//! On a closure it skips expansion-produced closures and closures whose
//! body is a suspended, resumable computation, and flags each parameter
//! whose pattern is not a wildcard and whose type is left to inference:
//! one diagnostic per such parameter, at the parameter's pattern span.

use vstd::prelude::*;
use crate::diagnostic::Category;
use crate::diagnostic::Diagnostic;
use crate::diagnostic::RuleKind;
use crate::diagnostic::Severity;
use crate::node::ExprKind;
use crate::node::Node;
use crate::node::NodeKind;
use crate::node::Param;
use crate::node::StmtKind;
use crate::span::Span;

verus! {

/// The diagnostics the closure sub-check produces for a parameter list:
/// one per parameter that is not a wildcard and carries no annotation, in
/// parameter order.
pub open spec fn spec_param_diags(params: Seq<Param>, sev: Severity) -> Seq<Diagnostic>
    decreases params.len(),
{
    if params.len() == 0 {
        Seq::empty()
    } else {
        spec_param_diags(params.drop_last(), sev) + spec_one_param_diags(params.last(), sev)
    }
}

/// The diagnostics one closure parameter yields.
pub open spec fn spec_one_param_diags(p: Param, sev: Severity) -> Seq<Diagnostic> {
    if !p.wildcard && p.spec_unannotated() {
        seq![
            Diagnostic {
                rule: RuleKind::MissingType,
                severity: sev,
                span: p.pat_span,
                category: Category::ClosureParam,
            },
        ]
    } else {
        Seq::empty()
    }
}

/// The diagnostics the missing-annotation rule produces on one node.
pub open spec fn spec_check(node: Node, sev: Severity) -> Seq<Diagnostic> {
    match node.kind {
        NodeKind::Stmt(StmtKind::LetStmt { wildcard, has_annotation, pat_span }) => {
            if wildcard || node.span.spec_from_expansion() || node.span.spec_is_desugared()
                || has_annotation {
                Seq::empty()
            } else {
                seq![
                    Diagnostic {
                        rule: RuleKind::MissingType,
                        severity: sev,
                        span: pat_span,
                        category: Category::LetBinding,
                    },
                ]
            }
        },
        NodeKind::Expr(ExprKind::Closure { params, coroutine }) => {
            if node.span.spec_from_expansion() || coroutine {
                Seq::empty()
            } else {
                spec_param_diags(params@, sev)
            }
        },
        _ => Seq::empty(),
    }
}

/// Law: every diagnostic the closure sub-check yields carries the rule's
/// own identity and the severity the session gave the rule.
pub proof fn lemma_param_diags_attributed(params: Seq<Param>, sev: Severity)
    ensures
        forall|i: int|
            0 <= i < spec_param_diags(params, sev).len() ==> (#[trigger] spec_param_diags(
                params,
                sev,
            )[i]).rule == RuleKind::MissingType && spec_param_diags(params, sev)[i].severity
                == sev,
    decreases params.len(),
{
    if params.len() != 0 {
        lemma_param_diags_attributed(params.drop_last(), sev);
    }
}

/// Law: every diagnostic of the missing-annotation rule carries the rule's
/// own identity and the severity the session gave the rule.
pub proof fn lemma_check_attributed(node: Node, sev: Severity)
    ensures
        forall|i: int|
            0 <= i < spec_check(node, sev).len() ==> (#[trigger] spec_check(node, sev)[i]).rule
                == RuleKind::MissingType && spec_check(node, sev)[i].severity == sev,
{
    match node.kind {
        NodeKind::Expr(ExprKind::Closure { params, .. }) => {
            lemma_param_diags_attributed(params@, sev);
        },
        _ => {},
    }
}

/// Law: a closure's parameter list yields exactly one diagnostic per
/// parameter that is not a wildcard and carries no explicit annotation, at
/// that parameter's pattern span, in parameter order — and none for the
/// others.
pub proof fn lemma_one_diagnostic_per_unannotated_param(params: Seq<Param>, sev: Severity)
    ensures
        spec_param_diags(params, sev) == params.filter(
            |p: Param| !p.wildcard && p.spec_unannotated(),
        ).map_values(
            |p: Param|
                Diagnostic {
                    rule: RuleKind::MissingType,
                    severity: sev,
                    span: p.pat_span,
                    category: Category::ClosureParam,
                },
        ),
    decreases params.len(),
{
    reveal(Seq::filter);
    let pred = |p: Param| !p.wildcard && p.spec_unannotated();
    let to_diag = |p: Param|
        Diagnostic {
            rule: RuleKind::MissingType,
            severity: sev,
            span: p.pat_span,
            category: Category::ClosureParam,
        };
    if params.len() == 0 {
        assert(spec_param_diags(params, sev) =~= params.filter(pred).map_values(to_diag));
    } else {
        lemma_one_diagnostic_per_unannotated_param(params.drop_last(), sev);
        let prefix = params.drop_last().filter(pred).map_values(to_diag);
        if pred(params.last()) {
            assert(params.filter(pred) == params.drop_last().filter(pred).push(params.last()));
            assert(params.filter(pred).map_values(to_diag) =~= prefix.push(
                to_diag(params.last()),
            ));
            assert(spec_param_diags(params, sev) =~= prefix.push(to_diag(params.last())));
        } else {
            assert(params.filter(pred) == params.drop_last().filter(pred));
            assert(spec_param_diags(params, sev) =~= prefix);
        }
    }
}

/// Law: a binding declaration is flagged exactly when its pattern is not a
/// wildcard, the declaration comes neither from a macro expansion nor from
/// a compiler-internal desugaring, and it carries no type annotation; the
/// one diagnostic points at the pattern's span.
pub proof fn lemma_let_binding_diagnostics(
    wildcard: bool,
    has_annotation: bool,
    pat_span: Span,
    span: Span,
    sev: Severity,
)
    ensures
        ({
            let node = Node {
                kind: NodeKind::Stmt(StmtKind::LetStmt { wildcard, has_annotation, pat_span }),
                span,
            };
            if !wildcard && !span.spec_from_expansion() && !span.spec_is_desugared()
                && !has_annotation {
                spec_check(node, sev) == seq![
                    Diagnostic {
                        rule: RuleKind::MissingType,
                        severity: sev,
                        span: pat_span,
                        category: Category::LetBinding,
                    },
                ]
            } else {
                spec_check(node, sev) == Seq::<Diagnostic>::empty()
            }
        }),
{
}

/// Offer one node to the missing-annotation rule.
pub fn check(node: &Node, sev: Severity) -> (out: Vec<Diagnostic>)
    ensures
        out@ == spec_check(*node, sev),
{
    let mut out: Vec<Diagnostic> = Vec::new();
    match &node.kind {
        NodeKind::Stmt(StmtKind::LetStmt { wildcard, has_annotation, pat_span }) => {
            if !*wildcard && !node.span.from_expansion() && !node.span.is_desugared()
                && !*has_annotation {
                out.push(
                    Diagnostic {
                        rule: RuleKind::MissingType,
                        severity: sev,
                        span: pat_span.duplicate(),
                        category: Category::LetBinding,
                    },
                );
            }
        },
        NodeKind::Expr(ExprKind::Closure { params, coroutine }) => {
            if !node.span.from_expansion() && !*coroutine {
                let mut i: usize = 0;
                while i < params.len()
                    invariant
                        i <= params.len(),
                        out@ == spec_param_diags(params@.take(i as int), sev),
                    decreases params.len() - i,
                {
                    let p = &params[i];
                    if !p.wildcard && p.unannotated() {
                        out.push(
                            Diagnostic {
                                rule: RuleKind::MissingType,
                                severity: sev,
                                span: p.pat_span.duplicate(),
                                category: Category::ClosureParam,
                            },
                        );
                    }
                    proof {
                        let s = params@;
                        assert(s.take(i as int + 1).drop_last() =~= s.take(i as int));
                        assert(s.take(i as int + 1).last() == s[i as int]);
                        assert(out@ =~= spec_param_diags(s.take(i as int + 1), sev));
                    }
                    i = i + 1;
                }
                proof {
                    assert(params@.take(params@.len() as int) =~= params@);
                }
            }
        },
        _ => {},
    }
    proof {
        assert(out@ =~= spec_check(*node, sev));
    }
    out
}

} // verus!
