//! The unsafe-region rule.
//!
//! Flags a block expression the user explicitly marked as bypassing safety
//! checks — not one the compiler generated — at the block's span, and
//! flags function, trait and trait-implementation declarations marked
//! unsafe at the declaration's span, regardless of what their bodies
//! contain. Ordinary blocks nested inside an unsafe block are their own
//! nodes and never match. An unsafe trait implementation is reported at
//! the implementation's span, independently of whether the trait's own
//! declaration is also marked unsafe: that is a separate match on the
//! trait's declaration node.

use vstd::prelude::*;
use crate::diagnostic::Category;
use crate::diagnostic::Diagnostic;
use crate::diagnostic::RuleKind;
use crate::diagnostic::Severity;
use crate::node::BlockSafety;
use crate::node::ExprKind;
use crate::node::ItemKind;
use crate::node::Node;
use crate::node::NodeKind;
use crate::span::Span;

verus! {

/// The diagnostics the unsafe-region rule produces on one node.
pub open spec fn spec_check(node: Node, sev: Severity) -> Seq<Diagnostic> {
    match node.kind {
        NodeKind::Expr(ExprKind::Block { safety: BlockSafety::UserUnsafe }) => seq![
            Diagnostic {
                rule: RuleKind::UnsafeUsage,
                severity: sev,
                span: node.span,
                category: Category::UnsafeBlock,
            },
        ],
        NodeKind::Item(ItemKind::FnDecl { is_unsafe: true }) => seq![
            Diagnostic {
                rule: RuleKind::UnsafeUsage,
                severity: sev,
                span: node.span,
                category: Category::UnsafeFn,
            },
        ],
        NodeKind::Item(ItemKind::TraitDecl { is_unsafe: true }) => seq![
            Diagnostic {
                rule: RuleKind::UnsafeUsage,
                severity: sev,
                span: node.span,
                category: Category::UnsafeTrait,
            },
        ],
        NodeKind::Item(ItemKind::ImplDecl { is_unsafe: true, of_trait: Some(_) }) => seq![
            Diagnostic {
                rule: RuleKind::UnsafeUsage,
                severity: sev,
                span: node.span,
                category: Category::UnsafeImpl,
            },
        ],
        _ => Seq::empty(),
    }
}

/// Law: every diagnostic of the unsafe-region rule carries the rule's own
/// identity and the severity the session gave the rule.
pub proof fn lemma_check_attributed(node: Node, sev: Severity)
    ensures
        forall|i: int|
            0 <= i < spec_check(node, sev).len() ==> (#[trigger] spec_check(node, sev)[i]).rule
                == RuleKind::UnsafeUsage && spec_check(node, sev)[i].severity == sev,
{
}

/// Law: a block the user explicitly marked unsafe yields exactly one
/// diagnostic, at the block's span; an ordinary block — including one
/// nested inside an unsafe block, which is its own node — and a
/// compiler-generated unsafe block yield none.
pub proof fn lemma_block_diagnostics(safety: BlockSafety, span: Span, sev: Severity)
    ensures
        ({
            let node = Node { kind: NodeKind::Expr(ExprKind::Block { safety }), span };
            if safety == BlockSafety::UserUnsafe {
                spec_check(node, sev) == seq![
                    Diagnostic {
                        rule: RuleKind::UnsafeUsage,
                        severity: sev,
                        span,
                        category: Category::UnsafeBlock,
                    },
                ]
            } else {
                spec_check(node, sev) == Seq::<Diagnostic>::empty()
            }
        }),
{
}

/// Law: a function declaration marked unsafe yields exactly one
/// diagnostic, at the declaration's span — its body's contents are
/// separate nodes and play no part — and a safe one yields none.
pub proof fn lemma_function_decl_diagnostics(is_unsafe: bool, span: Span, sev: Severity)
    ensures
        ({
            let node = Node { kind: NodeKind::Item(ItemKind::FnDecl { is_unsafe }), span };
            if is_unsafe {
                spec_check(node, sev) == seq![
                    Diagnostic {
                        rule: RuleKind::UnsafeUsage,
                        severity: sev,
                        span,
                        category: Category::UnsafeFn,
                    },
                ]
            } else {
                spec_check(node, sev) == Seq::<Diagnostic>::empty()
            }
        }),
{
}

/// Law: a trait declaration marked unsafe yields exactly one diagnostic at
/// the declaration's span; a safe one yields none.
pub proof fn lemma_trait_decl_diagnostics(is_unsafe: bool, span: Span, sev: Severity)
    ensures
        ({
            let node = Node { kind: NodeKind::Item(ItemKind::TraitDecl { is_unsafe }), span };
            if is_unsafe {
                spec_check(node, sev) == seq![
                    Diagnostic {
                        rule: RuleKind::UnsafeUsage,
                        severity: sev,
                        span,
                        category: Category::UnsafeTrait,
                    },
                ]
            } else {
                spec_check(node, sev) == Seq::<Diagnostic>::empty()
            }
        }),
{
}

/// Law: a trait implementation marked unsafe yields exactly one diagnostic
/// at the implementation's span, whatever trait it implements — whether
/// the trait's own declaration is also unsafe-marked is a separate,
/// independent match on the trait's declaration node.
pub proof fn lemma_unsafe_impl_flagged_once(
    target: crate::node::ImplTarget,
    span: Span,
    sev: Severity,
)
    ensures
        spec_check(
            Node {
                kind: NodeKind::Item(ItemKind::ImplDecl { is_unsafe: true, of_trait: Some(target) }),
                span,
            },
            sev,
        ) == seq![
            Diagnostic {
                rule: RuleKind::UnsafeUsage,
                severity: sev,
                span,
                category: Category::UnsafeImpl,
            },
        ],
{
}

/// Offer one node to the unsafe-region rule.
pub fn check(node: &Node, sev: Severity) -> (out: Vec<Diagnostic>)
    ensures
        out@ == spec_check(*node, sev),
{
    let mut out: Vec<Diagnostic> = Vec::new();
    match &node.kind {
        NodeKind::Expr(ExprKind::Block { safety: BlockSafety::UserUnsafe }) => {
            out.push(
                Diagnostic {
                    rule: RuleKind::UnsafeUsage,
                    severity: sev,
                    span: node.span.duplicate(),
                    category: Category::UnsafeBlock,
                },
            );
        },
        NodeKind::Item(ItemKind::FnDecl { is_unsafe: true }) => {
            out.push(
                Diagnostic {
                    rule: RuleKind::UnsafeUsage,
                    severity: sev,
                    span: node.span.duplicate(),
                    category: Category::UnsafeFn,
                },
            );
        },
        NodeKind::Item(ItemKind::TraitDecl { is_unsafe: true }) => {
            out.push(
                Diagnostic {
                    rule: RuleKind::UnsafeUsage,
                    severity: sev,
                    span: node.span.duplicate(),
                    category: Category::UnsafeTrait,
                },
            );
        },
        NodeKind::Item(ItemKind::ImplDecl { is_unsafe: true, of_trait: Some(_) }) => {
            out.push(
                Diagnostic {
                    rule: RuleKind::UnsafeUsage,
                    severity: sev,
                    span: node.span.duplicate(),
                    category: Category::UnsafeImpl,
                },
            );
        },
        _ => {},
    }
    proof {
        assert(out@ =~= spec_check(*node, sev));
    }
    out
}

} // verus!
