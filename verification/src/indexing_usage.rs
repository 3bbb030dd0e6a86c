//! The indexing-operation rule.
//!
//! Flags every index/subscript access, classifying its operand: a literal
//! constant index or any computed index is an indexing access, and a range
//! construction is a slicing access. Separately, flags every declaration
//! implementing the indexing-read or indexing-write capability, once, at
//! the declaration's span, independently of the index expressions inside
//! its body.

use vstd::prelude::*;
use crate::diagnostic::Category;
use crate::diagnostic::Diagnostic;
use crate::diagnostic::RuleKind;
use crate::diagnostic::Severity;
use crate::node::ExprKind;
use crate::node::ImplTarget;
use crate::node::IndexOperand;
use crate::node::ItemKind;
use crate::node::Node;
use crate::node::NodeKind;
use crate::span::Span;

verus! {

/// The category an index operand falls under: range constructions are
/// slicing, everything else — literal or computed — is indexing.
pub open spec fn spec_operand_category(operand: IndexOperand) -> Category {
    match operand {
        IndexOperand::Range(_) => Category::Slicing,
        _ => Category::Indexing,
    }
}

/// The diagnostics the indexing-operation rule produces on one node.
pub open spec fn spec_check(node: Node, sev: Severity) -> Seq<Diagnostic> {
    match node.kind {
        NodeKind::Expr(ExprKind::IndexAccess { operand }) => seq![
            Diagnostic {
                rule: RuleKind::IndexingUsage,
                severity: sev,
                span: node.span,
                category: spec_operand_category(operand),
            },
        ],
        NodeKind::Item(
            ItemKind::ImplDecl { of_trait: Some(ImplTarget::IndexRead), .. },
        ) => seq![
            Diagnostic {
                rule: RuleKind::IndexingUsage,
                severity: sev,
                span: node.span,
                category: Category::IndexCapabilityImpl,
            },
        ],
        NodeKind::Item(
            ItemKind::ImplDecl { of_trait: Some(ImplTarget::IndexReadWrite), .. },
        ) => seq![
            Diagnostic {
                rule: RuleKind::IndexingUsage,
                severity: sev,
                span: node.span,
                category: Category::IndexCapabilityImpl,
            },
        ],
        _ => Seq::empty(),
    }
}

/// Law: every diagnostic of the indexing-operation rule carries the rule's
/// own identity and the severity the session gave the rule.
pub proof fn lemma_check_attributed(node: Node, sev: Severity)
    ensures
        forall|i: int|
            0 <= i < spec_check(node, sev).len() ==> (#[trigger] spec_check(node, sev)[i]).rule
                == RuleKind::IndexingUsage && spec_check(node, sev)[i].severity == sev,
{
}

/// Law: every index/subscript access yields exactly one diagnostic, at the
/// access's span, in the category its operand falls under — slicing for a
/// range construction, indexing for a literal constant or computed
/// operand.
pub proof fn lemma_index_access_flagged_once(operand: IndexOperand, span: Span, sev: Severity)
    ensures
        spec_check(
            Node { kind: NodeKind::Expr(ExprKind::IndexAccess { operand }), span },
            sev,
        ) == seq![
            Diagnostic {
                rule: RuleKind::IndexingUsage,
                severity: sev,
                span,
                category: spec_operand_category(operand),
            },
        ],
{
}

/// Law: a declaration implementing the indexing-read or indexing-write
/// capability yields exactly one diagnostic, at the declaration's span,
/// independently of the index expressions inside its body, which are
/// separate nodes.
pub proof fn lemma_index_capability_impl_flagged_once(
    is_unsafe: bool,
    target: ImplTarget,
    span: Span,
    sev: Severity,
)
    requires
        target == ImplTarget::IndexRead || target == ImplTarget::IndexReadWrite,
    ensures
        spec_check(
            Node {
                kind: NodeKind::Item(ItemKind::ImplDecl { is_unsafe, of_trait: Some(target) }),
                span,
            },
            sev,
        ) == seq![
            Diagnostic {
                rule: RuleKind::IndexingUsage,
                severity: sev,
                span,
                category: Category::IndexCapabilityImpl,
            },
        ],
{
}

/// Offer one node to the indexing-operation rule.
pub fn check(node: &Node, sev: Severity) -> (out: Vec<Diagnostic>)
    ensures
        out@ == spec_check(*node, sev),
{
    let mut out: Vec<Diagnostic> = Vec::new();
    match &node.kind {
        NodeKind::Expr(ExprKind::IndexAccess { operand }) => {
            let category = match operand {
                IndexOperand::Range(_) => Category::Slicing,
                _ => Category::Indexing,
            };
            out.push(
                Diagnostic {
                    rule: RuleKind::IndexingUsage,
                    severity: sev,
                    span: node.span.duplicate(),
                    category,
                },
            );
        },
        NodeKind::Item(ItemKind::ImplDecl { of_trait: Some(ImplTarget::IndexRead), .. }) => {
            out.push(
                Diagnostic {
                    rule: RuleKind::IndexingUsage,
                    severity: sev,
                    span: node.span.duplicate(),
                    category: Category::IndexCapabilityImpl,
                },
            );
        },
        NodeKind::Item(ItemKind::ImplDecl { of_trait: Some(ImplTarget::IndexReadWrite), .. }) => {
            out.push(
                Diagnostic {
                    rule: RuleKind::IndexingUsage,
                    severity: sev,
                    span: node.span.duplicate(),
                    category: Category::IndexCapabilityImpl,
                },
            );
        },
        _ => {},
    }
    proof {
        assert(out@ =~= spec_check(*node, sev));
    }
    out
}

} // verus!
