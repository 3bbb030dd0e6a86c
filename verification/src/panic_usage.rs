//! The panic-prone-call rule.
//!
//! Two independent match families. The first flags method calls whose name
//! is one of the unwrap-like accessors on optional values, purely by the
//! method's name. The second flags direct calls whose callee the host
//! resolved to a fully qualified path matching one of five abort backends,
//! by substring containment, first match winning; the diagnostic points at
//! the outermost user-visible call site, since assertion and formatting
//! macros expand into calls to these backends and a span inside the
//! expansion would point at synthetic code. An unresolved callee is no
//! match, never an error.

use vstd::prelude::*;
use crate::diagnostic::Category;
use crate::diagnostic::Diagnostic;
use crate::diagnostic::RuleKind;
use crate::diagnostic::Severity;
use crate::node::ExprKind;
use crate::node::Node;
use crate::node::NodeKind;
use crate::span::Span;
use crate::text::contains_seq;
use crate::text::str_contains;
use crate::text::str_eq;

verus! {

/// The unwrap-like accessors that abort on an empty optional value.
#[derive(Clone, Copy, Debug, PartialEq, Eq, Structural)]
pub enum PanicKind {
    Unwrap,
    Expect,
}

impl PanicKind {
    /// The accessor kind a method name denotes, if any.
    pub open spec fn spec_from_method(name: Seq<char>) -> Option<PanicKind> {
        if name == "unwrap"@ {
            Some(PanicKind::Unwrap)
        } else if name == "expect"@ {
            Some(PanicKind::Expect)
        } else {
            None
        }
    }

    /// The accessor kind a method name denotes, if any.
    pub fn from_method(name: &str) -> (r: Option<PanicKind>)
        ensures
            r == Self::spec_from_method(name@),
    {
        if str_eq(name, "unwrap") {
            Some(PanicKind::Unwrap)
        } else if str_eq(name, "expect") {
            Some(PanicKind::Expect)
        } else {
            None
        }
    }
}

/// The abort backends a resolved callee path can denote: the generic
/// panic-module entry, the formatted-message panic, the displayable-value
/// panic, the assertion-failure helper, and the generic abort helper.
#[derive(Clone, Copy, Debug, PartialEq, Eq, Structural)]
pub enum PanicBackend {
    PanickingModule,
    PanicFmt,
    PanicDisplay,
    AssertFailed,
    BeginPanic,
}

impl PanicBackend {
    /// The backend a fully qualified path denotes, by substring
    /// containment against the fixed ordered list of backend signatures,
    /// first match winning. A path containing none of them denotes no
    /// backend.
    pub open spec fn spec_from_def_path(path: Seq<char>) -> Option<PanicBackend> {
        if contains_seq(path, "panicking::"@) {
            Some(PanicBackend::PanickingModule)
        } else if contains_seq(path, "panic_fmt"@) {
            Some(PanicBackend::PanicFmt)
        } else if contains_seq(path, "panic_display"@) {
            Some(PanicBackend::PanicDisplay)
        } else if contains_seq(path, "assert_failed"@) {
            Some(PanicBackend::AssertFailed)
        } else if contains_seq(path, "begin_panic"@) {
            Some(PanicBackend::BeginPanic)
        } else {
            None
        }
    }

    /// The backend a fully qualified path denotes, if any.
    pub fn from_def_path(path: &str) -> (r: Option<PanicBackend>)
        ensures
            r == Self::spec_from_def_path(path@),
    {
        if str_contains(path, "panicking::") {
            Some(PanicBackend::PanickingModule)
        } else if str_contains(path, "panic_fmt") {
            Some(PanicBackend::PanicFmt)
        } else if str_contains(path, "panic_display") {
            Some(PanicBackend::PanicDisplay)
        } else if str_contains(path, "assert_failed") {
            Some(PanicBackend::AssertFailed)
        } else if str_contains(path, "begin_panic") {
            Some(PanicBackend::BeginPanic)
        } else {
            None
        }
    }
}

/// The diagnostics the panic-prone-call rule produces on one node.
pub open spec fn spec_check(node: Node, sev: Severity) -> Seq<Diagnostic> {
    match node.kind {
        NodeKind::Expr(ExprKind::MethodCall { name }) => match PanicKind::spec_from_method(
            name@,
        ) {
            Some(kind) => seq![
                Diagnostic {
                    rule: RuleKind::PanicUsage,
                    severity: sev,
                    span: node.span,
                    category: Category::Accessor(kind),
                },
            ],
            None => Seq::empty(),
        },
        NodeKind::Expr(ExprKind::Call { target }) => match target {
            Some(path) => match PanicBackend::spec_from_def_path(path@) {
                Some(kind) => seq![
                    Diagnostic {
                        rule: RuleKind::PanicUsage,
                        severity: sev,
                        span: node.span.spec_callsite(),
                        category: Category::Backend(kind),
                    },
                ],
                None => Seq::empty(),
            },
            None => Seq::empty(),
        },
        _ => Seq::empty(),
    }
}

/// Law: every diagnostic of the panic-prone-call rule carries the rule's
/// own identity and the severity the session gave the rule.
pub proof fn lemma_check_attributed(node: Node, sev: Severity)
    ensures
        forall|i: int|
            0 <= i < spec_check(node, sev).len() ==> (#[trigger] spec_check(node, sev)[i]).rule
                == RuleKind::PanicUsage && spec_check(node, sev)[i].severity == sev,
{
}

/// Law: a method call whose name denotes an unwrap-like accessor yields
/// exactly one diagnostic, at the call's span, tagged with that accessor's
/// kind; any other method call yields none.
pub proof fn lemma_accessor_call_tagged(name: String, span: Span, sev: Severity)
    ensures
        ({
            let node = Node { kind: NodeKind::Expr(ExprKind::MethodCall { name }), span };
            match PanicKind::spec_from_method(name@) {
                Some(kind) => spec_check(node, sev) == seq![
                    Diagnostic {
                        rule: RuleKind::PanicUsage,
                        severity: sev,
                        span,
                        category: Category::Accessor(kind),
                    },
                ],
                None => spec_check(node, sev) == Seq::<Diagnostic>::empty(),
            }
        }),
{
}

/// Law: a direct call whose resolved callee denotes an abort backend
/// yields exactly one diagnostic, tagged with that backend's kind, whose
/// span is the outermost user-visible call site — never a span inside a
/// macro expansion, however deeply the expansion that produced the call is
/// nested.
pub proof fn lemma_backend_reported_at_callsite(target: String, span: Span, sev: Severity)
    requires
        PanicBackend::spec_from_def_path(target@) is Some,
    ensures
        ({
            let node = Node {
                kind: NodeKind::Expr(ExprKind::Call { target: Some(target) }),
                span,
            };
            let kind = PanicBackend::spec_from_def_path(target@)->0;
            spec_check(node, sev) == seq![
                Diagnostic {
                    rule: RuleKind::PanicUsage,
                    severity: sev,
                    span: span.spec_callsite(),
                    category: Category::Backend(kind),
                },
            ]
        }),
        !spec_check(
            Node { kind: NodeKind::Expr(ExprKind::Call { target: Some(target) }), span },
            sev,
        )[0].span.spec_from_expansion(),
{
    crate::span::lemma_callsite_user_visible(span);
}

/// Law: a call the host could not resolve is no match — never an error.
pub proof fn lemma_unresolved_call_silent(span: Span, sev: Severity)
    ensures
        spec_check(
            Node { kind: NodeKind::Expr(ExprKind::Call { target: None }), span },
            sev,
        ) == Seq::<Diagnostic>::empty(),
{
}

/// Offer one node to the panic-prone-call rule.
pub fn check(node: &Node, sev: Severity) -> (out: Vec<Diagnostic>)
    ensures
        out@ == spec_check(*node, sev),
{
    let mut out: Vec<Diagnostic> = Vec::new();
    match &node.kind {
        NodeKind::Expr(ExprKind::MethodCall { name }) => {
            match PanicKind::from_method(name.as_str()) {
                Some(kind) => {
                    out.push(
                        Diagnostic {
                            rule: RuleKind::PanicUsage,
                            severity: sev,
                            span: node.span.duplicate(),
                            category: Category::Accessor(kind),
                        },
                    );
                },
                None => {},
            }
        },
        NodeKind::Expr(ExprKind::Call { target }) => {
            match target {
                Some(path) => {
                    match PanicBackend::from_def_path(path.as_str()) {
                        Some(kind) => {
                            out.push(
                                Diagnostic {
                                    rule: RuleKind::PanicUsage,
                                    severity: sev,
                                    span: node.span.source_callsite().duplicate(),
                                    category: Category::Backend(kind),
                                },
                            );
                        },
                        None => {},
                    }
                },
                None => {},
            }
        },
        _ => {},
    }
    proof {
        assert(out@ =~= spec_check(*node, sev));
    }
    out
}

} // verus!
