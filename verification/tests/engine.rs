//! Traversal, ordering, session, registry and classification behaviour.

use lint_engine::engine::run;
use lint_engine::register;
use lint_engine::BlockSafety;
use lint_engine::Category;
use lint_engine::Diagnostic;
use lint_engine::DiagnosticSink;
use lint_engine::ExprKind;
use lint_engine::IndexOperand;
use lint_engine::LintSession;
use lint_engine::Node;
use lint_engine::NodeKind;
use lint_engine::Origin;
use lint_engine::PanicBackend;
use lint_engine::PanicKind;
use lint_engine::RuleConfig;
use lint_engine::RuleEntry;
use lint_engine::RuleKind;
use lint_engine::RuleRegistry;
use lint_engine::Severity;
use lint_engine::Span;
use lint_engine::StmtKind;

fn span_at(start: u32, end: u32) -> Span {
    Span { file: 0, start, end, origin: Origin::Direct }
}

fn expr_node(kind: ExprKind, span: Span) -> Node {
    Node { kind: NodeKind::Expr(kind), span }
}

fn sample_nodes() -> Vec<Node> {
    vec![
        expr_node(ExprKind::Block { safety: BlockSafety::UserUnsafe }, span_at(50, 90)),
        expr_node(ExprKind::IndexAccess { operand: IndexOperand::LiteralConst }, span_at(10, 16)),
        expr_node(ExprKind::MethodCall { name: String::from("unwrap") }, span_at(30, 44)),
        Node {
            kind: NodeKind::Stmt(StmtKind::LetStmt {
                wildcard: false,
                has_annotation: false,
                pat_span: span_at(2, 3),
            }),
            span: span_at(0, 8),
        },
    ]
}

#[test]
fn rerun_yields_identical_sequence() {
    let nodes = sample_nodes();
    let registry = RuleRegistry::all_rules();
    let first = run(&nodes, &registry);
    let second = run(&nodes, &registry);
    assert_eq!(first, second);
    assert_eq!(first.len(), 4);
}

#[test]
fn diagnostics_sorted_by_position() {
    let nodes = sample_nodes();
    let out = run(&nodes, &RuleRegistry::all_rules());
    assert_eq!(out.len(), 4);
    assert_eq!(out[0].span.start, 2);
    assert_eq!(out[0].rule, RuleKind::MissingType);
    assert_eq!(out[1].span.start, 10);
    assert_eq!(out[1].rule, RuleKind::IndexingUsage);
    assert_eq!(out[2].span.start, 30);
    assert_eq!(out[2].rule, RuleKind::PanicUsage);
    assert_eq!(out[3].span.start, 50);
    assert_eq!(out[3].rule, RuleKind::UnsafeUsage);
}

#[test]
fn equal_start_sorted_by_rule_order() {
    // Visited unsafe-first, but the indexing rule ranks before the unsafe
    // rule, so at an equal start position the indexing diagnostic leads.
    let nodes = vec![
        expr_node(ExprKind::Block { safety: BlockSafety::UserUnsafe }, span_at(10, 90)),
        expr_node(ExprKind::IndexAccess { operand: IndexOperand::Computed }, span_at(10, 20)),
    ];
    let out = run(&nodes, &RuleRegistry::all_rules());
    assert_eq!(out.len(), 2);
    assert_eq!(out[0].rule, RuleKind::IndexingUsage);
    assert_eq!(out[1].rule, RuleKind::UnsafeUsage);
}

#[test]
fn equal_keys_keep_visit_order() {
    let nodes = vec![
        expr_node(ExprKind::IndexAccess { operand: IndexOperand::Computed }, span_at(10, 24)),
        expr_node(ExprKind::IndexAccess { operand: IndexOperand::LiteralConst }, span_at(10, 16)),
    ];
    let out = run(&nodes, &RuleRegistry::all_rules());
    assert_eq!(out.len(), 2);
    assert_eq!(out[0].span.end, 24);
    assert_eq!(out[1].span.end, 16);
}

#[test]
fn session_accumulates_like_run() {
    let nodes = sample_nodes();
    let mut session = LintSession::new(RuleRegistry::all_rules());
    for node in &nodes {
        session.offer_node(node);
    }
    let from_session = session.finish();
    let from_run = run(&nodes, &RuleRegistry::all_rules());
    assert_eq!(from_session, from_run);
}

#[test]
fn empty_unit_yields_no_diagnostics() {
    let nodes: Vec<Node> = Vec::new();
    let out = run(&nodes, &RuleRegistry::all_rules());
    assert_eq!(out.len(), 0);
}

#[test]
fn register_defaults_all_enabled() {
    let config: Vec<RuleConfig> = Vec::new();
    let (registry, errors) = register(&config);
    assert_eq!(errors.len(), 0);
    assert_eq!(registry.entries.len(), 4);
    assert_eq!(registry.entries[0], RuleEntry { kind: RuleKind::UnsafeUsage, severity: Severity::Deny });
    assert_eq!(registry.entries[1], RuleEntry { kind: RuleKind::IndexingUsage, severity: Severity::Deny });
    assert_eq!(registry.entries[2], RuleEntry { kind: RuleKind::PanicUsage, severity: Severity::Deny });
    assert_eq!(registry.entries[3], RuleEntry { kind: RuleKind::MissingType, severity: Severity::Warn });
}

#[test]
fn register_unknown_id_is_nonfatal() {
    let config = vec![
        RuleConfig { id: String::from("no_such_rule"), enabled: true, severity: None },
        RuleConfig { id: String::from("security_panic_usage"), enabled: false, severity: None },
    ];
    let (registry, errors) = register(&config);
    assert_eq!(errors.len(), 1);
    assert_eq!(errors[0].id, "no_such_rule");
    assert_eq!(registry.entries.len(), 3);
    assert!(registry.entries.iter().all(|e| e.kind != RuleKind::PanicUsage));
}

#[test]
fn register_severity_override_and_last_entry_wins() {
    let config = vec![
        RuleConfig { id: String::from("missing_type"), enabled: false, severity: None },
        RuleConfig { id: String::from("missing_type"), enabled: true, severity: Some(Severity::Deny) },
        RuleConfig { id: String::from("security_unsafe_usage"), enabled: true, severity: Some(Severity::Warn) },
    ];
    let (registry, errors) = register(&config);
    assert_eq!(errors.len(), 0);
    assert_eq!(registry.entries.len(), 4);
    assert_eq!(registry.entries[0], RuleEntry { kind: RuleKind::UnsafeUsage, severity: Severity::Warn });
    assert_eq!(registry.entries[3], RuleEntry { kind: RuleKind::MissingType, severity: Severity::Deny });
}

#[test]
fn overridden_severity_reaches_diagnostics() {
    let config = vec![RuleConfig {
        id: String::from("missing_type"),
        enabled: true,
        severity: Some(Severity::Deny),
    }];
    let (registry, _) = register(&config);
    let nodes = vec![Node {
        kind: NodeKind::Stmt(StmtKind::LetStmt {
            wildcard: false,
            has_annotation: false,
            pat_span: span_at(4, 5),
        }),
        span: span_at(0, 10),
    }];
    let out = run(&nodes, &registry);
    assert_eq!(out.len(), 1);
    assert_eq!(out[0].severity, Severity::Deny);
}

#[test]
fn register_rule_rejects_duplicate_id() {
    let mut registry = RuleRegistry::new();
    let first = registry.register_rule(RuleEntry { kind: RuleKind::PanicUsage, severity: Severity::Deny });
    assert!(first.is_ok());
    let second = registry.register_rule(RuleEntry { kind: RuleKind::PanicUsage, severity: Severity::Warn });
    match second {
        Err(e) => assert_eq!(e.id, "security_panic_usage"),
        Ok(()) => panic!("duplicate registration must be refused"),
    }
    assert_eq!(registry.entries.len(), 1);
    assert_eq!(registry.entries[0].severity, Severity::Deny);
}

#[test]
fn from_method_recognizes_accessors() {
    assert_eq!(PanicKind::from_method("unwrap"), Some(PanicKind::Unwrap));
    assert_eq!(PanicKind::from_method("expect"), Some(PanicKind::Expect));
    assert_eq!(PanicKind::from_method("unwrap_or"), None);
    assert_eq!(PanicKind::from_method(""), None);
}

#[test]
fn from_def_path_first_match_wins() {
    assert_eq!(
        PanicBackend::from_def_path("core::panicking::panic_fmt"),
        Some(PanicBackend::PanickingModule),
    );
    assert_eq!(
        PanicBackend::from_def_path("core::panicking::assert_failed"),
        Some(PanicBackend::PanickingModule),
    );
    assert_eq!(PanicBackend::from_def_path("std::rt::panic_fmt"), Some(PanicBackend::PanicFmt));
    assert_eq!(
        PanicBackend::from_def_path("std::rt::panic_display"),
        Some(PanicBackend::PanicDisplay),
    );
    assert_eq!(
        PanicBackend::from_def_path("core::asserting::assert_failed"),
        Some(PanicBackend::AssertFailed),
    );
    assert_eq!(
        PanicBackend::from_def_path("std::rt::begin_panic"),
        Some(PanicBackend::BeginPanic),
    );
    assert_eq!(PanicBackend::from_def_path("alloc::vec::Vec::push"), None);
    assert_eq!(PanicBackend::from_def_path(""), None);
}

#[test]
fn callsite_resolution_unwinds_nested_expansions() {
    let user_site = span_at(3, 12);
    let middle = Span { file: 0, start: 40, end: 55, origin: Origin::MacroExpansion(Box::new(user_site)) };
    let inner = Span { file: 0, start: 70, end: 80, origin: Origin::MacroExpansion(Box::new(middle)) };
    let resolved = inner.source_callsite();
    assert_eq!(*resolved, span_at(3, 12));
    let direct = span_at(7, 9);
    assert_eq!(*direct.source_callsite(), span_at(7, 9));
}

#[test]
fn message_texts_for_backend_kinds() {
    let d = |category: Category| Diagnostic {
        rule: RuleKind::PanicUsage,
        severity: Severity::Deny,
        span: span_at(0, 1),
        category,
    };
    assert_eq!(
        d(Category::Backend(PanicBackend::PanickingModule)).message(),
        "Call to panic backend `PanickingModule` detected.",
    );
    assert_eq!(
        d(Category::Backend(PanicBackend::PanicFmt)).message(),
        "Call to panic backend `PanicFmt` detected.",
    );
    assert_eq!(
        d(Category::Backend(PanicBackend::PanicDisplay)).message(),
        "Call to panic backend `PanicDisplay` detected.",
    );
    assert_eq!(
        d(Category::Backend(PanicBackend::AssertFailed)).message(),
        "Call to panic backend `AssertFailed` detected.",
    );
    assert_eq!(
        d(Category::Backend(PanicBackend::BeginPanic)).message(),
        "Call to panic backend `BeginPanic` detected.",
    );
}

#[test]
fn sink_flushes_recorded_diagnostics_in_key_order() {
    let d = |start: u32, rule: RuleKind| Diagnostic {
        rule,
        severity: Severity::Deny,
        span: span_at(start, start + 4),
        category: Category::Indexing,
    };
    let mut sink = DiagnosticSink::new();
    sink.record(d(90, RuleKind::IndexingUsage));
    sink.record(d(10, RuleKind::UnsafeUsage));
    sink.record(d(10, RuleKind::MissingType));
    let out = sink.flush();
    assert_eq!(out.len(), 3);
    assert_eq!((out[0].span.start, out[0].rule), (10, RuleKind::MissingType));
    assert_eq!((out[1].span.start, out[1].rule), (10, RuleKind::UnsafeUsage));
    assert_eq!((out[2].span.start, out[2].rule), (90, RuleKind::IndexingUsage));
}

#[test]
fn rules_independent_on_one_node() {
    // One unsafe block node inside a macro expansion: the unsafe rule still
    // fires (it does not consult the origin), while the annotation rule
    // stays silent; no rule withholds the node from another.
    let call_site = span_at(5, 9);
    let node = expr_node(
        ExprKind::Block { safety: BlockSafety::UserUnsafe },
        Span { file: 0, start: 30, end: 60, origin: Origin::MacroExpansion(Box::new(call_site)) },
    );
    let out = run(&vec![node], &RuleRegistry::all_rules());
    assert_eq!(out.len(), 1);
    assert_eq!(out[0].rule, RuleKind::UnsafeUsage);
    assert_eq!(out[0].span.start, 30);
}
