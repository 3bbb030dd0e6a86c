//! A static-analysis engine over a resolved, host-provided syntax tree.
//!
//! The host compiler hands the engine the nodes of one compilation unit in
//! its depth-first visit order; the engine offers every node to each enabled
//! rule, collects the diagnostics the rules produce, and exposes them as a
//! stable, position-sorted sequence. Four rules are provided: unsafe-region
//! detection, indexing/slicing detection, panic-prone-call detection, and
//! missing-type-annotation detection.

pub mod diagnostic;
pub mod engine;
pub mod indexing_usage;
pub mod missing_type;
pub mod node;
pub mod panic_usage;
pub mod registry;
pub mod sink;
pub mod span;
pub mod text;
pub mod unsafe_usage;

pub use diagnostic::Category;
pub use diagnostic::Diagnostic;
pub use diagnostic::RuleKind;
pub use diagnostic::Severity;
pub use engine::run;
pub use engine::LintSession;
pub use node::BlockSafety;
pub use node::ExprKind;
pub use node::ImplTarget;
pub use node::IndexOperand;
pub use node::ItemKind;
pub use node::Node;
pub use node::NodeKind;
pub use node::Param;
pub use node::RangeKind;
pub use node::StmtKind;
pub use panic_usage::PanicBackend;
pub use panic_usage::PanicKind;
pub use registry::register;
pub use registry::ConfigError;
pub use registry::RuleConfig;
pub use registry::RuleEntry;
pub use registry::RuleRegistry;
pub use sink::DiagnosticSink;
pub use span::DesugarKind;
pub use span::Origin;
pub use span::Span;
