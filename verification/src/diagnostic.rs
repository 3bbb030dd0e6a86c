//! Diagnostics and the identities of the rules that produce them.

use vstd::prelude::*;
use crate::panic_usage::PanicBackend;
use crate::panic_usage::PanicKind;
use crate::span::Span;

verus! {

/// The severity a diagnostic is reported with.
#[derive(Clone, Copy, Debug, PartialEq, Eq, Structural)]
pub enum Severity {
    /// Report without failing the compilation.
    Warn,
    /// Report and fail the compilation.
    Deny,
}

/// The identity of one of the engine's rules.
#[derive(Clone, Copy, Debug, PartialEq, Eq, Structural)]
pub enum RuleKind {
    /// Flags user-written safety-bypassing regions and declarations.
    UnsafeUsage,
    /// Flags indexing and slicing accesses and indexing-capability
    /// implementations.
    IndexingUsage,
    /// Flags calls that may abort the current execution path.
    PanicUsage,
    /// Flags bindings and closure parameters without type annotations.
    MissingType,
}

impl RuleKind {
    /// The rule's identifier, as configuration names it.
    pub open spec fn spec_id(self) -> Seq<char> {
        match self {
            RuleKind::UnsafeUsage => "security_unsafe_usage"@,
            RuleKind::IndexingUsage => "security_indexing_usage"@,
            RuleKind::PanicUsage => "security_panic_usage"@,
            RuleKind::MissingType => "missing_type"@,
        }
    }

    /// The rule's identifier, as configuration names it.
    pub fn id(self) -> (r: &'static str)
        ensures
            r@ == self.spec_id(),
    {
        match self {
            RuleKind::UnsafeUsage => "security_unsafe_usage",
            RuleKind::IndexingUsage => "security_indexing_usage",
            RuleKind::PanicUsage => "security_panic_usage",
            RuleKind::MissingType => "missing_type",
        }
    }

    /// The rule's place in the fixed tie-break order of rule identifiers
    /// (alphabetical), used when two diagnostics share a start position.
    pub open spec fn spec_rank(self) -> u32 {
        match self {
            RuleKind::MissingType => 0u32,
            RuleKind::IndexingUsage => 1u32,
            RuleKind::PanicUsage => 2u32,
            RuleKind::UnsafeUsage => 3u32,
        }
    }

    /// The rule's place in the fixed tie-break order of rule identifiers.
    pub fn rank(self) -> (r: u32)
        ensures
            r == self.spec_rank(),
    {
        match self {
            RuleKind::MissingType => 0u32,
            RuleKind::IndexingUsage => 1u32,
            RuleKind::PanicUsage => 2u32,
            RuleKind::UnsafeUsage => 3u32,
        }
    }

    /// The severity the rule reports with when configuration says nothing.
    pub open spec fn spec_default_severity(self) -> Severity {
        match self {
            RuleKind::UnsafeUsage => Severity::Deny,
            RuleKind::IndexingUsage => Severity::Deny,
            RuleKind::PanicUsage => Severity::Deny,
            RuleKind::MissingType => Severity::Warn,
        }
    }

    /// The severity the rule reports with when configuration says nothing.
    pub fn default_severity(self) -> (r: Severity)
        ensures
            r == self.spec_default_severity(),
    {
        match self {
            RuleKind::UnsafeUsage => Severity::Deny,
            RuleKind::IndexingUsage => Severity::Deny,
            RuleKind::PanicUsage => Severity::Deny,
            RuleKind::MissingType => Severity::Warn,
        }
    }
}

/// What a diagnostic is about, beyond the rule that produced it.
#[derive(Clone, Copy, Debug, PartialEq, Eq, Structural)]
pub enum Category {
    /// An index access with a constant or computed operand.
    Indexing,
    /// An index access whose operand is a range construction.
    Slicing,
    /// A declaration implementing an indexing capability.
    IndexCapabilityImpl,
    /// A user-written safety-bypassing block.
    UnsafeBlock,
    /// A function declaration marked unsafe.
    UnsafeFn,
    /// A trait declaration marked unsafe.
    UnsafeTrait,
    /// A trait implementation marked unsafe.
    UnsafeImpl,
    /// A call to an unwrap-like accessor, with the accessor's kind.
    Accessor(PanicKind),
    /// A call resolving to an abort backend, with the backend's kind.
    Backend(PanicBackend),
    /// A binding declaration without a type annotation.
    LetBinding,
    /// A closure parameter without a type annotation.
    ClosureParam,
}

impl Category {
    /// The human-readable message reported for this category.
    pub open spec fn spec_message(self) -> Seq<char> {
        match self {
            Category::Indexing => "Usage of indexing operation detected."@,
            Category::Slicing => "Usage of slicing operation detected."@,
            Category::IndexCapabilityImpl => "Implementation of Index/IndexMut trait detected."@,
            Category::UnsafeBlock => "Usage of unsafe block detected."@,
            Category::UnsafeFn => "Unsafe function detected."@,
            Category::UnsafeTrait => "Unsafe trait detected."@,
            Category::UnsafeImpl => "Unsafe impl detected."@,
            Category::Accessor(PanicKind::Unwrap) => "Call to panic backend `Unwrap` detected."@,
            Category::Accessor(PanicKind::Expect) => "Call to panic backend `Expect` detected."@,
            Category::Backend(PanicBackend::PanickingModule) => "Call to panic backend `PanickingModule` detected."@,
            Category::Backend(PanicBackend::PanicFmt) => "Call to panic backend `PanicFmt` detected."@,
            Category::Backend(PanicBackend::PanicDisplay) => "Call to panic backend `PanicDisplay` detected."@,
            Category::Backend(PanicBackend::AssertFailed) => "Call to panic backend `AssertFailed` detected."@,
            Category::Backend(PanicBackend::BeginPanic) => "Call to panic backend `BeginPanic` detected."@,
            Category::LetBinding => "Missing explicit type annotation on let binding."@,
            Category::ClosureParam => "Closure parameter missing explicit type annotation."@,
        }
    }
}

/// One reported finding: the rule that produced it, the severity it carries
/// in this session, the span it points at, and its category.
#[derive(Debug, PartialEq, Eq)]
pub struct Diagnostic {
    pub rule: RuleKind,
    pub severity: Severity,
    pub span: Span,
    pub category: Category,
}

impl Diagnostic {
    /// The human-readable message of this diagnostic.
    pub open spec fn spec_message(self) -> Seq<char> {
        self.category.spec_message()
    }

    /// The human-readable message of this diagnostic.
    pub fn message(&self) -> (m: &'static str)
        ensures
            m@ == self.spec_message(),
    {
        match self.category {
            Category::Indexing => "Usage of indexing operation detected.",
            Category::Slicing => "Usage of slicing operation detected.",
            Category::IndexCapabilityImpl => "Implementation of Index/IndexMut trait detected.",
            Category::UnsafeBlock => "Usage of unsafe block detected.",
            Category::UnsafeFn => "Unsafe function detected.",
            Category::UnsafeTrait => "Unsafe trait detected.",
            Category::UnsafeImpl => "Unsafe impl detected.",
            Category::Accessor(PanicKind::Unwrap) => "Call to panic backend `Unwrap` detected.",
            Category::Accessor(PanicKind::Expect) => "Call to panic backend `Expect` detected.",
            Category::Backend(PanicBackend::PanickingModule) => "Call to panic backend `PanickingModule` detected.",
            Category::Backend(PanicBackend::PanicFmt) => "Call to panic backend `PanicFmt` detected.",
            Category::Backend(PanicBackend::PanicDisplay) => "Call to panic backend `PanicDisplay` detected.",
            Category::Backend(PanicBackend::AssertFailed) => "Call to panic backend `AssertFailed` detected.",
            Category::Backend(PanicBackend::BeginPanic) => "Call to panic backend `BeginPanic` detected.",
            Category::LetBinding => "Missing explicit type annotation on let binding.",
            Category::ClosureParam => "Closure parameter missing explicit type annotation.",
        }
    }

    /// An owned copy of this diagnostic, equal to the original.
    pub fn duplicate(&self) -> (r: Diagnostic)
        ensures
            r == *self,
    {
        Diagnostic {
            rule: self.rule,
            severity: self.severity,
            span: self.span.duplicate(),
            category: self.category,
        }
    }
}

} // verus!
