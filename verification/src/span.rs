//! Source spans and their origin classification.
//!
//! Every tree node carries a span: a file identity, a start and end
//! position, and an origin saying whether the user wrote the region
//! directly, whether a macro expansion produced it (carrying the span of
//! the call that expanded), or whether a compiler-internal desugaring
//! synthesised it. Rules consult the origin to decide where a diagnostic
//! should point and whether a node is a user-written construct at all.

use vstd::prelude::*;

verus! {

/// The compiler-internal lowering that synthesised a desugared span.
#[derive(Clone, Copy, Debug, PartialEq, Eq, Structural)]
pub enum DesugarKind {
    /// Lowering of iteration constructs.
    Iteration,
    /// Lowering of the error-propagation shorthand.
    ErrorPropagation,
    /// Lowering of asynchronous constructs.
    Asynchronous,
}

/// How a span came to be.
#[derive(Debug, PartialEq, Eq)]
pub enum Origin {
    /// The user wrote this region directly; its call site is itself.
    Direct,
    /// A macro expansion produced this region; the payload is the span of
    /// the call that was expanded, which may itself come from an expansion.
    MacroExpansion(Box<Span>),
    /// A compiler-internal desugaring synthesised this region.
    Desugared(DesugarKind),
}

/// A source location: file identity, start and end positions, and origin.
#[derive(Debug, PartialEq, Eq)]
pub struct Span {
    pub file: u32,
    pub start: u32,
    pub end: u32,
    pub origin: Origin,
}

impl Span {
    /// The outermost user-visible call site of a span: a direct or
    /// desugared span resolves to itself, and an expansion span unwinds
    /// through the expansion chain to the site the user wrote. The chain
    /// is finite by construction, so resolution always terminates.
    pub open spec fn spec_callsite(self) -> Span
        decreases self,
    {
        match self.origin {
            Origin::MacroExpansion(call) => call.spec_callsite(),
            _ => self,
        }
    }

    /// Whether the span was produced by a macro expansion.
    pub open spec fn spec_from_expansion(self) -> bool {
        self.origin is MacroExpansion
    }

    /// Whether the span was synthesised by a compiler-internal desugaring.
    pub open spec fn spec_is_desugared(self) -> bool {
        self.origin is Desugared
    }

    /// Whether two spans cover the same source region, regardless of how
    /// each came to be.
    pub open spec fn spec_same_position(self, other: Span) -> bool {
        self.file == other.file && self.start == other.start && self.end == other.end
    }

    /// Whether the span covers no characters.
    pub open spec fn spec_is_empty(self) -> bool {
        self.start == self.end
    }

    /// Resolve the outermost user-visible call site of this span.
    pub fn source_callsite(&self) -> (r: &Span)
        ensures
            *r == self.spec_callsite(),
        decreases *self,
    {
        match &self.origin {
            Origin::MacroExpansion(call) => call.source_callsite(),
            _ => self,
        }
    }

    /// An owned copy of this span, equal to the original.
    pub fn duplicate(&self) -> (r: Span)
        ensures
            r == *self,
        decreases *self,
    {
        let origin = match &self.origin {
            Origin::Direct => Origin::Direct,
            Origin::MacroExpansion(call) => Origin::MacroExpansion(Box::new(call.duplicate())),
            Origin::Desugared(kind) => Origin::Desugared(*kind),
        };
        Span { file: self.file, start: self.start, end: self.end, origin }
    }

    /// Whether the span was produced by a macro expansion.
    pub fn from_expansion(&self) -> (r: bool)
        ensures
            r == self.spec_from_expansion(),
    {
        matches!(self.origin, Origin::MacroExpansion(_))
    }

    /// Whether the span was synthesised by a compiler-internal desugaring.
    pub fn is_desugared(&self) -> (r: bool)
        ensures
            r == self.spec_is_desugared(),
    {
        matches!(self.origin, Origin::Desugared(_))
    }

    /// Whether two spans cover the same source region.
    pub fn same_position(&self, other: &Span) -> (r: bool)
        ensures
            r == self.spec_same_position(*other),
    {
        self.file == other.file && self.start == other.start && self.end == other.end
    }

    /// Whether the span covers no characters.
    pub fn is_empty(&self) -> (r: bool)
        ensures
            r == self.spec_is_empty(),
    {
        self.start == self.end
    }
}

/// Law: resolving a call site always lands on a user-visible span — never
/// inside a macro expansion — however deeply expansions are nested.
pub proof fn lemma_callsite_user_visible(s: Span)
    ensures
        !s.spec_callsite().spec_from_expansion(),
    decreases s,
{
    match s.origin {
        Origin::MacroExpansion(call) => {
            lemma_callsite_user_visible(*call);
        },
        _ => {},
    }
}

/// Law: a span the user wrote directly is its own call site.
pub proof fn lemma_callsite_direct_identity(s: Span)
    requires
        s.origin is Direct,
    ensures
        s.spec_callsite() == s,
{
}

} // verus!
