//! The engine's view of one node of the host's resolved syntax tree.
//!
//! Nodes are a tagged union over expressions, items and statements, each
//! carrying exactly the kind-specific facts the rules read: the host keeps
//! ownership of its tree and hands the engine these values, one per node,
//! in its depth-first visit order. The engine never mutates a node and
//! retains nothing beyond the current visit.

use vstd::prelude::*;
use crate::span::Span;

verus! {

/// The shape of a range used as an index operand.
#[derive(Clone, Copy, Debug, PartialEq, Eq, Structural)]
pub enum RangeKind {
    /// Both endpoints given.
    Bounded,
    /// No start endpoint.
    UnboundedStart,
    /// No end endpoint.
    UnboundedEnd,
    /// Neither endpoint given.
    Full,
}

/// Classification of the operand of an index/subscript access.
#[derive(Clone, Copy, Debug, PartialEq, Eq, Structural)]
pub enum IndexOperand {
    /// A literal constant index.
    LiteralConst,
    /// A range construction, i.e. a slicing access.
    Range(RangeKind),
    /// Any other index expression: a variable or a computed value.
    Computed,
}

/// How a block expression relates to the safety checks of the language.
#[derive(Clone, Copy, Debug, PartialEq, Eq, Structural)]
pub enum BlockSafety {
    /// An ordinary block.
    Safe,
    /// A block the user explicitly marked as bypassing safety checks.
    UserUnsafe,
    /// A safety-bypassing block the compiler generated itself.
    CompilerUnsafe,
}

/// One closure parameter: its pattern and annotation facts.
#[derive(Debug, PartialEq, Eq)]
pub struct Param {
    /// Whether the parameter pattern is the wildcard that ignores a value.
    pub wildcard: bool,
    /// The span of the parameter's pattern.
    pub pat_span: Span,
    /// The span of the parameter's type annotation. An inferred parameter
    /// carries an empty annotation span or one that coincides with the
    /// pattern span.
    pub ty_span: Span,
}

impl Param {
    /// Whether the parameter lacks an explicit type annotation: its
    /// annotation span is empty or coincides with the pattern span.
    pub open spec fn spec_unannotated(self) -> bool {
        self.ty_span.spec_is_empty() || self.ty_span.spec_same_position(self.pat_span)
    }

    /// Whether the parameter lacks an explicit type annotation.
    pub fn unannotated(&self) -> (r: bool)
        ensures
            r == self.spec_unannotated(),
    {
        self.ty_span.is_empty() || self.ty_span.same_position(&self.pat_span)
    }
}

/// The trait a declaration implements, as the host resolved it.
#[derive(Clone, Copy, Debug, PartialEq, Eq, Structural)]
pub enum ImplTarget {
    /// The indexing-read capability.
    IndexRead,
    /// The indexing-write capability.
    IndexReadWrite,
    /// Any other trait.
    OtherTrait,
}

/// Expression payloads the rules read.
#[derive(Debug, PartialEq, Eq)]
pub enum ExprKind {
    /// An index/subscript access, with its operand classified.
    IndexAccess { operand: IndexOperand },
    /// A method call, carrying the called method's name.
    MethodCall { name: String },
    /// A direct call; `target` is the callee's fully qualified path as the
    /// host's definition resolution produced it, or nothing when the callee
    /// could not be resolved.
    Call { target: Option<String> },
    /// A closure, with its parameters; `coroutine` marks a closure whose
    /// body is a suspended, resumable computation.
    Closure { params: Vec<Param>, coroutine: bool },
    /// A block expression with its safety mode.
    Block { safety: BlockSafety },
    /// Any other expression.
    OtherExpr,
}

/// Item (declaration) payloads the rules read.
#[derive(Debug, PartialEq, Eq)]
pub enum ItemKind {
    /// A function declaration, possibly marked unsafe.
    FnDecl { is_unsafe: bool },
    /// A trait declaration, possibly marked unsafe.
    TraitDecl { is_unsafe: bool },
    /// An implementation declaration. `of_trait` names the implemented
    /// trait, or nothing for an inherent implementation; `is_unsafe` marks
    /// an unsafe trait implementation.
    ImplDecl { is_unsafe: bool, of_trait: Option<ImplTarget> },
    /// Any other item.
    OtherItem,
}

/// Statement payloads the rules read.
#[derive(Debug, PartialEq, Eq)]
pub enum StmtKind {
    /// A binding declaration: whether its pattern is a wildcard, whether it
    /// carries an explicit type annotation, and the pattern's span.
    LetStmt { wildcard: bool, has_annotation: bool, pat_span: Span },
    /// Any other statement.
    OtherStmt,
}

/// The payload of one node.
#[derive(Debug, PartialEq, Eq)]
pub enum NodeKind {
    Expr(ExprKind),
    Item(ItemKind),
    Stmt(StmtKind),
}

/// One node of the host's tree: its payload and its span.
#[derive(Debug, PartialEq, Eq)]
pub struct Node {
    pub kind: NodeKind,
    pub span: Span,
}

/// A function declaration node carrying no unsafe marking.
pub fn safe_function(span: Span) -> (n: Node)
    ensures
        n == (Node { kind: NodeKind::Item(ItemKind::FnDecl { is_unsafe: false }), span }),
{
    Node { kind: NodeKind::Item(ItemKind::FnDecl { is_unsafe: false }), span }
}

/// A function declaration node the user marked unsafe.
pub fn unsafe_function(span: Span) -> (n: Node)
    ensures
        n == (Node { kind: NodeKind::Item(ItemKind::FnDecl { is_unsafe: true }), span }),
{
    Node { kind: NodeKind::Item(ItemKind::FnDecl { is_unsafe: true }), span }
}

} // verus!
