//! The structural model of a function that the rule inspects.
//!
//! The host analysis framework is expected to translate each function
//! definition it encounters into a [`FunctionSignature`]: the declared
//! parameters in order, the span of the whole definition, and the body's
//! immediate statement list. Identifiers arrive interned, as the host's
//! symbol numbers; the rule only ever compares them for equality.

use vstd::prelude::*;

verus! {

/// An interned identifier: the host framework's symbol number for a name.
pub type Identifier = u64;

/// A region of source text, as a half-open range of byte positions.
#[derive(Clone, Copy, PartialEq, Eq, Structural, Debug)]
pub struct SourceSpan {
    pub lo: u64,
    pub hi: u64,
}

/// How a pattern binds the matched value to its name.
#[derive(Clone, Copy, PartialEq, Eq, Structural, Debug)]
pub enum BindingMode {
    /// The binding takes the value itself (by move or copy).
    ByValue { mutable: bool },
    /// The binding borrows the value.
    ByReference { mutable: bool },
}

/// The shape of a binding pattern, as far as the rule needs to see it.
///
/// Only a single simple identifier bound by value with the mutable qualifier
/// can take part in a match; every other shape is skipped, so the remaining
/// variants carry no payload.
#[derive(Clone, Copy, PartialEq, Eq, Structural, Debug)]
pub enum PatternKind {
    /// A single identifier, such as the `x` of `let mut x = ...;`.
    Identifier { mode: BindingMode, name: Identifier },
    /// A tuple pattern, such as `(a, b)`.
    Tuple,
    /// A struct pattern, such as `Point { x, y }`.
    Struct,
    /// The wildcard pattern `_`.
    Wildcard,
}

/// The shape of an expression, as far as the rule needs to see it.
///
/// Only a path expression can be a bare name reference; the other variants
/// exist so that a translated body can record the shapes the rule must
/// skip (calls, projections, literals, arithmetic, nested blocks).
pub enum ExpressionKind {
    /// A path expression; the segments are its `::`-separated names in
    /// order. A bare name reference is a path of exactly one segment.
    Path { segments: Vec<Identifier> },
    /// A function call, such as `other()`.
    Call,
    /// A method call, such as `p.clone()`.
    MethodCall,
    /// A field projection, such as `p.x`.
    FieldAccess,
    /// A literal, such as `1`.
    Literal,
    /// An operator application, such as `p + 1`.
    Binary,
    /// An expression carrying a nested block (an `if` body, a loop body, a
    /// closure body). Its statements are out of the rule's reach: only a
    /// function's immediate statement list is ever scanned.
    Block { statements: Vec<Statement> },
}

/// The shape of one statement of a function body.
pub enum StatementKind {
    /// A local-variable declaration, such as `let mut x = p;`.
    Local { pattern: PatternKind, initializer: Option<ExpressionKind> },
    /// A nested item declaration.
    Item,
    /// An expression statement, with or without a trailing semicolon.
    Expression { expression: ExpressionKind },
}

/// One statement of a function body, with its span.
pub struct Statement {
    pub kind: StatementKind,
    pub span: SourceSpan,
}

/// One declared parameter of a function: its name and the span of its
/// declaration. Parameters appear in declaration order and are presumed
/// uniquely named by the language's own binding rules.
#[derive(Clone, Copy, PartialEq, Eq, Structural, Debug)]
pub struct ParameterInfo {
    pub name: Identifier,
    pub declaration_span: SourceSpan,
}

/// One function or method definition, as handed over by the host framework:
/// its parameter list, the span of the whole definition, and the body's
/// immediate statement list. The rule only borrows it, read-only.
pub struct FunctionSignature {
    pub parameters: Vec<ParameterInfo>,
    pub body_span: SourceSpan,
    pub statements: Vec<Statement>,
}

} // verus!
