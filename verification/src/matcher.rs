//! The pattern matcher: decides whether one statement is a trivial mutable
//! redefinition of some parameter and, if so, of which one.
//!
//! A statement qualifies when, and only when, all of this holds:
//! it is a local-variable declaration; it binds a single simple identifier
//! by value; the binding carries the mutable qualifier; it has an
//! initializer; the initializer is a bare name reference — a path of
//! exactly one unqualified segment; and that referenced name is the name of
//! some parameter of the enclosing function. Every statement shape the
//! matcher does not recognise simply fails to match: there is no error
//! case.

use vstd::prelude::*;
use crate::ast::{
    BindingMode, ExpressionKind, Identifier, ParameterInfo, PatternKind, SourceSpan, Statement,
    StatementKind,
};

verus! {

/// What one statement contributes to matching, once its shape is read:
/// derived from a single local declaration that binds one simple
/// identifier, and discarded as soon as the statement is classified.
#[derive(Clone, Copy, PartialEq, Eq, Debug)]
pub struct CandidateBinding {
    /// The name the local declaration binds.
    pub bound_name: Identifier,
    /// Whether the binding is by value and carries the mutable qualifier.
    pub is_mutable_by_value: bool,
    /// The name the initializer references, when the initializer is a bare
    /// name reference; nothing otherwise.
    pub initializer_referenced_name: Option<Identifier>,
    /// The span of the whole statement.
    pub statement_span: SourceSpan,
}

/// The name a bare name reference reads: a path expression of exactly one
/// segment names that segment; every other expression names nothing.
pub open spec fn spec_bare_name(e: ExpressionKind) -> Option<Identifier> {
    match e {
        ExpressionKind::Path { segments } => {
            if segments@.len() == 1 {
                Some(segments@[0])
            } else {
                None
            }
        },
        _ => None,
    }
}

/// The candidate a statement yields: one exists exactly for a local
/// declaration that binds a single simple identifier.
pub open spec fn spec_candidate(stmt: Statement) -> Option<CandidateBinding> {
    match stmt.kind {
        StatementKind::Local { pattern, initializer } => match pattern {
            PatternKind::Identifier { mode, name } => Some(
                CandidateBinding {
                    bound_name: name,
                    is_mutable_by_value: match mode {
                        BindingMode::ByValue { mutable } => mutable,
                        BindingMode::ByReference { .. } => false,
                    },
                    initializer_referenced_name: match initializer {
                        Some(e) => spec_bare_name(e),
                        None => None,
                    },
                    statement_span: stmt.span,
                },
            ),
            _ => None,
        },
        _ => None,
    }
}

/// The first parameter of the list bearing the given name, in declaration
/// order; nothing when no parameter bears it.
pub open spec fn spec_first_param_named(
    params: Seq<ParameterInfo>,
    name: Identifier,
) -> Option<ParameterInfo>
    decreases params.len(),
{
    if params.len() == 0 {
        None
    } else if params[0].name == name {
        Some(params[0])
    } else {
        spec_first_param_named(params.drop_first(), name)
    }
}

/// The matcher's verdict on one statement: the parameter it redefines, or
/// nothing.
pub open spec fn spec_match_statement(
    stmt: Statement,
    params: Seq<ParameterInfo>,
) -> Option<ParameterInfo> {
    match spec_candidate(stmt) {
        Some(c) => {
            if c.is_mutable_by_value {
                match c.initializer_referenced_name {
                    Some(n) => spec_first_param_named(params, n),
                    None => None,
                }
            } else {
                None
            }
        },
        None => None,
    }
}

/// No parameter bears the name: the lookup yields nothing.
pub proof fn lemma_no_param_named(params: Seq<ParameterInfo>, name: Identifier)
    requires
        forall|i: int| 0 <= i < params.len() ==> (#[trigger] params[i]).name != name,
    ensures
        spec_first_param_named(params, name) is None,
    decreases params.len(),
{
    if params.len() > 0 {
        assert(params[0].name != name);
        assert(forall|i: int|
            0 <= i < params.drop_first().len() ==> (#[trigger] params.drop_first()[i]).name
                != name);
        lemma_no_param_named(params.drop_first(), name);
    }
}

/// The parameter at the first position bearing the name is the one the
/// lookup yields.
pub proof fn lemma_first_param_named_is_first(
    params: Seq<ParameterInfo>,
    name: Identifier,
    k: int,
)
    requires
        0 <= k < params.len(),
        params[k].name == name,
        forall|j: int| 0 <= j < k ==> (#[trigger] params[j]).name != name,
    ensures
        spec_first_param_named(params, name) == Some(params[k]),
    decreases k,
{
    if k == 0 {
    } else {
        assert(params[0].name != name);
        assert(params.drop_first()[k - 1] == params[k]);
        assert(forall|j: int|
            0 <= j < k - 1 ==> (#[trigger] params.drop_first()[j]).name != name) by {
            assert(forall|j: int|
                0 <= j < k - 1 ==> params.drop_first()[j] == params[j + 1]);
        }
        lemma_first_param_named_is_first(params.drop_first(), name, k - 1);
    }
}

/// The mutable qualifier is required: a statement whose pattern is not a
/// single simple identifier bound by value with the mutable qualifier —
/// among them the immutable `let x = p;` — never matches, whatever its
/// initializer and whatever the parameter list.
pub proof fn lemma_mutability_required(stmt: Statement, params: Seq<ParameterInfo>)
    requires
        !(stmt.kind matches StatementKind::Local {
            pattern: PatternKind::Identifier { mode: BindingMode::ByValue { mutable: true }, .. },
            ..
        }),
    ensures
        spec_match_statement(stmt, params) is None,
{
}

/// A bare name reference as initializer is required: a local declaration
/// with no initializer, or with an initializer that is anything beyond a
/// path of exactly one segment — a call, a method call, a projection, a
/// literal, an operator application, a qualified path — never matches.
pub proof fn lemma_bare_name_required(stmt: Statement, params: Seq<ParameterInfo>)
    requires
        stmt.kind matches StatementKind::Local { initializer, .. } ==> match initializer {
            Some(e) => spec_bare_name(e) is None,
            None => true,
        },
    ensures
        spec_match_statement(stmt, params) is None,
{
}

/// The matcher keys on the name the initializer references, nothing else:
/// when that name is no parameter's name, the statement never matches —
/// whatever name the local itself binds, even one that coincides with some
/// other parameter's name.
pub proof fn lemma_unreferenced_param_required(stmt: Statement, params: Seq<ParameterInfo>)
    requires
        stmt.kind matches StatementKind::Local { initializer: Some(e), .. } ==> match spec_bare_name(
            e,
        ) {
            Some(n) => forall|i: int| 0 <= i < params.len() ==> (#[trigger] params[i]).name != n,
            None => true,
        },
    ensures
        spec_match_statement(stmt, params) is None,
{
    match spec_candidate(stmt) {
        Some(c) => match c.initializer_referenced_name {
            Some(n) => lemma_no_param_named(params, n),
            None => (),
        },
        None => (),
    }
}

/// The positive side of the matcher: a local declaration `let mut x = p;`
/// whose initializer names the parameter at the first position bearing
/// that name is matched to exactly that parameter.
pub proof fn lemma_redefinition_matches(stmt: Statement, params: Seq<ParameterInfo>, k: int)
    requires
        0 <= k < params.len(),
        stmt.kind matches StatementKind::Local {
            pattern: PatternKind::Identifier { mode: BindingMode::ByValue { mutable: true }, .. },
            initializer: Some(e),
        } && spec_bare_name(e) == Some(params[k].name),
        forall|j: int| 0 <= j < k ==> (#[trigger] params[j]).name != params[k].name,
    ensures
        spec_match_statement(stmt, params) == Some(params[k]),
{
    lemma_first_param_named_is_first(params, params[k].name, k);
}

/// The name a bare name reference reads, read off the expression.
pub fn bare_name(e: &ExpressionKind) -> (r: Option<Identifier>)
    ensures
        r == spec_bare_name(*e),
{
    match e {
        ExpressionKind::Path { segments } => {
            if segments.len() == 1 {
                Some(segments[0])
            } else {
                None
            }
        },
        _ => None,
    }
}

/// Reads a statement's shape into a candidate binding, when it is a local
/// declaration binding a single simple identifier.
pub fn candidate_of(stmt: &Statement) -> (r: Option<CandidateBinding>)
    ensures
        r == spec_candidate(*stmt),
{
    match &stmt.kind {
        StatementKind::Local { pattern, initializer } => match pattern {
            PatternKind::Identifier { mode, name } => {
                let is_mutable_by_value = match mode {
                    BindingMode::ByValue { mutable } => *mutable,
                    BindingMode::ByReference { .. } => false,
                };
                let initializer_referenced_name = match initializer {
                    Some(e) => bare_name(e),
                    None => None,
                };
                Some(
                    CandidateBinding {
                        bound_name: *name,
                        is_mutable_by_value,
                        initializer_referenced_name,
                        statement_span: stmt.span,
                    },
                )
            },
            _ => None,
        },
        _ => None,
    }
}

/// Scans the parameter list in declaration order for the first parameter
/// bearing the given name.
pub fn first_param_named(params: &Vec<ParameterInfo>, name: Identifier) -> (r: Option<
    ParameterInfo,
>)
    ensures
        r == spec_first_param_named(params@, name),
{
    let mut i: usize = 0;
    proof {
        assert(params@.skip(0) =~= params@);
    }
    while i < params.len()
        invariant
            0 <= i <= params@.len(),
            spec_first_param_named(params@, name) == spec_first_param_named(
                params@.skip(i as int),
                name,
            ),
        decreases params@.len() - i,
    {
        if params[i].name == name {
            assert(params@.skip(i as int)[0] == params@[i as int]);
            return Some(params[i]);
        }
        proof {
            assert(params@.skip(i as int)[0] == params@[i as int]);
            assert(params@.skip(i as int).drop_first() =~= params@.skip(i as int + 1));
        }
        i = i + 1;
    }
    None
}

/// Decides whether the statement is a trivial mutable redefinition of some
/// parameter of the list, and of which one: the shape checks in order, then
/// the scan of the parameter list for the name the initializer references.
pub fn match_statement(stmt: &Statement, params: &Vec<ParameterInfo>) -> (r: Option<
    ParameterInfo,
>)
    ensures
        r == spec_match_statement(*stmt, params@),
{
    match candidate_of(stmt) {
        Some(c) => {
            if c.is_mutable_by_value {
                match c.initializer_referenced_name {
                    Some(n) => first_param_named(params, n),
                    None => None,
                }
            } else {
                None
            }
        },
        None => None,
    }
}

} // verus!
