//! The diagnostic record the rule produces.
//!
//! One [`Finding`] is one reported instance of the anti-pattern. Its primary
//! span is the whole function definition — the fix conceptually touches both
//! the parameter declaration and the local declaration — and it carries two
//! pieces of advice, one attached to each of those places. The rule
//! deliberately proposes no automatic rewrite, so a finding holds prose
//! only; rendering is the host framework's business.

use vstd::prelude::*;
use crate::ast::SourceSpan;

verus! {

/// One piece of advice, attached to a span of the analysed source.
pub struct Suggestion {
    pub span: SourceSpan,
    pub text: String,
}

/// One reported instance of the anti-pattern: a parameter redefined as a
/// mutable local. Immutable once produced; handed to the host framework's
/// reporting sink.
pub struct Finding {
    /// The whole function definition the diagnostic is reported on.
    pub function_span: SourceSpan,
    /// The declaration of the parameter that was redefined.
    pub parameter_span: SourceSpan,
    /// The local-variable declaration that redefines it.
    pub local_statement_span: SourceSpan,
    /// The diagnostic message.
    pub message: String,
    /// The advice, in order: first for the parameter declaration, then for
    /// the local declaration.
    pub suggestions: Vec<Suggestion>,
}

/// The span content of a finding: everything about it except the fixed
/// texts. Two findings with the same model say the same thing.
#[derive(Clone, Copy, PartialEq, Eq, Structural, Debug)]
pub struct FindingModel {
    pub function_span: SourceSpan,
    pub parameter_span: SourceSpan,
    pub local_statement_span: SourceSpan,
}

/// The diagnostic message every finding carries.
pub open spec fn finding_message() -> Seq<char> {
    "a parameter was redefined as mutable, can be removed"@
}

/// The advice attached to the parameter's declaration span.
pub open spec fn parameter_advice() -> Seq<char> {
    "consider making this parameter mutable directly"@
}

/// The advice attached to the redefining statement's span.
pub open spec fn local_advice() -> Seq<char> {
    "consider removing this local variable"@
}

/// What a well-formed finding for a given model looks like: the three spans
/// of the model, the fixed message, and exactly the two pieces of advice,
/// each attached to its place.
pub open spec fn finding_fits(f: Finding, m: FindingModel) -> bool {
    &&& f.function_span == m.function_span
    &&& f.parameter_span == m.parameter_span
    &&& f.local_statement_span == m.local_statement_span
    &&& f.message@ == finding_message()
    &&& f.suggestions@.len() == 2
    &&& f.suggestions@[0].span == m.parameter_span
    &&& f.suggestions@[0].text@ == parameter_advice()
    &&& f.suggestions@[1].span == m.local_statement_span
    &&& f.suggestions@[1].text@ == local_advice()
}

/// Structural identity of two findings: equal spans and equal texts
/// throughout.
pub open spec fn finding_like(a: Finding, b: Finding) -> bool {
    &&& a.function_span == b.function_span
    &&& a.parameter_span == b.parameter_span
    &&& a.local_statement_span == b.local_statement_span
    &&& a.message@ == b.message@
    &&& a.suggestions@.len() == b.suggestions@.len()
    &&& forall|j: int| 0 <= j < a.suggestions@.len() ==> {
        &&& (#[trigger] a.suggestions@[j]).span == b.suggestions@[j].span
        &&& a.suggestions@[j].text@ == b.suggestions@[j].text@
    }
}

/// Two findings that fit one model are structurally identical.
pub proof fn lemma_fits_same_model_like(a: Finding, b: Finding, m: FindingModel)
    requires
        finding_fits(a, m),
        finding_fits(b, m),
    ensures
        finding_like(a, b),
{
    assert forall|j: int| 0 <= j < a.suggestions@.len() implies {
        &&& (#[trigger] a.suggestions@[j]).span == b.suggestions@[j].span
        &&& a.suggestions@[j].text@ == b.suggestions@[j].text@
    } by {
        assert(j == 0 || j == 1);
    }
}

/// Builds the finding for one match: the function's span as primary span,
/// the fixed message, and the two pieces of advice in order.
pub fn new_finding(
    function_span: SourceSpan,
    parameter_span: SourceSpan,
    local_statement_span: SourceSpan,
) -> (f: Finding)
    ensures
        finding_fits(
            f,
            FindingModel { function_span, parameter_span, local_statement_span },
        ),
{
    let mut suggestions: Vec<Suggestion> = Vec::new();
    suggestions.push(Suggestion {
        span: parameter_span,
        text: "consider making this parameter mutable directly".to_owned(),
    });
    suggestions.push(Suggestion {
        span: local_statement_span,
        text: "consider removing this local variable".to_owned(),
    });
    Finding {
        function_span,
        parameter_span,
        local_statement_span,
        message: "a parameter was redefined as mutable, can be removed".to_owned(),
        suggestions,
    }
}

} // verus!
