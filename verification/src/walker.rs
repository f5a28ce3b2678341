//! The function walker: scans a function's immediate statement list in
//! source order, asks the matcher about each statement, and synthesises one
//! finding per match.
//!
//! The walk is a single linear pass with no carried state: the parameter
//! list is read-only context. There is no deduplication and no early exit —
//! a function with several qualifying statements yields several findings,
//! each spanning the same function. Statements inside nested blocks are
//! never examined.

use vstd::prelude::*;
use crate::ast::{FunctionSignature, ParameterInfo, Statement, StatementKind};
use crate::finding::{
    finding_fits, finding_like, lemma_fits_same_model_like, new_finding, Finding, FindingModel,
};
use crate::matcher::{match_statement, spec_match_statement};

verus! {

/// The model of the finding that one match yields: the function's whole
/// span as primary span, the matched parameter's declaration span, and the
/// redefining statement's span.
pub open spec fn model_of(
    sig: FunctionSignature,
    stmt: Statement,
    param: ParameterInfo,
) -> FindingModel {
    FindingModel {
        function_span: sig.body_span,
        parameter_span: param.declaration_span,
        local_statement_span: stmt.span,
    }
}

/// The models of the findings the first `n` statements yield, in source
/// order: each statement contributes its model when it matches and nothing
/// when it does not.
pub open spec fn finding_models_upto(sig: FunctionSignature, n: int) -> Seq<FindingModel>
    decreases n,
{
    if n <= 0 {
        Seq::empty()
    } else {
        finding_models_upto(sig, n - 1) + match spec_match_statement(
            sig.statements@[n - 1],
            sig.parameters@,
        ) {
            Some(p) => seq![model_of(sig, sig.statements@[n - 1], p)],
            None => Seq::empty(),
        }
    }
}

/// The models of all the findings the function yields, in source order.
pub open spec fn finding_models(sig: FunctionSignature) -> Seq<FindingModel> {
    finding_models_upto(sig, sig.statements@.len() as int)
}

/// What `analyze` returns: one finding per model, in order, each fitting
/// its model.
pub open spec fn analyze_post(sig: FunctionSignature, findings: Seq<Finding>) -> bool {
    &&& findings.len() == finding_models(sig).len()
    &&& forall|k: int|
        0 <= k < findings.len() ==> finding_fits(
            #[trigger] findings[k],
            finding_models(sig)[k],
        )
}

proof fn lemma_models_upto_all_none(sig: FunctionSignature, n: int)
    requires
        forall|j: int|
            0 <= j < n ==> spec_match_statement(
                #[trigger] sig.statements@[j],
                sig.parameters@,
            ) is None,
    ensures
        finding_models_upto(sig, n) =~= Seq::<FindingModel>::empty(),
    decreases n,
{
    if n > 0 {
        lemma_models_upto_all_none(sig, n - 1);
    }
}

proof fn lemma_models_upto_one(sig: FunctionSignature, n: int, i: int, p: ParameterInfo)
    requires
        0 <= i < n,
        spec_match_statement(sig.statements@[i], sig.parameters@) == Some(p),
        forall|j: int|
            0 <= j < n && j != i ==> spec_match_statement(
                #[trigger] sig.statements@[j],
                sig.parameters@,
            ) is None,
    ensures
        finding_models_upto(sig, n) =~= seq![model_of(sig, sig.statements@[i], p)],
    decreases n,
{
    if n - 1 == i {
        lemma_models_upto_all_none(sig, n - 1);
    } else {
        lemma_models_upto_one(sig, n - 1, i, p);
    }
}

proof fn lemma_models_upto_two(
    sig: FunctionSignature,
    n: int,
    i: int,
    j: int,
    p: ParameterInfo,
    q: ParameterInfo,
)
    requires
        0 <= i < j < n,
        spec_match_statement(sig.statements@[i], sig.parameters@) == Some(p),
        spec_match_statement(sig.statements@[j], sig.parameters@) == Some(q),
        forall|k: int|
            0 <= k < n && k != i && k != j ==> spec_match_statement(
                #[trigger] sig.statements@[k],
                sig.parameters@,
            ) is None,
    ensures
        finding_models_upto(sig, n) =~= seq![
            model_of(sig, sig.statements@[i], p),
            model_of(sig, sig.statements@[j], q),
        ],
    decreases n,
{
    if n - 1 == j {
        lemma_models_upto_one(sig, n - 1, i, p);
    } else {
        lemma_models_upto_two(sig, n - 1, i, j, p, q);
    }
}

/// A function with no matching statement yields no finding at all.
pub proof fn lemma_no_match_no_findings(sig: FunctionSignature)
    requires
        forall|j: int|
            0 <= j < sig.statements@.len() ==> spec_match_statement(
                #[trigger] sig.statements@[j],
                sig.parameters@,
            ) is None,
    ensures
        finding_models(sig) =~= Seq::<FindingModel>::empty(),
{
    lemma_models_upto_all_none(sig, sig.statements@.len() as int);
}

/// A function whose one matching statement redefines parameter `p` yields
/// exactly one finding: its primary span is the function's span, its local
/// statement span is that statement's span, and its parameter span is
/// `p`'s declaration span.
pub proof fn lemma_single_redefinition(sig: FunctionSignature, i: int, p: ParameterInfo)
    requires
        0 <= i < sig.statements@.len(),
        spec_match_statement(sig.statements@[i], sig.parameters@) == Some(p),
        forall|j: int|
            0 <= j < sig.statements@.len() && j != i ==> spec_match_statement(
                #[trigger] sig.statements@[j],
                sig.parameters@,
            ) is None,
    ensures
        finding_models(sig) =~= seq![
            FindingModel {
                function_span: sig.body_span,
                parameter_span: p.declaration_span,
                local_statement_span: sig.statements@[i].span,
            },
        ],
{
    lemma_models_upto_one(sig, sig.statements@.len() as int, i, p);
}

/// A function with two independent matching statements yields two
/// findings, in source order, each spanning the same function and each
/// carrying its own parameter and local statement spans.
pub proof fn lemma_two_redefinitions(
    sig: FunctionSignature,
    i: int,
    j: int,
    p: ParameterInfo,
    q: ParameterInfo,
)
    requires
        0 <= i < j < sig.statements@.len(),
        spec_match_statement(sig.statements@[i], sig.parameters@) == Some(p),
        spec_match_statement(sig.statements@[j], sig.parameters@) == Some(q),
        forall|k: int|
            0 <= k < sig.statements@.len() && k != i && k != j ==> spec_match_statement(
                #[trigger] sig.statements@[k],
                sig.parameters@,
            ) is None,
    ensures
        finding_models(sig) =~= seq![
            FindingModel {
                function_span: sig.body_span,
                parameter_span: p.declaration_span,
                local_statement_span: sig.statements@[i].span,
            },
            FindingModel {
                function_span: sig.body_span,
                parameter_span: q.declaration_span,
                local_statement_span: sig.statements@[j].span,
            },
        ],
{
    lemma_models_upto_two(sig, sig.statements@.len() as int, i, j, p, q);
}

/// Only the function's immediate statement list is scanned: a function
/// whose top-level statements are no local declarations yields no finding,
/// whatever statements their nested blocks hold — a qualifying local
/// declaration one level deep, inside an `if` body say, stays unseen.
pub proof fn lemma_nested_blocks_not_scanned(sig: FunctionSignature)
    requires
        forall|j: int|
            0 <= j < sig.statements@.len() ==> !((#[trigger] sig.statements@[j]).kind
                matches StatementKind::Local { .. }),
    ensures
        finding_models(sig) =~= Seq::<FindingModel>::empty(),
{
    lemma_no_match_no_findings(sig);
}

/// Idempotence: the walk is deterministic, so any two analyses of the same
/// function signature are structurally identical, finding for finding.
pub proof fn lemma_analyze_idempotent(
    sig: FunctionSignature,
    first: Seq<Finding>,
    second: Seq<Finding>,
)
    requires
        analyze_post(sig, first),
        analyze_post(sig, second),
    ensures
        first.len() == second.len(),
        forall|k: int| 0 <= k < first.len() ==> finding_like(#[trigger] first[k], second[k]),
{
    assert forall|k: int| 0 <= k < first.len() implies finding_like(
        #[trigger] first[k],
        second[k],
    ) by {
        lemma_fits_same_model_like(first[k], second[k], finding_models(sig)[k]);
    }
}

/// Walks the function's immediate statement list in source order and
/// returns one finding for every statement the matcher recognises as a
/// trivial mutable redefinition of a parameter.
pub fn analyze(sig: &FunctionSignature) -> (findings: Vec<Finding>)
    ensures
        analyze_post(*sig, findings@),
{
    let mut findings: Vec<Finding> = Vec::new();
    let mut i: usize = 0;
    while i < sig.statements.len()
        invariant
            0 <= i <= sig.statements@.len(),
            findings@.len() == finding_models_upto(*sig, i as int).len(),
            forall|k: int|
                0 <= k < findings@.len() ==> finding_fits(
                    #[trigger] findings@[k],
                    finding_models_upto(*sig, i as int)[k],
                ),
        decreases sig.statements@.len() - i,
    {
        let stmt = &sig.statements[i];
        match match_statement(stmt, &sig.parameters) {
            Some(param) => {
                let f = new_finding(sig.body_span, param.declaration_span, stmt.span);
                findings.push(f);
            },
            None => {},
        }
        i = i + 1;
    }
    findings
}

} // verus!
