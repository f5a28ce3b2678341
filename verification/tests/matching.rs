use param_redef::ast::BindingMode;
use param_redef::ast::ExpressionKind;
use param_redef::ast::ParameterInfo;
use param_redef::ast::PatternKind;
use param_redef::ast::SourceSpan;
use param_redef::ast::Statement;
use param_redef::ast::StatementKind;
use param_redef::matcher::bare_name;
use param_redef::matcher::candidate_of;
use param_redef::matcher::first_param_named;
use param_redef::matcher::match_statement;

fn span(lo: u64, hi: u64) -> SourceSpan {
    SourceSpan { lo, hi }
}

fn param(name: u64, lo: u64, hi: u64) -> ParameterInfo {
    ParameterInfo {
        name,
        declaration_span: span(lo, hi),
    }
}

#[test]
fn bare_name_reads_single_segment_path() {
    let e = ExpressionKind::Path { segments: vec![7] };
    assert_eq!(bare_name(&e), Some(7));
}

#[test]
fn bare_name_rejects_longer_paths_and_other_shapes() {
    let qualified = ExpressionKind::Path {
        segments: vec![3, 7],
    };
    assert_eq!(bare_name(&qualified), None);
    let empty = ExpressionKind::Path { segments: vec![] };
    assert_eq!(bare_name(&empty), None);
    assert_eq!(bare_name(&ExpressionKind::Literal), None);
    assert_eq!(bare_name(&ExpressionKind::Call), None);
}

#[test]
fn candidate_of_reads_a_simple_local_declaration() {
    let stmt = Statement {
        kind: StatementKind::Local {
            pattern: PatternKind::Identifier {
                mode: BindingMode::ByValue { mutable: true },
                name: 9,
            },
            initializer: Some(ExpressionKind::Path { segments: vec![7] }),
        },
        span: span(30, 45),
    };
    let c = candidate_of(&stmt).unwrap();
    assert_eq!(c.bound_name, 9);
    assert!(c.is_mutable_by_value);
    assert_eq!(c.initializer_referenced_name, Some(7));
    assert_eq!(c.statement_span, span(30, 45));
}

#[test]
fn candidate_of_records_an_immutable_binding() {
    let stmt = Statement {
        kind: StatementKind::Local {
            pattern: PatternKind::Identifier {
                mode: BindingMode::ByValue { mutable: false },
                name: 9,
            },
            initializer: None,
        },
        span: span(30, 45),
    };
    let c = candidate_of(&stmt).unwrap();
    assert!(!c.is_mutable_by_value);
    assert_eq!(c.initializer_referenced_name, None);
}

#[test]
fn candidate_of_rejects_other_statements() {
    let expr_stmt = Statement {
        kind: StatementKind::Expression {
            expression: ExpressionKind::Call,
        },
        span: span(30, 45),
    };
    assert!(candidate_of(&expr_stmt).is_none());
    let item_stmt = Statement {
        kind: StatementKind::Item,
        span: span(46, 60),
    };
    assert!(candidate_of(&item_stmt).is_none());
    let wildcard = Statement {
        kind: StatementKind::Local {
            pattern: PatternKind::Wildcard,
            initializer: Some(ExpressionKind::Literal),
        },
        span: span(61, 70),
    };
    assert!(candidate_of(&wildcard).is_none());
}

#[test]
fn first_param_named_scans_in_declaration_order() {
    let params = vec![param(7, 10, 13), param(8, 14, 17), param(7, 18, 21)];
    assert_eq!(first_param_named(&params, 8), Some(param(8, 14, 17)));
    assert_eq!(first_param_named(&params, 7), Some(param(7, 10, 13)));
    assert_eq!(first_param_named(&params, 9), None);
    assert_eq!(first_param_named(&vec![], 7), None);
}

#[test]
fn match_statement_names_the_redefined_parameter() {
    let params = vec![param(6, 5, 8), param(7, 10, 13)];
    let stmt = Statement {
        kind: StatementKind::Local {
            pattern: PatternKind::Identifier {
                mode: BindingMode::ByValue { mutable: true },
                name: 7,
            },
            initializer: Some(ExpressionKind::Path { segments: vec![7] }),
        },
        span: span(30, 45),
    };
    assert_eq!(match_statement(&stmt, &params), Some(param(7, 10, 13)));
}

#[test]
fn match_statement_rejects_a_mutable_copy_of_no_parameter() {
    let params = vec![param(6, 5, 8)];
    let stmt = Statement {
        kind: StatementKind::Local {
            pattern: PatternKind::Identifier {
                mode: BindingMode::ByValue { mutable: true },
                name: 6,
            },
            initializer: Some(ExpressionKind::Path { segments: vec![9] }),
        },
        span: span(30, 45),
    };
    assert_eq!(match_statement(&stmt, &params), None);
}
