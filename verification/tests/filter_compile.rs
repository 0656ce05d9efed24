use core_engine::error::{FilterFault, RustoraError};
use core_engine::filter::{FilterCondition, FilterLogic, FilterOperator, FilterSpec};

fn condition(column: &str, operator: FilterOperator, value: &str) -> FilterCondition {
    FilterCondition { column: column.to_string(), operator, value: value.to_string() }
}

fn single(column: &str, operator: FilterOperator, value: &str) -> FilterSpec {
    FilterSpec { conditions: vec![condition(column, operator, value)], logic: FilterLogic::And }
}

#[test]
fn test_simple_equals_filter() {
    let spec = FilterSpec {
        conditions: vec![FilterCondition {
            column: "city".to_string(),
            operator: FilterOperator::Equals,
            value: "Boston".to_string(),
        }],
        logic: FilterLogic::And,
    };
    let sql = spec.to_sql_where().unwrap();
    assert_eq!(sql, "\"city\" = 'Boston'");
}

#[test]
fn test_numeric_filter() {
    let spec = FilterSpec {
        conditions: vec![FilterCondition {
            column: "age".to_string(),
            operator: FilterOperator::GreaterThan,
            value: "30".to_string(),
        }],
        logic: FilterLogic::And,
    };
    let sql = spec.to_sql_where().unwrap();
    assert_eq!(sql, "\"age\" > 30");
}

#[test]
fn test_multi_condition_and() {
    let spec = FilterSpec {
        conditions: vec![
            FilterCondition {
                column: "age".to_string(),
                operator: FilterOperator::GreaterThan,
                value: "25".to_string(),
            },
            FilterCondition {
                column: "city".to_string(),
                operator: FilterOperator::Equals,
                value: "Boston".to_string(),
            },
        ],
        logic: FilterLogic::And,
    };
    let sql = spec.to_sql_where().unwrap();
    assert_eq!(sql, "\"age\" > 25 AND \"city\" = 'Boston'");
}

#[test]
fn test_contains_filter() {
    let spec = FilterSpec {
        conditions: vec![FilterCondition {
            column: "name".to_string(),
            operator: FilterOperator::Contains,
            value: "li".to_string(),
        }],
        logic: FilterLogic::And,
    };
    let sql = spec.to_sql_where().unwrap();
    assert_eq!(sql, "\"name\" LIKE '%li%'");
}

#[test]
fn test_is_null_filter() {
    let spec = FilterSpec {
        conditions: vec![FilterCondition {
            column: "score".to_string(),
            operator: FilterOperator::IsNull,
            value: String::new(),
        }],
        logic: FilterLogic::And,
    };
    let sql = spec.to_sql_where().unwrap();
    assert_eq!(sql, "\"score\" IS NULL");
}

#[test]
fn test_sql_injection_prevention() {
    let spec = FilterSpec {
        conditions: vec![FilterCondition {
            column: "name".to_string(),
            operator: FilterOperator::Equals,
            value: "'; DROP TABLE users; --".to_string(),
        }],
        logic: FilterLogic::And,
    };
    let sql = spec.to_sql_where().unwrap();
    assert_eq!(sql, "\"name\" = '''; DROP TABLE users; --'");
}

#[test]
fn test_empty_conditions_error() {
    let spec = FilterSpec { conditions: vec![], logic: FilterLogic::And };
    assert!(spec.to_sql_where().is_err());
}

#[test]
fn test_non_numeric_comparison_is_quoted() {
    let spec = FilterSpec {
        conditions: vec![FilterCondition {
            column: "created_at".to_string(),
            operator: FilterOperator::GreaterThan,
            value: "2024-01-01".to_string(),
        }],
        logic: FilterLogic::And,
    };
    let sql = spec.to_sql_where().unwrap();
    assert_eq!(sql, "\"created_at\" > '2024-01-01'");
}

#[test]
fn test_injection_via_comparison_operator() {
    let spec = FilterSpec {
        conditions: vec![FilterCondition {
            column: "age".to_string(),
            operator: FilterOperator::GreaterThan,
            value: "0; DROP TABLE users; --".to_string(),
        }],
        logic: FilterLogic::And,
    };
    let sql = spec.to_sql_where().unwrap();
    assert_eq!(sql, "\"age\" > '0; DROP TABLE users; --'");
}

#[test]
fn test_unicode_value() {
    let spec = FilterSpec {
        conditions: vec![FilterCondition {
            column: "city".to_string(),
            operator: FilterOperator::Equals,
            value: "\u{00FC}ber".to_string(),
        }],
        logic: FilterLogic::And,
    };
    let sql = spec.to_sql_where().unwrap();
    assert_eq!(sql, "\"city\" = '\u{00FC}ber'");
}

#[test]
fn test_empty_string_value() {
    let spec = FilterSpec {
        conditions: vec![FilterCondition {
            column: "name".to_string(),
            operator: FilterOperator::Equals,
            value: String::new(),
        }],
        logic: FilterLogic::And,
    };
    let sql = spec.to_sql_where().unwrap();
    assert_eq!(sql, "\"name\" = ''");
}

#[test]
fn test_invalid_column_name_rejected() {
    let spec = FilterSpec {
        conditions: vec![FilterCondition {
            column: "col; DROP TABLE x".to_string(),
            operator: FilterOperator::Equals,
            value: "val".to_string(),
        }],
        logic: FilterLogic::And,
    };
    assert!(spec.to_sql_where().is_err());
}

#[test]
fn test_like_wildcards_escaped() {
    let spec = FilterSpec {
        conditions: vec![FilterCondition {
            column: "name".to_string(),
            operator: FilterOperator::Contains,
            value: "100%_done".to_string(),
        }],
        logic: FilterLogic::And,
    };
    let sql = spec.to_sql_where().unwrap();
    assert_eq!(sql, "\"name\" LIKE '%100\\%\\_done%'");
}

#[test]
fn empty_filter_reports_no_conditions() {
    let spec = FilterSpec { conditions: vec![], logic: FilterLogic::Or };
    match spec.to_sql_where() {
        Err(RustoraError::InvalidFilter(FilterFault::NoConditions)) => {}
        other => panic!("unexpected outcome: {:?}", other),
    }
}

#[test]
fn first_invalid_column_is_reported() {
    let spec = FilterSpec {
        conditions: vec![
            condition("ok", FilterOperator::IsNull, ""),
            condition("bad\"one", FilterOperator::Equals, "1"),
            condition("bad'two", FilterOperator::Equals, "2"),
        ],
        logic: FilterLogic::And,
    };
    match spec.to_sql_where() {
        Err(RustoraError::InvalidFilter(FilterFault::InvalidColumn(name))) => {
            assert_eq!(name, "bad\"one")
        }
        other => panic!("unexpected outcome: {:?}", other),
    }
}

#[test]
fn every_operator_has_its_text() {
    let cases = vec![
        (FilterOperator::Equals, "x", "\"c\" = 'x'"),
        (FilterOperator::NotEquals, "x", "\"c\" != 'x'"),
        (FilterOperator::NotEquals, "1.5", "\"c\" != 1.5"),
        (FilterOperator::GreaterThan, "x", "\"c\" > 'x'"),
        (FilterOperator::GreaterThanOrEqual, "7", "\"c\" >= 7"),
        (FilterOperator::LessThan, "-2e3", "\"c\" < -2e3"),
        (FilterOperator::LessThanOrEqual, "a'b", "\"c\" <= 'a''b'"),
        (FilterOperator::Contains, "a'b", "\"c\" LIKE '%a''b%'"),
        (FilterOperator::NotContains, "50%", "\"c\" NOT LIKE '%50\\%%'"),
        (FilterOperator::StartsWith, "a_b", "\"c\" LIKE 'a\\_b%'"),
        (FilterOperator::EndsWith, "z", "\"c\" LIKE '%z'"),
        (FilterOperator::IsNull, "ignored", "\"c\" IS NULL"),
        (FilterOperator::IsNotNull, "ignored", "\"c\" IS NOT NULL"),
    ];
    for (op, value, expected) in cases {
        assert_eq!(single("c", op, value).to_sql_where().unwrap(), expected);
    }
}

#[test]
fn or_logic_joins_with_or() {
    let spec = FilterSpec {
        conditions: vec![
            condition("a", FilterOperator::Equals, "1"),
            condition("b", FilterOperator::IsNull, ""),
            condition("c d", FilterOperator::Contains, "x"),
        ],
        logic: FilterLogic::Or,
    };
    assert_eq!(spec.to_sql_where().unwrap(), "\"a\" = 1 OR \"b\" IS NULL OR \"c d\" LIKE '%x%'");
}
