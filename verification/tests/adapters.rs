use in_predicate::array_comparison::AsInExpression;
use in_predicate::array_comparison::In;
use in_predicate::array_comparison::InExpression;
use in_predicate::array_comparison::Many;
use in_predicate::array_comparison::MaybeEmpty;
use in_predicate::array_comparison::NotIn;
use in_predicate::ast_pass::AstPass;
use in_predicate::expression::Expr;
use in_predicate::expression::QueryId;
use in_predicate::sql_types::SqlTypeTag;
use in_predicate::subselect::BoxedSelectQuery;
use in_predicate::subselect::SelectQuery;
use in_predicate::subselect::Subselect;

fn empty_looking_subquery() -> SelectQuery {
    SelectQuery {
        sql: String::from("SELECT id FROM users WHERE 1=0"),
        binds: Vec::new(),
        ty: SqlTypeTag::Integer,
        safe_to_cache: true,
        static_query_id: true,
    }
}

#[test]
fn collection_emptiness_is_its_length() {
    let empty = Many(Vec::new());
    assert!(empty.is_empty());
    let one = Many(vec![Expr::Value { value: 1, ty: SqlTypeTag::Integer }]);
    assert!(!one.is_empty());
}

#[test]
fn subquery_never_reports_empty() {
    // Even a query statically guaranteed to return no rows commits to
    // "not empty": cardinality is unknown without executing it.
    let sub = Subselect::new(empty_looking_subquery());
    assert!(!sub.is_empty());
}

#[test]
fn converted_collection_is_a_collection_adapter() {
    let adapter = vec![1i64, 2].as_in_expression(SqlTypeTag::Integer);
    assert!(matches!(adapter, InExpression::Values(_)));
    assert!(!adapter.is_empty());
}

#[test]
fn converted_queries_are_subquery_adapters() {
    let adapter = empty_looking_subquery().as_in_expression(SqlTypeTag::Integer);
    assert!(matches!(adapter, InExpression::Subquery(_)));
    assert!(!adapter.is_empty());

    let boxed = BoxedSelectQuery { query: empty_looking_subquery() };
    let adapter = boxed.as_in_expression(SqlTypeTag::Integer);
    assert!(matches!(adapter, InExpression::Subquery(_)));
    assert!(!adapter.is_empty());
}

#[test]
fn expression_collections_convert_unchanged() {
    let exprs = vec![
        Expr::Column { name: String::from("height"), ty: SqlTypeTag::Integer },
        Expr::Value { value: 30, ty: SqlTypeTag::Integer },
    ];
    let adapter = exprs.as_in_expression(SqlTypeTag::Integer);
    let predicate = In::new(
        Expr::Column { name: String::from("age"), ty: SqlTypeTag::Integer },
        adapter,
    );
    let out = predicate.render();
    assert_eq!(out.sql, "age IN (height, 30)");
    assert_eq!(out.binds, vec![30]);
}

#[test]
fn collection_adapter_marks_even_an_empty_render_uncacheable() {
    // The collection's own rendering signal is unconditional, independent
    // of length; only the predicate's sentinel short-circuit avoids it.
    let empty = Many(Vec::new());
    let mut out = AstPass::new();
    empty.walk_ast(&mut out);
    assert_eq!(out.sql, "");
    assert!(out.binds.is_empty());
    assert!(!out.safe_to_cache);
}

#[test]
fn collection_opts_out_of_structural_plan_identity() {
    let one = Many(vec![Expr::Value { value: 1, ty: SqlTypeTag::Integer }]);
    assert!(!one.has_static_query_id());
    assert!(!Many(Vec::new()).has_static_query_id());
}

#[test]
fn predicate_plan_identity_composes_structurally() {
    let column = Expr::Column { name: String::from("age"), ty: SqlTypeTag::Integer };
    assert!(column.has_static_query_id());

    let with_collection = In::new(
        Expr::Column { name: String::from("age"), ty: SqlTypeTag::Integer },
        vec![1i64].as_in_expression(SqlTypeTag::Integer),
    );
    assert!(!with_collection.has_static_query_id());

    let with_subquery = NotIn::new(
        Expr::Column { name: String::from("age"), ty: SqlTypeTag::Integer },
        empty_looking_subquery().as_in_expression(SqlTypeTag::Integer),
    );
    assert!(with_subquery.has_static_query_id());
}

#[test]
fn boxed_queries_have_no_structural_identity() {
    let boxed = BoxedSelectQuery { query: empty_looking_subquery() };
    assert!(!boxed.has_static_query_id());
}

#[test]
fn subquery_parameters_follow_its_text() {
    let query = SelectQuery {
        sql: String::from("SELECT id FROM users WHERE group_id = "),
        binds: vec![4, 8],
        ty: SqlTypeTag::Integer,
        safe_to_cache: true,
        static_query_id: true,
    };
    let predicate = In::new(
        Expr::Column { name: String::from("age"), ty: SqlTypeTag::Integer },
        query.as_in_expression(SqlTypeTag::Integer),
    );
    let out = predicate.render();
    assert_eq!(out.sql, "age IN (SELECT id FROM users WHERE group_id = )");
    assert_eq!(out.binds, vec![4, 8]);
}
