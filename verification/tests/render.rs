use in_predicate::array_comparison::AsInExpression;
use in_predicate::array_comparison::In;
use in_predicate::array_comparison::NotIn;
use in_predicate::expression::Expr;
use in_predicate::sql_types::SqlTypeTag;
use in_predicate::subselect::SelectQuery;

fn age_column() -> Expr {
    Expr::Column { name: String::from("age"), ty: SqlTypeTag::Integer }
}

fn users_subquery(safe_to_cache: bool) -> SelectQuery {
    SelectQuery {
        sql: String::from("SELECT id FROM users"),
        binds: vec![7],
        ty: SqlTypeTag::Integer,
        safe_to_cache,
        static_query_id: true,
    }
}

#[test]
fn nonempty_collection_renders_membership_form() {
    let values = vec![1i64, 2, 3].as_in_expression(SqlTypeTag::Integer);
    let predicate = In::new(age_column(), values);
    let out = predicate.render();
    assert_eq!(out.sql, "age IN (1, 2, 3)");
    assert_eq!(out.binds, vec![1, 2, 3]);
    assert_eq!(out.binds.len(), 3);
}

#[test]
fn empty_collection_renders_sentinels() {
    let out = In::new(
        age_column(),
        Vec::<i64>::new().as_in_expression(SqlTypeTag::Integer),
    )
    .render();
    assert_eq!(out.sql, "1=0");
    assert!(out.binds.is_empty());

    let out = NotIn::new(
        age_column(),
        Vec::<i64>::new().as_in_expression(SqlTypeTag::Integer),
    )
    .render();
    assert_eq!(out.sql, "1=1");
    assert!(out.binds.is_empty());
}

#[test]
fn subquery_always_renders_real_form() {
    let predicate = In::new(
        age_column(),
        users_subquery(true).as_in_expression(SqlTypeTag::Integer),
    );
    let out = predicate.render();
    assert_eq!(out.sql, "age IN (SELECT id FROM users)");
    assert_eq!(out.binds, vec![7]);

    let predicate = NotIn::new(
        age_column(),
        users_subquery(true).as_in_expression(SqlTypeTag::Integer),
    );
    let out = predicate.render();
    assert_eq!(out.sql, "age NOT IN (SELECT id FROM users)");
    assert_eq!(out.binds, vec![7]);
}

#[test]
fn rendering_twice_yields_identical_output() {
    let predicate = NotIn::new(
        age_column(),
        vec![4i64, 4, 9].as_in_expression(SqlTypeTag::Integer),
    );
    let first = predicate.render();
    let second = predicate.render();
    assert_eq!(first.sql, second.sql);
    assert_eq!(first.binds, second.binds);
    assert_eq!(first.safe_to_cache, second.safe_to_cache);

    let predicate = In::new(
        age_column(),
        users_subquery(true).as_in_expression(SqlTypeTag::Integer),
    );
    let first = predicate.render();
    let second = predicate.render();
    assert_eq!(first.sql, second.sql);
    assert_eq!(first.binds, second.binds);
}

#[test]
fn permuting_inputs_permutes_parameters_identically() {
    let straight = In::new(
        age_column(),
        vec![18i64, 21, 65].as_in_expression(SqlTypeTag::Integer),
    )
    .render();
    let permuted = In::new(
        age_column(),
        vec![65i64, 18, 21].as_in_expression(SqlTypeTag::Integer),
    )
    .render();
    assert_eq!(straight.binds, vec![18, 21, 65]);
    assert_eq!(permuted.binds, vec![65, 18, 21]);
    assert_eq!(permuted.binds[0], straight.binds[2]);
    assert_eq!(permuted.binds[1], straight.binds[0]);
    assert_eq!(permuted.binds[2], straight.binds[1]);
}

#[test]
fn collection_render_is_never_cacheable() {
    let out = In::new(
        age_column(),
        vec![5i64].as_in_expression(SqlTypeTag::Integer),
    )
    .render();
    assert!(!out.safe_to_cache);

    let out = NotIn::new(
        age_column(),
        vec![1i64, 2, 3, 4].as_in_expression(SqlTypeTag::Integer),
    )
    .render();
    assert!(!out.safe_to_cache);
}

#[test]
fn subquery_render_defers_to_query_cacheability() {
    let out = In::new(
        age_column(),
        users_subquery(true).as_in_expression(SqlTypeTag::Integer),
    )
    .render();
    assert!(out.safe_to_cache);

    let out = In::new(
        age_column(),
        users_subquery(false).as_in_expression(SqlTypeTag::Integer),
    )
    .render();
    assert!(!out.safe_to_cache);
}

#[test]
fn empty_collection_sentinel_leaves_cache_flag_alone() {
    let out = In::new(
        age_column(),
        Vec::<i64>::new().as_in_expression(SqlTypeTag::Integer),
    )
    .render();
    assert!(out.safe_to_cache);
}

#[test]
fn duplicates_are_kept_in_order() {
    let out = In::new(
        age_column(),
        vec![5i64, 5].as_in_expression(SqlTypeTag::Integer),
    )
    .render();
    assert_eq!(out.sql, "age IN (5, 5)");
    assert_eq!(out.binds, vec![5, 5]);
}

#[test]
fn end_to_end_not_in_over_ages() {
    let out = NotIn::new(
        age_column(),
        vec![18i64, 21, 65].as_in_expression(SqlTypeTag::Integer),
    )
    .render();
    assert_eq!(out.sql, "age NOT IN (18, 21, 65)");
    assert_eq!(out.binds, vec![18, 21, 65]);

    let out = NotIn::new(
        age_column(),
        Vec::<i64>::new().as_in_expression(SqlTypeTag::Integer),
    )
    .render();
    assert_eq!(out.sql, "1=1");
    assert!(out.binds.is_empty());

    let out = NotIn::new(
        age_column(),
        vec![18i64].as_in_expression(SqlTypeTag::Integer),
    )
    .render();
    assert_eq!(out.sql, "age NOT IN (18)");
    assert_eq!(out.binds, vec![18]);
    assert!(!out.safe_to_cache);
}

#[test]
fn negative_values_render_in_collections() {
    let out = In::new(
        age_column(),
        vec![-3i64, 0, 12].as_in_expression(SqlTypeTag::Integer),
    )
    .render();
    assert_eq!(out.sql, "age IN (-3, 0, 12)");
    assert_eq!(out.binds, vec![-3, 0, 12]);
}
