use polars_core::datatypes::{DataType, Field, Schema, TimeUnit};
use polars_core::error::PolarsError;
use polars_core::lazy::builder::{
    det_join_schema, det_melt_schema, is_compressed, prepare_projection, LogicalPlanBuilder,
};
use polars_core::lazy::checks::{
    check_explode, check_fill, check_filter, check_groupby, check_join_keys, check_melt,
    check_projection,
};
use polars_core::lazy::dsl::{
    col, combine_predicates_expr, expr_output_name, AggKind, Expr, LiteralValue, Operator,
};
use polars_core::lazy::options::{
    AllowedOptimizations, CsvEncoding, DistinctKeepStrategy, DistinctOptions, JoinOptions,
    JoinType, LpScanOptions,
};
use polars_core::lazy::plan::{DataFrame, DataFrameUdf, LogicalPlan, SharedUdf, UdfRef};
use polars_core::lazy::projection::rewrite_projections;
use polars_core::lazy::types::{expressions_to_schema, get_supertype, Context};
use polars_core::series::Series;
use std::sync::Arc;

fn schema(fields: &[(&str, DataType)]) -> Schema {
    Schema::new(
        fields
            .iter()
            .map(|(n, dt)| Field::new(n, dt.clone()))
            .collect(),
    )
}

fn scan(fields: &[(&str, DataType)]) -> LogicalPlanBuilder {
    LogicalPlanBuilder::scan_parquet("data.parquet".to_string(), schema(fields), None, true, false)
}

fn abc() -> LogicalPlanBuilder {
    scan(&[
        ("a", DataType::Int32),
        ("b", DataType::Utf8),
        ("c", DataType::Float64),
    ])
}

fn binary(left: Expr, op: Operator, right: Expr) -> Expr {
    Expr::BinaryExpr {
        left: Box::new(left),
        op,
        right: Box::new(right),
    }
}

fn lit_i32(v: i32) -> Expr {
    Expr::Literal(LiteralValue::Int32(v))
}

fn sum(e: Expr) -> Expr {
    Expr::Agg(AggKind::Sum, Box::new(e))
}

fn join_options(suffix: &str) -> JoinOptions {
    JoinOptions {
        allow_parallel: true,
        force_parallel: false,
        how: JoinType::Left,
        suffix: suffix.to_string(),
        asof_by_left: vec![],
        asof_by_right: vec![],
    }
}

#[test]
fn melt_schema_takes_type_of_first_value_var() {
    let input = schema(&[
        ("x", DataType::Int32),
        ("y", DataType::Int32),
        ("z", DataType::Utf8),
    ]);
    let out = det_melt_schema(&["x".to_string(), "y".to_string()], &input);
    assert_eq!(
        *out,
        schema(&[
            ("z", DataType::Utf8),
            ("variable", DataType::Utf8),
            ("value", DataType::Int32),
        ])
    );
}

#[test]
fn melt_schema_does_not_reconcile_value_types() {
    let input = schema(&[
        ("id", DataType::Date),
        ("x", DataType::Float64),
        ("y", DataType::Int8),
    ]);
    let out = det_melt_schema(&["y".to_string(), "x".to_string(), "nope".to_string()], &input);
    assert_eq!(
        *out,
        schema(&[
            ("id", DataType::Date),
            ("variable", DataType::Utf8),
            ("value", DataType::Int8),
        ])
    );
}

#[test]
fn join_schema_drops_right_keys() {
    let left = schema(&[("a", DataType::Int32), ("b", DataType::Utf8)]);
    let right = schema(&[("a", DataType::Int32), ("c", DataType::Utf8)]);
    let out = det_join_schema(&left, &right, &vec![col("a")], "_right");
    assert_eq!(
        out,
        schema(&[
            ("a", DataType::Int32),
            ("b", DataType::Utf8),
            ("c", DataType::Utf8),
        ])
    );
}

#[test]
fn join_schema_key_that_collides_is_dropped() {
    let left = schema(&[("a", DataType::Int32), ("b", DataType::Utf8)]);
    let right = schema(&[("b", DataType::Int32), ("c", DataType::Utf8)]);
    let out = det_join_schema(&left, &right, &vec![col("b")], "_right");
    assert_eq!(
        out,
        schema(&[
            ("a", DataType::Int32),
            ("b", DataType::Utf8),
            ("c", DataType::Utf8),
        ])
    );
}

#[test]
fn join_schema_suffixes_colliding_columns() {
    let left = schema(&[("a", DataType::Int32), ("b", DataType::Utf8)]);
    let right = schema(&[("a", DataType::Int32), ("b", DataType::Int32)]);
    let out = det_join_schema(&left, &right, &vec![col("b")], "_right");
    assert_eq!(
        out,
        schema(&[
            ("a", DataType::Int32),
            ("b", DataType::Utf8),
            ("a_right", DataType::Int32),
        ])
    );
}

#[test]
fn join_schema_keys_go_by_expression_name() {
    let left = schema(&[("a", DataType::Int32)]);
    let right = schema(&[
        ("k", DataType::Int32),
        ("a", DataType::Date),
        ("x", DataType::Int8),
    ]);
    // the key is known as `x`, the name of its alias, so `k` stays and `x` goes
    let key = col("k").alias("x");
    let out = det_join_schema(&left, &right, &vec![key], "_r");
    assert_eq!(
        out,
        schema(&[
            ("a", DataType::Int32),
            ("k", DataType::Int32),
            ("a_r", DataType::Date),
        ])
    );
}

#[test]
fn join_node_carries_schema_and_inputs() {
    let left = scan(&[("a", DataType::Int32), ("b", DataType::Utf8)]);
    let right = scan(&[("a", DataType::Int32), ("b", DataType::Int32)]).build();
    let plan = left
        .join(right, vec![col("a")], vec![col("b")], join_options("_right"))
        .build();
    match plan {
        LogicalPlan::Join {
            input_left,
            input_right,
            schema: s,
            left_on,
            right_on,
            options,
        } => {
            assert!(matches!(*input_left, LogicalPlan::ParquetScan { .. }));
            assert!(matches!(*input_right, LogicalPlan::ParquetScan { .. }));
            assert_eq!(left_on, vec![col("a")]);
            assert_eq!(right_on, vec![col("b")]);
            assert_eq!(options, join_options("_right"));
            assert_eq!(
                *s,
                schema(&[
                    ("a", DataType::Int32),
                    ("b", DataType::Utf8),
                    ("a_right", DataType::Int32),
                ])
            );
        }
        _ => panic!("expected a join"),
    }
}

#[test]
fn wildcard_is_expanded_over_the_schema() {
    let s = schema(&[("a", DataType::Int32), ("b", DataType::Utf8)]);
    let out = rewrite_projections(
        vec![col("b"), sum(col("*")).alias("s"), lit_i32(1)],
        &s,
        &[],
    );
    assert_eq!(
        out,
        vec![
            col("b"),
            sum(col("a")).alias("s"),
            sum(col("b")).alias("s"),
            lit_i32(1),
        ]
    );
    // the columns that the keys stand for are left out
    let keys = [col("a").alias("k"), lit_i32(1)];
    let out = rewrite_projections(vec![Expr::Wildcard], &s, &keys);
    assert_eq!(out, vec![col("b")]);
}

#[test]
fn projection_derives_schema() {
    let plan = abc()
        .project(vec![
            col("c"),
            binary(col("a"), Operator::Plus, col("c")).alias("sum"),
            binary(col("a"), Operator::Gt, lit_i32(3)),
        ])
        .build();
    match plan {
        LogicalPlan::Projection {
            expr,
            input,
            schema: s,
        } => {
            assert_eq!(expr.len(), 3);
            assert!(matches!(*input, LogicalPlan::ParquetScan { .. }));
            assert_eq!(
                *s,
                schema(&[
                    ("c", DataType::Float64),
                    ("sum", DataType::Float64),
                    ("a", DataType::Boolean),
                ])
            );
        }
        _ => panic!("expected a projection"),
    }
}

#[test]
fn empty_projection_gives_frame_without_columns() {
    let plan = abc().project(vec![]).build();
    match plan {
        LogicalPlan::Udf {
            input,
            function,
            options,
            schema: s,
        } => {
            assert!(matches!(*input, LogicalPlan::ParquetScan { .. }));
            assert!(matches!(function, UdfRef::EmptyFrame));
            assert!(options.predicate_pd);
            assert!(options.projection_pd);
            assert_eq!(options.fmt_str, "EMPTY PROJECTION");
            assert_eq!(*s.unwrap(), Schema::default());
        }
        _ => panic!("expected a function node"),
    }
    // a wildcard over a frame without columns is an empty projection too
    let plan = scan(&[]).project(vec![Expr::Wildcard]).build();
    assert!(matches!(plan, LogicalPlan::Udf { .. }));
}

#[test]
fn local_projection_without_expressions_changes_nothing() {
    let plan = abc().project_local(vec![]).build();
    assert!(matches!(plan, LogicalPlan::ParquetScan { .. }));
    let plan = abc().project_local(vec![col("a")]).build();
    match plan {
        LogicalPlan::LocalProjection { expr, schema: s, .. } => {
            assert_eq!(expr, vec![col("a")]);
            assert_eq!(*s, schema(&[("a", DataType::Int32)]));
        }
        _ => panic!("expected a local projection"),
    }
}

#[test]
fn prepare_projection_expands_and_types() {
    let s = schema(&[("a", DataType::Int32), ("b", DataType::Utf8)]);
    let (exprs, out) = prepare_projection(vec![Expr::Wildcard], &s);
    assert_eq!(exprs, vec![col("a"), col("b")]);
    assert_eq!(out, s);
}

#[test]
fn filter_with_wildcard_is_a_conjunction() {
    let predicate = Expr::IsNotNull(Box::new(Expr::Wildcard));
    let plan = abc().filter(predicate).build();
    let not_null = |n: &str| Expr::IsNotNull(Box::new(col(n)));
    match plan {
        LogicalPlan::Selection { predicate, input } => {
            assert!(matches!(*input, LogicalPlan::ParquetScan { .. }));
            assert_eq!(
                predicate,
                binary(
                    binary(not_null("a"), Operator::And, not_null("b")),
                    Operator::And,
                    not_null("c")
                )
            );
        }
        _ => panic!("expected a selection"),
    }
    let plan = abc().filter(not_null("a")).build();
    match plan {
        LogicalPlan::Selection { predicate, .. } => assert_eq!(predicate, not_null("a")),
        _ => panic!("expected a selection"),
    }
}

#[test]
fn predicates_are_combined_from_the_left() {
    assert_eq!(combine_predicates_expr(vec![col("a")]), col("a"));
    assert_eq!(
        combine_predicates_expr(vec![col("a"), col("b"), col("c")]),
        col("a").and(col("b")).and(col("c"))
    );
}

#[test]
fn groupby_merges_key_and_aggregation_schemas() {
    let input = scan(&[
        ("k", DataType::Utf8),
        ("v", DataType::Int16),
        ("w", DataType::Float32),
    ]);
    let keys = Arc::new(vec![col("k")]);
    let aggs = vec![
        sum(Expr::Wildcard),
        Expr::Agg(AggKind::Count, Box::new(col("v"))).alias("n"),
        Expr::Agg(AggKind::Max, Box::new(col("k"))),
    ];
    let plan = input
        .groupby(keys, aggs, None, true, None, None)
        .build();
    match plan {
        LogicalPlan::Aggregate {
            keys,
            aggs,
            schema: s,
            apply,
            maintain_order,
            options,
            ..
        } => {
            assert_eq!(*keys, vec![col("k")]);
            assert_eq!(aggs.len(), 4);
            assert_eq!(aggs[0], sum(col("v")));
            assert_eq!(aggs[1], sum(col("w")));
            assert!(apply.is_none());
            assert!(maintain_order);
            assert!(options.dynamic.is_none());
            assert!(options.rolling.is_none());
            // the key `k` wins over the aggregation of the same name
            assert_eq!(
                *s,
                schema(&[
                    ("k", DataType::Utf8),
                    ("v", DataType::Int64),
                    ("w", DataType::Float32),
                    ("n", DataType::UInt32),
                ])
            );
        }
        _ => panic!("expected an aggregation"),
    }
}

#[test]
fn aggregation_types_depend_on_context() {
    let s = schema(&[
        ("i", DataType::Int32),
        ("u", DataType::UInt8),
        ("b", DataType::Boolean),
        ("l", DataType::Int64),
    ]);
    let exprs = vec![
        sum(col("i")),
        sum(col("u")),
        sum(col("b")),
        sum(col("l")),
        Expr::Agg(AggKind::Mean, Box::new(col("i"))),
        Expr::Agg(AggKind::List, Box::new(col("u"))),
        Expr::Agg(AggKind::NUnique, Box::new(col("b"))),
        Expr::Agg(AggKind::First, Box::new(col("b"))),
    ];
    let grouped = expressions_to_schema(&exprs, &s, Context::Aggregation).unwrap();
    assert_eq!(
        grouped,
        schema(&[
            ("i", DataType::Int64),
            ("u", DataType::UInt64),
            ("b", DataType::UInt32),
            ("l", DataType::Int64),
            ("i", DataType::Float64),
            ("u", DataType::List(Box::new(DataType::UInt8))),
            ("b", DataType::UInt32),
            ("b", DataType::Boolean),
        ])
    );
    let whole = expressions_to_schema(&exprs, &s, Context::Default).unwrap();
    assert_eq!(whole.field(0), Some(&Field::new("i", DataType::Int32)));
    assert_eq!(whole.field(1), Some(&Field::new("u", DataType::UInt8)));
    assert_eq!(whole.field(2), Some(&Field::new("b", DataType::UInt32)));
}

#[test]
fn fields_of_expressions() {
    let s = schema(&[("a", DataType::Int32), ("b", DataType::Utf8)]);
    let field = |e: Expr| e.to_field(&s, Context::Default);
    assert_eq!(field(col("b")), Ok(Field::new("b", DataType::Utf8)));
    assert_eq!(field(lit_i32(1)), Ok(Field::new("literal", DataType::Int32)));
    assert_eq!(
        field(Expr::Literal(LiteralValue::Utf8("x".to_string())).alias("y")),
        Ok(Field::new("y", DataType::Utf8))
    );
    assert_eq!(
        field(Expr::Not(Box::new(col("zz")))),
        Ok(Field::new("not", DataType::Boolean))
    );
    assert_eq!(
        field(col("a").is_null()),
        Ok(Field::new("is_null", DataType::Boolean))
    );
    assert_eq!(
        field(col("a").is_nan()),
        Ok(Field::new("is_nan", DataType::Boolean))
    );
    assert_eq!(
        field(Expr::IsNotNull(Box::new(col("a")))),
        Ok(Field::new("is_not_null", DataType::Boolean))
    );
    assert_eq!(
        field(Expr::Cast {
            expr: Box::new(col("a")),
            data_type: DataType::Date
        }),
        Ok(Field::new("a", DataType::Date))
    );
    assert_eq!(
        field(Expr::Ternary {
            predicate: Box::new(col("zz")),
            truthy: Box::new(col("b")),
            falsy: Box::new(col("a")),
        }),
        Ok(Field::new("b", DataType::Utf8))
    );
    assert_eq!(
        field(col("zz")),
        Err(PolarsError::NotFound(
            "Unable to get field named \"zz\". Valid fields: [\"a\", \"b\"]".to_string()
        ))
    );
    assert_eq!(
        field(binary(col("a"), Operator::Minus, col("b"))),
        Err(PolarsError::ComputeError(
            "Failed to determine supertype".to_string()
        ))
    );
    // the first failure is reported
    assert!(matches!(
        expressions_to_schema(
            &vec![col("a"), binary(col("a"), Operator::Plus, col("b")), col("zz")],
            &s,
            Context::Default
        ),
        Err(PolarsError::ComputeError(_))
    ));
}

#[test]
fn supertypes() {
    let st = |l: DataType, r: DataType| get_supertype(&l, &r);
    assert_eq!(st(DataType::Int32, DataType::Int32), Ok(DataType::Int32));
    assert_eq!(st(DataType::Null, DataType::Utf8), Ok(DataType::Utf8));
    assert_eq!(st(DataType::Date, DataType::Null), Ok(DataType::Date));
    assert_eq!(st(DataType::Int8, DataType::Int32), Ok(DataType::Int32));
    assert_eq!(st(DataType::UInt16, DataType::UInt8), Ok(DataType::UInt16));
    assert_eq!(st(DataType::UInt8, DataType::Int8), Ok(DataType::Int16));
    assert_eq!(st(DataType::Int64, DataType::UInt8), Ok(DataType::Int64));
    assert_eq!(st(DataType::UInt16, DataType::Int16), Ok(DataType::Int32));
    assert_eq!(st(DataType::UInt32, DataType::Int8), Ok(DataType::Int64));
    assert_eq!(st(DataType::UInt64, DataType::Int64), Ok(DataType::Float64));
    assert_eq!(st(DataType::Float32, DataType::Float64), Ok(DataType::Float64));
    assert_eq!(st(DataType::Float32, DataType::Int16), Ok(DataType::Float32));
    assert_eq!(st(DataType::Int32, DataType::Float32), Ok(DataType::Float64));
    assert_eq!(st(DataType::Float64, DataType::UInt8), Ok(DataType::Float64));
    assert!(matches!(
        st(DataType::Utf8, DataType::Int8),
        Err(PolarsError::ComputeError(_))
    ));
    assert!(matches!(
        st(
            DataType::Datetime(TimeUnit::Milliseconds, None),
            DataType::Datetime(TimeUnit::Nanoseconds, None)
        ),
        Err(PolarsError::ComputeError(_))
    ));
}

#[test]
fn output_names() {
    assert_eq!(expr_output_name(&col("a")), Ok("a".to_string()));
    assert_eq!(expr_output_name(&col("a").alias("b")), Ok("b".to_string()));
    assert_eq!(
        expr_output_name(&binary(lit_i32(1), Operator::Plus, sum(col("x")))),
        Ok("x".to_string())
    );
    assert_eq!(
        expr_output_name(&binary(col("l"), Operator::Plus, col("r"))),
        Ok("l".to_string())
    );
    assert_eq!(
        expr_output_name(&Expr::Ternary {
            predicate: Box::new(col("p")),
            truthy: Box::new(lit_i32(1)),
            falsy: Box::new(col("f")),
        }),
        Ok("f".to_string())
    );
    assert_eq!(
        expr_output_name(&lit_i32(1)),
        Err(PolarsError::ComputeError(
            "No root column name could be found for the expression".to_string()
        ))
    );
    assert_eq!(col("*"), Expr::Wildcard);
    assert!(col("*").has_wildcard());
    assert!(!col("a").has_wildcard());
}

#[test]
fn with_columns_replaces_or_appends() {
    let plan = abc()
        .with_columns(vec![
            Expr::Cast {
                expr: Box::new(col("b")),
                data_type: DataType::Categorical,
            },
            col("a").alias("d"),
            lit_i32(1).alias("d"),
        ])
        .build();
    match plan {
        LogicalPlan::HStack { exprs, schema: s, .. } => {
            assert_eq!(exprs.len(), 3);
            // both new columns named `d` are appended: names are looked up in the input
            assert_eq!(
                *s,
                schema(&[
                    ("a", DataType::Int32),
                    ("b", DataType::Categorical),
                    ("c", DataType::Float64),
                    ("d", DataType::Int32),
                    ("d", DataType::Int32),
                ])
            );
        }
        _ => panic!("expected a stack of columns"),
    }
}

#[test]
fn fill_null_and_fill_nan_replace_per_column() {
    let input = || scan(&[("a", DataType::Int32), ("b", DataType::Utf8)]);
    let filled = |test: Expr, name: &str| {
        Expr::Ternary {
            predicate: Box::new(test),
            truthy: Box::new(lit_i32(0)),
            falsy: Box::new(col(name)),
        }
        .alias(name)
    };
    match input().fill_null(lit_i32(0)).build() {
        LogicalPlan::LocalProjection { expr, schema: s, .. } => {
            assert_eq!(
                expr,
                vec![
                    filled(col("a").is_null(), "a"),
                    filled(col("b").is_null(), "b"),
                ]
            );
            assert_eq!(*s, schema(&[("a", DataType::Int32), ("b", DataType::Int32)]));
        }
        _ => panic!("expected a local projection"),
    }
    match input().fill_nan(lit_i32(0)).build() {
        LogicalPlan::LocalProjection { expr, .. } => {
            assert_eq!(
                expr,
                vec![
                    filled(col("a").is_nan(), "a"),
                    filled(col("b").is_nan(), "b"),
                ]
            );
        }
        _ => panic!("expected a local projection"),
    }
    // nothing to fill in a frame without columns
    assert!(matches!(
        scan(&[]).fill_null(lit_i32(0)).build(),
        LogicalPlan::ParquetScan { .. }
    ));
}

#[test]
fn explode_takes_plain_columns() {
    match abc().explode(vec![col("b"), Expr::Wildcard]).build() {
        LogicalPlan::Explode { columns, .. } => {
            assert_eq!(columns, vec!["b", "a", "b", "c"]);
        }
        _ => panic!("expected an explode"),
    }
}

#[test]
fn melt_node_carries_schema() {
    let id_vars = Arc::new(vec!["b".to_string()]);
    let value_vars = Arc::new(vec!["c".to_string(), "a".to_string()]);
    match abc().melt(id_vars, value_vars).build() {
        LogicalPlan::Melt {
            id_vars,
            value_vars,
            schema: s,
            ..
        } => {
            assert_eq!(*id_vars, vec!["b"]);
            assert_eq!(*value_vars, vec!["c", "a"]);
            assert_eq!(
                *s,
                schema(&[
                    ("b", DataType::Utf8),
                    ("variable", DataType::Utf8),
                    ("value", DataType::Float64),
                ])
            );
        }
        _ => panic!("expected a melt"),
    }
}

#[test]
fn nodes_without_schema_pass_the_input_schema_on() {
    let expected = schema(&[
        ("a", DataType::Int32),
        ("b", DataType::Utf8),
        ("c", DataType::Float64),
    ]);
    let plan = abc()
        .cache()
        .sort(vec![col("a")], vec![true])
        .slice(-5, 3)
        .distinct(DistinctOptions {
            subset: None,
            maintain_order: false,
            keep_strategy: DistinctKeepStrategy::Last,
        })
        .filter(col("a"))
        .explode(vec![])
        .build();
    assert_eq!(plan.schema(), &expected);
    match plan {
        LogicalPlan::Explode { input, columns } => {
            assert!(columns.is_empty());
            match *input {
                LogicalPlan::Selection { input, .. } => match *input {
                    LogicalPlan::Distinct { input, options } => {
                        assert_eq!(options.keep_strategy, DistinctKeepStrategy::Last);
                        match *input {
                            LogicalPlan::Slice { input, offset, len } => {
                                assert_eq!((offset, len), (-5, 3));
                                match *input {
                                    LogicalPlan::Sort {
                                        input,
                                        by_column,
                                        reverse,
                                    } => {
                                        assert_eq!(by_column, vec![col("a")]);
                                        assert_eq!(reverse, vec![true]);
                                        assert!(matches!(*input, LogicalPlan::Cache { .. }));
                                    }
                                    _ => panic!("expected a sort"),
                                }
                            }
                            _ => panic!("expected a slice"),
                        }
                    }
                    _ => panic!("expected a distinct"),
                },
                _ => panic!("expected a selection"),
            }
        }
        _ => panic!("expected an explode"),
    }
}

struct Identity;

impl DataFrameUdf for Identity {
    fn call_udf(&self, df: DataFrame) -> polars_core::error::Result<DataFrame> {
        Ok(df)
    }
}

#[test]
fn map_carries_function_and_hints() {
    let optimizations = AllowedOptimizations {
        predicate_pushdown: false,
        ..Default::default()
    };
    let function = UdfRef::Shared(SharedUdf(Arc::new(Identity)));
    let declared = Arc::new(schema(&[("x", DataType::Int8)]));
    match abc()
        .map(function, optimizations, Some(declared), "identity")
        .build()
    {
        LogicalPlan::Udf {
            function,
            options,
            schema: s,
            ..
        } => {
            assert!(!options.predicate_pd);
            assert!(options.projection_pd);
            assert_eq!(options.fmt_str, "identity");
            assert_eq!(*s.unwrap(), schema(&[("x", DataType::Int8)]));
            match function {
                UdfRef::Shared(f) => {
                    let out = f.0.call_udf(DataFrame::new_no_checks(vec![])).unwrap();
                    assert!(out.get_columns().is_empty());
                }
                UdfRef::EmptyFrame => panic!("expected the user's function"),
            }
        }
        _ => panic!("expected a function node"),
    }
    // without a declared schema the node has the schema of its input
    let plan = abc()
        .map(UdfRef::EmptyFrame, AllowedOptimizations::default(), None, "f")
        .build();
    assert_eq!(plan.schema().len(), 3);
}

#[test]
fn frame_in_memory_starts_a_plan() {
    let df = DataFrame::new_no_checks(vec![
        Series::new("a", &[1, 2, 3]),
        Series::new("b", &[4, 5, 6]),
    ]);
    match LogicalPlanBuilder::from_existing_df(df).build() {
        LogicalPlan::DataFrameScan {
            df,
            schema: s,
            projection,
            selection,
        } => {
            assert_eq!(df.get_columns().len(), 2);
            assert!(projection.is_none());
            assert!(selection.is_none());
            assert_eq!(*s, schema(&[("a", DataType::Int32), ("b", DataType::Int32)]));
        }
        _ => panic!("expected a scan of a frame"),
    }
}

#[test]
fn builder_wraps_and_hands_out_plans() {
    let plan = abc().build();
    let builder = LogicalPlanBuilder::from(plan);
    assert!(matches!(builder.build(), LogicalPlan::ParquetScan { .. }));
    let options = LpScanOptions {
        n_rows: Some(10),
        with_columns: None,
        cache: false,
    };
    match LogicalPlanBuilder::scan_ipc("f.ipc".to_string(), schema(&[]), options).build() {
        LogicalPlan::IpcScan { path, options, .. } => {
            assert_eq!(path, "f.ipc");
            assert_eq!(options.n_rows, Some(10));
        }
        _ => panic!("expected an ipc scan"),
    }
    match abc().build() {
        LogicalPlan::ParquetScan {
            path,
            predicate,
            aggregate,
            options,
            ..
        } => {
            assert_eq!(path, "data.parquet");
            assert!(predicate.is_none());
            assert!(aggregate.is_empty());
            assert!(options.cache);
            assert!(!options.parallel);
            assert_eq!(options.n_rows, None);
        }
        _ => panic!("expected a parquet scan"),
    }
}

fn scan_csv_with_magic(magic: [u8; 2]) -> polars_core::error::Result<LogicalPlanBuilder> {
    LogicalPlanBuilder::scan_csv(
        "f.csv".to_string(),
        magic,
        b',',
        true,
        false,
        2,
        Some(100),
        true,
        Arc::new(schema(&[("a", DataType::Int64)])),
        false,
        Some(b'#'),
        Some(b'"'),
        None,
        true,
        3,
        CsvEncoding::Utf8,
        None,
    )
}

#[test]
fn scan_of_compressed_csv_fails() {
    for magic in [[31u8, 139], [0x78, 0x01], [0x78, 0x9C], [0x78, 0xDA]] {
        assert!(is_compressed(&magic));
        match scan_csv_with_magic(magic) {
            Err(PolarsError::ComputeError(msg)) => assert_eq!(
                msg,
                "cannot scan compressed csv; use read_csv for compressed data"
            ),
            _ => panic!("expected an error"),
        }
    }
}

#[test]
fn scan_of_plain_csv_builds_a_scan() {
    assert!(!is_compressed(b"a,"));
    assert!(!is_compressed(&[0x78, 0x02]));
    assert!(!is_compressed(&[139, 31]));
    assert!(!is_compressed(&[31]));
    assert!(!is_compressed(&[]));
    assert!(is_compressed(&[31, 139, 8, 0]));
    match scan_csv_with_magic(*b"a,").unwrap().build() {
        LogicalPlan::CsvScan {
            path,
            schema: s,
            options,
            predicate,
            aggregate,
        } => {
            assert_eq!(path, "f.csv");
            assert_eq!(*s, schema(&[("a", DataType::Int64)]));
            assert!(predicate.is_none());
            assert!(aggregate.is_empty());
            assert_eq!(options.skip_rows, 5);
            assert_eq!(options.delimiter, b',');
            assert_eq!(options.n_rows, Some(100));
            assert_eq!(options.comment_char, Some(b'#'));
            assert_eq!(options.quote_char, Some(b'"'));
            assert!(options.has_header);
            assert!(options.rechunk);
            assert!(options.cache);
            assert!(!options.low_memory);
            assert!(!options.ignore_errors);
            assert_eq!(options.with_columns, None);
            assert_eq!(options.encoding, CsvEncoding::Utf8);
        }
        _ => panic!("expected a csv scan"),
    }
}

#[test]
fn checks_accept_what_the_builder_accepts() {
    let b = abc();
    let s = b.current_schema();
    assert_eq!(check_projection(&vec![col("a"), Expr::Wildcard], s), Ok(()));
    assert_eq!(check_projection(&vec![], s), Ok(()));
    assert_eq!(check_fill(&lit_i32(0), false, s), Ok(()));
    assert_eq!(check_fill(&col("a"), true, s), Ok(()));
    assert_eq!(
        check_groupby(&vec![col("b")], &vec![sum(Expr::Wildcard)], s),
        Ok(())
    );
    assert_eq!(check_explode(&vec![col("zz"), Expr::Wildcard], s), Ok(()));
    assert_eq!(check_melt(&["c".to_string(), "zz".to_string()], s), Ok(()));
    assert_eq!(check_join_keys(&vec![col("x"), col("a").alias("y")]), Ok(()));
    assert_eq!(check_join_keys(&vec![]), Ok(()));
    assert_eq!(check_filter(&Expr::Wildcard, s), Ok(()));
    assert_eq!(check_filter(&col("zz"), &Schema::default()), Ok(()));
}

#[test]
fn checks_report_the_first_problem() {
    let b = abc();
    let s = b.current_schema();
    let not_found = |name: &str| {
        PolarsError::NotFound(format!(
            "Unable to get field named \"{}\". Valid fields: [\"a\", \"b\", \"c\"]",
            name
        ))
    };
    let compute = |msg: &str| PolarsError::ComputeError(msg.to_string());
    assert_eq!(
        check_projection(&vec![col("a"), col("x"), col("y")], s),
        Err(not_found("x"))
    );
    assert_eq!(
        check_projection(&vec![binary(Expr::Wildcard, Operator::Plus, lit_i32(1))], s),
        Err(compute("Failed to determine supertype"))
    );
    assert_eq!(check_fill(&col("x"), false, s), Err(not_found("x")));
    assert_eq!(
        check_groupby(&vec![Expr::Wildcard], &vec![], s),
        Err(compute("should be no wildcard at this point"))
    );
    assert_eq!(
        check_groupby(&vec![col("x")], &vec![col("y")], s),
        Err(not_found("x"))
    );
    assert_eq!(
        check_groupby(&vec![col("a")], &vec![col("y")], s),
        Err(not_found("y"))
    );
    assert_eq!(
        check_explode(&vec![col("a"), lit_i32(1)], s),
        Err(compute("expected column expression"))
    );
    assert_eq!(
        check_melt(&[], s),
        Err(compute("no value variable was given"))
    );
    assert_eq!(
        check_melt(&["x".to_string(), "a".to_string()], s),
        Err(not_found("x"))
    );
    assert_eq!(
        check_join_keys(&vec![col("a"), lit_i32(1)]),
        Err(compute(
            "No root column name could be found for the expression"
        ))
    );
    assert_eq!(
        check_filter(&Expr::Wildcard, &Schema::default()),
        Err(compute("the wildcard in the predicate stands for no column"))
    );
}

fn shareable<T: Send + Sync>() {}

#[test]
fn plans_and_schemas_can_be_shared_between_threads() {
    shareable::<Schema>();
    shareable::<Field>();
    shareable::<DataType>();
    shareable::<Expr>();
    shareable::<LogicalPlan>();
    shareable::<LogicalPlanBuilder>();
    shareable::<DataFrame>();
    shareable::<Series>();
}
