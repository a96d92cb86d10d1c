use polars::prelude::{col, cols, dtype_cols, lit, DataType, NamedFrom, Series};
use r_polars::callback::{
    batch_call, expect_batch, expect_field_name, expect_text, field_name_call, name_map_result,
    output_dtype, rename_call, HostCall,
};
use r_polars::columns::{internal_wrap_e, robj_to_col, ColumnError, HostColumns};
use r_polars::envelope::{CallbackHandle, Envelope, Payload};
use r_polars::error::BridgeError;
use r_polars::expr::{pra_to_vec, ProtoRexpr, RPolarsExpr, RPolarsProtoExprArray};

fn strings(names: &[&str]) -> Vec<String> {
    names.iter().map(|s| s.to_string()).collect()
}

#[test]
fn col_builds_the_named_column() {
    assert!(RPolarsExpr::col("a").0 == col("a"));
    assert!(RPolarsExpr::col("a").0 != col("b"));
    assert!(RPolarsExpr::col("*").0 == col("*"));
}

#[test]
fn cols_builds_the_named_columns() {
    assert!(RPolarsExpr::cols(strings(&["a", "b"])).0 == cols(["a", "b"]));
    assert!(RPolarsExpr::cols(strings(&["a", "b"])).0 != cols(["b", "a"]));
    assert!(RPolarsExpr::cols(strings(&["a"])).0 != col("a"));
}

#[test]
fn dtype_cols_builds_the_typed_columns() {
    let e = RPolarsExpr::dtype_cols(vec![DataType::Int64, DataType::Boolean]);
    assert!(e.0 == dtype_cols([DataType::Int64, DataType::Boolean]));
    assert!(e.0 != dtype_cols([DataType::Int64]));
}

#[test]
fn clone_keeps_the_expression() {
    let e = RPolarsExpr(col("a").sum());
    assert!(e.clone().0 == col("a").sum());
}

#[test]
fn proto_string_is_a_column_in_a_selection() {
    let p = ProtoRexpr::new_str("price");
    assert!(p.resolvable("select"));
    assert!(p.to_rexpr("select").0 == col("price"));
}

#[test]
fn proto_string_has_no_meaning_elsewhere() {
    let p = ProtoRexpr::new_str("price");
    assert!(!p.resolvable("filter"));
    assert!(!p.resolvable(""));
    assert!(!p.resolvable("Select"));
}

#[test]
fn proto_expr_is_itself_in_any_context() {
    let e = RPolarsExpr(col("a").max());
    let p = ProtoRexpr::new_expr(&e);
    assert!(p.resolvable("anything"));
    assert!(p.to_rexpr("anything").0 == col("a").max());
    assert!(p.to_rexpr("select").0 == col("a").max());
}

#[test]
fn proto_array_keeps_order() {
    let mut a = RPolarsProtoExprArray::new();
    assert!(a.0.is_empty());
    a.push_back_str("x");
    a.push_back_rexpr(&RPolarsExpr(col("y").min()));
    a.push_back_str("z");
    assert_eq!(a.0.len(), 3);
    assert!(a.resolvable("select"));
    let v = a.to_vec("select");
    assert_eq!(v.len(), 3);
    assert!(v[0] == col("x"));
    assert!(v[1] == col("y").min());
    assert!(v[2] == col("z"));
    let w = pra_to_vec(&a, "select");
    assert!(w == v);
}

#[test]
fn proto_array_of_exprs_resolves_anywhere() {
    let mut a = RPolarsProtoExprArray::default();
    assert!(a.resolvable("group_by"));
    assert!(a.to_vec("group_by").is_empty());
    a.push_back_rexpr(&RPolarsExpr(col("y")));
    assert!(a.resolvable("group_by"));
    assert!(a.to_vec("group_by")[0] == col("y"));
    a.push_back_str("x");
    assert!(!a.resolvable("group_by"));
    assert!(a.resolvable("select"));
}

#[test]
fn one_string_is_one_column() {
    let r = robj_to_col(HostColumns::Strings(strings(&["a"])), HostColumns::Names(vec![]));
    assert!(r.ok().unwrap().0 == col("a"));
    let r = robj_to_col(HostColumns::Strings(strings(&["a"])), HostColumns::DataTypes(vec![]));
    assert!(r.ok().unwrap().0 == col("a"));
}

#[test]
fn several_names_are_several_columns() {
    let r = robj_to_col(
        HostColumns::Strings(strings(&["a"])),
        HostColumns::Strings(strings(&["b", "c"])),
    );
    assert!(r.ok().unwrap().0 == cols(["a", "b", "c"]));
    let r = robj_to_col(HostColumns::Strings(strings(&["a", "b"])), HostColumns::Names(vec![]));
    assert!(r.ok().unwrap().0 == cols(["a", "b"]));
    let r = robj_to_col(HostColumns::Names(strings(&["a"])), HostColumns::Names(vec![]));
    assert!(r.ok().unwrap().0 == cols(["a"]));
    let r = robj_to_col(HostColumns::Strings(vec![]), HostColumns::Strings(vec![]));
    assert!(r.ok().unwrap().0 == cols(Vec::<String>::new()));
}

#[test]
fn data_types_select_by_type() {
    let r = robj_to_col(
        HostColumns::DataTypes(vec![DataType::Int32]),
        HostColumns::DataTypes(vec![DataType::Float64]),
    );
    assert!(r.ok().unwrap().0 == dtype_cols([DataType::Int32, DataType::Float64]));
    let r = robj_to_col(HostColumns::DataTypes(vec![DataType::Int32]), HostColumns::Names(vec![]));
    assert!(r.ok().unwrap().0 == dtype_cols([DataType::Int32]));
    let r = robj_to_col(HostColumns::DataTypes(vec![DataType::Int32]), HostColumns::Strings(vec![]));
    assert!(r.ok().unwrap().0 == dtype_cols([DataType::Int32]));
}

#[test]
fn names_and_types_do_not_mix() {
    let r = robj_to_col(
        HostColumns::DataTypes(vec![DataType::Int32]),
        HostColumns::Strings(strings(&["a"])),
    );
    assert!(matches!(r, Err(ColumnError::Mixed)));
    let r = robj_to_col(
        HostColumns::DataTypes(vec![DataType::Int32]),
        HostColumns::Names(strings(&["a"])),
    );
    assert!(matches!(r, Err(ColumnError::Mixed)));
    let r = robj_to_col(
        HostColumns::Strings(strings(&["a"])),
        HostColumns::DataTypes(vec![DataType::Int32]),
    );
    assert!(matches!(r, Err(ColumnError::Mixed)));
    let r = robj_to_col(
        HostColumns::Names(strings(&["a", "b"])),
        HostColumns::DataTypes(vec![DataType::Int32]),
    );
    assert!(matches!(r, Err(ColumnError::Mixed)));
}

#[test]
fn wrap_reads_a_string_either_way() {
    let p = ProtoRexpr::new_str("a");
    assert!(internal_wrap_e(&p, true).0 == lit("a"));
    assert!(internal_wrap_e(&p, false).0 == col("a"));
    assert!(internal_wrap_e(&p, true).0 != col("a"));
    let e = ProtoRexpr::new_expr(&RPolarsExpr(col("b").sum()));
    assert!(internal_wrap_e(&e, true).0 == col("b").sum());
    assert!(internal_wrap_e(&e, false).0 == col("b").sum());
}

#[test]
fn calls_build_their_envelopes() {
    let h = CallbackHandle::new(5);
    let s = Series::new("x", &[1i64, 2]);
    match batch_call(h, s.clone()) {
        Envelope::BatchToBatch(handle, payload) => {
            assert_eq!(handle, h);
            assert!(payload.equals(&s));
        }
        _ => panic!("expected a batch call"),
    }
    assert!(matches!(field_name_call(h, 3), Envelope::ScalarToText(handle, 3) if handle == h));
    assert!(matches!(
        rename_call(h, "old"),
        Envelope::NameToName(handle, ref n) if handle == h && n == "old"
    ));
}

#[test]
fn expect_takes_the_payload_apart() {
    let s = Series::new("x", &[1i64, 2]);
    assert!(expect_batch(Ok(Payload::Batch(s.clone()))).ok().unwrap().equals(&s));
    assert!(matches!(
        expect_batch(Ok(Payload::Text("t".to_string()))),
        Err(BridgeError::ShapeMismatch)
    ));
    assert!(matches!(
        expect_batch(Err(BridgeError::Disconnected)),
        Err(BridgeError::Disconnected)
    ));
    assert_eq!(expect_text(Ok(Payload::Text("t".to_string()))).ok(), Some("t".to_string()));
    assert!(matches!(expect_text(Ok(Payload::Batch(s))), Err(BridgeError::ShapeMismatch)));
    assert!(matches!(
        expect_text(Err(BridgeError::CallbackFailed("m".to_string()))),
        Err(BridgeError::CallbackFailed(ref m)) if m == "m"
    ));
}

#[test]
fn field_name_keeps_its_characters() {
    let short = expect_field_name(Ok(Payload::Text("field_0".to_string()))).ok().unwrap();
    assert_eq!(short.inner.as_str(), "field_0");
    let long_name = "a_field_name_that_is_longer_than_any_inline_string_can_be";
    let long = expect_field_name(Ok(Payload::Text(long_name.to_string()))).ok().unwrap();
    assert_eq!(long.inner.as_str(), long_name);
    assert!(matches!(
        expect_field_name(Err(BridgeError::Disconnected)),
        Err(BridgeError::Disconnected)
    ));
    let s = Series::new("x", &[1i64]);
    assert!(matches!(
        expect_field_name(Ok(Payload::Batch(s))),
        Err(BridgeError::ShapeMismatch)
    ));
}

#[test]
fn output_type_is_declared_or_inherited() {
    assert!(output_dtype(Some(DataType::String), DataType::Int64) == DataType::String);
    assert!(output_dtype(None, DataType::Int64) == DataType::Int64);
}

#[test]
fn name_map_reports_what_went_wrong() {
    assert_eq!(name_map_result(HostCall::Text("new".to_string())), Ok("new".to_string()));
    assert_eq!(
        name_map_result(HostCall::NotText),
        Err("in $name$map(): R function return value was not a string".to_string())
    );
    assert_eq!(
        name_map_result(HostCall::Raised("EvalError(oops)".to_string())),
        Err("in $name$map(): user function raised this error: EvalError(oops)".to_string())
    );
}

#[test]
fn expressions_convert_both_ways() {
    let e: RPolarsExpr = col("a").sum().into();
    assert!(e.0 == col("a").sum());
    let back: polars::prelude::Expr = e.into();
    assert!(back == col("a").sum());
}

#[test]
fn sort_runs_on_several_threads_and_may_reorder() {
    let e = RPolarsExpr(col("a"));
    let options = |descending, nulls_last| polars::prelude::SortOptions {
        descending,
        nulls_last,
        multithreaded: true,
        maintain_order: false,
    };
    assert!(e.sort(true, false).0 == col("a").sort_with(options(true, false)));
    assert!(e.sort(false, true).0 == col("a").sort_with(options(false, true)));
    assert!(e.sort(false, true).0 != col("a").sort_with(options(true, true)));
    let stable = polars::prelude::SortOptions { maintain_order: true, ..options(true, false) };
    assert!(e.sort(true, false).0 != col("a").sort_with(stable));
}

#[test]
fn slice_without_length_goes_to_the_end() {
    let e = RPolarsExpr(col("a"));
    let offset = RPolarsExpr(lit(2i64));
    let length = RPolarsExpr(lit(5i64));
    assert!(e.slice(&offset, Some(&length)).0 == col("a").slice(lit(2i64), lit(5i64)));
    assert!(e.slice(&offset, None).0 == col("a").slice(lit(2i64), lit(i64::MAX)));
    assert!(e.slice(&offset, None).0 != col("a").slice(lit(2i64), lit(5i64)));
    assert!(
        e.list_slice(&offset, Some(&length)).0 == col("a").list().slice(lit(2i64), lit(5i64))
    );
    assert!(e.list_slice(&offset, None).0 == col("a").list().slice(lit(2i64), lit(i64::MAX)));
    assert!(e.list_slice(&offset, None).0 != col("a").slice(lit(2i64), lit(i64::MAX)));
}

#[test]
fn contains_is_literal_only_where_asked() {
    let e = RPolarsExpr(col("s"));
    let pat = RPolarsExpr(lit("a.c"));
    assert!(e.str_contains(&pat, Some(true), true).0 == col("s").str().contains_literal(lit("a.c")));
    assert!(e.str_contains(&pat, Some(false), true).0 == col("s").str().contains(lit("a.c"), true));
    assert!(e.str_contains(&pat, None, false).0 == col("s").str().contains(lit("a.c"), false));
    assert!(e.str_contains(&pat, None, false).0 != col("s").str().contains(lit("a.c"), true));
    assert!(e.str_contains(&pat, None, true).0 != col("s").str().contains_literal(lit("a.c")));
}

#[test]
fn truncate_and_round_default_to_no_offset() {
    let e = RPolarsExpr(col("t"));
    let every = RPolarsExpr(lit("1h"));
    assert!(
        e.dt_truncate(&every, None).0 == col("t").dt().truncate(lit("1h"), "0ns".to_string())
    );
    assert!(
        e.dt_truncate(&every, Some("5m".to_string())).0
            == col("t").dt().truncate(lit("1h"), "5m".to_string())
    );
    assert!(e.dt_round("1d".to_string(), None).0 == col("t").dt().round("1d", "0ns"));
    assert!(
        e.dt_round("1d".to_string(), Some("2h".to_string())).0 == col("t").dt().round("1d", "2h")
    );
    assert!(e.dt_round("1d".to_string(), None).0 != col("t").dt().round("1d", "2h"));
}

#[test]
fn corr_by_method() {
    let a = RPolarsExpr(col("a"));
    let b = RPolarsExpr(col("b"));
    let pearson = RPolarsExpr::corr(&a, &b, "pearson", 1, true).ok().unwrap();
    assert!(pearson.0 == polars::prelude::pearson_corr(col("a"), col("b"), 1));
    let spearman = RPolarsExpr::corr(&a, &b, "spearman", 0, true).ok().unwrap();
    assert!(spearman.0 == polars::prelude::spearman_rank_corr(col("a"), col("b"), 0, true));
    assert!(spearman.0 != polars::prelude::spearman_rank_corr(col("a"), col("b"), 0, false));
    assert!(spearman.0 != polars::prelude::pearson_corr(col("a"), col("b"), 0));
    assert!(matches!(
        RPolarsExpr::corr(&a, &b, "kendall", 1, false),
        Err(r_polars::options::ArgError::UnknownMethod)
    ));
}
