use r_polars::options::{
    arg_error_message, contains_plan, corr_method, gather_every_step, list_sort_plan,
    offset_or_zero, reinterpret_type, rep_plan, slice_length, sort_plan, ArgError, ContainsPlan,
    CorrMethod, Int64Type, RepPlan, SortPlan,
};
use r_polars::q::{
    classify, days_from_ce, dict_key, host_days, HostTraits, QError, QKind, EPOCH_DAYS_FROM_CE,
    MAX_HOST_DAYS, MIN_HOST_DAYS, Q,
};

const PLAIN: HostTraits = HostTraits {
    is_series: false,
    is_data_frame: false,
    is_date_time: false,
    is_difftime: false,
    is_date: false,
    is_raw: false,
    is_na: false,
    is_logical: false,
    is_integer: false,
    is_number: false,
    is_string: false,
    is_null: false,
    is_list: false,
    is_vector_atomic: true,
};

#[test]
fn sort_plans() {
    assert_eq!(
        sort_plan(true, false),
        SortPlan { descending: true, nulls_last: false, multithreaded: true, maintain_order: false }
    );
    assert_eq!(
        sort_plan(false, true),
        SortPlan { descending: false, nulls_last: true, multithreaded: true, maintain_order: false }
    );
    assert_eq!(
        list_sort_plan(true),
        SortPlan { descending: true, nulls_last: false, multithreaded: true, maintain_order: false }
    );
}

#[test]
fn gather_every_refuses_a_zero_step() {
    assert_eq!(gather_every_step(0), Err(ArgError::ZeroStep));
    assert_eq!(gather_every_step(1), Ok(1));
    assert_eq!(gather_every_step(usize::MAX), Ok(usize::MAX));
    assert_eq!(arg_error_message(ArgError::ZeroStep), "n can't be zero");
}

#[test]
fn reinterpret_types() {
    assert_eq!(reinterpret_type(true), Int64Type::Int64);
    assert_eq!(reinterpret_type(false), Int64Type::UInt64);
}

#[test]
fn rep_plans() {
    assert_eq!(rep_plan(1), RepPlan::Broadcast);
    assert_eq!(rep_plan(0), RepPlan::Append);
    assert_eq!(rep_plan(2), RepPlan::Append);
}

#[test]
fn contains_is_literal_only_on_request() {
    assert_eq!(contains_plan(Some(true), true), ContainsPlan::Literal);
    assert_eq!(contains_plan(Some(true), false), ContainsPlan::Literal);
    assert_eq!(contains_plan(Some(false), true), ContainsPlan::Regex { strict: true });
    assert_eq!(contains_plan(None, false), ContainsPlan::Regex { strict: false });
}

#[test]
fn defaults_for_offset_and_length() {
    assert_eq!(offset_or_zero(None), "0ns");
    assert_eq!(offset_or_zero(Some("1h".to_string())), "1h");
    assert_eq!(slice_length(None), i64::MAX);
    assert_eq!(slice_length(Some(3)), 3);
    assert_eq!(slice_length(Some(-1)), -1);
}

#[test]
fn correlation_methods() {
    assert_eq!(corr_method("pearson"), Ok(CorrMethod::Pearson));
    assert_eq!(corr_method("spearman"), Ok(CorrMethod::Spearman));
    assert_eq!(corr_method("Pearson"), Err(ArgError::UnknownMethod));
    assert_eq!(corr_method(""), Err(ArgError::UnknownMethod));
    assert_eq!(corr_method("kendall"), Err(ArgError::UnknownMethod));
    assert_eq!(arg_error_message(ArgError::UnknownMethod), "should be 'pearson' or 'spearman'");
}

#[test]
fn q_keeps_its_parameters() {
    let q = Q::new("localhost", 1800, "me", "pw", true);
    assert_eq!(q.host, "localhost");
    assert_eq!(q.port, 1800);
    assert_eq!(q.user, "me");
    assert_eq!(q.password, "pw");
    assert!(q.enable_tls);
}

#[test]
fn host_days_are_counted_from_the_epoch() {
    assert_eq!(EPOCH_DAYS_FROM_CE, 719163);
    assert_eq!(host_days(719163), 0);
    assert_eq!(host_days(719164), 1);
    assert_eq!(host_days(738000), 18837);
    assert_eq!(host_days(1), -719162);
}

#[test]
fn host_days_stay_within_the_calendar() {
    assert_eq!(MAX_HOST_DAYS, 2932532);
    assert_eq!(MIN_HOST_DAYS, -719162);
    assert_eq!(host_days(3651695), 2932532);
    assert_eq!(host_days(3651696), 2932532);
    assert_eq!(host_days(i32::MAX), 2932532);
    assert_eq!(host_days(0), -719162);
    assert_eq!(host_days(-5), -719162);
    assert_eq!(host_days(i32::MIN), -719162);
}

#[test]
fn days_from_ce_adds_the_epoch() {
    assert_eq!(days_from_ce(0), Some(719163));
    assert_eq!(days_from_ce(-719162), Some(1));
    assert_eq!(days_from_ce(i32::MIN), Some(i32::MIN + 719163));
    assert_eq!(days_from_ce(i32::MAX - 719163), Some(i32::MAX));
    assert_eq!(days_from_ce(i32::MAX - 719162), None);
    assert_eq!(days_from_ce(i32::MAX), None);
}

#[test]
fn dates_round_trip_within_the_calendar() {
    for d in [-719162i32, -1, 0, 1, 19000, 2932532] {
        assert_eq!(host_days(days_from_ce(d).unwrap()), d as i64);
    }
}

#[test]
fn classify_goes_by_the_first_trait() {
    assert_eq!(classify(&HostTraits { is_series: true, is_data_frame: true, ..PLAIN }), Ok(QKind::Series));
    assert_eq!(classify(&HostTraits { is_data_frame: true, is_list: true, ..PLAIN }), Ok(QKind::DataFrame));
    assert_eq!(classify(&HostTraits { is_date_time: true, is_number: true, ..PLAIN }), Ok(QKind::DateTime));
    assert_eq!(classify(&HostTraits { is_difftime: true, is_number: true, ..PLAIN }), Ok(QKind::Duration));
    assert_eq!(classify(&HostTraits { is_date: true, is_number: true, ..PLAIN }), Ok(QKind::Date));
    assert_eq!(classify(&HostTraits { is_raw: true, ..PLAIN }), Ok(QKind::String));
    assert_eq!(classify(&HostTraits { is_na: true, is_logical: true, ..PLAIN }), Ok(QKind::Null));
    assert_eq!(classify(&HostTraits { is_logical: true, ..PLAIN }), Ok(QKind::Bool));
    assert_eq!(classify(&HostTraits { is_integer: true, is_number: true, ..PLAIN }), Ok(QKind::Int));
    assert_eq!(classify(&HostTraits { is_number: true, ..PLAIN }), Ok(QKind::Float));
    assert_eq!(classify(&HostTraits { is_string: true, ..PLAIN }), Ok(QKind::Symbol));
    assert_eq!(classify(&HostTraits { is_null: true, ..PLAIN }), Ok(QKind::Null));
    assert_eq!(classify(&HostTraits { is_list: true, ..PLAIN }), Ok(QKind::Dict));
    assert_eq!(classify(&HostTraits { is_vector_atomic: false, ..PLAIN }), Ok(QKind::Dict));
}

#[test]
fn classify_refuses_a_plain_vector() {
    assert_eq!(classify(&PLAIN), Err(QError::Vector));
}

#[test]
fn dict_keys_need_a_name() {
    assert_eq!(dict_key(false, false), Ok(()));
    assert_eq!(dict_key(true, false), Err(QError::NullKey));
    assert_eq!(dict_key(false, true), Err(QError::NullKey));
    assert_eq!(dict_key(true, true), Err(QError::NullKey));
}
