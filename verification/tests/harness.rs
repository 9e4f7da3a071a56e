//! The value model, the argument list, the phase-scoped configuration, and
//! the mock harness, exercised directly.

use udf_protocol::args::SqlArg;
use udf_protocol::mock::{MockArgList, MockUdfCfg};
use udf_protocol::value::{SqlType, SqlValue};

#[test]
fn null_is_inspectable_under_every_accessor() {
    let v = SqlValue::Null;
    assert!(v.is_null());
    assert_eq!(v.as_int(), None);
    assert_eq!(v.as_real(), None);
    assert_eq!(v.as_text(), None);
}

#[test]
fn accessors_are_total_and_tag_directed() {
    let i = SqlValue::Int(-42);
    assert!(!i.is_null());
    assert_eq!(i.as_int(), Some(-42));
    assert_eq!(i.as_real(), None);
    assert_eq!(i.as_text(), None);

    let bits = 2.5f64.to_bits();
    let r = SqlValue::Real(bits);
    assert_eq!(r.as_real(), Some(bits));
    assert_eq!(f64::from_bits(r.as_real().unwrap()), 2.5);
    assert_eq!(r.as_int(), None);

    let t = SqlValue::Text("hello".to_owned());
    assert_eq!(t.as_text(), Some("hello"));
    assert_eq!(t.as_int(), None);

    let d = SqlValue::Decimal("1.25".to_owned());
    assert_eq!(d.as_text(), Some("1.25"));
    assert_eq!(d.as_real(), None);
}

#[test]
fn argument_metadata_is_kept() {
    let arg = SqlArg::new(SqlValue::Int(9), Some("total".to_owned()), true);
    assert_eq!(arg.value().as_int(), Some(9));
    assert_eq!(arg.attribute().map(String::as_str), Some("total"));
    assert!(arg.maybe_null());
    assert_eq!(arg.type_coercion(), None);
}

#[test]
fn coercion_request_is_idempotent() {
    let mut arglist = MockArgList::new();
    arglist.push_arg(SqlArg::new(SqlValue::Text("3".to_owned()), None, false));
    let mut init_args = arglist.as_init();

    init_args.set_type_coercion(0, SqlType::Real);
    let first = init_args.get(0).unwrap().type_coercion();
    init_args.set_type_coercion(0, SqlType::Real);
    let second = init_args.get(0).unwrap().type_coercion();

    assert_eq!(first, Some(SqlType::Real));
    assert_eq!(second, first);
}

#[test]
fn conflicting_coercion_requests_last_wins() {
    let mut arglist = MockArgList::new();
    arglist.push_arg(SqlArg::new(SqlValue::Int(1), None, false));
    let mut init_args = arglist.as_init();

    init_args.set_type_coercion(0, SqlType::Real);
    init_args.set_type_coercion(0, SqlType::Decimal);

    assert_eq!(init_args.get(0).unwrap().type_coercion(), Some(SqlType::Decimal));
}

#[test]
fn mock_builds_fresh_equal_frames_per_row() {
    let mut arglist = MockArgList::new();
    arglist.push_arg(SqlArg::new(SqlValue::Int(4), Some("a".to_owned()), false));
    arglist.push_arg(SqlArg::new(SqlValue::Null, None, true));
    assert_eq!(arglist.len(), 2);

    let row1 = arglist.as_process();
    let row2 = arglist.as_process();
    assert_eq!(row1.len(), 2);
    assert_eq!(row2.len(), 2);
    assert_eq!(row1.get(0).unwrap().value().as_int(), Some(4));
    assert_eq!(row2.get(0).unwrap().value().as_int(), Some(4));
    assert!(row1.get(1).unwrap().value().is_null());
    assert!(row2.get(1).unwrap().value().is_null());
    assert!(row1.get(2).is_none());
}

#[test]
fn coercion_in_one_frame_does_not_leak_into_fresh_frames() {
    let mut arglist = MockArgList::new();
    arglist.push_arg(SqlArg::new(SqlValue::Int(4), None, false));

    let mut init_args = arglist.as_init();
    init_args.set_type_coercion(0, SqlType::Int);
    assert_eq!(init_args.get(0).unwrap().type_coercion(), Some(SqlType::Int));

    // The mock rebuilds each frame from its own literal data.
    let fresh = arglist.as_init();
    assert_eq!(fresh.get(0).unwrap().type_coercion(), None);
}

#[test]
fn cfg_settings_are_readable_in_both_phases() {
    let mut mock = MockUdfCfg::new();
    mock.max_len = 20;
    mock.decimals = 2;
    mock.maybe_null = true;

    let init_cfg = mock.as_init();
    assert_eq!(init_cfg.get_max_len(), 20);
    assert_eq!(init_cfg.get_decimals(), 2);
    assert!(init_cfg.get_maybe_null());
    assert!(!init_cfg.get_is_const());

    let process_cfg = mock.as_process();
    assert_eq!(process_cfg.get_max_len(), 20);
    assert_eq!(process_cfg.get_decimals(), 2);
}

#[test]
fn init_cfg_setters_take_effect() {
    let mock = MockUdfCfg::new();
    let mut init_cfg = mock.as_init();
    init_cfg.set_max_len(255);
    init_cfg.set_decimals(4);
    init_cfg.set_maybe_null(true);
    init_cfg.set_is_const(true);

    assert_eq!(init_cfg.get_max_len(), 255);
    assert_eq!(init_cfg.get_decimals(), 4);
    assert!(init_cfg.get_maybe_null());
    assert!(init_cfg.get_is_const());
}
