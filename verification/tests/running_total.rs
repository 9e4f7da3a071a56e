//! Driving the running-total aggregate through the mock harness, the way a
//! live host would drive it through a query.

use udf_protocol::args::SqlArg;
use udf_protocol::lifecycle::{BasicUdf, ErrorCode, ProcessError};
use udf_protocol::mock::{MockArgList, MockUdfCfg};
use udf_protocol::running_total::RunningTotal;
use udf_protocol::value::SqlValue;

fn one_int_row(v: i64) -> MockArgList {
    let mut arglist = MockArgList::new();
    arglist.push_arg(SqlArg::new(SqlValue::Int(v), None, false));
    arglist
}

fn one_null_row() -> MockArgList {
    let mut arglist = MockArgList::new();
    arglist.push_arg(SqlArg::new(SqlValue::Null, None, false));
    arglist
}

#[test]
fn test_wrong_args() {
    let cfg = MockUdfCfg::new();
    let arglist = MockArgList::new(); // empty
    let res = RunningTotal::init(&mut cfg.as_init(), &mut arglist.as_init());

    assert_eq!(res, Err("expected 1 argument; got 0".to_owned()));
}

#[test]
fn test_single() {
    let cfg = MockUdfCfg::new();
    let arglist = one_int_row(10);
    let mut rt = RunningTotal::init(&mut cfg.as_init(), &mut arglist.as_init()).unwrap();
    let res = rt.process(&cfg.as_process(), &arglist.as_process(), None);

    assert_eq!(res, Ok(10));
}

#[test]
fn test_null() {
    // We need to verify that we handle null variables correctly
    let cfg = MockUdfCfg::new();
    let row_args = [one_null_row(), one_int_row(10), one_null_row(), one_int_row(-20)];
    let mut rt = RunningTotal::init(&mut cfg.as_init(), &mut row_args[0].as_init()).unwrap();

    let outputs = [0i64, 10, 10, -10];

    for (arglist, outval) in row_args.iter().zip(outputs.iter()) {
        let res = rt.process(&cfg.as_process(), &arglist.as_process(), None);
        assert_eq!(res, Ok(*outval));
    }
}

#[test]
fn test_multiple() {
    let cfg = MockUdfCfg::new();
    let arglist = one_int_row(0);
    let mut rt = RunningTotal::init(&mut cfg.as_init(), &mut arglist.as_init()).unwrap();

    let inputs = [10i64, 20, -4, 100, -50, 0];
    let outputs = [10i64, 30, 26, 126, 76, 76];

    for (inval, outval) in inputs.iter().zip(outputs.iter()) {
        let arglist = one_int_row(*inval);
        let res = rt.process(&cfg.as_process(), &arglist.as_process(), None);

        assert_eq!(res, Ok(*outval));
    }
}

#[test]
fn wrong_arity_message_names_both_counts() {
    let cfg = MockUdfCfg::new();
    let mut arglist = MockArgList::new();
    for v in 0..12 {
        arglist.push_arg(SqlArg::new(SqlValue::Int(v), None, false));
    }
    let res = RunningTotal::init(&mut cfg.as_init(), &mut arglist.as_init());

    assert_eq!(res, Err("expected 1 argument; got 12".to_owned()));
}

#[test]
fn init_requests_integer_coercion() {
    let cfg = MockUdfCfg::new();
    let arglist = one_int_row(7);
    let mut init_args = arglist.as_init();
    let res = RunningTotal::init(&mut cfg.as_init(), &mut init_args);

    assert!(res.is_ok());
    let coercion = init_args.get(0).unwrap().type_coercion();
    assert_eq!(coercion, Some(udf_protocol::value::SqlType::Int));
}

#[test]
fn overflow_aborts_and_leaves_state() {
    let cfg = MockUdfCfg::new();
    let arglist = one_int_row(0);
    let mut rt = RunningTotal::init(&mut cfg.as_init(), &mut arglist.as_init()).unwrap();

    let max_row = one_int_row(i64::MAX);
    assert_eq!(rt.process(&cfg.as_process(), &max_row.as_process(), None), Ok(i64::MAX));

    let over_row = one_int_row(1);
    assert_eq!(rt.process(&cfg.as_process(), &over_row.as_process(), None), Err(ProcessError));

    // The failed row left the accumulator untouched.
    let hold_row = one_int_row(0);
    assert_eq!(rt.process(&cfg.as_process(), &hold_row.as_process(), None), Ok(i64::MAX));
}

#[test]
fn underflow_aborts() {
    let cfg = MockUdfCfg::new();
    let arglist = one_int_row(i64::MIN);
    let mut rt = RunningTotal::init(&mut cfg.as_init(), &mut arglist.as_init()).unwrap();

    assert_eq!(rt.process(&cfg.as_process(), &arglist.as_process(), None), Ok(i64::MIN));
    assert_eq!(rt.process(&cfg.as_process(), &arglist.as_process(), None), Err(ProcessError));
}

#[test]
fn error_indicator_is_ignored_by_this_aggregate() {
    let cfg = MockUdfCfg::new();
    let arglist = one_int_row(5);
    let mut rt = RunningTotal::init(&mut cfg.as_init(), &mut arglist.as_init()).unwrap();

    let res = rt.process(&cfg.as_process(), &arglist.as_process(), Some(ErrorCode(3)));
    assert_eq!(res, Ok(5));
}

#[test]
fn deinit_consumes_the_instance() {
    let cfg = MockUdfCfg::new();
    let arglist = one_int_row(1);
    let rt = RunningTotal::init(&mut cfg.as_init(), &mut arglist.as_init()).unwrap();
    rt.deinit();
}
