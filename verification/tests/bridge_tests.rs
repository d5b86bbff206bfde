use rustyscript::CallResult;
use rustyscript::Error;
use rustyscript::ExceptionDetail;
use rustyscript::FunctionTable;
use rustyscript::ScopeValue;
use rustyscript::TaskOutcome;
use rustyscript::bridge::call_outcome;
use rustyscript::bridge::format_exception;
use rustyscript::bridge::race_result;
use rustyscript::bridge::require_callable;
use rustyscript::bridge::select_value_ref;
use rustyscript::text::u32_to_string;

#[test]
fn test_get_value() {
    // globalThis.a = 2; export const b = 'test';
    let a: Result<i64, Error> = select_value_ref("a", ScopeValue::Defined(2), ScopeValue::Missing);
    assert_eq!(2, a.expect("Could not find global"));

    let b: Result<&str, Error> =
        select_value_ref("b", ScopeValue::Missing, ScopeValue::Defined("test"));
    assert_eq!("test", b.expect("Could not find export"));

    // A name bound to null, and one not declared at all.
    let c: Result<i64, Error> = select_value_ref("c", ScopeValue::Null, ScopeValue::Null);
    assert!(matches!(c.expect_err("Could not detect null"), Error::ValueNotFound(n) if n == "c"));
    let d: Result<i64, Error> = select_value_ref("d", ScopeValue::Missing, ScopeValue::Missing);
    assert!(matches!(d.expect_err("Could not detect undeclared"), Error::ValueNotFound(_)));
    let u: Result<i64, Error> = select_value_ref("u", ScopeValue::Undefined, ScopeValue::Undefined);
    assert!(matches!(u.expect_err("Could not detect undefined"), Error::ValueNotFound(_)));
}

#[test]
fn test_global_scope_preferred() {
    // The same name declared as a global and as a module export: the
    // global wins.
    let v: Result<i64, Error> =
        select_value_ref("g", ScopeValue::Defined(1), ScopeValue::Defined(2));
    assert_eq!(1, v.unwrap());

    // A global bound to null does not shadow a proper export.
    let v: Result<i64, Error> = select_value_ref("g", ScopeValue::Null, ScopeValue::Defined(2));
    assert_eq!(2, v.unwrap());
}

#[test]
fn test_require_callable() {
    // export const fnc = 2; — looking it up as a function fails.
    let e = require_callable("fnc", 2, false).expect_err("Did not detect non-function");
    assert!(matches!(e, Error::ValueNotCallable(n) if n == "fnc"));
    assert_eq!(7, require_callable("fna", 7, true).unwrap());
}

#[test]
fn test_timeout_takes_precedence() {
    // The timer fired first: whatever the abandoned task would have
    // produced, the caller sees a timeout.
    let r: Result<i64, Error> = race_result(TaskOutcome::TimedOut);
    let e = r.expect_err("Did not interrupt after timeout");
    assert!(matches!(e, Error::Timeout(m) if m == "Task timed out"));

    let r: Result<i64, Error> = race_result(TaskOutcome::Completed(Ok(7)));
    assert_eq!(7, r.unwrap());

    let r: Result<i64, Error> =
        race_result(TaskOutcome::Completed(Err(Error::Runtime(String::from("boom")))));
    assert!(matches!(r.unwrap_err(), Error::Runtime(m) if m == "boom"));
}

#[test]
fn call_errorfunction() {
    // export const fn = () => { throw new Error('msg') };
    let detail = ExceptionDetail {
        resource_name: Some(String::from("test.js")),
        line: 2,
        message: String::from("Uncaught Error: msg"),
    };
    let r: Result<i64, Error> = call_outcome("test.js", CallResult::Threw(detail));
    let e = r.unwrap_err();
    match e {
        Error::Runtime(m) => assert!(m.ends_with("test.js:2: Uncaught Error: msg")),
        _ => panic!("expected a runtime error"),
    }
}

#[test]
fn test_exception_filename_fallback() {
    let detail = ExceptionDetail { resource_name: None, line: 0, message: String::from("boom") };
    let s = format_exception("fallback.js", &detail);
    assert_eq!(s, "fallback.js:0: boom");
}

#[test]
fn test_call_outcome_passthrough() {
    let r: Result<i64, Error> = call_outcome("test.js", CallResult::Returned(4));
    assert_eq!(4, r.unwrap());
    let r: Result<i64, Error> = call_outcome("test.js", CallResult::Failed);
    assert!(matches!(r.unwrap_err(),
        Error::Runtime(m) if m == "Unknown error during function execution"));
}

#[test]
fn test_decimal_rendering() {
    assert_eq!(u32_to_string(0), "0");
    assert_eq!(u32_to_string(7), "7");
    assert_eq!(u32_to_string(42), "42");
    assert_eq!(u32_to_string(1000), "1000");
    assert_eq!(u32_to_string(u32::MAX), "4294967295");
}

#[test]
fn test_function_table() {
    let mut table = FunctionTable::new(7);
    let f0 = table.store();
    let f1 = table.store();
    assert_eq!(f0.slot(), 0);
    assert_eq!(f1.slot(), 1);
    assert_eq!(table.check(&f0).unwrap(), 0);
    assert_eq!(table.check(&f1).unwrap(), 1);
}

#[test]
fn test_function_handle_wrong_runtime() {
    let mut first = FunctionTable::new(1);
    let f = first.store();
    let mut second = FunctionTable::new(2);
    let _ = second.store();
    assert!(matches!(second.check(&f), Err(Error::InvalidFunctionHandle)));
    assert!(matches!(FunctionTable::new(1).check(&f), Err(Error::InvalidFunctionHandle)));
}
