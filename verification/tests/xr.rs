use xr_passthrough::xr::{XrContext, XrErr, ERROR_RUNTIME_FAILURE, SUCCESS};

#[test]
fn plain_success_needs_no_context() {
    assert!(XrErr { code: SUCCESS }.context("begin".to_string()).is_ok());
    assert!(XrErr { code: SUCCESS }.with_context(|_| panic!("not called")).is_ok());
}

#[test]
fn failures_carry_their_context() {
    let error = XrErr { code: ERROR_RUNTIME_FAILURE };
    let failure = error.context("begin".to_string()).unwrap_err();
    assert_eq!(failure.error, error);
    assert_eq!(failure.context, "begin");
    let failure = error.with_context(|e| format!("begin: {}", e.code)).unwrap_err();
    assert_eq!(failure.error, error);
    assert_eq!(failure.context, "begin: -2");
}

#[test]
fn qualified_success_counts_as_failure() {
    let answer = XrErr { code: 3 };
    assert_eq!(answer.context("wait".to_string()).unwrap_err().error, answer);
}
