use webtoon::stdx::error::{Assume, Assumption};

#[test]
fn option_with_assumption() {
    let webtoon = "Test";
    let val: Option<()> = None;
    let result: Result<(), Assumption> = val.with_assumption(|| format!("failed to find tag for `{webtoon}`"));
    let err = result.unwrap_err();
    assert_eq!(err.to_string(), "internal assumption violated: failed to find tag for `Test`");
}

#[test]
fn option_assumption() {
    let val: Option<()> = None;
    let result: Result<(), Assumption> = val.assumption("failed to find tag");
    let err = result.unwrap_err();
    assert_eq!(err.to_string(), "internal assumption violated: failed to find tag");
}

#[test]
fn option_assumption_is_ok_when_some() {
    let val: Option<()> = Some(());
    let result: Result<(), Assumption> = val.assumption("should not trigger");
    assert!(result.is_ok());
}

#[test]
fn result_assumption_includes_original_error() {
    let val: Result<(), &str> = Err("original error");
    let result: Result<(), Assumption> = val.assumption("context message");
    let err = result.unwrap_err();
    assert_eq!(err.to_string(), "internal assumption violated: context message: original error");
}

#[test]
fn result_with_assumption_includes_original_error() {
    let webtoon = "Test";
    let val: Result<(), &str> = Err("original error");
    let result: Result<(), Assumption> = val.with_assumption(|| format!("context message for `{webtoon}`"));
    let err = result.unwrap_err();
    assert_eq!(err.to_string(), "internal assumption violated: context message for `Test`: original error");
}

#[test]
fn result_assumption_is_ok_when_ok() {
    let val: Result<(), &str> = Ok(());
    let result: Result<(), Assumption> = val.assumption("should not trigger");
    assert!(result.is_ok());
}
