use info_utils::eval::eval_result::EvalResult;

#[test]
fn eval_result_test_eval() {
    let foo: Result<u16, &str> = Ok(7);
    assert_eq!(foo.eval(), 7);
}

#[test]
fn eval_result_test_eval_or() {
    let mut foo: Result<u16, &str> = Ok(7);
    assert_eq!(foo.eval_or(3), 7);

    foo = Err("error");
    assert_eq!(foo.eval_or(3), 3);
}

#[test]
fn eval_result_test_eval_or_default() {
    let mut foo: Result<u16, &str> = Ok(7);
    assert_eq!(foo.eval_or_default(), 7);

    foo = Err("error");
    assert_eq!(foo.eval_or_default(), 0);
}

#[test]
fn eval_result_test_eval_or_else() {
    let mut foo: Result<u16, &str> = Ok(7);
    assert_eq!(foo.eval_or_else(|d| d.len() as u16), 7);

    foo = Err("error");
    assert_eq!(foo.eval_or_else(|d| d.len() as u16), 5);
}

#[test]
fn test_eval_err() {
    let foo: Result<u16, &str> = Ok(7);
    assert_eq!(foo.should("Should be set in initializer"), 7);
}
