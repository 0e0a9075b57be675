use info_utils::eval::eval_option::EvalOption;

#[test]
fn eval_option_test_eval() {
    struct Foo {
        data: Option<i32>,
    }

    let val: Foo = Foo { data: Some(7) };
    assert_eq!(val.data.eval(), 7);
}

#[test]
fn eval_option_test_eval_or() {
    struct Foo<'a> {
        data: Option<&'a str>,
    }

    let mut val: Foo = Foo { data: Some("info") };

    assert_eq!(val.data.eval_or("data"), "info");

    val.data = None;
    assert_eq!(val.data.eval_or("data"), "data");
}

#[test]
fn eval_option_test_eval_or_default() {
    struct Foo {
        data: Option<i32>,
    }

    let mut val: Foo = Foo { data: Some(7) };

    assert_eq!(val.data.eval_or_default(), 7);

    val.data = None;
    assert_eq!(val.data.eval_or_default(), 0);
}

#[test]
fn eval_option_test_eval_or_else() {
    struct Foo {
        data: Option<i32>,
    }

    let mut val: Foo = Foo { data: Some(7) };

    let bar = 10;
    assert_eq!(val.data.eval_or_else(|| 3 * bar), 7);

    val.data = None;
    assert_eq!(val.data.eval_or_else(|| 3 * bar), 30);
}

#[test]
fn test_should() {
    struct Foo {
        data: Option<i32>,
    }

    let val: Foo = Foo { data: Some(7) };
    assert_eq!(val.data.should("Data set to Some by initialization"), 7);

    // Also works with other data types that implement std::fmt::Display
    let val: Foo = Foo { data: Some(7) };
    assert_eq!(val.data.should(7 as f32 * 3.7), 7);
}
