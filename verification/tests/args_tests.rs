use proc_macro2::Span;
use qsingleton::args::{
    blamed_token, find_value_slot, parse_args, parse_args_given, ArgToken, ArgsError,
    SingletonArgs,
};
use qsingleton::policy::{ExposureMode, WaitPolicy};
use qsingleton::text::zero_interval_message;
use syn::LitInt;

fn ident(name: &str) -> ArgToken {
    ArgToken::Ident(name.to_string())
}

fn integer(text: &str) -> ArgToken {
    ArgToken::Integer(LitInt::new(text, Span::call_site()))
}

#[test]
fn empty_list_asks_for_the_defaults() {
    let args = parse_args(&vec![]);
    assert_eq!(args, Ok(SingletonArgs { use_arc: false, sleep_ms: Some(500) }));
    let args = args.expect("defaults");
    assert_eq!(args.exposure(), ExposureMode::Direct);
    assert_eq!(args.policy(), Some(WaitPolicy::default()));
}

#[test]
fn arc_alone_keeps_the_default_interval() {
    let expected = Ok(SingletonArgs { use_arc: true, sleep_ms: Some(500) });
    assert_eq!(parse_args(&vec![ident("arc")]), expected);
    assert_eq!(parse_args(&vec![ident("arc"), ArgToken::Comma]), expected);
    assert_eq!(
        SingletonArgs { use_arc: true, sleep_ms: Some(500) }.exposure(),
        ExposureMode::Shared
    );
}

#[test]
fn sleep_ms_sets_the_interval() {
    let tokens = vec![ident("sleep_ms"), ArgToken::Equals, integer("100")];
    assert_eq!(parse_args(&tokens), Ok(SingletonArgs { use_arc: false, sleep_ms: Some(100) }));
    let tokens =
        vec![ident("arc"), ArgToken::Comma, ident("sleep_ms"), ArgToken::Equals, integer("50")];
    let args = parse_args(&tokens);
    assert_eq!(args, Ok(SingletonArgs { use_arc: true, sleep_ms: Some(50) }));
    assert_eq!(
        args.expect("valid").policy(),
        Some(WaitPolicy { interval_ms: 50, max_attempts: 20 })
    );
}

#[test]
fn integer_literals_are_read_as_rust_writes_them() {
    let value = |text: &str| {
        parse_args(&vec![ident("sleep_ms"), ArgToken::Equals, integer(text)]).map(|a| a.sleep_ms)
    };
    assert_eq!(value("1000"), Ok(Some(1000)));
    assert_eq!(value("1_000"), Ok(Some(1000)));
    assert_eq!(value("250u64"), Ok(Some(250)));
    assert_eq!(value("0x10"), Ok(Some(16)));
    assert_eq!(value("0"), Ok(Some(0)));
    assert_eq!(value("18446744073709551615"), Ok(Some(u64::MAX)));
    assert_eq!(value("18446744073709551616"), Err(ArgsError::IntegerOutOfRange));
    assert_eq!(value("-5"), Err(ArgsError::IntegerOutOfRange));
}

#[test]
fn zero_interval_gives_no_policy() {
    let tokens = vec![ident("sleep_ms"), ArgToken::Equals, integer("0")];
    let args = parse_args(&tokens).expect("zero is an integer");
    assert_eq!(args, SingletonArgs { use_arc: false, sleep_ms: Some(0) });
    assert_eq!(args.policy(), None);
    assert_eq!(
        SingletonArgs { use_arc: false, sleep_ms: None }.policy(),
        Some(WaitPolicy::default())
    );
}

#[test]
fn each_error_has_an_input() {
    assert_eq!(parse_args(&vec![ArgToken::Comma]), Err(ArgsError::ExpectedIdentifier));
    assert_eq!(parse_args(&vec![integer("5")]), Err(ArgsError::ExpectedIdentifier));
    assert_eq!(parse_args(&vec![ident("rc")]), Err(ArgsError::ExpectedArcOrSleepMs));
    assert_eq!(
        parse_args(&vec![ident("arc"), ArgToken::Comma, ident("sleep")]),
        Err(ArgsError::ExpectedSleepMs)
    );
    assert_eq!(
        parse_args(&vec![ident("arc"), ArgToken::Comma, ArgToken::Other]),
        Err(ArgsError::ExpectedIdentifier)
    );
    assert_eq!(parse_args(&vec![ident("sleep_ms")]), Err(ArgsError::ExpectedEquals));
    assert_eq!(
        parse_args(&vec![ident("sleep_ms"), integer("5")]),
        Err(ArgsError::ExpectedEquals)
    );
    assert_eq!(
        parse_args(&vec![ident("sleep_ms"), ArgToken::Equals]),
        Err(ArgsError::ExpectedInteger)
    );
    assert_eq!(
        parse_args(&vec![ident("sleep_ms"), ArgToken::Equals, ident("five")]),
        Err(ArgsError::ExpectedInteger)
    );
    assert_eq!(
        parse_args(&vec![ident("sleep_ms"), ArgToken::Equals, ArgToken::Other]),
        Err(ArgsError::ExpectedInteger)
    );
    assert_eq!(
        parse_args(&vec![
            ident("sleep_ms"),
            ArgToken::Equals,
            integer("99999999999999999999999"),
            ArgToken::Comma
        ]),
        Err(ArgsError::IntegerOutOfRange)
    );
    assert_eq!(
        parse_args(&vec![ident("sleep_ms"), ArgToken::Equals, integer("5"), ArgToken::Comma]),
        Err(ArgsError::UnexpectedToken)
    );
    assert_eq!(
        parse_args(&vec![ident("arc"), ident("sleep_ms")]),
        Err(ArgsError::UnexpectedToken)
    );
    assert_eq!(
        parse_args(&vec![
            ident("sleep_ms"),
            ArgToken::Equals,
            integer("5"),
            ArgToken::Comma,
            ident("arc")
        ]),
        Err(ArgsError::UnexpectedToken)
    );
}

#[test]
fn parse_args_given_by_case() {
    let short = vec![ident("sleep_ms"), ArgToken::Equals, integer("1")];
    assert_eq!(
        parse_args_given(&short, Some(7)),
        Ok(SingletonArgs { use_arc: false, sleep_ms: Some(7) })
    );
    assert_eq!(parse_args_given(&short, None), Err(ArgsError::IntegerOutOfRange));
    let long =
        vec![ident("arc"), ArgToken::Comma, ident("sleep_ms"), ArgToken::Equals, integer("1")];
    assert_eq!(
        parse_args_given(&long, Some(0)),
        Ok(SingletonArgs { use_arc: true, sleep_ms: Some(0) })
    );
    assert_eq!(parse_args_given(&long, None), Err(ArgsError::IntegerOutOfRange));
    let no_value = vec![ident("arc")];
    assert_eq!(
        parse_args_given(&no_value, Some(9)),
        Ok(SingletonArgs { use_arc: true, sleep_ms: Some(500) })
    );
    assert_eq!(parse_args_given(&no_value, None), parse_args_given(&no_value, Some(9)));
    let no_literal = vec![ident("sleep_ms"), ArgToken::Equals, ArgToken::Comma];
    assert_eq!(parse_args_given(&no_literal, Some(9)), Err(ArgsError::ExpectedInteger));
}

#[test]
fn value_slot_by_case() {
    assert_eq!(find_value_slot(&vec![]), None);
    assert_eq!(find_value_slot(&vec![ident("arc")]), None);
    assert_eq!(find_value_slot(&vec![ident("sleep_ms"), ArgToken::Equals]), None);
    assert_eq!(
        find_value_slot(&vec![ident("sleep_ms"), ArgToken::Equals, ArgToken::Other]),
        Some(2)
    );
    assert_eq!(
        find_value_slot(&vec![ident("sleep_ms"), ArgToken::Comma, integer("1")]),
        None
    );
    assert_eq!(
        find_value_slot(&vec![
            ident("arc"),
            ArgToken::Comma,
            ident("sleep_ms"),
            ArgToken::Equals,
            integer("1")
        ]),
        Some(4)
    );
}

#[test]
fn each_error_has_its_message() {
    assert_eq!(ArgsError::ExpectedIdentifier.message(), "expected identifier");
    assert_eq!(
        ArgsError::ExpectedArcOrSleepMs.message(),
        "Expected 'arc' or 'sleep_ms' parameter"
    );
    assert_eq!(ArgsError::ExpectedSleepMs.message(), "Expected 'sleep_ms' parameter");
    assert_eq!(ArgsError::ExpectedEquals.message(), "expected `=`");
    assert_eq!(ArgsError::ExpectedInteger.message(), "expected integer literal");
    assert_eq!(
        ArgsError::IntegerOutOfRange.message(),
        "number too large to fit in target type"
    );
    assert_eq!(ArgsError::UnexpectedToken.message(), "unexpected token");
    assert_eq!(zero_interval_message(), "sleep_ms must be positive");
}

#[test]
fn blamed_token_is_the_one_that_does_not_fit() {
    let blame = |tokens: Vec<ArgToken>| {
        let error = parse_args(&tokens).expect_err("refused");
        (error, blamed_token(&tokens, error))
    };
    assert_eq!(blame(vec![ArgToken::Comma]), (ArgsError::ExpectedIdentifier, 0));
    assert_eq!(blame(vec![ident("rc")]), (ArgsError::ExpectedArcOrSleepMs, 0));
    assert_eq!(
        blame(vec![ident("arc"), ArgToken::Comma, ident("sleep")]),
        (ArgsError::ExpectedSleepMs, 2)
    );
    assert_eq!(
        blame(vec![ident("arc"), ArgToken::Comma, ArgToken::Equals]),
        (ArgsError::ExpectedIdentifier, 2)
    );
    assert_eq!(blame(vec![ident("sleep_ms")]), (ArgsError::ExpectedEquals, 1));
    assert_eq!(
        blame(vec![ident("arc"), ArgToken::Comma, ident("sleep_ms"), ArgToken::Comma]),
        (ArgsError::ExpectedEquals, 3)
    );
    assert_eq!(
        blame(vec![ident("sleep_ms"), ArgToken::Equals, ident("five")]),
        (ArgsError::ExpectedInteger, 2)
    );
    assert_eq!(
        blame(vec![ident("sleep_ms"), ArgToken::Equals, integer("18446744073709551616")]),
        (ArgsError::IntegerOutOfRange, 2)
    );
    assert_eq!(
        blame(vec![
            ident("arc"),
            ArgToken::Comma,
            ident("sleep_ms"),
            ArgToken::Equals,
            integer("18446744073709551616")
        ]),
        (ArgsError::IntegerOutOfRange, 4)
    );
    assert_eq!(
        blame(vec![ident("sleep_ms"), ArgToken::Equals, integer("5"), ArgToken::Comma]),
        (ArgsError::UnexpectedToken, 3)
    );
    assert_eq!(blame(vec![ident("arc"), ident("sleep_ms")]), (ArgsError::UnexpectedToken, 1));
    assert_eq!(
        blame(vec![
            ident("arc"),
            ArgToken::Comma,
            ident("sleep_ms"),
            ArgToken::Equals,
            integer("5"),
            ArgToken::Other
        ]),
        (ArgsError::UnexpectedToken, 5)
    );
}
