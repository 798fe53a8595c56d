use function_runner::hexfmt::hex_upper;
use function_runner::outcome::{
    failed_message, float_error_message, int_error_message, unsupported_message,
};
use function_runner::page::place_code;
use function_runner::sig::check_signature;
use function_runner::{Action, CallConv, FunctionInfo, FunctionRunner, RawValue, Stage, ValueType};

const HOST: CallConv = CallConv::SystemV;

fn boolean_function(name: &str) -> FunctionInfo {
    FunctionInfo {
        name: name.to_string(),
        params: Vec::new(),
        returns: vec![ValueType::Bool],
        call_conv: HOST,
    }
}

fn returning(ret: ValueType) -> FunctionInfo {
    FunctionInfo {
        name: "%test".to_string(),
        params: Vec::new(),
        returns: vec![ret],
        call_conv: HOST,
    }
}

/// Drives one full run: hands the scripted compiler response when asked to
/// compile, hands the scripted raw value when asked to invoke, and returns
/// the outcome together with how many times compilation was requested.
fn drive(
    runner: &mut FunctionRunner,
    compile_response: Result<Vec<u8>, String>,
    raw: Option<RawValue>,
) -> (Result<(), String>, usize) {
    let mut compiles: usize = 0;
    let mut action = runner.start();
    loop {
        match action {
            Action::Compile => {
                compiles += 1;
                action = runner.compiled(compile_response.clone());
            }
            Action::Invoke { addr, ret: _ } => {
                assert_ne!(addr, 0);
                action = runner.invoked(raw.clone().expect("invocation was not scripted"));
            }
            Action::Finish(outcome) => return (outcome, compiles),
        }
    }
}

#[test]
fn pass_on_true() {
    let mut runner = FunctionRunner::new(boolean_function("%test"), HOST);
    let (outcome, compiles) = drive(
        &mut runner,
        Ok(vec![0xB0, 0x01, 0xC3]),
        Some(RawValue::Bool(true)),
    );
    assert_eq!(outcome, Ok(()));
    assert_eq!(compiles, 1);
    assert_eq!(runner.stage, Stage::Finished);
    assert!(runner.page.is_none());
}

#[test]
fn fail_on_false_names_function() {
    let mut runner = FunctionRunner::new(boolean_function("%test"), HOST);
    let (outcome, _) = drive(
        &mut runner,
        Ok(vec![0xB0, 0x00, 0xC3]),
        Some(RawValue::Bool(false)),
    );
    assert_eq!(outcome, Err("Failed: %test".to_string()));
}

#[test]
fn validation_rejects_parameters() {
    let function = FunctionInfo {
        name: "%test".to_string(),
        params: vec![ValueType::I32],
        returns: vec![ValueType::Bool],
        call_conv: HOST,
    };
    let mut runner = FunctionRunner::new(function, HOST);
    let (outcome, compiles) = drive(&mut runner, Ok(vec![0xC3]), None);
    assert_eq!(
        outcome,
        Err("Functions must have a signature like: () -> ty".to_string())
    );
    // The compiler is never consulted for a rejected signature.
    assert_eq!(compiles, 0);
    assert!(runner.page.is_none());
}

#[test]
fn validation_rejects_multiple_returns() {
    let function = FunctionInfo {
        name: "%test".to_string(),
        params: Vec::new(),
        returns: vec![ValueType::Bool, ValueType::Bool],
        call_conv: HOST,
    };
    let mut runner = FunctionRunner::new(function, HOST);
    let (outcome, compiles) = drive(&mut runner, Ok(vec![0xC3]), None);
    assert_eq!(
        outcome,
        Err("Functions must have a signature like: () -> ty".to_string())
    );
    assert_eq!(compiles, 0);
}

#[test]
fn validation_rejects_wrong_convention() {
    let mut function = boolean_function("%test");
    function.call_conv = CallConv::Fast;
    let mut runner = FunctionRunner::new(function, HOST);
    let (outcome, compiles) = drive(&mut runner, Ok(vec![0xC3]), None);
    assert_eq!(
        outcome,
        Err("Functions only run on the host's default calling convention; remove the specified calling convention in the function signature to use the host's default.".to_string())
    );
    assert_eq!(compiles, 0);
}

#[test]
fn int_return_reported_in_hex() {
    let mut runner = FunctionRunner::new(returning(ValueType::I32), HOST);
    let (outcome, _) = drive(&mut runner, Ok(vec![0xC3]), Some(RawValue::Int(0xFF)));
    let message = outcome.expect_err("an integer return is an error");
    assert_eq!(
        message,
        "Function return type is not boolean, return value is 0xFF"
    );
    assert!(message.contains("0xFF"));
}

#[test]
fn float_return_reported_in_decimal() {
    let mut runner = FunctionRunner::new(returning(ValueType::F64), HOST);
    let rendered = format!("{}", 3.5f64);
    let (outcome, _) = drive(&mut runner, Ok(vec![0xC3]), Some(RawValue::Float(rendered)));
    let message = outcome.expect_err("a float return is an error");
    assert_eq!(
        message,
        "Function return type is not boolean, return value is 3.5"
    );
    assert!(message.contains("3.5"));
    assert!(!message.contains("0x"));
}

#[test]
fn unsupported_return_type_reported() {
    let mut runner = FunctionRunner::new(returning(ValueType::Other("i8x16".to_string())), HOST);
    let (outcome, compiles) = drive(&mut runner, Ok(vec![0xC3]), None);
    assert_eq!(
        outcome,
        Err("Function return type not supported for debug-printing yet: i8x16".to_string())
    );
    // Compilation still happens; only the invocation is skipped.
    assert_eq!(compiles, 1);
    assert!(runner.page.is_none());
}

#[test]
fn placed_page_decides_unsupported_or_invoke() {
    // A placed page for an uninterpretable return type is released unused,
    // with the exact unsupported-type error.
    let mut runner = FunctionRunner::new(returning(ValueType::Other("i16x8".to_string())), HOST);
    assert!(matches!(runner.start(), Action::Compile));
    let page = place_code(&vec![0xC3]).expect("placing one byte of code succeeds");
    match runner.placed(page) {
        Action::Finish(Err(message)) => assert_eq!(
            message,
            "Function return type not supported for debug-printing yet: i16x8"
        ),
        _ => panic!("an uninterpretable return type must finish the run with an error"),
    }
    assert!(runner.page.is_none());

    // A placed page for an interpretable return type is held for invocation
    // of the declared type.
    let mut runner = FunctionRunner::new(returning(ValueType::I64), HOST);
    assert!(matches!(runner.start(), Action::Compile));
    let page = place_code(&vec![0xC3]).expect("placing one byte of code succeeds");
    match runner.placed(page) {
        Action::Invoke { addr, ret } => {
            assert_ne!(addr, 0);
            assert!(matches!(ret, ValueType::I64));
        }
        _ => panic!("an interpretable return type must ask for invocation"),
    }
    assert_eq!(runner.stage, Stage::AwaitInvoke);
    assert!(runner.page.is_some());
}

#[test]
fn compile_error_surfaced_verbatim() {
    let mut runner = FunctionRunner::new(boolean_function("%test"), HOST);
    let (outcome, _) = drive(&mut runner, Err("unimplemented instruction".to_string()), None);
    assert_eq!(outcome, Err("unimplemented instruction".to_string()));
    assert!(runner.page.is_none());
}

#[test]
fn run_twice_same_outcome() {
    let first = {
        let mut runner = FunctionRunner::new(boolean_function("%same"), HOST);
        drive(&mut runner, Ok(vec![0xC3]), Some(RawValue::Bool(false))).0
    };
    let second = {
        let mut runner = FunctionRunner::new(boolean_function("%same"), HOST);
        drive(&mut runner, Ok(vec![0xC3]), Some(RawValue::Bool(false))).0
    };
    assert_eq!(first, second);
}

#[test]
fn no_page_after_any_outcome() {
    let scripts: Vec<(FunctionInfo, Result<Vec<u8>, String>, Option<RawValue>)> = vec![
        (boolean_function("%a"), Ok(vec![0xC3]), Some(RawValue::Bool(true))),
        (boolean_function("%b"), Ok(vec![0xC3]), Some(RawValue::Bool(false))),
        (boolean_function("%c"), Err("no code".to_string()), None),
        (returning(ValueType::I8), Ok(vec![0xC3]), Some(RawValue::Int(1))),
        (returning(ValueType::Other("i32x4".to_string())), Ok(vec![0xC3]), None),
        (
            FunctionInfo {
                name: "%d".to_string(),
                params: vec![ValueType::I64],
                returns: vec![ValueType::Bool],
                call_conv: HOST,
            },
            Ok(vec![0xC3]),
            None,
        ),
    ];
    for (function, compile_response, raw) in scripts {
        let mut runner = FunctionRunner::new(function, HOST);
        let _ = drive(&mut runner, compile_response, raw);
        assert_eq!(runner.stage, Stage::Finished);
        assert!(runner.page.is_none());
    }
}

#[test]
fn placement_failure_surfaces_error() {
    // A zero-length anonymous mapping is refused by the memory provider, so
    // an empty compile response exercises the platform-failure path.
    let mut runner = FunctionRunner::new(boolean_function("%z"), HOST);
    let (outcome, compiles) = drive(&mut runner, Ok(Vec::new()), None);
    assert!(outcome.is_err());
    assert_eq!(compiles, 1);
    assert_eq!(runner.stage, Stage::Finished);
    assert!(runner.page.is_none());
}

#[test]
fn hex_upper_renders_digits() {
    assert_eq!(hex_upper(0), "0");
    assert_eq!(hex_upper(9), "9");
    assert_eq!(hex_upper(10), "A");
    assert_eq!(hex_upper(255), "FF");
    assert_eq!(hex_upper(0xDEADBEEF), "DEADBEEF");
    assert_eq!(hex_upper(u128::MAX), "F".repeat(32));
    // Matches the standard uppercase-hex rendering.
    assert_eq!(hex_upper(0x1234ABCD), format!("{:X}", 0x1234ABCDu64));
}

#[test]
fn message_builders_render_exactly() {
    assert_eq!(failed_message(&"%f".to_string()), "Failed: %f");
    assert_eq!(
        int_error_message(0xFF),
        format!("Function return type is not boolean, return value is {:#X}", 0xFFu8)
    );
    assert_eq!(
        float_error_message(&"2.25".to_string()),
        "Function return type is not boolean, return value is 2.25"
    );
    assert_eq!(
        unsupported_message(&"f64x2".to_string()),
        "Function return type not supported for debug-printing yet: f64x2"
    );
}

#[test]
fn check_signature_accepts_valid_shape() {
    let function = boolean_function("%ok");
    assert_eq!(check_signature(&function, HOST), Ok(()));
    assert!(check_signature(&function, CallConv::Fast).is_err());
}

#[test]
fn place_code_places_exact_bytes() {
    let code: Vec<u8> = vec![0x55, 0x48, 0x89, 0xE5, 0xC3];
    let page = place_code(&code).expect("placing a few bytes succeeds");
    assert_eq!(page.len(), code.len());
    assert_eq!(&page[..], &code[..]);
}
