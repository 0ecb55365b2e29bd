use json_result::codec::{decode, encode, resolve};
use json_result::diagnostic::Diagnostic;
use json_result::sample::{MyError, MyTest};
use json_result::tagged::JsonResult as Tagged;
use json_result::transparent::{DecodeError, JsonResult as Wrapped};
use serde::de::DeserializeOwned;
use serde::Serialize;
use serde_json::{Number, Value};

fn read<P: DeserializeOwned>(value: &Value) -> Result<P, serde_json::Error> {
    serde_json::from_value(value.clone())
}

fn write<P: Serialize>(payload: &P) -> Value {
    serde_json::to_value(payload).unwrap()
}

fn number(n: u32) -> Value {
    Value::Number(Number::from(n))
}

fn report(success_detail: &str, failure_detail: &str) -> Diagnostic {
    Diagnostic {
        success_name: "Reading".to_string(),
        success_detail: success_detail.to_string(),
        failure_name: "Fault".to_string(),
        failure_detail: failure_detail.to_string(),
    }
}

// resolve: one case for each pair of attempts

#[test]
fn resolve_takes_the_first_attempt_when_both_match() {
    let out = resolve::<u32, u32>(Ok(1), Ok(2), "Reading", "Fault");
    assert_eq!(out, Ok(Ok(1)));
}

#[test]
fn resolve_takes_the_first_attempt_when_only_it_matches() {
    let out = resolve::<u32, String>(Ok(1), Err("not a string".to_string()), "Reading", "Fault");
    assert_eq!(out, Ok(Ok(1)));
}

#[test]
fn resolve_takes_the_second_attempt_when_the_first_fails() {
    let out = resolve::<u32, String>(
        Err("not a number".to_string()),
        Ok("late".to_string()),
        "Reading",
        "Fault",
    );
    assert_eq!(out, Ok(Err("late".to_string())));
}

#[test]
fn resolve_reports_both_failures_in_order() {
    let out = resolve::<u32, String>(
        Err("not a number".to_string()),
        Err("not a string".to_string()),
        "Reading",
        "Fault",
    );
    assert_eq!(out, Err(report("not a number", "not a string")));
}

// the message

#[test]
fn message_has_one_line_for_each_shape() {
    let text = report("not a number", "not a string").message();
    assert_eq!(
        text,
        "Failed to parse as Reading: not a number\nFailed to parse as Fault: not a string"
    );
}

#[test]
fn message_holds_the_phrase_once_for_each_shape() {
    let text = report("a", "b").message();
    assert_eq!(text.matches("Failed to parse as ").count(), 2);
    assert_eq!(text.lines().count(), 2);
    assert!(text.lines().next().unwrap().contains("Reading"));
    assert!(text.lines().last().unwrap().contains("Fault"));
}

#[test]
fn message_of_empty_parts_keeps_its_frame() {
    let empty = Diagnostic {
        success_name: String::new(),
        success_detail: String::new(),
        failure_name: String::new(),
        failure_detail: String::new(),
    };
    assert_eq!(empty.message(), "Failed to parse as : \nFailed to parse as : ");
}

// decode on raw values

#[test]
fn decode_reads_a_number_as_the_success_side() {
    let out = decode(&number(123), "number", read::<u32>, "string", read::<String>);
    assert_eq!(out, Ok(Ok(123)));
}

#[test]
fn decode_reads_a_string_as_the_error_side() {
    let raw = Value::String("err".to_string());
    let out = decode(&raw, "number", read::<u32>, "string", read::<String>);
    assert_eq!(out, Ok(Err("err".to_string())));
}

#[test]
fn decode_prefers_the_success_side_when_both_shapes_match() {
    let out = decode(&number(7), "first", read::<u32>, "second", read::<u64>);
    assert_eq!(out, Ok(Ok(7)));
}

#[test]
fn decode_tries_the_error_shape_only_after_a_failure() {
    let out = decode::<u32, String, _, _>(
        &number(7),
        "number",
        read::<u32>,
        "string",
        |_| panic!("the error shape was tried"),
    );
    assert_eq!(out, Ok(Ok(7)));
}

#[test]
fn decode_reports_the_detail_of_each_attempt() {
    let raw = Value::Bool(true);
    let first = serde_json::from_value::<u32>(raw.clone()).unwrap_err().to_string();
    let second = serde_json::from_value::<String>(raw.clone()).unwrap_err().to_string();
    assert_ne!(first, second);

    let out = decode(&raw, "number", read::<u32>, "string", read::<String>);
    let found = out.unwrap_err();
    assert_eq!(found.success_name, "number");
    assert_eq!(found.success_detail, first);
    assert_eq!(found.failure_name, "string");
    assert_eq!(found.failure_detail, second);
    assert_eq!(
        found.message(),
        format!("Failed to parse as number: {}\nFailed to parse as string: {}", first, second)
    );
}

#[test]
fn decode_fails_on_null_for_two_plain_shapes() {
    let out = decode(&Value::Null, "number", read::<u32>, "string", read::<String>);
    assert!(out.is_err());
}

#[test]
fn decode_reads_null_where_a_shape_takes_it() {
    let out = decode(&Value::Null, "number", read::<u32>, "nothing", read::<()>);
    assert_eq!(out, Ok(Err(())));
}

// encode

#[test]
fn encode_gives_the_raw_value_of_the_held_payload() {
    let success: Result<u32, String> = Ok(123);
    assert_eq!(encode(success.as_ref(), write::<u32>, write::<String>), number(123));
    let failure: Result<u32, String> = Err("no".to_string());
    assert_eq!(
        encode(failure.as_ref(), write::<u32>, write::<String>),
        Value::String("no".to_string())
    );
}

#[test]
fn encode_calls_the_writer_of_the_held_side_only() {
    let success: Result<u32, u32> = Ok(1);
    assert_eq!(encode(success, |v| v + 10, |e| e + 20), 11);
    let failure: Result<u32, u32> = Err(1);
    assert_eq!(encode(failure, |v| v + 10, |e| e + 20), 21);
}

#[test]
fn encode_adds_no_tag() {
    let outcome = Tagged::<Vec<u32>, String>::Success(vec![1, 2]);
    let raw = outcome.into_value(write::<Vec<u32>>, write::<String>);
    assert_eq!(raw, Value::Array(vec![number(1), number(2)]));
    assert_eq!(raw.to_string(), "[1,2]");
}

// round trips

#[test]
fn success_payload_comes_back() {
    let raw = Tagged::<u32, String>::Success(5).into_value(write::<u32>, write::<String>);
    let back = Tagged::<u32, String>::try_from_value(raw, "u32", read::<u32>, "String", read::<String>);
    assert!(matches!(back, Ok(Tagged::Success(5))));
}

#[test]
fn error_payload_comes_back_when_the_success_shape_turns_it_down() {
    let raw = Tagged::<u32, String>::Failure("down".to_string())
        .into_value(write::<u32>, write::<String>);
    let back = Tagged::<u32, String>::try_from_value(raw, "u32", read::<u32>, "String", read::<String>);
    match back {
        Ok(Tagged::Failure(text)) => assert_eq!(text, "down"),
        _ => panic!("the error payload was lost"),
    }
}

#[test]
fn error_payload_comes_back_as_success_when_the_success_shape_takes_it() {
    let raw = Tagged::<u64, u32>::Failure(55).into_value(write::<u64>, write::<u32>);
    assert_eq!(raw, number(55));
    let back = Tagged::<u64, u32>::try_from_value(raw, "u64", read::<u64>, "u32", read::<u32>);
    assert!(matches!(back, Ok(Tagged::Success(55))));
}

// the wrapper reads and changes as the wrapped value does

#[test]
fn wrapper_answers_as_the_wrapped_value() {
    let native: Result<u32, String> = Ok(3);
    let wrapped = Wrapped(native.clone());
    assert_eq!(wrapped.is_ok(), native.is_ok());
    assert_eq!(wrapped.is_err(), native.is_err());
    assert_eq!(wrapped.as_ref(), native.as_ref());
    assert_eq!(wrapped.success(), Some(&3));
    assert_eq!(wrapped.failure(), None);
    assert_eq!(*wrapped, native);
    assert_eq!(wrapped.0, native);

    let native: Result<u32, String> = Err("gone".to_string());
    let wrapped = Wrapped(native.clone());
    assert_eq!(wrapped.is_ok(), native.is_ok());
    assert_eq!(wrapped.is_err(), native.is_err());
    assert_eq!(wrapped.as_ref(), native.as_ref());
    assert_eq!(wrapped.success(), None);
    assert_eq!(wrapped.failure(), Some(&"gone".to_string()));
    assert_eq!(wrapped.0, native);
}

#[test]
fn wrapper_shows_a_replaced_value_at_once() {
    let mut wrapped = Wrapped::<u32, String>(Ok(1));
    let previous = wrapped.replace(Err("flipped".to_string()));
    assert_eq!(previous, Ok(1));
    assert!(wrapped.is_err());
    assert_eq!(wrapped.failure(), Some(&"flipped".to_string()));
    assert_eq!(wrapped.0, Err("flipped".to_string()));

    *wrapped = Ok(2);
    assert!(wrapped.is_ok());
    assert_eq!(wrapped.success(), Some(&2));
}

// syntax failures

#[test]
fn malformed_input_is_a_syntax_failure() {
    let parsed = serde_json::from_str::<Value>("{\"v\": ");
    let expected = serde_json::from_str::<Value>("{\"v\": ").unwrap_err().to_string();
    let out = Wrapped::<u32, String>::deserialize_with(
        parsed,
        "u32",
        read::<u32>,
        "String",
        read::<String>,
    );
    match out {
        Err(DecodeError::Syntax(error)) => assert_eq!(error.to_string(), expected),
        _ => panic!("the input is no raw value"),
    }
}

#[test]
fn syntax_failure_tries_neither_shape() {
    let parsed: Result<Value, String> = Err("no value".to_string());
    let out = Wrapped::<u32, u32>::deserialize_with(
        parsed,
        "first",
        |_| panic!("the success shape was tried"),
        "second",
        |_| panic!("the error shape was tried"),
    );
    match out {
        Err(failure) => {
            assert_eq!(failure.message(), "no value");
            assert!(matches!(failure, DecodeError::Syntax(_)));
        }
        Ok(_) => panic!("an outcome was read from no value"),
    }
}

#[test]
fn mismatch_is_told_apart_from_syntax() {
    let out = Wrapped::<u32, String>::deserialize_with(
        Ok::<Value, String>(Value::Null),
        "u32",
        read::<u32>,
        "String",
        read::<String>,
    );
    match out {
        Err(DecodeError::Mismatch(found)) => {
            let text = DecodeError::<String>::Mismatch(found).message();
            assert!(text.starts_with("Failed to parse as u32: "));
            assert!(text.contains("\nFailed to parse as String: "));
        }
        _ => panic!("null matches neither shape"),
    }
}

// the fixed outcome

#[test]
fn sample_outcome_is_the_empty_success() {
    assert_eq!(json_result::sample::test(), Ok::<MyTest, MyError>(MyTest));
}
