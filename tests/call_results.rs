use js_callback::js_call::{
    settle_deferred, settle_plain, step_maybe_async, unknown_return_error, AwaitStep, CallError,
    DeferredReturn, HostReturn,
};
use js_callback::prettify_type_name;

fn host_increment(x: i64) -> i64 {
    x + 1
}

#[test]
fn plain_call_returns_host_value() {
    let r: Result<i64, CallError<String>> = settle_plain(Ok(HostReturn::Value(host_increment(41))), "i64");
    assert!(matches!(r, Ok(42)));
}

#[test]
fn immediate_value_finishes_unchanged() {
    let step: AwaitStep<String, u32, String> = step_maybe_async(
        Ok(DeferredReturn::Immediate("value".to_string())),
        "alloc::string::String",
        "Owner",
    );
    match step {
        AwaitStep::Finished(Ok(v)) => assert_eq!(v, "value"),
        _ => panic!("expected an immediate value"),
    }
}

#[test]
fn deferred_value_is_awaited_then_returned() {
    let step: AwaitStep<String, u32, String> =
        step_maybe_async(Ok(DeferredReturn::Deferred(7)), "alloc::string::String", "Owner");
    match step {
        AwaitStep::AwaitDeferred(handle) => assert_eq!(handle, 7),
        _ => panic!("expected the deferred value to be awaited"),
    }
    let r: Result<String, CallError<String>> = settle_deferred(Ok("done".to_string()));
    assert!(matches!(r, Ok(ref v) if v == "done"));
}

#[test]
fn deferred_failure_is_handed_on() {
    let r: Result<String, CallError<String>> = settle_deferred(Err("rejected".to_string()));
    match r {
        Err(CallError::DeferredFailure(e)) => assert_eq!(e, "rejected"),
        _ => panic!("expected the deferred failure"),
    }
}

#[test]
fn host_call_failure_is_handed_on_plain() {
    let r: Result<i64, CallError<String>> = settle_plain(Err("queue closed".to_string()), "i64");
    match r {
        Err(CallError::HostCallFailure(e)) => assert_eq!(e, "queue closed"),
        _ => panic!("expected the host failure"),
    }
}

#[test]
fn host_call_failure_is_handed_on_maybe_async() {
    let step: AwaitStep<i64, u32, String> =
        step_maybe_async(Err("queue closed".to_string()), "i64", "Owner");
    match step {
        AwaitStep::Finished(Err(CallError::HostCallFailure(e))) => assert_eq!(e, "queue closed"),
        _ => panic!("expected the host failure"),
    }
}

#[test]
fn plain_unknown_shape_is_reported() {
    let r: Result<i64, CallError<String>> = settle_plain(Ok(HostReturn::Unrecognized), "i64");
    match r {
        Err(CallError::UnknownReturnValue { expected, owner, message }) => {
            assert_eq!(expected, "i64");
            assert_eq!(owner, "");
            assert_eq!(message, "UNKNOWN_RETURN_VALUE. Cannot convert unknown to `i64` in ");
        }
        _ => panic!("expected an unknown return value"),
    }
}

#[test]
fn plain_unknown_shape_names_unqualified_type() {
    let r: Result<i64, CallError<String>> =
        settle_plain(Ok(HostReturn::Unrecognized), "module::Sub::Type");
    match r {
        Err(CallError::UnknownReturnValue { expected, message, .. }) => {
            assert_eq!(expected, "Type");
            assert!(message.contains("Cannot convert"));
            assert!(message.contains("`Type`"));
            assert!(!message.contains("module::Sub::Type"));
        }
        _ => panic!("expected an unknown return value"),
    }
}

#[test]
fn maybe_async_unknown_shape_is_reported() {
    let step: AwaitStep<String, u32, String> = step_maybe_async(
        Ok(DeferredReturn::Unrecognized),
        "alloc::string::String",
        "app::callbacks::Listener",
    );
    match step {
        AwaitStep::Finished(Err(CallError::UnknownReturnValue { expected, owner, message })) => {
            assert_eq!(expected, "String");
            assert_eq!(owner, "Listener");
            assert!(message.contains("Cannot convert"));
            assert!(message.contains("`String`"));
            assert!(!message.contains("alloc::string::String"));
            assert_eq!(
                message,
                "UNKNOWN_RETURN_VALUE. Cannot convert unknown to `String` in Listener."
            );
        }
        _ => panic!("expected an unknown return value"),
    }
}

#[test]
fn unknown_return_error_strips_nested_qualifiers() {
    let err: CallError<String> =
        unknown_return_error("core::option::Option<alloc::string::String>", "a::b::Owner<x::Y>");
    match err {
        CallError::UnknownReturnValue { expected, owner, message } => {
            assert_eq!(expected, "Option<String>");
            assert_eq!(owner, "Owner<Y>");
            assert_eq!(
                message,
                "UNKNOWN_RETURN_VALUE. Cannot convert unknown to `Option<String>` in Owner<Y>."
            );
        }
        _ => panic!("expected an unknown return value"),
    }
}

#[test]
fn prettify_strips_module_path() {
    assert_eq!(prettify_type_name("module::Sub::Type"), "Type");
}

#[test]
fn prettify_keeps_unqualified_name() {
    assert_eq!(prettify_type_name("u32"), "u32");
    assert_eq!(prettify_type_name(""), "");
}

#[test]
fn prettify_strips_inside_generics_and_tuples() {
    assert_eq!(
        prettify_type_name("(alloc::vec::Vec<u8>, core::option::Option<i32>)"),
        "(Vec<u8>, Option<i32>)"
    );
}
