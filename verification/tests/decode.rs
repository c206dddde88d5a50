use lambda_extension::event::{decode_event, DecodeError, Field, LifecycleEvent};

#[test]
fn invoke_event_decodes_with_all_fields() {
    let body = "{\"eventType\":\"INVOKE\",\"deadlineMs\":1583857021,\"requestId\":\"8286a188-ba32-4475-8077-530cd35c09a9\",\"invokedFunctionArn\":\"arn:aws:lambda:us-east-1:123456789012:function:mine\",\"tracing\":{\"type\":\"X-Amzn-Trace-Id\",\"value\":\"Root=1-5bef4de7\"}}";
    match decode_event(body) {
        Ok(LifecycleEvent::Invoke { request_id, deadline_ms, invoked_function_arn, tracing }) => {
            assert_eq!(request_id, "8286a188-ba32-4475-8077-530cd35c09a9");
            assert_eq!(deadline_ms, 1583857021);
            assert_eq!(
                invoked_function_arn,
                "arn:aws:lambda:us-east-1:123456789012:function:mine"
            );
            assert_eq!(tracing.trace_type, "X-Amzn-Trace-Id");
            assert_eq!(tracing.trace_value, "Root=1-5bef4de7");
        }
        other => panic!("expected an invoke event, got {:?}", other.is_ok()),
    }
}

#[test]
fn shutdown_event_decodes() {
    let body = "{\"eventType\":\"SHUTDOWN\",\"shutdownReason\":\"SPINDOWN\",\"deadlineMs\":1000}";
    match decode_event(body) {
        Ok(LifecycleEvent::Shutdown { reason, deadline_ms }) => {
            assert_eq!(reason, "SPINDOWN");
            assert_eq!(deadline_ms, 1000);
        }
        _ => panic!("expected a shutdown event"),
    }
}

#[test]
fn whitespace_and_extra_members_are_tolerated() {
    let body = " { \"color\" : [1, 2.5, true, null, {\"deep\": \"x\"}] ,\n\t\"eventType\" : \"SHUTDOWN\" , \"shutdownReason\" : \"TIMEOUT\" , \"deadlineMs\" : 42 } ";
    match decode_event(body) {
        Ok(LifecycleEvent::Shutdown { reason, deadline_ms }) => {
            assert_eq!(reason, "TIMEOUT");
            assert_eq!(deadline_ms, 42);
        }
        _ => panic!("expected a shutdown event"),
    }
}

#[test]
fn string_escapes_are_decoded() {
    let body = "{\"eventType\":\"SHUTDOWN\",\"shutdownReason\":\"a\\\"b\\\\c\\n\",\"deadlineMs\":7}";
    match decode_event(body) {
        Ok(LifecycleEvent::Shutdown { reason, .. }) => {
            assert_eq!(reason, "a\"b\\c\n");
        }
        _ => panic!("expected a shutdown event"),
    }
}

#[test]
fn unknown_discriminator_is_a_decode_error_naming_it() {
    let body = "{\"eventType\":\"REBOOT\",\"deadlineMs\":5}";
    match decode_event(body) {
        Err(DecodeError::UnknownEventType(got)) => assert_eq!(got, "REBOOT"),
        _ => panic!("expected an unknown event type error"),
    }
}

#[test]
fn missing_discriminator_is_reported_as_such() {
    let body = "{\"deadlineMs\":5}";
    assert!(matches!(
        decode_event(body),
        Err(DecodeError::MissingField(Field::EventType))
    ));
}

#[test]
fn non_object_body_is_refused() {
    assert!(matches!(decode_event("[1,2]"), Err(DecodeError::NotAnObject)));
    assert!(matches!(decode_event(""), Err(DecodeError::NotAnObject)));
}

#[test]
fn ill_formed_object_is_a_syntax_error() {
    assert!(matches!(
        decode_event("{\"eventType\":\"SHUTDOWN\""),
        Err(DecodeError::Syntax)
    ));
    assert!(matches!(
        decode_event("{\"eventType\" \"SHUTDOWN\"}"),
        Err(DecodeError::Syntax)
    ));
}

#[test]
fn trailing_text_is_refused() {
    assert!(matches!(
        decode_event("{\"eventType\":\"SHUTDOWN\",\"shutdownReason\":\"x\",\"deadlineMs\":1} x"),
        Err(DecodeError::TrailingData)
    ));
}

#[test]
fn missing_invoke_fields_are_reported() {
    let body = "{\"eventType\":\"INVOKE\",\"deadlineMs\":5,\"requestId\":\"r\"}";
    assert!(matches!(
        decode_event(body),
        Err(DecodeError::MissingField(Field::InvokedFunctionArn))
    ));
    let body2 = "{\"eventType\":\"INVOKE\",\"deadlineMs\":5,\"requestId\":\"r\",\"invokedFunctionArn\":\"a\",\"tracing\":{\"type\":\"t\"}}";
    assert!(matches!(
        decode_event(body2),
        Err(DecodeError::MissingField(Field::TraceValue))
    ));
}

#[test]
fn wrong_field_types_are_reported() {
    let body = "{\"eventType\":\"SHUTDOWN\",\"shutdownReason\":3,\"deadlineMs\":1}";
    assert!(matches!(
        decode_event(body),
        Err(DecodeError::WrongFieldType(Field::ShutdownReason))
    ));
    let body2 = "{\"eventType\":\"SHUTDOWN\",\"shutdownReason\":\"x\",\"deadlineMs\":\"soon\"}";
    assert!(matches!(
        decode_event(body2),
        Err(DecodeError::WrongFieldType(Field::DeadlineMs))
    ));
    let body3 = "{\"eventType\":\"SHUTDOWN\",\"shutdownReason\":\"x\",\"deadlineMs\":-1}";
    assert!(matches!(
        decode_event(body3),
        Err(DecodeError::WrongFieldType(Field::DeadlineMs))
    ));
}

#[test]
fn deadline_must_fit_in_sixty_four_bits() {
    let body = "{\"eventType\":\"SHUTDOWN\",\"shutdownReason\":\"x\",\"deadlineMs\":18446744073709551615}";
    match decode_event(body) {
        Ok(LifecycleEvent::Shutdown { deadline_ms, .. }) => {
            assert_eq!(deadline_ms, u64::MAX);
        }
        _ => panic!("largest deadline must decode"),
    }
    let over = "{\"eventType\":\"SHUTDOWN\",\"shutdownReason\":\"x\",\"deadlineMs\":18446744073709551616}";
    assert!(matches!(
        decode_event(over),
        Err(DecodeError::DeadlineOutOfRange)
    ));
}

#[test]
fn text_outside_the_ascii_range_is_kept() {
    let body = "{\"eventType\":\"SHUTDOWN\",\"shutdownReason\":\"arr\u{00ea}t\u{00e9} \u{26a0}\",\"deadlineMs\":1}";
    match decode_event(body) {
        Ok(LifecycleEvent::Shutdown { reason, .. }) => {
            assert_eq!(reason, "arr\u{00ea}t\u{00e9} \u{26a0}");
        }
        _ => panic!("expected a shutdown event"),
    }
}

#[test]
fn unicode_escapes_are_refused_as_syntax() {
    let body = "{\"eventType\":\"SHUTDOWN\",\"shutdownReason\":\"\\u0041\",\"deadlineMs\":1}";
    assert!(matches!(decode_event(body), Err(DecodeError::Syntax)));
}

#[test]
fn first_member_with_a_key_wins() {
    let body = "{\"eventType\":\"SHUTDOWN\",\"shutdownReason\":\"first\",\"shutdownReason\":\"second\",\"deadlineMs\":1}";
    match decode_event(body) {
        Ok(LifecycleEvent::Shutdown { reason, .. }) => assert_eq!(reason, "first"),
        _ => panic!("expected a shutdown event"),
    }
}
