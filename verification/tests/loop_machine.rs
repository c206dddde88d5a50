use lambda_extension::event::{DecodeError, LifecycleEvent, TraceInfo};
use lambda_extension::machine::{Controller, PollError, StepAction};
use lambda_extension::result_artifact::{interpret_result, read_payload, ResultError};
use lambda_extension::text::{port_decimal, u64_decimal};

fn invoke(id: &str) -> LifecycleEvent {
    LifecycleEvent::Invoke {
        request_id: id.to_string(),
        deadline_ms: 1000,
        invoked_function_arn: "arn:aws:lambda:eu-west-1:1:function:f".to_string(),
        tracing: TraceInfo {
            trace_type: "X-Amzn-Trace-Id".to_string(),
            trace_value: "Root=1".to_string(),
        },
    }
}

fn shutdown() -> LifecycleEvent {
    LifecycleEvent::Shutdown { reason: "SPINDOWN".to_string(), deadline_ms: 1000 }
}

#[test]
fn invoke_result_is_processed_one_iteration_later() {
    let mut c = Controller::new();

    let (report1, act1) = c.step(Ok(invoke("req-1")));
    assert_eq!(report1, None);
    assert!(matches!(act1, StepAction::Continue));

    let (report2, act2) = c.step(Ok(invoke("req-2")));
    assert_eq!(report2.as_deref(), Some("req-1"));
    assert!(matches!(act2, StepAction::Continue));

    let (report3, act3) = c.step(Ok(shutdown()));
    assert_eq!(report3.as_deref(), Some("req-2"));
    assert!(matches!(act3, StepAction::ExitClean));
}

#[test]
fn shutdown_ends_the_loop_cleanly() {
    let mut c = Controller::new();
    let (report, act) = c.step(Ok(shutdown()));
    assert_eq!(report, None);
    assert!(matches!(act, StepAction::ExitClean));
}

#[test]
fn poll_failure_ends_the_loop_with_the_error() {
    let mut c = Controller::new();
    let (_, act) = c.step(Err(PollError::Transport("connection reset".to_string())));
    match act {
        StepAction::ExitError(PollError::Transport(msg)) => {
            assert_eq!(msg, "connection reset");
        }
        _ => panic!("expected the transport error back"),
    }
}

#[test]
fn decode_failures_stay_apart_from_transport_failures() {
    let mut c = Controller::new();
    let (_, act) = c.step(Err(PollError::Decode(DecodeError::UnknownEventType(
        "REBOOT".to_string(),
    ))));
    match act {
        StepAction::ExitError(PollError::Decode(DecodeError::UnknownEventType(got))) => {
            assert_eq!(got, "REBOOT");
        }
        _ => panic!("expected the decode error back"),
    }
}

#[test]
fn payload_text_is_extracted_from_the_artifact() {
    let content = "{\"payload\": {\"statusCode\": 200, \"body\": \"ok\"}}";
    assert_eq!(
        read_payload(content).as_deref(),
        Ok("{\"statusCode\": 200, \"body\": \"ok\"}")
    );
    assert_eq!(
        read_payload("{\"payload\":[1,2,3]}").as_deref(),
        Ok("[1,2,3]")
    );
    assert_eq!(read_payload("{\"payload\":null}").as_deref(), Ok("null"));
}

#[test]
fn missing_or_corrupt_artifacts_are_absorbed() {
    assert_eq!(interpret_result(None), Err(ResultError::Missing));
    assert_eq!(
        interpret_result(Some("{\"other\": 1}")),
        Err(ResultError::Malformed)
    );
    assert_eq!(
        interpret_result(Some("not json at all")),
        Err(ResultError::Malformed)
    );
    assert_eq!(
        interpret_result(Some("{\"payload\": }")),
        Err(ResultError::Malformed)
    );
}

#[test]
fn decimal_notation_is_exact() {
    assert_eq!(u64_decimal(0), "0");
    assert_eq!(u64_decimal(2), "2");
    assert_eq!(port_decimal(65535), "65535");
    assert_eq!(port_decimal(9000), "9000");
}
