use vstd::prelude::*;

use crate::json::{
    all_digits, digits_val, doc_of, doc_view, find_member, find_member_idx, members_entry,
    members_view, parse_doc, spans_ok, Doc, DocV, Member, MemberVal, MemberValV, MemberV,
    parse_u64_digits,
};
use crate::text::{chars_to_string, str_to_chars};

verus! {

/// The parts of an event that the decoder can miss or find ill-typed.
#[derive(PartialEq, Eq, Structural, Clone, Copy, Debug)]
pub enum Field {
    EventType,
    RequestId,
    DeadlineMs,
    InvokedFunctionArn,
    Tracing,
    TraceType,
    TraceValue,
    ShutdownReason,
    Payload,
}

/// Why an event body failed to decode.  Such a failure is a fault of the
/// platform dialogue itself and is fatal to the loop, unlike a transport
/// failure, which the caller keeps apart.
#[derive(Debug)]
pub enum DecodeError {
    /// The text is not one well-formed object.
    Syntax,
    /// The first significant character does not open an object.
    NotAnObject,
    /// Significant characters follow the closing brace.
    TrailingData,
    MissingField(Field),
    WrongFieldType(Field),
    /// The discriminator is well-formed but names no known event class;
    /// the offending value is kept for the report.
    UnknownEventType(String),
    /// The deadline does not fit in 64 bits.
    DeadlineOutOfRange,
}

pub enum DecodeErrorV {
    Syntax,
    NotAnObject,
    TrailingData,
    MissingField(Field),
    WrongFieldType(Field),
    UnknownEventType(Seq<char>),
    DeadlineOutOfRange,
}

pub open spec fn decode_error_view(e: DecodeError) -> DecodeErrorV {
    match e {
        DecodeError::Syntax => DecodeErrorV::Syntax,
        DecodeError::NotAnObject => DecodeErrorV::NotAnObject,
        DecodeError::TrailingData => DecodeErrorV::TrailingData,
        DecodeError::MissingField(f) => DecodeErrorV::MissingField(f),
        DecodeError::WrongFieldType(f) => DecodeErrorV::WrongFieldType(f),
        DecodeError::UnknownEventType(t) => DecodeErrorV::UnknownEventType(t@),
        DecodeError::DeadlineOutOfRange => DecodeErrorV::DeadlineOutOfRange,
    }
}

/// Trace context carried by an invocation event.
pub struct TraceInfo {
    pub trace_type: String,
    pub trace_value: String,
}

pub struct TraceInfoV {
    pub trace_type: Seq<char>,
    pub trace_value: Seq<char>,
}

pub open spec fn trace_view(t: TraceInfo) -> TraceInfoV {
    TraceInfoV { trace_type: t.trace_type@, trace_value: t.trace_value@ }
}

/// One decoded lifecycle event: exactly one variant per event, and an
/// unknown discriminator is a decode failure, never a silent skip.
pub enum LifecycleEvent {
    Invoke {
        request_id: String,
        deadline_ms: u64,
        invoked_function_arn: String,
        tracing: TraceInfo,
    },
    Shutdown { reason: String, deadline_ms: u64 },
}

pub enum EventV {
    Invoke {
        request_id: Seq<char>,
        deadline_ms: u64,
        invoked_function_arn: Seq<char>,
        tracing: TraceInfoV,
    },
    Shutdown { reason: Seq<char>, deadline_ms: u64 },
}

pub open spec fn event_view(e: LifecycleEvent) -> EventV {
    match e {
        LifecycleEvent::Invoke { request_id, deadline_ms, invoked_function_arn, tracing } => {
            EventV::Invoke {
                request_id: request_id@,
                deadline_ms,
                invoked_function_arn: invoked_function_arn@,
                tracing: trace_view(tracing),
            }
        },
        LifecycleEvent::Shutdown { reason, deadline_ms } => EventV::Shutdown {
            reason: reason@,
            deadline_ms,
        },
    }
}

pub open spec fn decode_result_view(r: Result<LifecycleEvent, DecodeError>) -> Result<
    EventV,
    DecodeErrorV,
> {
    match r {
        Ok(e) => Ok(event_view(e)),
        Err(d) => Err(decode_error_view(d)),
    }
}

// ---------------------------------------------------------------------------
// What decoding means, over the member lists that the object reader yields.
// ---------------------------------------------------------------------------

pub open spec fn sp_string_field(ms: Seq<MemberV>, key: Seq<char>, f: Field) -> Result<
    Seq<char>,
    DecodeErrorV,
> {
    match find_member(ms, key) {
        None => Err(DecodeErrorV::MissingField(f)),
        Some(m) => match m.val {
            MemberValV::VStr(t) => Ok(t),
            _ => Err(DecodeErrorV::WrongFieldType(f)),
        },
    }
}

pub open spec fn sp_u64_field(ms: Seq<MemberV>, key: Seq<char>, f: Field) -> Result<
    u64,
    DecodeErrorV,
> {
    match find_member(ms, key) {
        None => Err(DecodeErrorV::MissingField(f)),
        Some(m) => match m.val {
            MemberValV::VNum(raw) => if !all_digits(raw) {
                Err(DecodeErrorV::WrongFieldType(f))
            } else if digits_val(raw) > u64::MAX {
                Err(DecodeErrorV::DeadlineOutOfRange)
            } else {
                Ok(digits_val(raw) as u64)
            },
            _ => Err(DecodeErrorV::WrongFieldType(f)),
        },
    }
}

pub open spec fn sp_tracing(s: Seq<char>, ms: Seq<MemberV>) -> Result<TraceInfoV, DecodeErrorV> {
    match find_member(ms, "tracing"@) {
        None => Err(DecodeErrorV::MissingField(Field::Tracing)),
        Some(m) => match m.val {
            MemberValV::VObj => match members_entry(s, m.start + 1) {
                None => Err(DecodeErrorV::Syntax),
                Some(t) => match sp_string_field(t.0, "type"@, Field::TraceType) {
                    Err(e) => Err(e),
                    Ok(tt) => match sp_string_field(t.0, "value"@, Field::TraceValue) {
                        Err(e) => Err(e),
                        Ok(tv) => Ok(TraceInfoV { trace_type: tt, trace_value: tv }),
                    },
                },
            },
            _ => Err(DecodeErrorV::WrongFieldType(Field::Tracing)),
        },
    }
}

pub open spec fn sp_invoke(s: Seq<char>, ms: Seq<MemberV>) -> Result<EventV, DecodeErrorV> {
    match sp_string_field(ms, "requestId"@, Field::RequestId) {
        Err(e) => Err(e),
        Ok(rid) => match sp_u64_field(ms, "deadlineMs"@, Field::DeadlineMs) {
            Err(e) => Err(e),
            Ok(dl) => match sp_string_field(ms, "invokedFunctionArn"@, Field::InvokedFunctionArn) {
                Err(e) => Err(e),
                Ok(arn) => match sp_tracing(s, ms) {
                    Err(e) => Err(e),
                    Ok(tr) => Ok(
                        EventV::Invoke {
                            request_id: rid,
                            deadline_ms: dl,
                            invoked_function_arn: arn,
                            tracing: tr,
                        },
                    ),
                },
            },
        },
    }
}

pub open spec fn sp_shutdown(ms: Seq<MemberV>) -> Result<EventV, DecodeErrorV> {
    match sp_string_field(ms, "shutdownReason"@, Field::ShutdownReason) {
        Err(e) => Err(e),
        Ok(rsn) => match sp_u64_field(ms, "deadlineMs"@, Field::DeadlineMs) {
            Err(e) => Err(e),
            Ok(dl) => Ok(EventV::Shutdown { reason: rsn, deadline_ms: dl }),
        },
    }
}

pub open spec fn sp_event_of_members(s: Seq<char>, ms: Seq<MemberV>) -> Result<
    EventV,
    DecodeErrorV,
> {
    match find_member(ms, "eventType"@) {
        None => Err(DecodeErrorV::MissingField(Field::EventType)),
        Some(m) => match m.val {
            MemberValV::VStr(t) => if t == "INVOKE"@ {
                sp_invoke(s, ms)
            } else if t == "SHUTDOWN"@ {
                sp_shutdown(ms)
            } else {
                Err(DecodeErrorV::UnknownEventType(t))
            },
            _ => Err(DecodeErrorV::WrongFieldType(Field::EventType)),
        },
    }
}

/// The decoded event of a body, or the exact reason it is refused.
pub open spec fn sp_decode_event(s: Seq<char>) -> Result<EventV, DecodeErrorV> {
    match doc_of(s) {
        DocV::NotObject => Err(DecodeErrorV::NotAnObject),
        DocV::Malformed => Err(DecodeErrorV::Syntax),
        DocV::Trailing => Err(DecodeErrorV::TrailingData),
        DocV::Members(ms) => sp_event_of_members(s, ms),
    }
}

// ---------------------------------------------------------------------------
// Executable decoding.
// ---------------------------------------------------------------------------

fn string_field(ms: &Vec<Member>, key: &Vec<char>, f: Field) -> (r: Result<String, DecodeError>)
    ensures
        match r {
            Ok(t) => sp_string_field(members_view(ms@), key@, f) == Ok::<_, DecodeErrorV>(t@),
            Err(e) => sp_string_field(members_view(ms@), key@, f) == Err::<Seq<char>, _>(
                decode_error_view(e),
            ),
        },
{
    match find_member_idx(ms, key) {
        None => Err(DecodeError::MissingField(f)),
        Some(k) => match &ms[k].val {
            MemberVal::VStr(v) => Ok(chars_to_string(v)),
            _ => Err(DecodeError::WrongFieldType(f)),
        },
    }
}

fn all_digits_exec(ds: &Vec<char>) -> (r: bool)
    ensures
        r == all_digits(ds@),
{
    let mut k: usize = 0;
    while k < ds.len()
        invariant
            k <= ds.len(),
            forall|j: int| 0 <= j < k ==> crate::json::is_digit(ds@[j]),
        decreases ds.len() - k,
    {
        let c = ds[k];
        if !('0' <= c && c <= '9') {
            return false;
        }
        k = k + 1;
    }
    true
}

fn u64_field(ms: &Vec<Member>, key: &Vec<char>, f: Field) -> (r: Result<u64, DecodeError>)
    ensures
        match r {
            Ok(v) => sp_u64_field(members_view(ms@), key@, f) == Ok::<_, DecodeErrorV>(v),
            Err(e) => sp_u64_field(members_view(ms@), key@, f) == Err::<u64, _>(
                decode_error_view(e),
            ),
        },
{
    match find_member_idx(ms, key) {
        None => Err(DecodeError::MissingField(f)),
        Some(k) => match &ms[k].val {
            MemberVal::VNum(raw) => {
                if !all_digits_exec(raw) {
                    Err(DecodeError::WrongFieldType(f))
                } else {
                    match parse_u64_digits(raw) {
                        Some(v) => Ok(v),
                        None => Err(DecodeError::DeadlineOutOfRange),
                    }
                }
            },
            _ => Err(DecodeError::WrongFieldType(f)),
        },
    }
}

fn tracing_field(s: &Vec<char>, ms: &Vec<Member>) -> (r: Result<TraceInfo, DecodeError>)
    requires
        spans_ok(ms@, s@.len() as int),
    ensures
        match r {
            Ok(t) => sp_tracing(s@, members_view(ms@)) == Ok::<_, DecodeErrorV>(trace_view(t)),
            Err(e) => sp_tracing(s@, members_view(ms@)) == Err::<TraceInfoV, _>(
                decode_error_view(e),
            ),
        },
{
    let key = str_to_chars("tracing");
    match find_member_idx(ms, &key) {
        None => Err(DecodeError::MissingField(Field::Tracing)),
        Some(k) => {
            let is_obj = match &ms[k].val {
                MemberVal::VObj => true,
                _ => false,
            };
            if !is_obj {
                Err(DecodeError::WrongFieldType(Field::Tracing))
            } else {
                let start = ms[k].start;
                match crate::json::members_entry_exec(s, start + 1) {
                    None => Err(DecodeError::Syntax),
                    Some((tms, _n)) => {
                        let tkey = str_to_chars("type");
                        match string_field(&tms, &tkey, Field::TraceType) {
                            Err(e) => Err(e),
                            Ok(tt) => {
                                let vkey = str_to_chars("value");
                                match string_field(&tms, &vkey, Field::TraceValue) {
                                    Err(e) => Err(e),
                                    Ok(tv) => Ok(
                                        TraceInfo { trace_type: tt, trace_value: tv },
                                    ),
                                }
                            },
                        }
                    },
                }
            }
        },
    }
}

fn event_of_members(s: &Vec<char>, ms: &Vec<Member>) -> (r: Result<LifecycleEvent, DecodeError>)
    requires
        spans_ok(ms@, s@.len() as int),
    ensures
        decode_result_view(r) == sp_event_of_members(s@, members_view(ms@)),
{
    let ekey = str_to_chars("eventType");
    match find_member_idx(ms, &ekey) {
        None => Err(DecodeError::MissingField(Field::EventType)),
        Some(k) => match &ms[k].val {
            MemberVal::VStr(t) => {
                let invoke = str_to_chars("INVOKE");
                let shutdown = str_to_chars("SHUTDOWN");
                if crate::json::chars_eq(t, &invoke) {
                    match string_field(ms, &str_to_chars("requestId"), Field::RequestId) {
                        Err(e) => Err(e),
                        Ok(rid) => match u64_field(
                            ms,
                            &str_to_chars("deadlineMs"),
                            Field::DeadlineMs,
                        ) {
                            Err(e) => Err(e),
                            Ok(dl) => match string_field(
                                ms,
                                &str_to_chars("invokedFunctionArn"),
                                Field::InvokedFunctionArn,
                            ) {
                                Err(e) => Err(e),
                                Ok(arn) => match tracing_field(s, ms) {
                                    Err(e) => Err(e),
                                    Ok(tr) => Ok(
                                        LifecycleEvent::Invoke {
                                            request_id: rid,
                                            deadline_ms: dl,
                                            invoked_function_arn: arn,
                                            tracing: tr,
                                        },
                                    ),
                                },
                            },
                        },
                    }
                } else if crate::json::chars_eq(t, &shutdown) {
                    match string_field(ms, &str_to_chars("shutdownReason"), Field::ShutdownReason) {
                        Err(e) => Err(e),
                        Ok(rsn) => match u64_field(
                            ms,
                            &str_to_chars("deadlineMs"),
                            Field::DeadlineMs,
                        ) {
                            Err(e) => Err(e),
                            Ok(dl) => Ok(LifecycleEvent::Shutdown { reason: rsn, deadline_ms: dl }),
                        },
                    }
                } else {
                    Err(DecodeError::UnknownEventType(chars_to_string(t)))
                }
            },
            _ => Err(DecodeError::WrongFieldType(Field::EventType)),
        },
    }
}

/// Decodes the body of a "next event" response.  The result is exactly the
/// event that the text denotes, or the precise reason it is refused; a
/// refusal here is a protocol fault, distinguishable by type from any
/// transport failure.
pub fn decode_event(body: &str) -> (r: Result<LifecycleEvent, DecodeError>)
    ensures
        decode_result_view(r) == sp_decode_event(body@),
{
    let s = str_to_chars(body);
    match parse_doc(&s) {
        Doc::NotObject => Err(DecodeError::NotAnObject),
        Doc::Malformed => Err(DecodeError::Syntax),
        Doc::Trailing => Err(DecodeError::TrailingData),
        Doc::Members(ms) => event_of_members(&s, &ms),
    }
}

} // verus!
