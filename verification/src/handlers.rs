//! The handlers that the host invokes, each as a chain of steps.
//!
//! A handler's first step takes the identifier of the event. Where a step
//! ends with a request to the host, its documentation names the step that
//! takes the host's answer.

use vstd::prelude::*;
use vstd::utf8::{decode_utf8, valid_utf8};
use crate::contract::{
    answer_view, call_answer, call_contract, call_data, data_view, decode_call_fn, encode_call_fn,
    hex_encode, hex_text, request_text, u256_from, u256_of, CallError, CONTRACT_ADDRESS,
};
use crate::device::{document_step, read_payload};
use crate::log::{info, log_info, no_logs, one_log, push_log, LogEntry, LogRecord};
use crate::step::{
    abort, fetch, finish, Fault, Reader, Request, RequestModel, Step, StepModel, FAILURE, SUCCESS,
};
use crate::text::{decimal, decimal_text, prefixed, utf8_text};

verus! {

/// The argument of the contract call that a confirmation event makes.
pub const CALL_ARGUMENT: u64 = 32;

/// The message that every event handler logs first.
pub open spec fn called_message(event_id: i32) -> Seq<char> {
    "Handler called with event_id: "@ + decimal_text(event_id as int)
}

fn handler_called(event_id: i32) -> (record: LogRecord)
    ensures
        record@ == info(called_message(event_id)),
{
    let number = decimal(event_id);
    let message = prefixed("Handler called with event_id: ", number.as_str());
    log_info(message.as_str())
}

/// The module was loaded: greet and report success.
pub fn start(_resource_id: i32) -> (step: Step)
    ensures
        step@ == finish(seq![info("####### Hello World! #######"@)], SUCCESS),
{
    let greeting = "####### Hello World! #######".to_owned();
    Step { logs: one_log(log_info(greeting.as_str())), request: Request::Return { code: SUCCESS } }
}

/// The first step of the two handlers that echo an event's payload: two
/// lines, then the payload is fetched.
pub open spec fn echo_start(event_id: i32, reader: Reader) -> StepModel {
    fetch(seq![info("start from rust"@), info(called_message(event_id))], event_id, reader)
}

fn begin_echo(event_id: i32, reader: Reader) -> (step: Step)
    ensures
        step@ == echo_start(event_id, reader),
{
    let mut logs = one_log(log_info("start from rust"));
    push_log(&mut logs, handler_called(event_id));
    assert(logs.deep_view() =~= seq![info("start from rust"@), info(called_message(event_id))]);
    Step { logs, request: Request::GetData { event_id, reader } }
}

/// The line that shows the text of a payload.
pub open spec fn data_message(text: Seq<char>) -> Seq<char> {
    "data: "@ + text
}

/// What follows the payload `data` of an echoed event: a payload that is
/// text is logged in one line; no payload, or one that is not UTF-8, is a
/// failure with one line that says which.
pub open spec fn echo_outcome(data: Option<Seq<u8>>) -> StepModel {
    match data {
        None => finish(seq![info("failed to get data from event"@)], FAILURE),
        Some(bytes) => if valid_utf8(bytes) {
            finish(seq![info(data_message(decode_utf8(bytes)))], SUCCESS)
        } else {
            finish(seq![info("failed to convert data to string"@)], FAILURE)
        },
    }
}

fn echo(data: Option<Vec<u8>>) -> (step: Step)
    ensures
        step@ == echo_outcome(data.deep_view()),
{
    let bytes = match data {
        None => {
            return Step {
                logs: one_log(log_info("failed to get data from event")),
                request: Request::Return { code: FAILURE },
            };
        },
        Some(bytes) => bytes,
    };
    assert(bytes.deep_view() =~= bytes@);
    match utf8_text(bytes) {
        None => Step {
            logs: one_log(log_info("failed to convert data to string")),
            request: Request::Return { code: FAILURE },
        },
        Some(text) => {
            let message = prefixed("data: ", text.as_str());
            Step {
                logs: one_log(log_info(message.as_str())),
                request: Request::Return { code: SUCCESS },
            }
        },
    }
}

/// A read event arrived: log it and fetch its payload. The answer goes to
/// [`read_event_data`].
pub fn handle_read_event(event_id: i32) -> (step: Step)
    ensures
        step@ == echo_start(event_id, Reader::ReadEvent),
{
    begin_echo(event_id, Reader::ReadEvent)
}

/// The payload of a read event arrived, or the host had none: log its text
/// and succeed, or say why not and fail.
pub fn read_event_data(data: Option<Vec<u8>>) -> (step: Step)
    ensures
        step@ == echo_outcome(data.deep_view()),
{
    echo(data)
}

/// An event arrived at the plugin that has one handler for all events: log
/// it and fetch its payload. The answer goes to [`event_data`].
pub fn handle_event(event_id: i32) -> (step: Step)
    ensures
        step@ == echo_start(event_id, Reader::Event),
{
    begin_echo(event_id, Reader::Event)
}

/// The payload of an event arrived, or the host had none: log its text and
/// succeed, or say why not and fail.
pub fn event_data(data: Option<Vec<u8>>) -> (step: Step)
    ensures
        step@ == echo_outcome(data.deep_view()),
{
    echo(data)
}

/// An event that reads the store arrived: log it and succeed.
pub fn handle_get_db_event(event_id: i32) -> (step: Step)
    ensures
        step@ == finish(seq![info(called_message(event_id))], SUCCESS),
{
    Step { logs: one_log(handler_called(event_id)), request: Request::Return { code: SUCCESS } }
}

/// A store event arrived: log it and fetch its payload. The answer goes to
/// [`set_db_event_data`].
pub fn handle_set_db_event(event_id: i32) -> (step: Step)
    ensures
        step@ == fetch(seq![info(called_message(event_id))], event_id, Reader::SetDbEvent),
{
    Step {
        logs: one_log(handler_called(event_id)),
        request: Request::GetData { event_id, reader: Reader::SetDbEvent },
    }
}

/// What follows the payload `data` of a store event.
pub open spec fn store_payload_step(data: Option<Seq<u8>>) -> StepModel {
    match data {
        None => finish(seq![info("failed to get data"@)], FAILURE),
        Some(bytes) => document_step(bytes),
    }
}

/// The payload of a store event arrived, or the host had none. A payload
/// that names its device leads to a lookup in the store, whose answer goes to
/// [`crate::device::sink_data`].
pub fn set_db_event_data(data: Option<Vec<u8>>) -> (step: Step)
    ensures
        step@ == store_payload_step(data.deep_view()),
{
    match data {
        None => Step {
            logs: one_log(log_info("failed to get data")),
            request: Request::Return { code: FAILURE },
        },
        Some(bytes) => {
            assert(bytes.deep_view() =~= bytes@);
            read_payload(bytes.as_slice())
        },
    }
}

/// What follows the payload `data` that was fetched for `reader`.
pub open spec fn payload_step(reader: Reader, data: Option<Seq<u8>>) -> StepModel {
    match reader {
        Reader::ReadEvent => echo_outcome(data),
        Reader::Event => echo_outcome(data),
        Reader::SetDbEvent => store_payload_step(data),
    }
}

/// The payload that was fetched for `reader` arrived, or the host had none:
/// the handler goes on where it left off.
pub fn payload_arrived(reader: Reader, data: Option<Vec<u8>>) -> (step: Step)
    ensures
        step@ == payload_step(reader, data.deep_view()),
{
    match reader {
        Reader::ReadEvent => read_event_data(data),
        Reader::Event => event_data(data),
        Reader::SetDbEvent => set_db_event_data(data),
    }
}

/// What follows the host's answer to a store request: success, or one line
/// and failure.
pub open spec fn stored_outcome(stored: bool) -> StepModel {
    if stored {
        finish(Seq::empty(), SUCCESS)
    } else {
        finish(seq![info("set to db failed"@)], FAILURE)
    }
}

/// The host stored the list, or said that it could not.
pub fn set_db_event_stored(stored: bool) -> (step: Step)
    ensures
        step@ == stored_outcome(stored),
{
    if stored {
        Step { logs: no_logs(), request: Request::Return { code: SUCCESS } }
    } else {
        Step {
            logs: one_log(log_info("set to db failed")),
            request: Request::Return { code: FAILURE },
        }
    }
}

/// What follows the host's answer to a contract call, given what decoding
/// the answer gave: without an answer one line says so; an answer that
/// decodes is logged; both succeed. An answer that does not decode stops the
/// handler.
pub open spec fn reply_outcome(answer: Option<Result<LogEntry, CallError>>) -> StepModel {
    match answer {
        None => finish(seq![info("nothing gotten from call"@)], SUCCESS),
        Some(Ok(entry)) => finish(seq![entry], SUCCESS),
        Some(Err(e)) => abort(Seq::empty(), Fault::Decode(e)),
    }
}

/// What a decoded answer holds, where there is one.
pub open spec fn reply_view(answer: Option<Result<LogRecord, CallError>>) -> Option<
    Result<LogEntry, CallError>,
> {
    match answer {
        None => None,
        Some(r) => Some(answer_view(r)),
    }
}

/// Decides what follows a contract call, given the decoded answer.
pub fn accept_reply(answer: Option<Result<LogRecord, CallError>>) -> (step: Step)
    ensures
        step@ == reply_outcome(reply_view(answer)),
{
    match answer {
        None => Step {
            logs: one_log(log_info("nothing gotten from call")),
            request: Request::Return { code: SUCCESS },
        },
        Some(Ok(record)) => Step {
            logs: one_log(record),
            request: Request::Return { code: SUCCESS },
        },
        Some(Err(e)) => Step {
            logs: no_logs(),
            request: Request::Abort { fault: Fault::Decode(e) },
        },
    }
}

/// What the host answered to a contract call, decoded.
pub open spec fn decoded_reply(reply: Option<Seq<u8>>) -> Option<Result<LogEntry, CallError>> {
    match reply {
        None => None,
        Some(ret) => Some(call_answer(ret)),
    }
}

/// The host answered the contract call with `reply`, or had no answer.
pub fn confirmation_reply(reply: Option<Vec<u8>>) -> (step: Step)
    ensures
        step@ == reply_outcome(decoded_reply(reply.deep_view())),
{
    match reply {
        None => accept_reply(None),
        Some(ret) => {
            assert(ret.deep_view() =~= ret@);
            accept_reply(Some(decode_call_fn(ret)))
        },
    }
}

/// The step that sends encoded call data to the contract at
/// [`CONTRACT_ADDRESS`], as hexadecimal text. Call data that could not be
/// made stops the handler.
pub open spec fn call_step(
    logs: Seq<LogEntry>,
    data: Result<Seq<u8>, CallError>,
) -> StepModel {
    match data {
        Err(e) => abort(logs, Fault::Encode(e)),
        Ok(bytes) => StepModel {
            logs,
            request: RequestModel::CallContract {
                request: request_text(CONTRACT_ADDRESS@, hex_text(bytes)),
            },
        },
    }
}

/// Decides what follows the encoding of the call data, after `logs` have
/// been gathered.
pub fn send_call(logs: Vec<LogRecord>, data: Result<Vec<u8>, CallError>) -> (step: Step)
    ensures
        step@ == call_step(logs.deep_view(), data_view(data)),
{
    match data {
        Err(e) => Step { logs, request: Request::Abort { fault: Fault::Encode(e) } },
        Ok(bytes) => {
            let to = CONTRACT_ADDRESS.to_owned();
            let text = hex_encode(bytes.as_slice());
            Step { logs, request: Request::CallContract { request: call_contract(&to, &text) } }
        },
    }
}

/// A confirmation event arrived: log it, encode the call of the contract and
/// send it. The answer goes to [`confirmation_reply`].
pub fn handle_confirmation_event(event_id: i32) -> (step: Step)
    ensures
        step@ == call_step(seq![info(called_message(event_id))], call_data(u256_of(CALL_ARGUMENT))),
{
    let logs = one_log(handler_called(event_id));
    let data = encode_call_fn(u256_from(CALL_ARGUMENT));
    send_call(logs, data)
}

} // verus!
