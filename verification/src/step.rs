//! Steps: what a handler logs and what it asks of the host next.

use vstd::prelude::*;
use crate::contract::CallError;
use crate::log::{LogEntry, LogRecord};

verus! {

/// The code that a handler returns when it has done its work.
pub const SUCCESS: i32 = 0;

/// The code that a handler returns when it gives up.
pub const FAILURE: i32 = -1;

/// Why a handler cannot go on. The module stops with a trap; nothing is
/// returned to the host.
#[derive(Debug, Clone, Copy, PartialEq, Eq, Structural)]
pub enum Fault {
    /// The call data could not be encoded.
    Encode(CallError),
    /// The answer of the contract could not be decoded.
    Decode(CallError),
}

/// The handlers that fetch the payload of their event.
#[derive(Debug, Clone, Copy, PartialEq, Eq, Structural)]
pub enum Reader {
    /// The handler of read events, which logs the payload once.
    ReadEvent,
    /// The handler of all events, which logs the payload once as well.
    Event,
    /// The handler of store events, which files the payload under its
    /// device.
    SetDbEvent,
}

/// What a handler does after it has logged the lines of a step.
#[derive(Debug, PartialEq, Eq)]
pub enum Request {
    /// Return `code` to the host: zero for success, a negative number for
    /// failure.
    Return { code: i32 },
    /// Stop with a trap.
    Abort { fault: Fault },
    /// Fetch the payload of the event, for the handler `reader`.
    GetData { event_id: i32, reader: Reader },
    /// Look up `key` in the store. The signature that came with the payload
    /// goes along and is handed back with the answer.
    GetDb { key: String, signature: Option<String> },
    /// Store `value` under `key`.
    SetDb { key: String, value: Vec<u8> },
    /// Send `request` to the host as a contract call.
    CallContract { request: String },
}

/// What a [`Request`] holds, as sequences.
pub ghost enum RequestModel {
    Return { code: i32 },
    Abort { fault: Fault },
    GetData { event_id: i32, reader: Reader },
    GetDb { key: Seq<char>, signature: Option<Seq<char>> },
    SetDb { key: Seq<char>, value: Seq<u8> },
    CallContract { request: Seq<char> },
}

impl View for Request {
    type V = RequestModel;

    open spec fn view(&self) -> RequestModel {
        match *self {
            Request::Return { code } => RequestModel::Return { code },
            Request::Abort { fault } => RequestModel::Abort { fault },
            Request::GetData { event_id, reader } => RequestModel::GetData { event_id, reader },
            Request::GetDb { key, signature } => RequestModel::GetDb {
                key: key@,
                signature: signature.deep_view(),
            },
            Request::SetDb { key, value } => RequestModel::SetDb { key: key@, value: value@ },
            Request::CallContract { request } => RequestModel::CallContract { request: request@ },
        }
    }
}

/// One step of a handler: the records to log, in order, and then the request.
#[derive(Debug, PartialEq, Eq)]
pub struct Step {
    pub logs: Vec<LogRecord>,
    pub request: Request,
}

/// What a [`Step`] holds, as sequences.
pub ghost struct StepModel {
    pub logs: Seq<LogEntry>,
    pub request: RequestModel,
}

impl View for Step {
    type V = StepModel;

    open spec fn view(&self) -> StepModel {
        StepModel { logs: self.logs.deep_view(), request: self.request@ }
    }
}

/// The step that logs `logs` and then fetches the payload of the event for
/// `reader`.
pub open spec fn fetch(logs: Seq<LogEntry>, event_id: i32, reader: Reader) -> StepModel {
    StepModel { logs, request: RequestModel::GetData { event_id, reader } }
}

/// The step that logs `logs` and then returns `code`.
pub open spec fn finish(logs: Seq<LogEntry>, code: i32) -> StepModel {
    StepModel { logs, request: RequestModel::Return { code } }
}

/// The step that logs `logs` and then stops with `fault`.
pub open spec fn abort(logs: Seq<LogEntry>, fault: Fault) -> StepModel {
    StepModel { logs, request: RequestModel::Abort { fault } }
}

} // verus!
