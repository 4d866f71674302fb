//! Decision logic of a small event plugin for a host runtime.
//!
//! The host loads the plugin and invokes it on lifecycle events. The plugin
//! answers by asking the host for one thing at a time: the payload of an
//! event, an entry of the key/value store, a contract call. Every handler is
//! written here as a chain of steps. A step takes what the host answered and
//! returns the lines to log together with the next request, so the code that
//! talks to the host only performs requests and hands the answers back.

pub mod confirmation;
pub mod contract;
pub mod device;
pub mod handlers;
pub mod json;
pub mod log;
pub mod step;
pub mod text;

pub use confirmation::{read_confirmation, ConfirmationPayload};
pub use contract::{call_contract, decode_call_fn, encode_call_fn, CallError};
pub use device::{sink_data, Record, Stored};
pub use handlers::{
    confirmation_reply, event_data, handle_confirmation_event, handle_event, handle_get_db_event,
    handle_read_event, handle_set_db_event, payload_arrived, read_event_data, set_db_event_data,
    set_db_event_stored, start,
};
pub use log::{log_info, LogRecord, INFO};
pub use step::{Fault, Reader, Request, Step, FAILURE, SUCCESS};
