//! Device records: the payload of a store event, the list kept in the
//! key/value store under a device's identifier, and its JSON text.

use vstd::prelude::*;
use vstd::string::*;
use crate::json::{
    json_string, member_of, parse_document, parsed_document, quoted, text_member, text_of,
};
use crate::log::{info, log_info, no_logs, one_log};
use crate::step::{finish, Request, RequestModel, Step, StepModel, FAILURE};

verus! {

/// One entry of the list that is kept for a device.
#[derive(Debug, PartialEq, Eq)]
pub struct Record {
    pub device_id: String,
    pub signature: String,
}

/// What a [`Record`] holds, as sequences of characters.
pub ghost struct RecordModel {
    pub device_id: Seq<char>,
    pub signature: Seq<char>,
}

impl View for Record {
    type V = RecordModel;

    open spec fn view(&self) -> RecordModel {
        RecordModel { device_id: self.device_id@, signature: self.signature@ }
    }
}

impl DeepView for Record {
    type V = RecordModel;

    open spec fn deep_view(&self) -> RecordModel {
        self@
    }
}

/// One record, given its two members already written as JSON string
/// literals: an object with the members `device_id` and `signature`, in this
/// order, without white space.
pub open spec fn record_frame(device_id: Seq<char>, signature: Seq<char>) -> Seq<char> {
    "{\"device_id\":"@ + device_id + ",\"signature\":"@ + signature + "}"@
}

/// Puts the two JSON string literals `device_id` and `signature` into the
/// object of one record.
pub fn frame_record(device_id: &str, signature: &str) -> (text: String)
    ensures
        text@ == record_frame(device_id@, signature@),
{
    let mut text = "{\"device_id\":".to_owned();
    text.append(device_id);
    text.append(",\"signature\":");
    text.append(signature);
    text.append("}");
    text
}

/// The JSON text of one record.
pub open spec fn record_text(record: RecordModel) -> Seq<char> {
    record_frame(quoted(record.device_id), quoted(record.signature))
}

/// The texts of `records`, separated by commas.
pub open spec fn records_body(records: Seq<RecordModel>) -> Seq<char>
    decreases records.len(),
{
    if records.len() == 0 {
        Seq::empty()
    } else if records.len() == 1 {
        record_text(records.last())
    } else {
        records_body(records.drop_last()) + ","@ + record_text(records.last())
    }
}

/// The JSON text of a list of records: the records between square brackets.
pub open spec fn records_text(records: Seq<RecordModel>) -> Seq<char> {
    "["@ + records_body(records) + "]"@
}

/// Writes one record as JSON.
pub fn encode_record(record: &Record) -> (text: String)
    ensures
        text@ == record_text(record@),
{
    let device_id = json_string(record.device_id.as_str());
    let signature = json_string(record.signature.as_str());
    frame_record(device_id.as_str(), signature.as_str())
}

/// Writes a list of records as JSON, as it is kept in the store.
pub fn encode_records(records: &Vec<Record>) -> (text: String)
    ensures
        text@ == records_text(records.deep_view()),
{
    let mut text = "[".to_owned();
    let mut i: usize = 0;
    while i < records.len()
        invariant
            i <= records.len(),
            text@ == "["@ + records_body(records.deep_view().take(i as int)),
        decreases records.len() - i,
    {
        let ghost before = records.deep_view().take(i as int);
        let ghost after = records.deep_view().take(i + 1);
        proof {
            assert(after.drop_last() =~= before);
            assert(after.last() == records[i as int]@);
        }
        let one = encode_record(&records[i]);
        if i > 0 {
            text.append(",");
        }
        text.append(one.as_str());
        assert(text@ =~= "["@ + records_body(after));
        i += 1;
    }
    proof {
        assert(records.deep_view().take(i as int) =~= records.deep_view());
    }
    text.append("]");
    text
}

/// Appending a record leaves the text of the records before it as it was:
/// the text of the longer list begins with the text of the shorter one. So a
/// list in the store only ever grows at its end.
pub proof fn lemma_append_extends_body(records: Seq<RecordModel>, record: RecordModel)
    ensures
        records_body(records).is_prefix_of(records_body(records.push(record))),
{
    let longer = records.push(record);
    assert(longer.drop_last() =~= records);
    assert(longer.last() == record);
    let body = records_body(records);
    let grown = records_body(longer);
    if records.len() == 0 {
        assert(body =~= Seq::<char>::empty());
    } else {
        assert(grown =~= body + ","@ + record_text(record));
    }
    assert(body =~= grown.subrange(0, body.len() as int));
}

/// What the store holds under a device's identifier, after the bytes that
/// the host answered were read as a list of records.
#[derive(Debug, PartialEq, Eq)]
pub enum Stored {
    /// The host has nothing under the key.
    Absent,
    /// The host has bytes under the key that are not a list of records.
    Malformed,
    /// The list of records under the key.
    Records(Vec<Record>),
}

/// What a [`Stored`] holds, as sequences.
pub ghost enum StoredModel {
    Absent,
    Malformed,
    Records(Seq<RecordModel>),
}

impl View for Stored {
    type V = StoredModel;

    open spec fn view(&self) -> StoredModel {
        match *self {
            Stored::Absent => StoredModel::Absent,
            Stored::Malformed => StoredModel::Malformed,
            Stored::Records(records) => StoredModel::Records(records.deep_view()),
        }
    }
}

/// The step that gives up on filing a payload: one line, then the failure
/// code. Nothing is written to the store.
pub open spec fn sink_failure() -> StepModel {
    finish(seq![info("set to db failed"@)], FAILURE)
}

fn fail_sink() -> (step: Step)
    ensures
        step@ == sink_failure(),
{
    Step { logs: one_log(log_info("set to db failed")), request: Request::Return { code: FAILURE } }
}

/// The step after the payload of a store event was read as JSON, given its
/// two members as far as they are strings: a payload that does not name its
/// device cannot be filed; one that does leads to a lookup in the store.
pub open spec fn payload_step(device_id: Option<Seq<char>>, signature: Option<Seq<char>>) -> StepModel {
    match device_id {
        None => sink_failure(),
        Some(key) => StepModel {
            logs: Seq::empty(),
            request: RequestModel::GetDb { key, signature },
        },
    }
}

/// Decides what follows a payload with the given string members.
pub fn accept_payload(device_id: Option<String>, signature: Option<String>) -> (step: Step)
    ensures
        step@ == payload_step(device_id.deep_view(), signature.deep_view()),
{
    match device_id {
        None => fail_sink(),
        Some(key) => Step { logs: no_logs(), request: Request::GetDb { key, signature } },
    }
}

/// The step after the payload bytes of a store event arrived: bytes that are
/// not JSON end the handler with a failure; a JSON document is searched for
/// the string members `device_id` and `signature`.
pub open spec fn document_step(bytes: Seq<u8>) -> StepModel {
    match parsed_document(bytes) {
        None => finish(seq![info("failed to read data json"@)], FAILURE),
        Some(document) => payload_step(
            text_of(member_of(document, "device_id"@)),
            text_of(member_of(document, "signature"@)),
        ),
    }
}

/// Reads the payload bytes of a store event and decides what follows.
pub fn read_payload(bytes: &[u8]) -> (step: Step)
    ensures
        step@ == document_step(bytes@),
{
    match parse_document(bytes) {
        Err(_) => Step {
            logs: one_log(log_info("failed to read data json")),
            request: Request::Return { code: FAILURE },
        },
        Ok(document) => {
            let device_id = text_member(&document, "device_id");
            let signature = text_member(&document, "signature");
            accept_payload(device_id, signature)
        },
    }
}

/// The list that a new record is appended to: the stored one, or the empty
/// list where the store has nothing.
pub open spec fn stored_records(stored: StoredModel) -> Seq<RecordModel> {
    match stored {
        StoredModel::Records(records) => records,
        _ => Seq::empty(),
    }
}

/// The step that appends a record for `key` to what the store holds. A stored
/// value that is no list of records, or a payload without signature, cannot
/// be filed. Otherwise the list, one record longer, is written under `key`.
pub open spec fn sink_step(
    key: Seq<char>,
    signature: Option<Seq<char>>,
    stored: StoredModel,
) -> StepModel {
    match signature {
        Some(signature) if !(stored is Malformed) => StepModel {
            logs: Seq::empty(),
            request: RequestModel::SetDb {
                key,
                value: vstd::utf8::encode_utf8(
                    records_text(
                        stored_records(stored).push(RecordModel { device_id: key, signature }),
                    ),
                ),
            },
        },
        _ => sink_failure(),
    }
}

/// Appends the record of `key` and `signature` to the stored list and asks
/// for the longer list to be stored. Nothing is ever removed or changed.
pub fn sink_data(key: String, signature: Option<String>, stored: Stored) -> (step: Step)
    ensures
        step@ == sink_step(key@, signature.deep_view(), stored@),
{
    let mut records = match stored {
        Stored::Malformed => {
            return fail_sink();
        },
        Stored::Absent => Vec::new(),
        Stored::Records(records) => records,
    };
    assert(records.deep_view() =~= stored_records(stored@));
    let signature = match signature {
        None => {
            return fail_sink();
        },
        Some(signature) => signature,
    };
    let ghost longer = stored_records(stored@).push(
        RecordModel { device_id: key@, signature: signature@ },
    );
    records.push(Record { device_id: key.clone(), signature });
    assert(records.deep_view() =~= longer);
    let value = encode_records(&records).as_str().as_bytes_vec();
    Step { logs: no_logs(), request: Request::SetDb { key, value } }
}

} // verus!
