//! The contract call: the embedded interface, the call data that `ethabi`
//! encodes for its function `hello`, the request that carries the call to the
//! host, and the reading of what the contract answered.

use vstd::prelude::*;
use vstd::string::*;
use crate::json::{json_string, quoted};
use crate::log::{info, log_info, LogEntry, LogRecord};
use crate::text::{digit_char, prefixed};

verus! {

/// The address of the contract that is called.
pub const CONTRACT_ADDRESS: &'static str = "0xb963C2c5c9d023F61E8338B85fFd58Bd0663D545";

/// The interface of the contract, in the JSON form that Solidity compilers
/// emit: one pure function `hello` from a `uint256` to a `uint256`.
pub const ABI_STR: &'static str = r#"
    [
        {
            "inputs": [
                {
                    "internalType": "uint256",
                    "name": "num",
                    "type": "uint256"
                }
            ],
            "name": "hello",
            "outputs": [
                {
                    "internalType": "uint256",
                    "name": "",
                    "type": "uint256"
                }
            ],
            "stateMutability": "pure",
            "type": "function"
        }
    ]
"#;

/// The name of the function that is called.
pub const FUNCTION_NAME: &'static str = "hello";

/// Why call data could not be made or an answer could not be read.
#[derive(Debug, Clone, Copy, PartialEq, Eq, Structural)]
pub enum CallError {
    /// The embedded interface is not a contract interface.
    Interface,
    /// The interface has no function of the wanted name.
    Function,
    /// The argument does not fit the function's inputs.
    Input,
    /// The answer does not decode as the function's outputs.
    Output,
}

/// A contract interface of `ethabi`.
#[verifier::external_type_specification]
#[verifier::external_body]
pub struct ExContract(ethabi::Contract);

/// One function of a contract interface.
#[verifier::external_type_specification]
#[verifier::external_body]
pub struct ExFunction(ethabi::Function);

/// One decoded or to-be-encoded value.
#[verifier::external_type_specification]
#[verifier::external_body]
pub struct ExToken(ethabi::Token);

/// The error of `ethabi`'s calls.
#[verifier::external_type_specification]
#[verifier::external_body]
pub struct ExAbiError(ethabi::Error);

/// An unsigned integer of 256 bits.
#[verifier::external_type_specification]
#[verifier::external_body]
pub struct ExU256(ethabi::ethereum_types::U256);

/// The interface that `serde_json::from_str` reads from `abi`; `None` where
/// it reports an error.
pub uninterp spec fn loaded_interface(abi: Seq<char>) -> Option<ethabi::Contract>;

/// The first function of `contract` that is called `name`; `None` where it
/// has none.
pub uninterp spec fn function_named(contract: ethabi::Contract, name: Seq<char>) -> Option<
    ethabi::Function,
>;

/// The 256-bit integer with the value of `value`.
pub uninterp spec fn u256_of(value: u64) -> ethabi::ethereum_types::U256;

/// The call data of `function` for the one unsigned argument `value`: the
/// function's selector and the encoded argument; `None` where the function
/// does not take exactly one unsigned integer.
pub uninterp spec fn uint_call_data(
    function: ethabi::Function,
    value: ethabi::ethereum_types::U256,
) -> Option<Seq<u8>>;

/// The values that `data` holds, read as the outputs of `function`; `None`
/// where `data` is too short or malformed.
pub uninterp spec fn decoded_output(function: ethabi::Function, data: Seq<u8>) -> Option<
    Seq<ethabi::Token>,
>;

/// The text that `{:?}` formatting writes for a list of tokens.
pub uninterp spec fn debug_text(tokens: Seq<ethabi::Token>) -> Seq<char>;

/// `serde_json::from_str` at the type `ethabi::Contract`, stated for the
/// embedded interface only. The result is named [`loaded_interface`].
#[verifier::external_body]
fn load_interface(abi: &str) -> (r: Result<ethabi::Contract, serde_json::Error>)
    requires
        abi@ == ABI_STR@,
    ensures
        r is Ok <==> loaded_interface(abi@) is Some,
        r is Ok ==> r.unwrap() == loaded_interface(abi@).unwrap(),
{
    serde_json::from_str(abi)
}

/// `Contract::function`: the first function of that name, or an error where
/// there is none. The result is named [`function_named`].
pub assume_specification<'a>[ ethabi::Contract::function ](
    contract: &'a ethabi::Contract,
    name: &str,
) -> (r: Result<&'a ethabi::Function, ethabi::Error>)
    ensures
        r is Ok <==> function_named(*contract, name@) is Some,
        r is Ok ==> *r.unwrap() == function_named(*contract, name@).unwrap(),
;

/// `U256::from` on a `u64`. The result is named [`u256_of`].
#[verifier::external_body]
pub(crate) fn u256_from(value: u64) -> (r: ethabi::ethereum_types::U256)
    ensures
        r == u256_of(value),
{
    ethabi::ethereum_types::U256::from(value)
}

/// `Function::encode_input` on one `Token::Uint`. The result is a function of
/// the function and the argument alone, named [`uint_call_data`].
#[verifier::external_body]
fn encode_uint_input(function: &ethabi::Function, value: ethabi::ethereum_types::U256) -> (r:
    Result<Vec<u8>, ethabi::Error>)
    ensures
        r is Ok <==> uint_call_data(*function, value) is Some,
        r is Ok ==> r.unwrap()@ == uint_call_data(*function, value).unwrap(),
{
    function.encode_input(&[ethabi::Token::Uint(value)])
}

/// `Function::decode_output`, stated for the function `hello` of the embedded
/// interface only, whose one output is a `uint256`: the decoder then reads
/// the first 32 bytes of `data` and nothing else. The result is named
/// [`decoded_output`].
pub assume_specification[ ethabi::Function::decode_output ](
    function: &ethabi::Function,
    data: &[u8],
) -> (r: Result<Vec<ethabi::Token>, ethabi::Error>)
    requires
        hello_function() == Ok::<ethabi::Function, CallError>(*function),
    ensures
        r is Ok <==> decoded_output(*function, data@) is Some,
        r is Ok ==> r.unwrap()@ == decoded_output(*function, data@).unwrap(),
;

/// The `{:?}` formatting of a list of tokens. The result is named
/// [`debug_text`].
#[verifier::external_body]
fn format_tokens(tokens: &Vec<ethabi::Token>) -> (r: String)
    ensures
        r@ == debug_text(tokens@),
{
    format!("{:?}", tokens)
}

/// The function `hello` of the embedded interface, or why it cannot be had.
pub open spec fn hello_function() -> Result<ethabi::Function, CallError> {
    match loaded_interface(ABI_STR@) {
        None => Err(CallError::Interface),
        Some(contract) => match function_named(contract, FUNCTION_NAME@) {
            None => Err(CallError::Function),
            Some(function) => Ok(function),
        },
    }
}

/// The call data for `hello(param)`.
pub open spec fn call_data(param: ethabi::ethereum_types::U256) -> Result<Seq<u8>, CallError> {
    match hello_function() {
        Err(e) => Err(e),
        Ok(function) => match uint_call_data(function, param) {
            None => Err(CallError::Input),
            Some(data) => Ok(data),
        },
    }
}

/// What a result of [`encode_call_fn`] holds.
pub open spec fn data_view(r: Result<Vec<u8>, CallError>) -> Result<Seq<u8>, CallError> {
    match r {
        Ok(data) => Ok(data@),
        Err(e) => Err(e),
    }
}

/// Encodes the call `hello(param)` for the contract.
pub fn encode_call_fn(param: ethabi::ethereum_types::U256) -> (r: Result<Vec<u8>, CallError>)
    ensures
        data_view(r) == call_data(param),
{
    let contract = match load_interface(ABI_STR) {
        Ok(contract) => contract,
        Err(_) => {
            return Err(CallError::Interface);
        },
    };
    let function = match contract.function(FUNCTION_NAME) {
        Ok(function) => function,
        Err(_) => {
            return Err(CallError::Function);
        },
    };
    match encode_uint_input(function, param) {
        Ok(data) => Ok(data),
        Err(_) => Err(CallError::Input),
    }
}

/// The message that reports the decoded answer `tokens`.
pub open spec fn output_message(tokens: Seq<char>) -> Seq<char> {
    "got out put "@ + tokens
}

/// The record that reports a decoded answer, given the text of its tokens.
pub fn output_record(tokens: &str) -> (record: LogRecord)
    ensures
        record@ == info(output_message(tokens@)),
{
    let message = prefixed("got out put ", tokens);
    log_info(message.as_str())
}

/// What reading `ret` as the answer of `hello` gives: the entry to log, or
/// why it cannot be read.
pub open spec fn call_answer(ret: Seq<u8>) -> Result<LogEntry, CallError> {
    match hello_function() {
        Err(e) => Err(e),
        Ok(function) => match decoded_output(function, ret) {
            None => Err(CallError::Output),
            Some(tokens) => Ok(info(output_message(debug_text(tokens)))),
        },
    }
}

/// What a result of [`decode_call_fn`] holds.
pub open spec fn answer_view(r: Result<LogRecord, CallError>) -> Result<LogEntry, CallError> {
    match r {
        Ok(record) => Ok(record@),
        Err(e) => Err(e),
    }
}

/// Reads `ret` as the answer of `hello` and returns the record that reports
/// it.
pub fn decode_call_fn(ret: Vec<u8>) -> (r: Result<LogRecord, CallError>)
    ensures
        answer_view(r) == call_answer(ret@),
{
    let contract = match load_interface(ABI_STR) {
        Ok(contract) => contract,
        Err(_) => {
            return Err(CallError::Interface);
        },
    };
    let function = match contract.function(FUNCTION_NAME) {
        Ok(function) => function,
        Err(_) => {
            return Err(CallError::Function);
        },
    };
    match function.decode_output(ret.as_slice()) {
        Ok(tokens) => {
            let text = format_tokens(&tokens);
            Ok(output_record(text.as_str()))
        },
        Err(_) => Err(CallError::Output),
    }
}

/// The lowercase hexadecimal digit of `nibble`.
pub open spec fn hex_digit(nibble: int) -> char {
    if nibble < 10 {
        digit_char(nibble)
    } else if nibble == 10 {
        'a'
    } else if nibble == 11 {
        'b'
    } else if nibble == 12 {
        'c'
    } else if nibble == 13 {
        'd'
    } else if nibble == 14 {
        'e'
    } else {
        'f'
    }
}

/// The hexadecimal text of `bytes`: two lowercase digits for each byte, the
/// high half first.
pub open spec fn hex_text(bytes: Seq<u8>) -> Seq<char> {
    Seq::new(
        2 * bytes.len(),
        |i: int|
            if i % 2 == 0 {
                hex_digit(bytes[i / 2] as int / 16)
            } else {
                hex_digit(bytes[i / 2] as int % 16)
            },
    )
}

/// `hex::encode`: every byte becomes two lowercase hexadecimal digits, so the
/// text is twice as long as the data.
#[verifier::external_body]
pub(crate) fn hex_encode(data: &[u8]) -> (r: String)
    ensures
        r@ == hex_text(data@),
{
    hex::encode(data)
}

/// The request for a call, given the two members already written as JSON
/// string literals: an object with the members `to` and `data`, in this
/// order, without white space.
pub open spec fn request_frame(to: Seq<char>, data: Seq<char>) -> Seq<char> {
    "{\"to\":"@ + to + ",\"data\":"@ + data + "}"@
}

/// Puts the two JSON string literals `to` and `data` into the request object.
pub fn frame_request(to: &str, data: &str) -> (text: String)
    ensures
        text@ == request_frame(to@, data@),
{
    let mut text = "{\"to\":".to_owned();
    text.append(to);
    text.append(",\"data\":");
    text.append(data);
    text.append("}");
    text
}

/// The JSON text of the call descriptor with the target address `to` and the
/// hexadecimal call data `data`.
pub open spec fn request_text(to: Seq<char>, data: Seq<char>) -> Seq<char> {
    request_frame(quoted(to), quoted(data))
}

/// Describes a call of the contract at `to` with the call data `data` as the
/// request that the host takes. The descriptor is made for this one call and
/// not kept.
pub fn call_contract(to: &String, data: &String) -> (request: String)
    ensures
        request@ == request_text(to@, data@),
{
    let to = json_string(to.as_str());
    let data = json_string(data.as_str());
    frame_request(to.as_str(), data.as_str())
}

} // verus!
