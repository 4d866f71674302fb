use ethabi::ethereum_types::U256;
use event_plugin::contract::{frame_request, output_record, ABI_STR, CONTRACT_ADDRESS};
use event_plugin::handlers::{accept_reply, send_call};
use event_plugin::{
    call_contract, confirmation_reply, decode_call_fn, encode_call_fn, handle_confirmation_event,
    log_info, CallError, Fault, Request, Step,
};

fn word(last: u8) -> Vec<u8> {
    let mut bytes = vec![0u8; 32];
    bytes[31] = last;
    bytes
}

fn call_data(last: u8) -> Vec<u8> {
    let mut bytes = vec![0xb0, 0xf0, 0xc9, 0x6a];
    bytes.extend(word(last));
    bytes
}

#[test]
fn the_embedded_interface_names_hello() {
    let contract: ethabi::Contract = serde_json::from_str(ABI_STR).unwrap();
    assert_eq!(contract.functions().count(), 1);
    assert_eq!(contract.function("hello").unwrap().signature(), "hello(uint256):(uint256)");
    assert_eq!(CONTRACT_ADDRESS, "0xb963C2c5c9d023F61E8338B85fFd58Bd0663D545");
}

#[test]
fn encode_call_is_selector_and_argument() {
    assert_eq!(encode_call_fn(U256::from(32u64)), Ok(call_data(32)));
    assert_eq!(encode_call_fn(U256::zero()), Ok(call_data(0)));
}

#[test]
fn encode_call_of_the_largest_argument() {
    let mut expected = vec![0xb0, 0xf0, 0xc9, 0x6a];
    expected.extend(vec![0xffu8; 32]);
    assert_eq!(encode_call_fn(U256::MAX), Ok(expected));
}

#[test]
fn decode_call_reports_the_number() {
    assert_eq!(decode_call_fn(word(32)), Ok(log_info("got out put [Uint(32)]")));
    assert_eq!(decode_call_fn(word(0)), Ok(log_info("got out put [Uint(0)]")));
}

#[test]
fn decode_call_reads_all_32_bytes() {
    let mut bytes = vec![0u8; 32];
    bytes[30] = 1;
    assert_eq!(decode_call_fn(bytes), Ok(log_info("got out put [Uint(256)]")));
    assert_eq!(
        decode_call_fn(vec![0xff; 32]),
        Ok(log_info(
            "got out put [Uint(115792089237316195423570985008687907853269984665640564039457584007913129639935)]"
        ))
    );
}

#[test]
fn decode_call_ignores_what_follows_the_number() {
    let mut bytes = word(5);
    bytes.extend(vec![9u8; 7]);
    assert_eq!(decode_call_fn(bytes), Ok(log_info("got out put [Uint(5)]")));
}

#[test]
fn decode_call_refuses_short_answers() {
    assert_eq!(decode_call_fn(Vec::new()), Err(CallError::Output));
    assert_eq!(decode_call_fn(vec![0u8; 31]), Err(CallError::Output));
}

#[test]
fn output_record_reports_the_tokens() {
    assert_eq!(output_record("[]"), log_info("got out put []"));
}

#[test]
fn frame_request_puts_the_members_in_order() {
    assert_eq!(frame_request("\"x\"", "\"y\""), "{\"to\":\"x\",\"data\":\"y\"}");
}

#[test]
fn call_contract_writes_the_descriptor() {
    assert_eq!(
        call_contract(&"0xabc".to_string(), &"00ff".to_string()),
        "{\"to\":\"0xabc\",\"data\":\"00ff\"}"
    );
}

#[test]
fn call_contract_escapes_its_strings() {
    assert_eq!(
        call_contract(&"a\"b".to_string(), &"c\\d\n".to_string()),
        "{\"to\":\"a\\\"b\",\"data\":\"c\\\\d\\n\"}"
    );
}

#[test]
fn confirmation_event_sends_the_call() {
    let request = "{\"to\":\"0xb963C2c5c9d023F61E8338B85fFd58Bd0663D545\",\"data\":\"b0f0c96a0000000000000000000000000000000000000000000000000000000000000020\"}";
    assert_eq!(
        handle_confirmation_event(9),
        Step {
            logs: vec![log_info("Handler called with event_id: 9")],
            request: Request::CallContract { request: request.to_string() },
        }
    );
}

#[test]
fn send_call_writes_every_byte_as_two_lowercase_digits() {
    let step = send_call(vec![], Ok(vec![0x00, 0x0f, 0xa0, 0xff, 0x1b, 0x9c]));
    assert_eq!(
        step,
        Step {
            logs: vec![],
            request: Request::CallContract {
                request: "{\"to\":\"0xb963C2c5c9d023F61E8338B85fFd58Bd0663D545\",\"data\":\"000fa0ff1b9c\"}"
                    .to_string(),
            },
        }
    );
}

#[test]
fn send_call_of_no_data() {
    assert_eq!(
        send_call(vec![log_info("x")], Ok(vec![])),
        Step {
            logs: vec![log_info("x")],
            request: Request::CallContract {
                request: "{\"to\":\"0xb963C2c5c9d023F61E8338B85fFd58Bd0663D545\",\"data\":\"\"}".to_string(),
            },
        }
    );
}

#[test]
fn send_call_stops_where_encoding_failed() {
    for e in [CallError::Interface, CallError::Function, CallError::Input, CallError::Output] {
        assert_eq!(
            send_call(vec![log_info("x")], Err(e)),
            Step { logs: vec![log_info("x")], request: Request::Abort { fault: Fault::Encode(e) } }
        );
    }
}

#[test]
fn confirmation_without_answer_succeeds() {
    assert_eq!(
        confirmation_reply(None),
        Step { logs: vec![log_info("nothing gotten from call")], request: Request::Return { code: 0 } }
    );
}

#[test]
fn confirmation_logs_the_answer() {
    assert_eq!(
        confirmation_reply(Some(word(33))),
        Step { logs: vec![log_info("got out put [Uint(33)]")], request: Request::Return { code: 0 } }
    );
}

#[test]
fn confirmation_stops_on_an_answer_that_does_not_decode() {
    assert_eq!(
        confirmation_reply(Some(vec![1, 2, 3])),
        Step { logs: vec![], request: Request::Abort { fault: Fault::Decode(CallError::Output) } }
    );
    assert_eq!(
        confirmation_reply(Some(vec![])),
        Step { logs: vec![], request: Request::Abort { fault: Fault::Decode(CallError::Output) } }
    );
}

#[test]
fn accept_reply_covers_every_answer() {
    assert_eq!(
        accept_reply(None),
        Step { logs: vec![log_info("nothing gotten from call")], request: Request::Return { code: 0 } }
    );
    assert_eq!(
        accept_reply(Some(Ok(log_info("m")))),
        Step { logs: vec![log_info("m")], request: Request::Return { code: 0 } }
    );
    assert_eq!(
        accept_reply(Some(Err(CallError::Function))),
        Step { logs: vec![], request: Request::Abort { fault: Fault::Decode(CallError::Function) } }
    );
}
