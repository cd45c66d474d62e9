use ciborium::value::Value;
use mme::base64::Base64Error;
use mme::implementors::html::webview_con::{
    decode_wire, encode_wire, msg_from_string, msg_to_string, CborReadError, MessageError,
};

#[test]
fn encodes_standard_padded_base64() {
    assert_eq!(encode_wire(b""), "");
    assert_eq!(encode_wire(b"f"), "Zg==");
    assert_eq!(encode_wire(b"fo"), "Zm8=");
    assert_eq!(encode_wire(b"foo"), "Zm9v");
    assert_eq!(encode_wire(b"hello"), "aGVsbG8=");
    assert_eq!(encode_wire(&[0xfb, 0xff, 0xbf]), "+/+/");
}

#[test]
fn decodes_what_was_encoded() {
    for bytes in [&b""[..], b"f", b"fo", b"foo", b"foob", b"hello world", &[0, 255, 128, 7]] {
        let text = encode_wire(bytes);
        assert_eq!(decode_wire(&text).unwrap(), bytes.to_vec());
    }
}

#[test]
fn refuses_missing_padding() {
    assert!(decode_wire("aGVsbG8").is_err());
    assert_eq!(decode_wire("Zg=").unwrap_err(), Base64Error::InvalidPadding);
}

#[test]
fn refuses_trailing_bits() {
    assert!(matches!(decode_wire("Zh=="), Err(Base64Error::InvalidLastSymbol(1, b'h'))));
}

#[test]
fn refuses_foreign_symbols() {
    assert!(matches!(decode_wire("Zm9v!A=="), Err(Base64Error::InvalidByte(4, b'!'))));
}

#[test]
fn message_round_trip() {
    let value = Value::Array(vec![Value::Text("hello".to_string()), Value::Integer(42.into()), Value::Bool(true)]);
    let text = msg_to_string(&value).unwrap();
    assert_eq!(msg_from_string(&text).unwrap(), value);
}

#[test]
fn message_text_is_base64_of_cbor() {
    let text = msg_to_string(&Value::Text("hi".to_string())).unwrap();
    // CBOR text of length 2 (0x62) followed by "hi"
    assert_eq!(text, encode_wire(&[0x62, b'h', b'i']));
}

#[test]
fn message_with_bad_base64_is_refused() {
    assert!(matches!(msg_from_string("not base64"), Err(MessageError::Base64(_))));
}

#[test]
fn message_with_bad_cbor_is_refused() {
    let text = encode_wire(&[0xff]);
    assert!(matches!(msg_from_string(&text), Err(MessageError::CborRead(_))));
    let truncated = encode_wire(&[0x62, b'h']);
    assert!(matches!(msg_from_string(&truncated), Err(MessageError::CborRead(CborReadError::Io))));
}

use mme::implementors::html::webview_con::{host_event_step, index_url, recv_script, HostAction, HostEvent};

#[test]
fn script_and_url_texts() {
    assert_eq!(recv_script("Zm9v"), "mize.mod.mme.webview_msg_recv_fn(Zm9v)");
    assert_eq!(index_url("/opt/mme"), "file:///opt/mme/index.html");
}

#[test]
fn event_loop_decisions() {
    assert!(matches!(host_event_step(HostEvent::CloseRequested), HostAction::Exit));
    assert!(matches!(host_event_step(HostEvent::Other), HostAction::Wait));
    match host_event_step(HostEvent::Message(Value::Text("hi".to_string()))) {
        HostAction::EvaluateScript(s) => {
            assert_eq!(s, format!("mize.mod.mme.webview_msg_recv_fn({})", encode_wire(&[0x62, b'h', b'i'])))
        },
        _ => panic!("a message must become a script"),
    }
}

use mme::implementors::html::webview_con::{ipc_step, outgoing_step, IpcAction, OutgoingAction, OutgoingEvent};

#[test]
fn page_texts_are_delivered_or_reported() {
    let text = encode_wire(&[0x62, b'h', b'i']);
    match ipc_step(&text) {
        IpcAction::Deliver(v) => assert_eq!(v, Value::Text("hi".to_string())),
        IpcAction::Report(_) => panic!("a valid text must be delivered"),
    }
    assert!(matches!(ipc_step("%%%"), IpcAction::Report(MessageError::Base64(_))));
    assert!(matches!(ipc_step(&encode_wire(&[0xff])), IpcAction::Report(MessageError::CborRead(_))));
}

#[test]
fn page_sending_loop_posts_or_reports() {
    match outgoing_step(OutgoingEvent::Received(Value::Bool(true))) {
        OutgoingAction::Post(t) => assert_eq!(t, encode_wire(&[0xf5])),
        _ => panic!("a value must be posted"),
    }
    assert!(matches!(outgoing_step(OutgoingEvent::ReceiveFailed), OutgoingAction::ReportReceiveError));
}
