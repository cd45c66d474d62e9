//! The wire format of the connection between the host and the webview: a
//! message value written as CBOR, the CBOR bytes sent as padded standard Base64.
use vstd::prelude::*;
use crate::base64::{
    base64_decode_error, base64_decoding, base64_encode, encoded_len, lemma_decode_encode, lemma_encode_injective,
    standard_decode, standard_encode, Base64Error,
};

verus! {

/// A CBOR data item.
#[verifier::external_type_specification]
#[verifier::external_body]
pub struct ExCborValue(ciborium::value::Value);

/// The bytes hold a CBOR data item that the decoder reads (within its nesting limit).
pub uninterp spec fn cbor_value_parses(bytes: Seq<u8>) -> bool;

/// The error that the decoder reports for bytes it cannot read.
pub uninterp spec fn cbor_read_error(bytes: Seq<u8>) -> CborReadError;

/// The CBOR bytes that the encoder writes for a value.
pub uninterp spec fn cbor_encoding(value: ciborium::value::Value) -> Seq<u8>;

/// The value that the decoder reads from bytes that hold a CBOR data item.
pub uninterp spec fn cbor_decoding(bytes: Seq<u8>) -> ciborium::value::Value;

/// Why the CBOR decoder refused some bytes.
#[derive(Debug, Clone, PartialEq, Eq)]
pub enum CborReadError {
    /// The bytes ended before the data item did.
    Io,
    /// The bytes are not well-formed CBOR, at this offset.
    Syntax(usize),
    /// The data item could not be built: offset when known, and description.
    Semantic(Option<usize>, String),
    /// The data item nests deeper than the decoder allows.
    RecursionLimitExceeded,
}

/// Why the CBOR encoder could not write a value.
#[derive(Debug, Clone, PartialEq, Eq)]
pub enum CborWriteError {
    /// The writer failed.
    Io,
    /// The value cannot be written: description.
    Value(String),
}

/// Why a message could not be sent or received.
#[derive(Debug, Clone, PartialEq, Eq)]
pub enum MessageError {
    /// The text is not padded standard Base64.
    Base64(Base64Error),
    /// The decoded bytes are not a CBOR data item.
    CborRead(CborReadError),
    /// The value could not be written as CBOR.
    CborWrite(CborWriteError),
}

/// `ciborium::into_writer` of a value into a new byte vector. Writing into a
/// vector cannot fail (its writer has no error, and a `Value::Tag` always
/// carries the tag that the encoder expects); the bytes are those named by
/// `cbor_encoding`, and like every vector of bytes they number at most `isize::MAX`.
#[verifier::external_body]
fn cbor_write(value: &ciborium::value::Value) -> (res: Result<Vec<u8>, CborWriteError>)
    ensures
        res is Ok,
        res matches Ok(v) ==> v@ == cbor_encoding(*value),
        res matches Ok(v) ==> v@.len() <= isize::MAX,
{
    let mut buf: Vec<u8> = Vec::new();
    match ciborium::into_writer(value, &mut buf) {
        Ok(()) => Ok(buf),
        Err(ciborium::ser::Error::Io(_)) => Err(CborWriteError::Io),
        Err(ciborium::ser::Error::Value(m)) => Err(CborWriteError::Value(m)),
    }
}

/// `ciborium::from_reader` of a CBOR value from a byte slice: it succeeds
/// exactly on the bytes named by `cbor_value_parses`, with the value named by
/// `cbor_decoding`; a refusal gets the error named by `cbor_read_error`. Both
/// depend on the bytes alone.
#[verifier::external_body]
fn cbor_read(bytes: &[u8]) -> (res: Result<ciborium::value::Value, CborReadError>)
    ensures
        res is Ok <==> cbor_value_parses(bytes@),
        res matches Ok(v) ==> v == cbor_decoding(bytes@),
        res matches Err(e) ==> e == cbor_read_error(bytes@),
{
    match ciborium::from_reader::<ciborium::value::Value, &[u8]>(bytes) {
        Ok(v) => Ok(v),
        Err(ciborium::de::Error::Io(_)) => Err(CborReadError::Io),
        Err(ciborium::de::Error::Syntax(n)) => Err(CborReadError::Syntax(n)),
        Err(ciborium::de::Error::Semantic(n, m)) => Err(CborReadError::Semantic(n, m)),
        Err(ciborium::de::Error::RecursionLimitExceeded) => Err(CborReadError::RecursionLimitExceeded),
    }
}

/// The text that carries some bytes over the connection: their padded standard Base64.
pub fn encode_wire(bytes: &[u8]) -> (text: String)
    requires
        encoded_len(bytes@.len()) <= usize::MAX,
    ensures
        text@ == base64_encode(bytes@),
{
    standard_encode(bytes)
}

/// The bytes that a text carries over the connection; refused exactly when the
/// text is not the padded standard Base64 of any bytes.
pub fn decode_wire(text: &str) -> (res: Result<Vec<u8>, Base64Error>)
    ensures
        res is Err <==> base64_decoding(text@) is None,
        res matches Ok(v) ==> base64_decoding(text@) == Some(v@),
        res matches Err(e) ==> e == base64_decode_error(text@),
{
    let res = standard_decode(text);
    proof {
        if res is Ok {
            lemma_decode_encode(res->Ok_0@);
        }
    }
    res
}

proof fn lemma_encoded_len_fits(n: nat)
    requires
        n <= isize::MAX,
    ensures
        encoded_len(n) <= usize::MAX,
{
    assert(usize::MAX == 2 * (isize::MAX as int) + 1);
}

/// The text that carries a message value: its CBOR bytes in padded standard Base64.
pub open spec fn message_text(value: ciborium::value::Value) -> Seq<char> {
    base64_encode(cbor_encoding(value))
}

/// A message value as the text that the connection carries: the value written
/// as CBOR, then encoded as padded standard Base64. Never fails.
pub fn msg_to_string(value: &ciborium::value::Value) -> (res: Result<String, MessageError>)
    ensures
        res is Ok,
        res matches Ok(s) ==> s@ == message_text(*value),
{
    match cbor_write(value) {
        Ok(bytes) => {
            proof {
                lemma_encoded_len_fits(bytes@.len());
                lemma_decode_encode(bytes@);
            }
            Ok(encode_wire(bytes.as_slice()))
        },
        Err(e) => Err(MessageError::CborWrite(e)),
    }
}

/// The message value that a text from the connection carries: the text is
/// decoded from Base64, then read as CBOR.
pub fn msg_from_string(msg_string: &str) -> (res: Result<ciborium::value::Value, MessageError>)
    ensures
        res is Ok <==> (base64_decoding(msg_string@) matches Some(b) && cbor_value_parses(b)),
        res matches Err(MessageError::Base64(_)) <==> base64_decoding(msg_string@) is None,
        res matches Err(MessageError::CborRead(_)) <==> (base64_decoding(msg_string@) matches Some(
            b,
        ) && !cbor_value_parses(b)),
        !(res matches Err(MessageError::CborWrite(_))),
        res matches Ok(v) ==> (base64_decoding(msg_string@) matches Some(b) && v == cbor_decoding(b)),
        res matches Err(MessageError::Base64(e)) ==> e == base64_decode_error(msg_string@),
        res matches Err(MessageError::CborRead(e)) ==> (base64_decoding(msg_string@) matches Some(b)
            && e == cbor_read_error(b)),
{
    match decode_wire(msg_string) {
        Ok(bytes) => match cbor_read(bytes.as_slice()) {
            Ok(v) => Ok(v),
            Err(e) => Err(MessageError::CborRead(e)),
        },
        Err(e) => Err(MessageError::Base64(e)),
    }
}

/// The script that hands a message text to the page in the webview.
pub open spec fn recv_script_text(msg_string: Seq<char>) -> Seq<char> {
    "mize.mod.mme.webview_msg_recv_fn("@ + msg_string + ")"@
}

/// The script that hands a message text to the page in the webview.
pub fn recv_script(msg_string: &str) -> (res: String)
    ensures
        res@ == recv_script_text(msg_string@),
{
    let mut s = "mize.mod.mme.webview_msg_recv_fn(".to_owned();
    s.append(msg_string);
    s.append(")");
    s
}

/// The address of the page that the webview opens, in the folder of the module.
pub fn index_url(module_dir: &str) -> (res: String)
    ensures
        res@ == "file://"@ + module_dir@ + "/index.html"@,
{
    let mut s = "file://".to_owned();
    s.append(module_dir);
    s.append("/index.html");
    s
}

/// What the window's event loop is handed.
pub enum HostEvent {
    /// The user asked to close the window.
    CloseRequested,
    /// A message for the page, by its value.
    Message(ciborium::value::Value),
    /// Anything else.
    Other,
}

/// What the window's event loop does next.
pub enum HostAction {
    /// Leave the loop.
    Exit,
    /// Run this script in the webview, then wait.
    EvaluateScript(String),
    /// Report this error, then wait.
    ReportError(MessageError),
    /// Wait for the next event.
    Wait,
}

/// The decision of the window's event loop on one event: close on request,
/// forward a message to the page as a script, and wait otherwise. (A message
/// whose value cannot be written would be reported; writing never fails.)
pub fn host_event_step(event: HostEvent) -> (action: HostAction)
    ensures
        event is CloseRequested <==> action is Exit,
        event is Other ==> action is Wait,
        event matches HostEvent::Message(v) ==> action matches HostAction::EvaluateScript(script)
            && script@ == recv_script_text(message_text(v)),
{
    match event {
        HostEvent::CloseRequested => HostAction::Exit,
        HostEvent::Message(value) => match msg_to_string(&value) {
            Ok(msg_string) => HostAction::EvaluateScript(recv_script(msg_string.as_str())),
            Err(e) => HostAction::ReportError(e),
        },
        HostEvent::Other => HostAction::Wait,
    }
}

/// What the host does with a text that the page sent.
pub enum IpcAction {
    /// Hand the message value on to the instance.
    Deliver(ciborium::value::Value),
    /// Report this error and drop the text.
    Report(MessageError),
}

/// The decision of the host on a text that the page sent: deliver the value it
/// carries, or report why it carries none.
pub fn ipc_step(body: &str) -> (action: IpcAction)
    ensures
        action is Deliver <==> (base64_decoding(body@) matches Some(b) && cbor_value_parses(b)),
        action matches IpcAction::Deliver(v) ==> (base64_decoding(body@) matches Some(b) && v
            == cbor_decoding(b)),
        action matches IpcAction::Report(e) ==> (e is Base64 <==> base64_decoding(body@) is None),
        action matches IpcAction::Report(e) ==> !(e is CborWrite),
        action matches IpcAction::Report(MessageError::Base64(e)) ==> e == base64_decode_error(body@),
        action matches IpcAction::Report(MessageError::CborRead(e)) ==> (base64_decoding(body@) matches Some(
            b,
        ) && e == cbor_read_error(b)),
{
    match msg_from_string(body) {
        Ok(v) => IpcAction::Deliver(v),
        Err(e) => IpcAction::Report(e),
    }
}

/// What the page's sending loop is handed.
pub enum OutgoingEvent {
    /// A message for the host, by its value.
    Received(ciborium::value::Value),
    /// Receiving from the channel failed.
    ReceiveFailed,
}

/// What the page's sending loop does next, before it waits for the next message.
pub enum OutgoingAction {
    /// Post this text to the host.
    Post(String),
    /// Report the receive error.
    ReportReceiveError,
    /// Report this error (writing a value never fails, so this does not happen).
    ReportError(MessageError),
}

/// The decision of the page's sending loop on one event: post a message's text
/// to the host, or report a failed receive.
pub fn outgoing_step(event: OutgoingEvent) -> (action: OutgoingAction)
    ensures
        event is ReceiveFailed <==> action is ReportReceiveError,
        event matches OutgoingEvent::Received(v) ==> action matches OutgoingAction::Post(text)
            && text@ == message_text(v),
{
    match event {
        OutgoingEvent::Received(v) => match msg_to_string(&v) {
            Ok(text) => OutgoingAction::Post(text),
            Err(e) => OutgoingAction::ReportError(e),
        },
        OutgoingEvent::ReceiveFailed => OutgoingAction::ReportReceiveError,
    }
}

/// A message value is read back as it was sent, whenever the decoder reads the
/// bytes that the encoder wrote for it.
pub proof fn law_message_round_trip(value: ciborium::value::Value)
    ensures
        base64_decoding(message_text(value)) == Some(cbor_encoding(value)),
{
    lemma_decode_encode(cbor_encoding(value));
}

/// What the connection carries is read back as it was sent: decoding the
/// encoding of some bytes gives those bytes.
pub proof fn law_wire_round_trip(bytes: Seq<u8>)
    ensures
        base64_decoding(base64_encode(bytes)) == Some(bytes),
{
    lemma_decode_encode(bytes);
}

/// Distinct bytes travel as distinct texts.
pub proof fn law_wire_injective(a: Seq<u8>, b: Seq<u8>)
    requires
        base64_encode(a) == base64_encode(b),
    ensures
        a == b,
{
    lemma_encode_injective(a, b);
}

/// The script that hands a text to the page carries the whole text: it is
/// `mize.mod.mme.webview_msg_recv_fn(` (33 characters), the text, and `)`.
pub proof fn law_recv_script_carries_whole_text(m: Seq<char>)
    ensures
        ({
            let s = recv_script_text(m);
            &&& s == "mize.mod.mme.webview_msg_recv_fn("@ + m + ")"@
            &&& s.len() as int == 34 + m.len() as int
            &&& s.subrange(0, 33) == "mize.mod.mme.webview_msg_recv_fn("@
            &&& s.subrange(33, 33 + m.len() as int) == m
            &&& s[s.len() as int - 1] == ')'
        }),
{
    reveal_strlit("mize.mod.mme.webview_msg_recv_fn(");
    reveal_strlit(")");
    let s = recv_script_text(m);
    assert(s.subrange(0, 33) =~= "mize.mod.mme.webview_msg_recv_fn("@);
    assert(s.subrange(33, 33 + m.len() as int) =~= m);
}

/// The script that the event loop runs for a message hands the page the
/// message's whole text, which decodes back to the CBOR bytes of the value.
pub proof fn law_message_script_decodes_to_value(v: ciborium::value::Value)
    ensures
        ({
            let s = recv_script_text(message_text(v));
            base64_decoding(s.subrange(33, s.len() as int - 1)) == Some(cbor_encoding(v))
        }),
{
    law_recv_script_carries_whole_text(message_text(v));
    let s = recv_script_text(message_text(v));
    assert(s.subrange(33, s.len() as int - 1) =~= message_text(v));
    law_message_round_trip(v);
}

} // verus!
