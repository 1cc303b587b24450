//! The boundary with the UI layer: the JSON-shaped message types the UI
//! exchanges with this core, and the conversions between them and the wire
//! messages. A UI string becomes the UTF-8 bytes of the wire message; wire
//! bytes become a UI string only when they are valid UTF-8.

use crate::codec::spec_encode;
use crate::encode::{encode_message, spec_encode_message};
use crate::schema::{Message, MessageV};
use vstd::prelude::*;
use vstd::string::StrSliceExecFns;
use vstd::utf8::{encode_utf8, valid_utf8};

verus! {

/// The generate-request shape shared with the UI layer.
#[derive(Clone, Debug, PartialEq, Eq)]
pub struct JsonGenerateRequest {
    pub model: String,
    pub prompt: String,
    pub stream: bool,
}

/// Ghost image of `JsonGenerateRequest`.
pub struct JsonGenerateRequestV {
    pub model: Seq<char>,
    pub prompt: Seq<char>,
    pub stream: bool,
}

impl View for JsonGenerateRequest {
    type V = JsonGenerateRequestV;

    open spec fn view(&self) -> JsonGenerateRequestV {
        JsonGenerateRequestV { model: self.model@, prompt: self.prompt@, stream: self.stream }
    }
}

/// The generate-response shape shared with the UI layer.
#[derive(Clone, Debug, PartialEq, Eq)]
pub struct JsonGenerateResponse {
    pub model: String,
    pub response: String,
    pub done: bool,
    pub worker_id: String,
}

/// Ghost image of `JsonGenerateResponse`.
pub struct JsonGenerateResponseV {
    pub model: Seq<char>,
    pub response: Seq<char>,
    pub done: bool,
    pub worker_id: Seq<char>,
}

impl View for JsonGenerateResponse {
    type V = JsonGenerateResponseV;

    open spec fn view(&self) -> JsonGenerateResponseV {
        JsonGenerateResponseV {
            model: self.model@,
            response: self.response@,
            done: self.done,
            worker_id: self.worker_id@,
        }
    }
}

/// The tagged message shape shared with the UI layer.
#[derive(Clone, Debug, PartialEq, Eq)]
pub enum JsonBaseMessage {
    GenerateRequest { data: JsonGenerateRequest },
    GenerateResponse { data: JsonGenerateResponse },
}

/// Ghost image of `JsonBaseMessage`.
pub enum JsonBaseMessageV {
    GenerateRequest { data: JsonGenerateRequestV },
    GenerateResponse { data: JsonGenerateResponseV },
}

impl View for JsonBaseMessage {
    type V = JsonBaseMessageV;

    open spec fn view(&self) -> JsonBaseMessageV {
        match self {
            JsonBaseMessage::GenerateRequest { data } => JsonBaseMessageV::GenerateRequest {
                data: data@,
            },
            JsonBaseMessage::GenerateResponse { data } => JsonBaseMessageV::GenerateResponse {
                data: data@,
            },
        }
    }
}

/// Why a wire message could not be turned into a UI message, or a UI message
/// could not be framed.
#[derive(Clone, Copy, Debug, PartialEq, Eq, Structural)]
pub enum BridgeError {
    /// The envelope held no message.
    EmptyMessage,
    /// The message is not one of the envelope's kinds.
    NotAnEnvelope,
    /// A byte-string field is not valid UTF-8.
    InvalidText,
    /// The serialized message does not fit one frame.
    MessageTooLarge,
}

/// The wire message a UI message stands for: the same fields, each string as
/// its UTF-8 bytes.
pub open spec fn spec_message_of_json(j: JsonBaseMessageV) -> MessageV {
    match j {
        JsonBaseMessageV::GenerateRequest { data } => MessageV::GenerateRequest {
            model: encode_utf8(data.model),
            prompt: encode_utf8(data.prompt),
            stream: data.stream,
        },
        JsonBaseMessageV::GenerateResponse { data } => MessageV::GenerateResponse {
            model: encode_utf8(data.model),
            response: encode_utf8(data.response),
            done: data.done,
            worker_id: encode_utf8(data.worker_id),
        },
    }
}

/// Converts a UI message into the wire message it stands for.
pub fn message_from_json(j: &JsonBaseMessage) -> (r: Message)
    ensures
        r@ == spec_message_of_json(j@),
{
    match j {
        JsonBaseMessage::GenerateRequest { data } => Message::GenerateRequest {
            model: data.model.as_str().as_bytes_vec(),
            prompt: data.prompt.as_str().as_bytes_vec(),
            stream: data.stream,
        },
        JsonBaseMessage::GenerateResponse { data } => Message::GenerateResponse {
            model: data.model.as_str().as_bytes_vec(),
            response: data.response.as_str().as_bytes_vec(),
            done: data.done,
            worker_id: data.worker_id.as_str().as_bytes_vec(),
        },
    }
}

/// Relies on `String::from_utf8`: it returns `Ok` exactly when the bytes are
/// valid UTF-8, and the returned string's UTF-8 encoding is those bytes.
#[verifier::external_body]
fn bytes_to_string(v: Vec<u8>) -> (r: Option<String>)
    ensures
        r is Some <==> valid_utf8(v@),
        r matches Some(s) ==> encode_utf8(s@) == v@,
{
    match String::from_utf8(v) {
        Ok(s) => Some(s),
        Err(_) => None,
    }
}

/// Converts a classified wire message back into the UI shape. Only the
/// envelope's two kinds have one; the explicit empty message reports itself,
/// and a field that is not valid UTF-8 cannot cross to the UI.
pub fn message_to_json(m: Message) -> (r: Result<JsonBaseMessage, BridgeError>)
    ensures
        match m@ {
            MessageV::GenerateRequest { model, prompt, stream } => {
                if valid_utf8(model) && valid_utf8(prompt) {
                    r matches Ok(j) && spec_message_of_json(j@) == m@
                } else {
                    r == Err::<JsonBaseMessage, BridgeError>(BridgeError::InvalidText)
                }
            },
            MessageV::GenerateResponse { model, response, done, worker_id } => {
                if valid_utf8(model) && valid_utf8(response) && valid_utf8(worker_id) {
                    r matches Ok(j) && spec_message_of_json(j@) == m@
                } else {
                    r == Err::<JsonBaseMessage, BridgeError>(BridgeError::InvalidText)
                }
            },
            MessageV::EmptyEnvelope => r == Err::<JsonBaseMessage, BridgeError>(
                BridgeError::EmptyMessage,
            ),
            _ => r == Err::<JsonBaseMessage, BridgeError>(BridgeError::NotAnEnvelope),
        },
{
    match m {
        Message::GenerateRequest { model, prompt, stream } => {
            let model_s = match bytes_to_string(model) {
                Some(s) => s,
                None => {
                    return Err(BridgeError::InvalidText);
                },
            };
            let prompt_s = match bytes_to_string(prompt) {
                Some(s) => s,
                None => {
                    return Err(BridgeError::InvalidText);
                },
            };
            Ok(
                JsonBaseMessage::GenerateRequest {
                    data: JsonGenerateRequest { model: model_s, prompt: prompt_s, stream },
                },
            )
        },
        Message::GenerateResponse { model, response, done, worker_id } => {
            let model_s = match bytes_to_string(model) {
                Some(s) => s,
                None => {
                    return Err(BridgeError::InvalidText);
                },
            };
            let response_s = match bytes_to_string(response) {
                Some(s) => s,
                None => {
                    return Err(BridgeError::InvalidText);
                },
            };
            let worker_s = match bytes_to_string(worker_id) {
                Some(s) => s,
                None => {
                    return Err(BridgeError::InvalidText);
                },
            };
            Ok(
                JsonBaseMessage::GenerateResponse {
                    data: JsonGenerateResponse {
                        model: model_s,
                        response: response_s,
                        done,
                        worker_id: worker_s,
                    },
                },
            )
        },
        Message::EmptyEnvelope => Err(BridgeError::EmptyMessage),
        _ => Err(BridgeError::NotAnEnvelope),
    }
}

/// The whole outbound path for a UI message: the wire message it stands for,
/// serialized, behind its length prefix — the bytes to hand the stream. A
/// message whose serialization cannot be announced by a 32-bit prefix is
/// refused.
pub fn frame_outbound(j: &JsonBaseMessage) -> (r: Result<Vec<u8>, BridgeError>)
    ensures
        spec_encode_message(spec_message_of_json(j@)).len() <= u32::MAX ==> (r matches Ok(f) && f@
            == spec_encode(spec_encode_message(spec_message_of_json(j@)))),
        spec_encode_message(spec_message_of_json(j@)).len() > u32::MAX ==> r == Err::<
            Vec<u8>,
            BridgeError,
        >(BridgeError::MessageTooLarge),
{
    let m = message_from_json(j);
    let payload = encode_message(&m);
    if payload.len() > u32::MAX as usize {
        return Err(BridgeError::MessageTooLarge);
    }
    Ok(crate::codec::encode(&payload))
}

} // verus!
