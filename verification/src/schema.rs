//! The message schemas and the cascading dispatcher. A payload is classified
//! by trying each schema of a priority table in order and keeping the first
//! structural match; a payload no schema accepts is an unknown message.
//!
//! Structural acceptance is an explicit policy, not parser leniency: a schema
//! accepts a payload only when the decoded field stream consists of exactly
//! the schema's declared fields, in order, each with its declared shape. The
//! flat single-string schemas carry distinct field numbers, so no payload a
//! schema emits is ever claimed by a different schema earlier in the default
//! table.

use crate::wire::{
    parse_fields, spec_parse_fields, view_fields, FieldVal, FieldValV, RawField, RawFieldV,
};
use vstd::prelude::*;
use vstd::slice::{slice_subrange, slice_to_vec};

verus! {

/// The recognized schemas, named in their default priority order.
#[derive(Clone, Copy, Debug, PartialEq, Eq, Structural)]
pub enum SchemaId {
    Envelope,
    Generic,
    PingRequest,
    PingResponse,
    HealthCheckRequest,
    HealthCheckResponse,
    StatusResponse,
    Initialize,
    NetworkStatus,
}

/// One classified message, with its decoded fields. Byte-string fields are
/// kept as the raw bytes from the wire; numeric statuses, modes and states
/// are kept as the raw numbers, for the caller to interpret.
#[derive(Clone, Debug, PartialEq, Eq)]
pub enum Message {
    GenerateRequest { model: Vec<u8>, prompt: Vec<u8>, stream: bool },
    GenerateResponse { model: Vec<u8>, response: Vec<u8>, done: bool, worker_id: Vec<u8> },
    EmptyEnvelope,
    Generic { id: Vec<u8>, kind: Vec<u8> },
    PingRequest { message: Vec<u8> },
    PingResponse { message: Vec<u8>, latency_ms: u64 },
    HealthCheckRequest { service: Vec<u8> },
    HealthCheckResponse { service: Vec<u8>, status: u64 },
    StatusResponse { status: u64, message: Vec<u8> },
    Initialize { mode: u64 },
    NetworkStatus { state: u64, peer_count: u64 },
}

/// Ghost image of `Message`.
pub enum MessageV {
    GenerateRequest { model: Seq<u8>, prompt: Seq<u8>, stream: bool },
    GenerateResponse { model: Seq<u8>, response: Seq<u8>, done: bool, worker_id: Seq<u8> },
    EmptyEnvelope,
    Generic { id: Seq<u8>, kind: Seq<u8> },
    PingRequest { message: Seq<u8> },
    PingResponse { message: Seq<u8>, latency_ms: u64 },
    HealthCheckRequest { service: Seq<u8> },
    HealthCheckResponse { service: Seq<u8>, status: u64 },
    StatusResponse { status: u64, message: Seq<u8> },
    Initialize { mode: u64 },
    NetworkStatus { state: u64, peer_count: u64 },
}

impl View for Message {
    type V = MessageV;

    open spec fn view(&self) -> MessageV {
        match self {
            Message::GenerateRequest { model, prompt, stream } => MessageV::GenerateRequest {
                model: model@,
                prompt: prompt@,
                stream: *stream,
            },
            Message::GenerateResponse {
                model,
                response,
                done,
                worker_id,
            } => MessageV::GenerateResponse {
                model: model@,
                response: response@,
                done: *done,
                worker_id: worker_id@,
            },
            Message::EmptyEnvelope => MessageV::EmptyEnvelope,
            Message::Generic { id, kind } => MessageV::Generic { id: id@, kind: kind@ },
            Message::PingRequest { message } => MessageV::PingRequest { message: message@ },
            Message::PingResponse { message, latency_ms } => MessageV::PingResponse {
                message: message@,
                latency_ms: *latency_ms,
            },
            Message::HealthCheckRequest { service } => MessageV::HealthCheckRequest {
                service: service@,
            },
            Message::HealthCheckResponse { service, status } => MessageV::HealthCheckResponse {
                service: service@,
                status: *status,
            },
            Message::StatusResponse { status, message } => MessageV::StatusResponse {
                status: *status,
                message: message@,
            },
            Message::Initialize { mode } => MessageV::Initialize { mode: *mode },
            Message::NetworkStatus { state, peer_count } => MessageV::NetworkStatus {
                state: *state,
                peer_count: *peer_count,
            },
        }
    }
}

/// Failure of classification: no schema in the table accepted the payload.
/// The preview is a bounded prefix of the payload, kept for diagnostics.
#[derive(Clone, Debug, PartialEq, Eq)]
pub enum DispatchError {
    UnknownMessageType { preview: Vec<u8> },
}

/// Ghost image of `DispatchError`.
pub enum DispatchErrorV {
    UnknownMessageType { preview: Seq<u8> },
}

impl View for DispatchError {
    type V = DispatchErrorV;

    open spec fn view(&self) -> DispatchErrorV {
        match self {
            DispatchError::UnknownMessageType { preview } => DispatchErrorV::UnknownMessageType {
                preview: preview@,
            },
        }
    }
}

/// How many payload bytes an unknown-message report keeps.
pub const PREVIEW_LEN: usize = 50;

/// The diagnostic preview: the payload itself, or its first 50 bytes.
pub open spec fn spec_preview(b: Seq<u8>) -> Seq<u8> {
    if b.len() <= 50 {
        b
    } else {
        b.take(50)
    }
}

/// A nested generate request: model, prompt, and a stream flag of 0 or 1.
pub open spec fn spec_match_generate_request(fs: Seq<RawFieldV>) -> Option<MessageV> {
    if fs.len() == 3 && fs[0].num == 1 && fs[0].val is Chunk && fs[1].num == 2 && fs[1].val
        is Chunk && fs[2].num == 3 && fs[2].val is Varint && fs[2].val->Varint_0 <= 1 {
        Some(
            MessageV::GenerateRequest {
                model: fs[0].val->Chunk_0,
                prompt: fs[1].val->Chunk_0,
                stream: fs[2].val->Varint_0 == 1,
            },
        )
    } else {
        None
    }
}

/// A nested generate response: model, response, a done flag of 0 or 1, and
/// the worker that produced it.
pub open spec fn spec_match_generate_response(fs: Seq<RawFieldV>) -> Option<MessageV> {
    if fs.len() == 4 && fs[0].num == 1 && fs[0].val is Chunk && fs[1].num == 2 && fs[1].val
        is Chunk && fs[2].num == 3 && fs[2].val is Varint && fs[2].val->Varint_0 <= 1
        && fs[3].num == 4 && fs[3].val is Chunk {
        Some(
            MessageV::GenerateResponse {
                model: fs[0].val->Chunk_0,
                response: fs[1].val->Chunk_0,
                done: fs[2].val->Varint_0 == 1,
                worker_id: fs[3].val->Chunk_0,
            },
        )
    } else {
        None
    }
}

/// The envelope: empty (the explicit empty message), or exactly one of its
/// two nested messages.
pub open spec fn spec_match_envelope(fs: Seq<RawFieldV>) -> Option<MessageV> {
    if fs.len() == 0 {
        Some(MessageV::EmptyEnvelope)
    } else if fs.len() == 1 && fs[0].num == 1 && fs[0].val is Chunk {
        match spec_parse_fields(fs[0].val->Chunk_0) {
            None => None,
            Some(nfs) => spec_match_generate_request(nfs),
        }
    } else if fs.len() == 1 && fs[0].num == 2 && fs[0].val is Chunk {
        match spec_parse_fields(fs[0].val->Chunk_0) {
            None => None,
            Some(nfs) => spec_match_generate_response(nfs),
        }
    } else {
        None
    }
}

/// A generic message: an id and a type name.
pub open spec fn spec_match_generic(fs: Seq<RawFieldV>) -> Option<MessageV> {
    if fs.len() == 2 && fs[0].num == 1 && fs[0].val is Chunk && fs[1].num == 2 && fs[1].val
        is Chunk {
        Some(MessageV::Generic { id: fs[0].val->Chunk_0, kind: fs[1].val->Chunk_0 })
    } else {
        None
    }
}

/// A ping request: one message string, at field 3.
pub open spec fn spec_match_ping_request(fs: Seq<RawFieldV>) -> Option<MessageV> {
    if fs.len() == 1 && fs[0].num == 3 && fs[0].val is Chunk {
        Some(MessageV::PingRequest { message: fs[0].val->Chunk_0 })
    } else {
        None
    }
}

/// A ping response: the message string and the measured latency.
pub open spec fn spec_match_ping_response(fs: Seq<RawFieldV>) -> Option<MessageV> {
    if fs.len() == 2 && fs[0].num == 3 && fs[0].val is Chunk && fs[1].num == 4 && fs[1].val
        is Varint {
        Some(
            MessageV::PingResponse {
                message: fs[0].val->Chunk_0,
                latency_ms: fs[1].val->Varint_0,
            },
        )
    } else {
        None
    }
}

/// A health check request: one service name, at field 5.
pub open spec fn spec_match_health_check_request(fs: Seq<RawFieldV>) -> Option<MessageV> {
    if fs.len() == 1 && fs[0].num == 5 && fs[0].val is Chunk {
        Some(MessageV::HealthCheckRequest { service: fs[0].val->Chunk_0 })
    } else {
        None
    }
}

/// A health check response: the service name and its status number.
pub open spec fn spec_match_health_check_response(fs: Seq<RawFieldV>) -> Option<MessageV> {
    if fs.len() == 2 && fs[0].num == 5 && fs[0].val is Chunk && fs[1].num == 6 && fs[1].val
        is Varint {
        Some(
            MessageV::HealthCheckResponse {
                service: fs[0].val->Chunk_0,
                status: fs[1].val->Varint_0,
            },
        )
    } else {
        None
    }
}

/// A status response: a status number then a message string.
pub open spec fn spec_match_status_response(fs: Seq<RawFieldV>) -> Option<MessageV> {
    if fs.len() == 2 && fs[0].num == 1 && fs[0].val is Varint && fs[1].num == 2 && fs[1].val
        is Chunk {
        Some(
            MessageV::StatusResponse {
                status: fs[0].val->Varint_0,
                message: fs[1].val->Chunk_0,
            },
        )
    } else {
        None
    }
}

/// An initialize command: one mode number.
pub open spec fn spec_match_initialize(fs: Seq<RawFieldV>) -> Option<MessageV> {
    if fs.len() == 1 && fs[0].num == 1 && fs[0].val is Varint {
        Some(MessageV::Initialize { mode: fs[0].val->Varint_0 })
    } else {
        None
    }
}

/// A network status report: a state number and a peer count.
pub open spec fn spec_match_network_status(fs: Seq<RawFieldV>) -> Option<MessageV> {
    if fs.len() == 2 && fs[0].num == 1 && fs[0].val is Varint && fs[1].num == 2 && fs[1].val
        is Varint {
        Some(
            MessageV::NetworkStatus {
                state: fs[0].val->Varint_0,
                peer_count: fs[1].val->Varint_0,
            },
        )
    } else {
        None
    }
}

/// Structural acceptance of one schema over a decoded field stream.
pub open spec fn spec_match_schema(s: SchemaId, fs: Seq<RawFieldV>) -> Option<MessageV> {
    match s {
        SchemaId::Envelope => spec_match_envelope(fs),
        SchemaId::Generic => spec_match_generic(fs),
        SchemaId::PingRequest => spec_match_ping_request(fs),
        SchemaId::PingResponse => spec_match_ping_response(fs),
        SchemaId::HealthCheckRequest => spec_match_health_check_request(fs),
        SchemaId::HealthCheckResponse => spec_match_health_check_response(fs),
        SchemaId::StatusResponse => spec_match_status_response(fs),
        SchemaId::Initialize => spec_match_initialize(fs),
        SchemaId::NetworkStatus => spec_match_network_status(fs),
    }
}

/// The first schema of `table`, from position `i` on, that accepts `fs`.
pub open spec fn spec_first_match_from(table: Seq<SchemaId>, fs: Seq<RawFieldV>, i: int) -> Option<
    MessageV,
>
    decreases table.len() - i,
{
    if i < 0 || i >= table.len() {
        None
    } else {
        match spec_match_schema(table[i], fs) {
            Some(m) => Some(m),
            None => spec_first_match_from(table, fs, i + 1),
        }
    }
}

/// Classification: decode the field stream, then take the first schema of the
/// table that accepts it. `None` is the unknown-message outcome.
pub open spec fn spec_classify(b: Seq<u8>, table: Seq<SchemaId>) -> Option<MessageV> {
    match spec_parse_fields(b) {
        None => None,
        Some(fs) => spec_first_match_from(table, fs, 0),
    }
}

/// The default priority order, the envelope first and the flat legacy
/// schemas after it.
pub open spec fn spec_default_table() -> Seq<SchemaId> {
    seq![
        SchemaId::Envelope,
        SchemaId::Generic,
        SchemaId::PingRequest,
        SchemaId::PingResponse,
        SchemaId::HealthCheckRequest,
        SchemaId::HealthCheckResponse,
        SchemaId::StatusResponse,
        SchemaId::Initialize,
        SchemaId::NetworkStatus,
    ]
}

/// The default priority table as a value the dispatcher takes.
pub fn default_table() -> (r: Vec<SchemaId>)
    ensures
        r@ == spec_default_table(),
{
    let mut t: Vec<SchemaId> = Vec::new();
    t.push(SchemaId::Envelope);
    t.push(SchemaId::Generic);
    t.push(SchemaId::PingRequest);
    t.push(SchemaId::PingResponse);
    t.push(SchemaId::HealthCheckRequest);
    t.push(SchemaId::HealthCheckResponse);
    t.push(SchemaId::StatusResponse);
    t.push(SchemaId::Initialize);
    t.push(SchemaId::NetworkStatus);
    assert(t@ =~= spec_default_table());
    t
}

/// An owned copy of a byte buffer.
fn copy_bytes(v: &Vec<u8>) -> (r: Vec<u8>)
    ensures
        r@ == v@,
{
    slice_to_vec(v.as_slice())
}

fn match_generate_request(fs: &Vec<RawField>) -> (r: Option<Message>)
    ensures
        match r {
            Some(m) => spec_match_generate_request(view_fields(fs@)) == Some(m@),
            None => spec_match_generate_request(view_fields(fs@)) == None::<MessageV>,
        },
{
    if fs.len() != 3 {
        return None;
    }
    if fs[0].num != 1 || fs[1].num != 2 || fs[2].num != 3 {
        return None;
    }
    let model = match &fs[0].val {
        FieldVal::Chunk(c) => copy_bytes(c),
        _ => {
            return None;
        },
    };
    let prompt = match &fs[1].val {
        FieldVal::Chunk(c) => copy_bytes(c),
        _ => {
            return None;
        },
    };
    let flag = match &fs[2].val {
        FieldVal::Varint(v) => *v,
        _ => {
            return None;
        },
    };
    if flag > 1 {
        return None;
    }
    Some(Message::GenerateRequest { model, prompt, stream: flag == 1 })
}

fn match_generate_response(fs: &Vec<RawField>) -> (r: Option<Message>)
    ensures
        match r {
            Some(m) => spec_match_generate_response(view_fields(fs@)) == Some(m@),
            None => spec_match_generate_response(view_fields(fs@)) == None::<MessageV>,
        },
{
    if fs.len() != 4 {
        return None;
    }
    if fs[0].num != 1 || fs[1].num != 2 || fs[2].num != 3 || fs[3].num != 4 {
        return None;
    }
    let model = match &fs[0].val {
        FieldVal::Chunk(c) => copy_bytes(c),
        _ => {
            return None;
        },
    };
    let response = match &fs[1].val {
        FieldVal::Chunk(c) => copy_bytes(c),
        _ => {
            return None;
        },
    };
    let flag = match &fs[2].val {
        FieldVal::Varint(v) => *v,
        _ => {
            return None;
        },
    };
    if flag > 1 {
        return None;
    }
    let worker_id = match &fs[3].val {
        FieldVal::Chunk(c) => copy_bytes(c),
        _ => {
            return None;
        },
    };
    Some(Message::GenerateResponse { model, response, done: flag == 1, worker_id })
}

fn match_envelope(fs: &Vec<RawField>) -> (r: Option<Message>)
    ensures
        match r {
            Some(m) => spec_match_envelope(view_fields(fs@)) == Some(m@),
            None => spec_match_envelope(view_fields(fs@)) == None::<MessageV>,
        },
{
    if fs.len() == 0 {
        return Some(Message::EmptyEnvelope);
    }
    if fs.len() != 1 {
        return None;
    }
    if fs[0].num == 1 {
        let nested = match &fs[0].val {
            FieldVal::Chunk(c) => c,
            _ => {
                return None;
            },
        };
        let nfs = match parse_fields(nested) {
            None => {
                return None;
            },
            Some(n) => n,
        };
        match_generate_request(&nfs)
    } else if fs[0].num == 2 {
        let nested = match &fs[0].val {
            FieldVal::Chunk(c) => c,
            _ => {
                return None;
            },
        };
        let nfs = match parse_fields(nested) {
            None => {
                return None;
            },
            Some(n) => n,
        };
        match_generate_response(&nfs)
    } else {
        None
    }
}

fn match_generic(fs: &Vec<RawField>) -> (r: Option<Message>)
    ensures
        match r {
            Some(m) => spec_match_generic(view_fields(fs@)) == Some(m@),
            None => spec_match_generic(view_fields(fs@)) == None::<MessageV>,
        },
{
    if fs.len() != 2 {
        return None;
    }
    if fs[0].num != 1 || fs[1].num != 2 {
        return None;
    }
    let id = match &fs[0].val {
        FieldVal::Chunk(c) => copy_bytes(c),
        _ => {
            return None;
        },
    };
    let kind = match &fs[1].val {
        FieldVal::Chunk(c) => copy_bytes(c),
        _ => {
            return None;
        },
    };
    Some(Message::Generic { id, kind })
}

fn match_ping_request(fs: &Vec<RawField>) -> (r: Option<Message>)
    ensures
        match r {
            Some(m) => spec_match_ping_request(view_fields(fs@)) == Some(m@),
            None => spec_match_ping_request(view_fields(fs@)) == None::<MessageV>,
        },
{
    if fs.len() != 1 || fs[0].num != 3 {
        return None;
    }
    let message = match &fs[0].val {
        FieldVal::Chunk(c) => copy_bytes(c),
        _ => {
            return None;
        },
    };
    Some(Message::PingRequest { message })
}

fn match_ping_response(fs: &Vec<RawField>) -> (r: Option<Message>)
    ensures
        match r {
            Some(m) => spec_match_ping_response(view_fields(fs@)) == Some(m@),
            None => spec_match_ping_response(view_fields(fs@)) == None::<MessageV>,
        },
{
    if fs.len() != 2 || fs[0].num != 3 || fs[1].num != 4 {
        return None;
    }
    let message = match &fs[0].val {
        FieldVal::Chunk(c) => copy_bytes(c),
        _ => {
            return None;
        },
    };
    let latency_ms = match &fs[1].val {
        FieldVal::Varint(v) => *v,
        _ => {
            return None;
        },
    };
    Some(Message::PingResponse { message, latency_ms })
}

fn match_health_check_request(fs: &Vec<RawField>) -> (r: Option<Message>)
    ensures
        match r {
            Some(m) => spec_match_health_check_request(view_fields(fs@)) == Some(m@),
            None => spec_match_health_check_request(view_fields(fs@)) == None::<MessageV>,
        },
{
    if fs.len() != 1 || fs[0].num != 5 {
        return None;
    }
    let service = match &fs[0].val {
        FieldVal::Chunk(c) => copy_bytes(c),
        _ => {
            return None;
        },
    };
    Some(Message::HealthCheckRequest { service })
}

fn match_health_check_response(fs: &Vec<RawField>) -> (r: Option<Message>)
    ensures
        match r {
            Some(m) => spec_match_health_check_response(view_fields(fs@)) == Some(m@),
            None => spec_match_health_check_response(view_fields(fs@)) == None::<MessageV>,
        },
{
    if fs.len() != 2 || fs[0].num != 5 || fs[1].num != 6 {
        return None;
    }
    let service = match &fs[0].val {
        FieldVal::Chunk(c) => copy_bytes(c),
        _ => {
            return None;
        },
    };
    let status = match &fs[1].val {
        FieldVal::Varint(v) => *v,
        _ => {
            return None;
        },
    };
    Some(Message::HealthCheckResponse { service, status })
}

fn match_status_response(fs: &Vec<RawField>) -> (r: Option<Message>)
    ensures
        match r {
            Some(m) => spec_match_status_response(view_fields(fs@)) == Some(m@),
            None => spec_match_status_response(view_fields(fs@)) == None::<MessageV>,
        },
{
    if fs.len() != 2 || fs[0].num != 1 || fs[1].num != 2 {
        return None;
    }
    let status = match &fs[0].val {
        FieldVal::Varint(v) => *v,
        _ => {
            return None;
        },
    };
    let message = match &fs[1].val {
        FieldVal::Chunk(c) => copy_bytes(c),
        _ => {
            return None;
        },
    };
    Some(Message::StatusResponse { status, message })
}

fn match_initialize(fs: &Vec<RawField>) -> (r: Option<Message>)
    ensures
        match r {
            Some(m) => spec_match_initialize(view_fields(fs@)) == Some(m@),
            None => spec_match_initialize(view_fields(fs@)) == None::<MessageV>,
        },
{
    if fs.len() != 1 || fs[0].num != 1 {
        return None;
    }
    let mode = match &fs[0].val {
        FieldVal::Varint(v) => *v,
        _ => {
            return None;
        },
    };
    Some(Message::Initialize { mode })
}

fn match_network_status(fs: &Vec<RawField>) -> (r: Option<Message>)
    ensures
        match r {
            Some(m) => spec_match_network_status(view_fields(fs@)) == Some(m@),
            None => spec_match_network_status(view_fields(fs@)) == None::<MessageV>,
        },
{
    if fs.len() != 2 || fs[0].num != 1 || fs[1].num != 2 {
        return None;
    }
    let state = match &fs[0].val {
        FieldVal::Varint(v) => *v,
        _ => {
            return None;
        },
    };
    let peer_count = match &fs[1].val {
        FieldVal::Varint(v) => *v,
        _ => {
            return None;
        },
    };
    Some(Message::NetworkStatus { state, peer_count })
}

/// One schema tried against a decoded field stream.
fn match_schema(s: SchemaId, fs: &Vec<RawField>) -> (r: Option<Message>)
    ensures
        match r {
            Some(m) => spec_match_schema(s, view_fields(fs@)) == Some(m@),
            None => spec_match_schema(s, view_fields(fs@)) == None::<MessageV>,
        },
{
    match s {
        SchemaId::Envelope => match_envelope(fs),
        SchemaId::Generic => match_generic(fs),
        SchemaId::PingRequest => match_ping_request(fs),
        SchemaId::PingResponse => match_ping_response(fs),
        SchemaId::HealthCheckRequest => match_health_check_request(fs),
        SchemaId::HealthCheckResponse => match_health_check_response(fs),
        SchemaId::StatusResponse => match_status_response(fs),
        SchemaId::Initialize => match_initialize(fs),
        SchemaId::NetworkStatus => match_network_status(fs),
    }
}

fn make_unknown(payload: &Vec<u8>) -> (r: DispatchError)
    ensures
        r@ == (DispatchErrorV::UnknownMessageType { preview: spec_preview(payload@) }),
{
    let n = if payload.len() <= PREVIEW_LEN {
        payload.len()
    } else {
        PREVIEW_LEN
    };
    let preview = slice_to_vec(slice_subrange(payload.as_slice(), 0, n));
    proof {
        if payload@.len() <= 50 {
            assert(payload@.subrange(0, n as int) =~= payload@);
        } else {
            assert(payload@.subrange(0, n as int) =~= payload@.take(50));
        }
    }
    DispatchError::UnknownMessageType { preview }
}

/// Classifies a payload against a priority table: the first schema that
/// structurally accepts it wins; if none does, the error carries a bounded
/// preview of the payload.
pub fn classify(payload: &Vec<u8>, table: &Vec<SchemaId>) -> (r: Result<Message, DispatchError>)
    ensures
        match r {
            Ok(m) => spec_classify(payload@, table@) == Some(m@),
            Err(e) => {
                &&& spec_classify(payload@, table@) == None::<MessageV>
                &&& e@ == (DispatchErrorV::UnknownMessageType { preview: spec_preview(payload@) })
            },
        },
{
    let fs = match parse_fields(payload) {
        None => {
            return Err(make_unknown(payload));
        },
        Some(fs) => fs,
    };
    let ghost fsv = view_fields(fs@);
    let mut i: usize = 0;
    while i < table.len()
        invariant
            i <= table@.len(),
            fsv == view_fields(fs@),
            spec_parse_fields(payload@) == Some(fsv),
            spec_first_match_from(table@, fsv, 0) == spec_first_match_from(table@, fsv, i as int),
        decreases table@.len() - i,
    {
        match match_schema(table[i], &fs) {
            Some(m) => {
                return Ok(m);
            },
            None => {},
        }
        i = i + 1;
    }
    Err(make_unknown(payload))
}

} // verus!
