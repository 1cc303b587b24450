//! Serialization of messages into their wire form, and the proof that the
//! dispatcher sends every serialized message back to exactly the schema it
//! came from.

use crate::schema::{
    spec_classify, spec_default_table, spec_first_match_from, spec_match_schema, Message, MessageV,
};
use crate::wire::{
    encode_chunk_field, encode_varint_field, lemma_encode_varint_len, lemma_parse_chunk_field,
    lemma_parse_varint_field, spec_encode_chunk_field, spec_encode_varint_field,
    spec_parse_fields, FieldValV, RawFieldV,
};
use vstd::prelude::*;

verus! {

/// The wire bit for a flag.
pub open spec fn spec_bool_bit(b: bool) -> u64 {
    if b {
        1
    } else {
        0
    }
}

/// The nested body of a generate request.
pub open spec fn spec_encode_generate_request(
    model: Seq<u8>,
    prompt: Seq<u8>,
    stream: bool,
) -> Seq<u8> {
    spec_encode_chunk_field(1, model) + spec_encode_chunk_field(2, prompt)
        + spec_encode_varint_field(3, spec_bool_bit(stream))
}

/// The nested body of a generate response.
pub open spec fn spec_encode_generate_response(
    model: Seq<u8>,
    response: Seq<u8>,
    done: bool,
    worker_id: Seq<u8>,
) -> Seq<u8> {
    spec_encode_chunk_field(1, model) + spec_encode_chunk_field(2, response)
        + spec_encode_varint_field(3, spec_bool_bit(done)) + spec_encode_chunk_field(4, worker_id)
}

/// The serialized form of each message: its schema's fields, in field order.
pub open spec fn spec_encode_message(m: MessageV) -> Seq<u8> {
    match m {
        MessageV::GenerateRequest { model, prompt, stream } => spec_encode_chunk_field(
            1,
            spec_encode_generate_request(model, prompt, stream),
        ),
        MessageV::GenerateResponse { model, response, done, worker_id } => spec_encode_chunk_field(
            2,
            spec_encode_generate_response(model, response, done, worker_id),
        ),
        MessageV::EmptyEnvelope => Seq::empty(),
        MessageV::Generic { id, kind } => spec_encode_chunk_field(1, id)
            + spec_encode_chunk_field(2, kind),
        MessageV::PingRequest { message } => spec_encode_chunk_field(3, message),
        MessageV::PingResponse { message, latency_ms } => spec_encode_chunk_field(3, message)
            + spec_encode_varint_field(4, latency_ms),
        MessageV::HealthCheckRequest { service } => spec_encode_chunk_field(5, service),
        MessageV::HealthCheckResponse { service, status } => spec_encode_chunk_field(5, service)
            + spec_encode_varint_field(6, status),
        MessageV::StatusResponse { status, message } => spec_encode_varint_field(1, status)
            + spec_encode_chunk_field(2, message),
        MessageV::Initialize { mode } => spec_encode_varint_field(1, mode),
        MessageV::NetworkStatus { state, peer_count } => spec_encode_varint_field(1, state)
            + spec_encode_varint_field(2, peer_count),
    }
}

/// Well-formedness of a message: each byte-string field fits a 32-bit length,
/// the machine limit this wire format imposes on a single field.
pub open spec fn spec_message_wf(m: MessageV) -> bool {
    match m {
        MessageV::GenerateRequest { model, prompt, .. } => model.len() <= 0xFFFF_FFFF
            && prompt.len() <= 0xFFFF_FFFF,
        MessageV::GenerateResponse { model, response, worker_id, .. } => model.len()
            <= 0xFFFF_FFFF && response.len() <= 0xFFFF_FFFF && worker_id.len() <= 0xFFFF_FFFF,
        MessageV::EmptyEnvelope => true,
        MessageV::Generic { id, kind } => id.len() <= 0xFFFF_FFFF && kind.len() <= 0xFFFF_FFFF,
        MessageV::PingRequest { message } => message.len() <= 0xFFFF_FFFF,
        MessageV::PingResponse { message, .. } => message.len() <= 0xFFFF_FFFF,
        MessageV::HealthCheckRequest { service } => service.len() <= 0xFFFF_FFFF,
        MessageV::HealthCheckResponse { service, .. } => service.len() <= 0xFFFF_FFFF,
        MessageV::StatusResponse { message, .. } => message.len() <= 0xFFFF_FFFF,
        MessageV::Initialize { .. } => true,
        MessageV::NetworkStatus { .. } => true,
    }
}

/// Serializes a message. The bytes are exactly `spec_encode_message` of it.
pub fn encode_message(m: &Message) -> (r: Vec<u8>)
    ensures
        r@ == spec_encode_message(m@),
{
    let mut out: Vec<u8> = Vec::new();
    match m {
        Message::GenerateRequest { model, prompt, stream } => {
            let mut nested: Vec<u8> = Vec::new();
            encode_chunk_field(&mut nested, 1, model);
            encode_chunk_field(&mut nested, 2, prompt);
            encode_varint_field(&mut nested, 3, if *stream {
                1
            } else {
                0
            });
            assert(nested@ =~= spec_encode_generate_request(model@, prompt@, *stream));
            encode_chunk_field(&mut out, 1, &nested);
            assert(out@ =~= spec_encode_message(m@));
        },
        Message::GenerateResponse { model, response, done, worker_id } => {
            let mut nested: Vec<u8> = Vec::new();
            encode_chunk_field(&mut nested, 1, model);
            encode_chunk_field(&mut nested, 2, response);
            encode_varint_field(&mut nested, 3, if *done {
                1
            } else {
                0
            });
            encode_chunk_field(&mut nested, 4, worker_id);
            assert(nested@ =~= spec_encode_generate_response(
                model@,
                response@,
                *done,
                worker_id@,
            ));
            encode_chunk_field(&mut out, 2, &nested);
            assert(out@ =~= spec_encode_message(m@));
        },
        Message::EmptyEnvelope => {
            assert(out@ =~= spec_encode_message(m@));
        },
        Message::Generic { id, kind } => {
            encode_chunk_field(&mut out, 1, id);
            encode_chunk_field(&mut out, 2, kind);
            assert(out@ =~= spec_encode_message(m@));
        },
        Message::PingRequest { message } => {
            encode_chunk_field(&mut out, 3, message);
            assert(out@ =~= spec_encode_message(m@));
        },
        Message::PingResponse { message, latency_ms } => {
            encode_chunk_field(&mut out, 3, message);
            encode_varint_field(&mut out, 4, *latency_ms);
            assert(out@ =~= spec_encode_message(m@));
        },
        Message::HealthCheckRequest { service } => {
            encode_chunk_field(&mut out, 5, service);
            assert(out@ =~= spec_encode_message(m@));
        },
        Message::HealthCheckResponse { service, status } => {
            encode_chunk_field(&mut out, 5, service);
            encode_varint_field(&mut out, 6, *status);
            assert(out@ =~= spec_encode_message(m@));
        },
        Message::StatusResponse { status, message } => {
            encode_varint_field(&mut out, 1, *status);
            encode_chunk_field(&mut out, 2, message);
            assert(out@ =~= spec_encode_message(m@));
        },
        Message::Initialize { mode } => {
            encode_varint_field(&mut out, 1, *mode);
            assert(out@ =~= spec_encode_message(m@));
        },
        Message::NetworkStatus { state, peer_count } => {
            encode_varint_field(&mut out, 1, *state);
            encode_varint_field(&mut out, 2, *peer_count);
            assert(out@ =~= spec_encode_message(m@));
        },
    }
    out
}

/// Parsing the lone encoding of a varint field yields that one field.
proof fn lemma_parse_one_varint_field(num: u64, v: u64)
    requires
        1 <= num <= 0xFFFF,
    ensures
        spec_parse_fields(spec_encode_varint_field(num, v)) == Some(
            seq![RawFieldV { num, val: FieldValV::Varint(v) }],
        ),
{
    let e = spec_encode_varint_field(num, v);
    lemma_parse_varint_field(num, v, Seq::empty());
    assert(e + Seq::<u8>::empty() =~= e);
    assert(seq![RawFieldV { num, val: FieldValV::Varint(v) }] + Seq::<RawFieldV>::empty()
        =~= seq![RawFieldV { num, val: FieldValV::Varint(v) }]);
}

/// Parsing the lone encoding of a chunk field yields that one field.
proof fn lemma_parse_one_chunk_field(num: u64, bytes: Seq<u8>)
    requires
        1 <= num <= 0xFFFF,
        bytes.len() <= u64::MAX,
    ensures
        spec_parse_fields(spec_encode_chunk_field(num, bytes)) == Some(
            seq![RawFieldV { num, val: FieldValV::Chunk(bytes) }],
        ),
{
    let e = spec_encode_chunk_field(num, bytes);
    lemma_parse_chunk_field(num, bytes, Seq::empty());
    assert(e + Seq::<u8>::empty() =~= e);
    assert(seq![RawFieldV { num, val: FieldValV::Chunk(bytes) }] + Seq::<RawFieldV>::empty()
        =~= seq![RawFieldV { num, val: FieldValV::Chunk(bytes) }]);
}

/// The field stream of a serialized generate-request body.
proof fn lemma_parse_generate_request(model: Seq<u8>, prompt: Seq<u8>, stream: bool)
    requires
        model.len() <= u64::MAX,
        prompt.len() <= u64::MAX,
    ensures
        spec_parse_fields(spec_encode_generate_request(model, prompt, stream)) == Some(
            seq![
                RawFieldV { num: 1, val: FieldValV::Chunk(model) },
                RawFieldV { num: 2, val: FieldValV::Chunk(prompt) },
                RawFieldV { num: 3, val: FieldValV::Varint(spec_bool_bit(stream)) },
            ],
        ),
{
    let e1 = spec_encode_chunk_field(1, model);
    let e2 = spec_encode_chunk_field(2, prompt);
    let e3 = spec_encode_varint_field(3, spec_bool_bit(stream));
    let f1 = RawFieldV { num: 1, val: FieldValV::Chunk(model) };
    let f2 = RawFieldV { num: 2, val: FieldValV::Chunk(prompt) };
    let f3 = RawFieldV { num: 3, val: FieldValV::Varint(spec_bool_bit(stream)) };
    lemma_parse_one_varint_field(3, spec_bool_bit(stream));
    lemma_parse_chunk_field(2, prompt, e3);
    assert(spec_parse_fields(e2 + e3) == Some(seq![f2] + seq![f3]));
    lemma_parse_chunk_field(1, model, e2 + e3);
    assert(spec_encode_generate_request(model, prompt, stream) =~= e1 + (e2 + e3));
    assert(spec_parse_fields(e1 + (e2 + e3)) == Some(seq![f1] + (seq![f2] + seq![f3])));
    assert(seq![f1] + (seq![f2] + seq![f3]) =~= seq![f1, f2, f3]);
}

/// The field stream of a serialized generate-response body.
proof fn lemma_parse_generate_response(
    model: Seq<u8>,
    response: Seq<u8>,
    done: bool,
    worker_id: Seq<u8>,
)
    requires
        model.len() <= u64::MAX,
        response.len() <= u64::MAX,
        worker_id.len() <= u64::MAX,
    ensures
        spec_parse_fields(spec_encode_generate_response(model, response, done, worker_id)) == Some(
            seq![
                RawFieldV { num: 1, val: FieldValV::Chunk(model) },
                RawFieldV { num: 2, val: FieldValV::Chunk(response) },
                RawFieldV { num: 3, val: FieldValV::Varint(spec_bool_bit(done)) },
                RawFieldV { num: 4, val: FieldValV::Chunk(worker_id) },
            ],
        ),
{
    let e1 = spec_encode_chunk_field(1, model);
    let e2 = spec_encode_chunk_field(2, response);
    let e3 = spec_encode_varint_field(3, spec_bool_bit(done));
    let e4 = spec_encode_chunk_field(4, worker_id);
    let f1 = RawFieldV { num: 1, val: FieldValV::Chunk(model) };
    let f2 = RawFieldV { num: 2, val: FieldValV::Chunk(response) };
    let f3 = RawFieldV { num: 3, val: FieldValV::Varint(spec_bool_bit(done)) };
    let f4 = RawFieldV { num: 4, val: FieldValV::Chunk(worker_id) };
    lemma_parse_one_chunk_field(4, worker_id);
    lemma_parse_varint_field(3, spec_bool_bit(done), e4);
    assert(spec_parse_fields(e3 + e4) == Some(seq![f3] + seq![f4]));
    lemma_parse_chunk_field(2, response, e3 + e4);
    assert(spec_parse_fields(e2 + (e3 + e4)) == Some(seq![f2] + (seq![f3] + seq![f4])));
    lemma_parse_chunk_field(1, model, e2 + (e3 + e4));
    assert(spec_encode_generate_response(model, response, done, worker_id) =~= e1 + (e2 + (e3
        + e4)));
    assert(spec_parse_fields(e1 + (e2 + (e3 + e4))) == Some(
        seq![f1] + (seq![f2] + (seq![f3] + seq![f4])),
    ));
    assert(seq![f1] + (seq![f2] + (seq![f3] + seq![f4])) =~= seq![f1, f2, f3, f4]);
}

/// The field stream of every serialized message.
#[verifier::rlimit(100)]
proof fn lemma_parse_encoded_message(m: MessageV)
    requires
        spec_message_wf(m),
    ensures
        spec_parse_fields(spec_encode_message(m)) == Some(spec_message_fields(m)),
{
    match m {
        MessageV::GenerateRequest { model, prompt, stream } => {
            lemma_parse_generate_request(model, prompt, stream);
            lemma_encoded_body_len_generate_request(model, prompt, stream);
            lemma_parse_one_chunk_field(
                1,
                spec_encode_generate_request(model, prompt, stream),
            );
        },
        MessageV::GenerateResponse { model, response, done, worker_id } => {
            lemma_parse_generate_response(model, response, done, worker_id);
            lemma_encoded_body_len_generate_response(model, response, done, worker_id);
            lemma_parse_one_chunk_field(
                2,
                spec_encode_generate_response(model, response, done, worker_id),
            );
        },
        MessageV::EmptyEnvelope => {
            assert(spec_encode_message(m).len() == 0);
            assert(spec_message_fields(m) =~= Seq::<RawFieldV>::empty());
        },
        MessageV::Generic { id, kind } => {
            let f1 = RawFieldV { num: 1, val: FieldValV::Chunk(id) };
            let f2 = RawFieldV { num: 2, val: FieldValV::Chunk(kind) };
            lemma_parse_one_chunk_field(2, kind);
            lemma_parse_chunk_field(1, id, spec_encode_chunk_field(2, kind));
            assert(seq![f1] + seq![f2] =~= seq![f1, f2]);
        },
        MessageV::PingRequest { message } => {
            lemma_parse_one_chunk_field(3, message);
        },
        MessageV::PingResponse { message, latency_ms } => {
            let f1 = RawFieldV { num: 3, val: FieldValV::Chunk(message) };
            let f2 = RawFieldV { num: 4, val: FieldValV::Varint(latency_ms) };
            lemma_parse_one_varint_field(4, latency_ms);
            lemma_parse_chunk_field(3, message, spec_encode_varint_field(4, latency_ms));
            assert(seq![f1] + seq![f2] =~= seq![f1, f2]);
        },
        MessageV::HealthCheckRequest { service } => {
            lemma_parse_one_chunk_field(5, service);
        },
        MessageV::HealthCheckResponse { service, status } => {
            let f1 = RawFieldV { num: 5, val: FieldValV::Chunk(service) };
            let f2 = RawFieldV { num: 6, val: FieldValV::Varint(status) };
            lemma_parse_one_varint_field(6, status);
            lemma_parse_chunk_field(5, service, spec_encode_varint_field(6, status));
            assert(seq![f1] + seq![f2] =~= seq![f1, f2]);
        },
        MessageV::StatusResponse { status, message } => {
            let f1 = RawFieldV { num: 1, val: FieldValV::Varint(status) };
            let f2 = RawFieldV { num: 2, val: FieldValV::Chunk(message) };
            lemma_parse_one_chunk_field(2, message);
            lemma_parse_varint_field(1, status, spec_encode_chunk_field(2, message));
            assert(seq![f1] + seq![f2] =~= seq![f1, f2]);
        },
        MessageV::Initialize { mode } => {
            lemma_parse_one_varint_field(1, mode);
        },
        MessageV::NetworkStatus { state, peer_count } => {
            let f1 = RawFieldV { num: 1, val: FieldValV::Varint(state) };
            let f2 = RawFieldV { num: 2, val: FieldValV::Varint(peer_count) };
            lemma_parse_one_varint_field(2, peer_count);
            lemma_parse_varint_field(1, state, spec_encode_varint_field(2, peer_count));
            assert(seq![f1] + seq![f2] =~= seq![f1, f2]);
        },
    }
}

/// The top-level field stream each message serializes to.
pub open spec fn spec_message_fields(m: MessageV) -> Seq<RawFieldV> {
    match m {
        MessageV::GenerateRequest { model, prompt, stream } => seq![
            RawFieldV {
                num: 1,
                val: FieldValV::Chunk(spec_encode_generate_request(model, prompt, stream)),
            },
        ],
        MessageV::GenerateResponse { model, response, done, worker_id } => seq![
            RawFieldV {
                num: 2,
                val: FieldValV::Chunk(
                    spec_encode_generate_response(model, response, done, worker_id),
                ),
            },
        ],
        MessageV::EmptyEnvelope => Seq::empty(),
        MessageV::Generic { id, kind } => seq![
            RawFieldV { num: 1, val: FieldValV::Chunk(id) },
            RawFieldV { num: 2, val: FieldValV::Chunk(kind) },
        ],
        MessageV::PingRequest { message } => seq![
            RawFieldV { num: 3, val: FieldValV::Chunk(message) },
        ],
        MessageV::PingResponse { message, latency_ms } => seq![
            RawFieldV { num: 3, val: FieldValV::Chunk(message) },
            RawFieldV { num: 4, val: FieldValV::Varint(latency_ms) },
        ],
        MessageV::HealthCheckRequest { service } => seq![
            RawFieldV { num: 5, val: FieldValV::Chunk(service) },
        ],
        MessageV::HealthCheckResponse { service, status } => seq![
            RawFieldV { num: 5, val: FieldValV::Chunk(service) },
            RawFieldV { num: 6, val: FieldValV::Varint(status) },
        ],
        MessageV::StatusResponse { status, message } => seq![
            RawFieldV { num: 1, val: FieldValV::Varint(status) },
            RawFieldV { num: 2, val: FieldValV::Chunk(message) },
        ],
        MessageV::Initialize { mode } => seq![RawFieldV { num: 1, val: FieldValV::Varint(mode) }],
        MessageV::NetworkStatus { state, peer_count } => seq![
            RawFieldV { num: 1, val: FieldValV::Varint(state) },
            RawFieldV { num: 2, val: FieldValV::Varint(peer_count) },
        ],
    }
}

/// The encoded generate-request body fits a chunk field.
proof fn lemma_encoded_body_len_generate_request(model: Seq<u8>, prompt: Seq<u8>, stream: bool)
    requires
        model.len() <= 0xFFFF_FFFF,
        prompt.len() <= 0xFFFF_FFFF,
    ensures
        spec_encode_generate_request(model, prompt, stream).len() <= u64::MAX,
{
    lemma_encode_varint_len(10);
    lemma_encode_varint_len(18);
    lemma_encode_varint_len(26);
    lemma_encode_varint_len(model.len());
    lemma_encode_varint_len(prompt.len());
    lemma_encode_varint_len(spec_bool_bit(stream) as nat);
}

/// The encoded generate-response body fits a chunk field.
proof fn lemma_encoded_body_len_generate_response(
    model: Seq<u8>,
    response: Seq<u8>,
    done: bool,
    worker_id: Seq<u8>,
)
    requires
        model.len() <= 0xFFFF_FFFF,
        response.len() <= 0xFFFF_FFFF,
        worker_id.len() <= 0xFFFF_FFFF,
    ensures
        spec_encode_generate_response(model, response, done, worker_id).len() <= u64::MAX,
{
    lemma_encode_varint_len(10);
    lemma_encode_varint_len(18);
    lemma_encode_varint_len(26);
    lemma_encode_varint_len(34);
    lemma_encode_varint_len(model.len());
    lemma_encode_varint_len(response.len());
    lemma_encode_varint_len(worker_id.len());
    lemma_encode_varint_len(spec_bool_bit(done) as nat);
}

/// Every well-formed message, serialized, classifies under the default table
/// as exactly itself: its own schema accepts it with its own fields, and no
/// schema earlier in the table — and so in particular no lower-priority
/// schema — claims it instead.
/// Every well-formed message, serialized, classifies under the default table
/// as exactly itself: its own schema accepts it with its own fields, and no
/// schema earlier in the table — and so in particular no lower-priority
/// schema — claims it instead.
#[verifier::rlimit(100)]
pub proof fn lemma_classify_encoded(m: MessageV)
    requires
        spec_message_wf(m),
    ensures
        spec_classify(spec_encode_message(m), spec_default_table()) == Some(m),
{
    lemma_parse_encoded_message(m);
    let fs = spec_message_fields(m);
    let dt = spec_default_table();
    match m {
        MessageV::GenerateRequest { model, prompt, stream } => {
            lemma_parse_generate_request(model, prompt, stream);
            assert(spec_match_schema(dt[0], fs) == Some(m));
            assert(spec_first_match_from(dt, fs, 0) == Some(m));
        },
        MessageV::GenerateResponse { model, response, done, worker_id } => {
            lemma_parse_generate_response(model, response, done, worker_id);
            assert(spec_match_schema(dt[0], fs) == Some(m));
            assert(spec_first_match_from(dt, fs, 0) == Some(m));
        },
        MessageV::EmptyEnvelope => {
            assert(spec_match_schema(dt[0], fs) == Some(m));
            assert(spec_first_match_from(dt, fs, 0) == Some(m));
        },
        MessageV::Generic { id, kind } => {
            assert(spec_match_schema(dt[0], fs) is None);
            assert(spec_match_schema(dt[1], fs) == Some(m));
            assert(spec_first_match_from(dt, fs, 1) == Some(m));
            assert(spec_first_match_from(dt, fs, 0) == Some(m));
        },
        MessageV::PingRequest { message } => {
            assert(spec_match_schema(dt[0], fs) is None);
            assert(spec_match_schema(dt[1], fs) is None);
            assert(spec_match_schema(dt[2], fs) == Some(m));
            assert(spec_first_match_from(dt, fs, 2) == Some(m));
            assert(spec_first_match_from(dt, fs, 1) == Some(m));
            assert(spec_first_match_from(dt, fs, 0) == Some(m));
        },
        MessageV::PingResponse { message, latency_ms } => {
            assert(spec_match_schema(dt[0], fs) is None);
            assert(spec_match_schema(dt[1], fs) is None);
            assert(spec_match_schema(dt[2], fs) is None);
            assert(spec_match_schema(dt[3], fs) == Some(m));
            assert(spec_first_match_from(dt, fs, 3) == Some(m));
            assert(spec_first_match_from(dt, fs, 2) == Some(m));
            assert(spec_first_match_from(dt, fs, 1) == Some(m));
            assert(spec_first_match_from(dt, fs, 0) == Some(m));
        },
        MessageV::HealthCheckRequest { service } => {
            assert(spec_match_schema(dt[0], fs) is None);
            assert(spec_match_schema(dt[1], fs) is None);
            assert(spec_match_schema(dt[2], fs) is None);
            assert(spec_match_schema(dt[3], fs) is None);
            assert(spec_match_schema(dt[4], fs) == Some(m));
            assert(spec_first_match_from(dt, fs, 4) == Some(m));
            assert(spec_first_match_from(dt, fs, 3) == Some(m));
            assert(spec_first_match_from(dt, fs, 2) == Some(m));
            assert(spec_first_match_from(dt, fs, 1) == Some(m));
            assert(spec_first_match_from(dt, fs, 0) == Some(m));
        },
        MessageV::HealthCheckResponse { service, status } => {
            assert(spec_match_schema(dt[0], fs) is None);
            assert(spec_match_schema(dt[1], fs) is None);
            assert(spec_match_schema(dt[2], fs) is None);
            assert(spec_match_schema(dt[3], fs) is None);
            assert(spec_match_schema(dt[4], fs) is None);
            assert(spec_match_schema(dt[5], fs) == Some(m));
            assert(spec_first_match_from(dt, fs, 5) == Some(m));
            assert(spec_first_match_from(dt, fs, 4) == Some(m));
            assert(spec_first_match_from(dt, fs, 3) == Some(m));
            assert(spec_first_match_from(dt, fs, 2) == Some(m));
            assert(spec_first_match_from(dt, fs, 1) == Some(m));
            assert(spec_first_match_from(dt, fs, 0) == Some(m));
        },
        MessageV::StatusResponse { status, message } => {
            assert(spec_match_schema(dt[0], fs) is None);
            assert(spec_match_schema(dt[1], fs) is None);
            assert(spec_match_schema(dt[2], fs) is None);
            assert(spec_match_schema(dt[3], fs) is None);
            assert(spec_match_schema(dt[4], fs) is None);
            assert(spec_match_schema(dt[5], fs) is None);
            assert(spec_match_schema(dt[6], fs) == Some(m));
            assert(spec_first_match_from(dt, fs, 6) == Some(m));
            assert(spec_first_match_from(dt, fs, 5) == Some(m));
            assert(spec_first_match_from(dt, fs, 4) == Some(m));
            assert(spec_first_match_from(dt, fs, 3) == Some(m));
            assert(spec_first_match_from(dt, fs, 2) == Some(m));
            assert(spec_first_match_from(dt, fs, 1) == Some(m));
            assert(spec_first_match_from(dt, fs, 0) == Some(m));
        },
        MessageV::Initialize { mode } => {
            assert(spec_match_schema(dt[0], fs) is None);
            assert(spec_match_schema(dt[1], fs) is None);
            assert(spec_match_schema(dt[2], fs) is None);
            assert(spec_match_schema(dt[3], fs) is None);
            assert(spec_match_schema(dt[4], fs) is None);
            assert(spec_match_schema(dt[5], fs) is None);
            assert(spec_match_schema(dt[6], fs) is None);
            assert(spec_match_schema(dt[7], fs) == Some(m));
            assert(spec_first_match_from(dt, fs, 7) == Some(m));
            assert(spec_first_match_from(dt, fs, 6) == Some(m));
            assert(spec_first_match_from(dt, fs, 5) == Some(m));
            assert(spec_first_match_from(dt, fs, 4) == Some(m));
            assert(spec_first_match_from(dt, fs, 3) == Some(m));
            assert(spec_first_match_from(dt, fs, 2) == Some(m));
            assert(spec_first_match_from(dt, fs, 1) == Some(m));
            assert(spec_first_match_from(dt, fs, 0) == Some(m));
        },
        MessageV::NetworkStatus { state, peer_count } => {
            assert(spec_match_schema(dt[0], fs) is None);
            assert(spec_match_schema(dt[1], fs) is None);
            assert(spec_match_schema(dt[2], fs) is None);
            assert(spec_match_schema(dt[3], fs) is None);
            assert(spec_match_schema(dt[4], fs) is None);
            assert(spec_match_schema(dt[5], fs) is None);
            assert(spec_match_schema(dt[6], fs) is None);
            assert(spec_match_schema(dt[7], fs) is None);
            assert(spec_match_schema(dt[8], fs) == Some(m));
            assert(spec_first_match_from(dt, fs, 8) == Some(m));
            assert(spec_first_match_from(dt, fs, 7) == Some(m));
            assert(spec_first_match_from(dt, fs, 6) == Some(m));
            assert(spec_first_match_from(dt, fs, 5) == Some(m));
            assert(spec_first_match_from(dt, fs, 4) == Some(m));
            assert(spec_first_match_from(dt, fs, 3) == Some(m));
            assert(spec_first_match_from(dt, fs, 2) == Some(m));
            assert(spec_first_match_from(dt, fs, 1) == Some(m));
            assert(spec_first_match_from(dt, fs, 0) == Some(m));
        },
    }
}

} // verus!
