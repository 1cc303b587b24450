//! Per-connection handling. A connection loops through reading a 4-byte
//! length prefix, reading that many payload bytes, and dispatching the
//! payload, until the stream ends. A malformed or unrecognized payload never
//! closes the connection; only the stream ending or a hostile length prefix
//! does. Nothing here touches a socket: the surrounding application performs
//! the reads and hands their results in, or hands in the bytes a stream
//! delivered as a whole.

use crate::codec::{spec_encode, spec_len_value};
use crate::schema::{
    classify, spec_classify, spec_preview, DispatchError, DispatchErrorV, Message, MessageV,
    SchemaId,
};
use vstd::prelude::*;
use vstd::slice::{slice_subrange, slice_to_vec};

verus! {

/// Why a connection ended.
#[derive(Clone, Copy, Debug, PartialEq, Eq, Structural)]
pub enum CloseKind {
    /// The peer hung up cleanly between frames.
    Normal,
    /// The stream ended inside a length prefix or a payload.
    IncompleteFrame,
    /// A length prefix declared more than the configured cap; the payload is
    /// never read or allocated.
    FrameTooLarge,
    /// The stream failed with an error other than end-of-stream.
    ReadFailed,
}

/// What a read of the 4-byte length prefix gave.
pub enum LengthRead {
    /// All 4 prefix bytes arrived.
    Bytes(Vec<u8>),
    /// End of stream before any prefix byte: the normal hang-up point.
    CleanEof,
    /// End of stream inside the prefix.
    TruncatedEof,
    /// An I/O error other than end-of-stream.
    IoError,
}

/// What a read of a frame's payload gave.
pub enum PayloadRead {
    /// The whole declared payload arrived.
    Bytes(Vec<u8>),
    /// End of stream inside the payload.
    TruncatedEof,
    /// An I/O error other than end-of-stream.
    IoError,
}

/// The handler's move after the length-prefix read.
#[derive(Clone, Copy, Debug, PartialEq, Eq, Structural)]
pub enum LengthStep {
    /// Read this many payload bytes next.
    ReadPayload(u32),
    /// Close the connection.
    Close(CloseKind),
}

/// The handler's move after the payload read.
#[derive(Debug, PartialEq, Eq)]
pub enum PayloadStep {
    /// The frame was dispatched; report the outcome and read the next length
    /// prefix on the same connection.
    Dispatched(Result<Message, DispatchError>),
    /// Close the connection.
    Close(CloseKind),
}

/// Ghost image of one dispatch outcome.
pub open spec fn view_outcome(r: Result<Message, DispatchError>) -> Result<
    MessageV,
    DispatchErrorV,
> {
    match r {
        Ok(m) => Ok(m@),
        Err(e) => Err(e@),
    }
}

/// Ghost image of a list of dispatch outcomes.
pub open spec fn view_outcomes(s: Seq<Result<Message, DispatchError>>) -> Seq<
    Result<MessageV, DispatchErrorV>,
> {
    s.map_values(|r: Result<Message, DispatchError>| view_outcome(r))
}

/// Everything one connection produced: the dispatch outcome of each complete
/// frame, in order, and why the connection closed.
pub struct ConnectionReport {
    pub outcomes: Vec<Result<Message, DispatchError>>,
    pub close: CloseKind,
}

/// Ghost image of `ConnectionReport`.
pub struct ConnectionReportV {
    pub outcomes: Seq<Result<MessageV, DispatchErrorV>>,
    pub close: CloseKind,
}

impl View for ConnectionReport {
    type V = ConnectionReportV;

    open spec fn view(&self) -> ConnectionReportV {
        ConnectionReportV { outcomes: view_outcomes(self.outcomes@), close: self.close }
    }
}

/// The outcome of dispatching one payload.
pub open spec fn spec_outcome(payload: Seq<u8>, table: Seq<SchemaId>) -> Result<
    MessageV,
    DispatchErrorV,
> {
    match spec_classify(payload, table) {
        Some(m) => Ok(m),
        None => Err(DispatchErrorV::UnknownMessageType { preview: spec_preview(payload) }),
    }
}

/// What a connection produces from the bytes its stream delivered in all.
/// `clean_end` tells whether the stream then ended cleanly or with an error.
/// Frames are taken off the front one at a time; every complete frame is
/// dispatched, successfully or not, and the close kind comes from whatever
/// cuts the stream short.
pub open spec fn spec_process(
    data: Seq<u8>,
    clean_end: bool,
    table: Seq<SchemaId>,
    max_payload: u32,
) -> ConnectionReportV
    decreases data.len(),
{
    if data.len() == 0 {
        ConnectionReportV {
            outcomes: Seq::empty(),
            close: if clean_end {
                CloseKind::Normal
            } else {
                CloseKind::ReadFailed
            },
        }
    } else if data.len() < 4 {
        ConnectionReportV {
            outcomes: Seq::empty(),
            close: if clean_end {
                CloseKind::IncompleteFrame
            } else {
                CloseKind::ReadFailed
            },
        }
    } else {
        let n = spec_len_value(data) as int;
        if n > max_payload {
            ConnectionReportV { outcomes: Seq::empty(), close: CloseKind::FrameTooLarge }
        } else if data.len() < 4 + n {
            ConnectionReportV {
                outcomes: Seq::empty(),
                close: if clean_end {
                    CloseKind::IncompleteFrame
                } else {
                    CloseKind::ReadFailed
                },
            }
        } else {
            let payload = data.subrange(4, 4 + n);
            let rest = spec_process(data.skip(4 + n), clean_end, table, max_payload);
            ConnectionReportV {
                outcomes: seq![spec_outcome(payload, table)] + rest.outcomes,
                close: rest.close,
            }
        }
    }
}

/// The transition out of the awaiting-length state, as a pure decision on
/// what the read gave. A complete prefix within the cap moves the connection
/// on to reading that many payload bytes; a clean end of stream closes it
/// normally; everything else closes it with the matching error.
pub fn on_length_read(r: &LengthRead, max_payload: u32) -> (s: LengthStep)
    requires
        r matches LengthRead::Bytes(b) ==> b@.len() == 4,
    ensures
        match r {
            LengthRead::Bytes(b) => {
                if spec_len_value(b@) <= max_payload {
                    s == LengthStep::ReadPayload(spec_len_value(b@))
                } else {
                    s == LengthStep::Close(CloseKind::FrameTooLarge)
                }
            },
            LengthRead::CleanEof => s == LengthStep::Close(CloseKind::Normal),
            LengthRead::TruncatedEof => s == LengthStep::Close(CloseKind::IncompleteFrame),
            LengthRead::IoError => s == LengthStep::Close(CloseKind::ReadFailed),
        },
{
    match r {
        LengthRead::Bytes(b) => {
            let n = crate::codec::frame_len(b);
            if n <= max_payload {
                LengthStep::ReadPayload(n)
            } else {
                LengthStep::Close(CloseKind::FrameTooLarge)
            }
        },
        LengthRead::CleanEof => LengthStep::Close(CloseKind::Normal),
        LengthRead::TruncatedEof => LengthStep::Close(CloseKind::IncompleteFrame),
        LengthRead::IoError => LengthStep::Close(CloseKind::ReadFailed),
    }
}

/// The transition out of the awaiting-payload state. A complete payload is
/// dispatched — success and unknown-message alike send the connection back
/// to awaiting the next length prefix — and a cut-off payload closes the
/// connection without touching the listener.
pub fn on_payload_read(r: &PayloadRead, table: &Vec<SchemaId>) -> (s: PayloadStep)
    ensures
        match r {
            PayloadRead::Bytes(p) => s matches PayloadStep::Dispatched(o) && view_outcome(o)
                == spec_outcome(p@, table@),
            PayloadRead::TruncatedEof => s == PayloadStep::Close(CloseKind::IncompleteFrame),
            PayloadRead::IoError => s == PayloadStep::Close(CloseKind::ReadFailed),
        },
{
    match r {
        PayloadRead::Bytes(p) => PayloadStep::Dispatched(classify(p, table)),
        PayloadRead::TruncatedEof => PayloadStep::Close(CloseKind::IncompleteFrame),
        PayloadRead::IoError => PayloadStep::Close(CloseKind::ReadFailed),
    }
}

/// Runs one connection over the bytes its stream delivered, exactly as the
/// incremental handler would: the report is `spec_process` of the input.
#[verifier::rlimit(100)]
pub fn process_connection(
    data: &Vec<u8>,
    clean_end: bool,
    table: &Vec<SchemaId>,
    max_payload: u32,
) -> (r: ConnectionReport)
    ensures
        r@ == spec_process(data@, clean_end, table@, max_payload),
{
    let mut outcomes: Vec<Result<Message, DispatchError>> = Vec::new();
    let mut cur: usize = 0;
    proof {
        assert(data@.skip(0) =~= data@);
        assert(view_outcomes(outcomes@) =~= Seq::<Result<MessageV, DispatchErrorV>>::empty());
        assert(Seq::<Result<MessageV, DispatchErrorV>>::empty() + spec_process(
            data@,
            clean_end,
            table@,
            max_payload,
        ).outcomes =~= spec_process(data@, clean_end, table@, max_payload).outcomes);
    }
    loop
        invariant
            cur <= data@.len(),
            spec_process(data@, clean_end, table@, max_payload).outcomes == view_outcomes(
                outcomes@,
            ) + spec_process(data@.skip(cur as int), clean_end, table@, max_payload).outcomes,
            spec_process(data@, clean_end, table@, max_payload).close == spec_process(
                data@.skip(cur as int),
                clean_end,
                table@,
                max_payload,
            ).close,
        decreases data@.len() - cur,
    {
        let ghost suffix = data@.skip(cur as int);
        let avail = data.len() - cur;
        if avail == 0 {
            let close = if clean_end {
                CloseKind::Normal
            } else {
                CloseKind::ReadFailed
            };
            proof {
                assert(view_outcomes(outcomes@) + Seq::<
                    Result<MessageV, DispatchErrorV>,
                >::empty() =~= view_outcomes(outcomes@));
            }
            return ConnectionReport { outcomes, close };
        }
        if avail < 4 {
            let close = if clean_end {
                CloseKind::IncompleteFrame
            } else {
                CloseKind::ReadFailed
            };
            proof {
                assert(view_outcomes(outcomes@) + Seq::<
                    Result<MessageV, DispatchErrorV>,
                >::empty() =~= view_outcomes(outcomes@));
            }
            return ConnectionReport { outcomes, close };
        }
        let b0 = data[cur] as u32;
        let b1 = data[cur + 1] as u32;
        let b2 = data[cur + 2] as u32;
        let b3 = data[cur + 3] as u32;
        let n = (b0 << 24) | (b1 << 16) | (b2 << 8) | b3;
        proof {
            assert(suffix[0] == data@[cur as int]);
            assert(suffix[1] == data@[cur + 1]);
            assert(suffix[2] == data@[cur + 2]);
            assert(suffix[3] == data@[cur + 3]);
            assert(n == spec_len_value(suffix));
        }
        if n > max_payload {
            proof {
                assert(view_outcomes(outcomes@) + Seq::<
                    Result<MessageV, DispatchErrorV>,
                >::empty() =~= view_outcomes(outcomes@));
            }
            return ConnectionReport { outcomes, close: CloseKind::FrameTooLarge };
        }
        if ((avail - 4) as u64) < n as u64 {
            let close = if clean_end {
                CloseKind::IncompleteFrame
            } else {
                CloseKind::ReadFailed
            };
            proof {
                assert(view_outcomes(outcomes@) + Seq::<
                    Result<MessageV, DispatchErrorV>,
                >::empty() =~= view_outcomes(outcomes@));
            }
            return ConnectionReport { outcomes, close };
        }
        let n_us = n as usize;
        let payload = slice_to_vec(slice_subrange(data.as_slice(), cur + 4, cur + 4 + n_us));
        proof {
            assert(payload@ =~= suffix.subrange(4, 4 + n as int));
        }
        let outcome = classify(&payload, table);
        let ghost outcomes0 = outcomes@;
        outcomes.push(outcome);
        proof {
            assert(suffix.skip(4 + n as int) =~= data@.skip(cur + 4 + n_us));
            assert(view_outcome(outcome) == spec_outcome(payload@, table@));
            assert(view_outcomes(outcomes@) =~= view_outcomes(outcomes0) + seq![
                view_outcome(outcome),
            ]);
            let rest = spec_process(
                data@.skip(cur + 4 + n_us),
                clean_end,
                table@,
                max_payload,
            );
            assert(spec_process(suffix, clean_end, table@, max_payload).outcomes == seq![
                spec_outcome(payload@, table@),
            ] + rest.outcomes);
            assert((view_outcomes(outcomes0) + seq![view_outcome(outcome)]) + rest.outcomes
                =~= view_outcomes(outcomes0) + (seq![view_outcome(outcome)] + rest.outcomes));
        }
        cur = cur + 4 + n_us;
    }
}

/// A complete frame at the front of the stream is dispatched, and the rest of
/// the stream is handled exactly as a stream that had started there: one
/// frame's outcome, whatever it is, never closes the connection.
pub proof fn lemma_process_frame(
    payload: Seq<u8>,
    rest: Seq<u8>,
    clean_end: bool,
    table: Seq<SchemaId>,
    max_payload: u32,
)
    requires
        payload.len() <= max_payload,
    ensures
        spec_process(spec_encode(payload) + rest, clean_end, table, max_payload)
            == (ConnectionReportV {
            outcomes: seq![spec_outcome(payload, table)] + spec_process(
                rest,
                clean_end,
                table,
                max_payload,
            ).outcomes,
            close: spec_process(rest, clean_end, table, max_payload).close,
        }),
{
    let data = spec_encode(payload) + rest;
    crate::codec::lemma_len_prefix_value(payload.len() as u32);
    let prefix = crate::codec::spec_len_prefix(payload.len() as u32);
    assert(data[0] == prefix[0]);
    assert(data[1] == prefix[1]);
    assert(data[2] == prefix[2]);
    assert(data[3] == prefix[3]);
    assert(spec_len_value(data) == payload.len() as u32);
    assert(data.subrange(4, 4 + payload.len() as int) =~= payload);
    assert(data.skip(4 + payload.len() as int) =~= rest);
}

/// An unknown message is reported — with its bounded preview — and the
/// connection stays open for the frames after it (one direction of the
/// dispatcher's tolerance; `lemma_process_frame` gives it for every
/// outcome).
pub proof fn lemma_unknown_message_keeps_connection(
    payload: Seq<u8>,
    rest: Seq<u8>,
    clean_end: bool,
    table: Seq<SchemaId>,
    max_payload: u32,
)
    requires
        payload.len() <= max_payload,
        spec_classify(payload, table) is None,
    ensures
        spec_process(spec_encode(payload) + rest, clean_end, table, max_payload).outcomes
            == seq![
            Err::<MessageV, DispatchErrorV>(
                DispatchErrorV::UnknownMessageType { preview: spec_preview(payload) },
            ),
        ] + spec_process(rest, clean_end, table, max_payload).outcomes,
        spec_process(spec_encode(payload) + rest, clean_end, table, max_payload).close
            == spec_process(rest, clean_end, table, max_payload).close,
{
    lemma_process_frame(payload, rest, clean_end, table, max_payload);
}

} // verus!
