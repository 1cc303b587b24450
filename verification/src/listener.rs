//! The socket listener's core: its configuration — the schema priority table
//! and the frame size cap — and the handling it applies to each accepted
//! connection. Binding the endpoint and accepting streams is I/O the
//! surrounding application performs; what reaches this type is what each
//! accept and each stream delivered.

use crate::codec::DEFAULT_MAX_PAYLOAD;
use crate::conn::{process_connection, spec_process, ConnectionReport};
use crate::schema::{
    classify, default_table, spec_classify, spec_default_table, spec_preview, DispatchError,
    DispatchErrorV, Message, MessageV, SchemaId,
};
use vstd::prelude::*;

verus! {

/// One turn of the accept loop: an accepted connection together with all the
/// bytes its stream delivered and how the stream ended, or an accept that
/// failed.
pub enum AcceptOutcome {
    Connection { data: Vec<u8>, clean_end: bool },
    AcceptError,
}

/// The listener, reduced to what it decides with: which schemas are tried in
/// which order, and how large a frame it tolerates.
pub struct SocketListener {
    pub table: Vec<SchemaId>,
    pub max_payload: u32,
}

impl SocketListener {
    /// A listener with the default schema table and the default frame cap.
    pub fn new() -> (r: Self)
        ensures
            r.table@ == spec_default_table(),
            r.max_payload == DEFAULT_MAX_PAYLOAD,
    {
        SocketListener { table: default_table(), max_payload: DEFAULT_MAX_PAYLOAD }
    }

    /// A listener with its own priority order and frame cap; new message
    /// types are added or reordered here, not in the read loop.
    pub fn with_config(table: Vec<SchemaId>, max_payload: u32) -> (r: Self)
        ensures
            r.table == table,
            r.max_payload == max_payload,
    {
        SocketListener { table, max_payload }
    }

    /// Classifies one payload against this listener's table.
    pub fn decode_protobuf_message(&self, data: &Vec<u8>) -> (r: Result<Message, DispatchError>)
        ensures
            match r {
                Ok(m) => spec_classify(data@, self.table@) == Some(m@),
                Err(e) => {
                    &&& spec_classify(data@, self.table@) == None::<MessageV>
                    &&& e@ == (DispatchErrorV::UnknownMessageType {
                        preview: spec_preview(data@),
                    })
                },
            },
    {
        classify(data, &self.table)
    }

    /// Handles one whole connection: every complete frame dispatched in
    /// order, and the close kind the stream's end dictates.
    pub fn process_connection(&self, data: &Vec<u8>, clean_end: bool) -> (r: ConnectionReport)
        ensures
            r@ == spec_process(data@, clean_end, self.table@, self.max_payload),
    {
        process_connection(data, clean_end, &self.table, self.max_payload)
    }

    /// The accept loop over a list of accept outcomes. Every accepted
    /// connection is handled, and its report depends on that connection's
    /// own bytes alone — a close, of any kind, on one connection leaves
    /// every other entry's report exactly what it would have been by itself.
    /// A failed accept yields no report, and the entries after it are still
    /// handled: the loop never exits over a single accept error.
    pub fn process_sessions(&self, sessions: &Vec<AcceptOutcome>) -> (r: Vec<
        Option<ConnectionReport>,
    >)
        ensures
            r@.len() == sessions@.len(),
            forall|i: int|
                #![trigger r@[i]]
                0 <= i < sessions@.len() ==> match sessions@[i] {
                    AcceptOutcome::Connection { data, clean_end } => r@[i] matches Some(rep)
                        && rep@ == spec_process(data@, clean_end, self.table@, self.max_payload),
                    AcceptOutcome::AcceptError => r@[i] is None,
                },
    {
        let mut out: Vec<Option<ConnectionReport>> = Vec::new();
        let mut i: usize = 0;
        while i < sessions.len()
            invariant
                i <= sessions@.len(),
                out@.len() == i,
                forall|j: int|
                    #![trigger out@[j]]
                    0 <= j < i ==> match sessions@[j] {
                        AcceptOutcome::Connection { data, clean_end } => out@[j] matches Some(rep)
                            && rep@ == spec_process(
                            data@,
                            clean_end,
                            self.table@,
                            self.max_payload,
                        ),
                        AcceptOutcome::AcceptError => out@[j] is None,
                    },
            decreases sessions@.len() - i,
        {
            match &sessions[i] {
                AcceptOutcome::Connection { data, clean_end } => {
                    let rep = process_connection(data, *clean_end, &self.table, self.max_payload);
                    out.push(Some(rep));
                },
                AcceptOutcome::AcceptError => {
                    out.push(None);
                },
            }
            i = i + 1;
        }
        out
    }
}

} // verus!
