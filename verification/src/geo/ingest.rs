//! Storing a batch of locations: the reply to an ingestion request.

use crate::resp::{error, is_reply, Reply, STATUS_INTERNAL_ERROR};
use vstd::prelude::*;

verus! {

/// Why a batch of locations could not be stored.
#[derive(Debug, PartialEq, Eq)]
pub enum IngestError {
    /// A location could not be turned into JSON; the text says why.
    Serde(String),
    /// The database refused the batch; the text says why.
    Sqlx(String),
}

/// The answer to an ingestion request.
pub enum IngestAck {
    /// The batch was stored: the answer is HTTP 200 with `{"result": "ok"}`.
    Stored,
    /// The batch was not stored: the answer is this failure reply.
    Failed(Reply<()>),
}

/// The answer once the batch has been handed to the database.
pub fn ingest_reply(r: Result<(), IngestError>) -> (ack: IngestAck)
    ensures
        r is Ok ==> ack is Stored,
        r is Err ==> (ack matches IngestAck::Failed(reply) && is_reply(
            reply,
            STATUS_INTERNAL_ERROR,
            "failed to ingest batch"@,
            None,
        )),
{
    match r {
        Ok(()) => IngestAck::Stored,
        Err(_) => IngestAck::Failed(error("failed to ingest batch")),
    }
}

} // verus!
