//! The per-connection ingestor's decision step.
//!
//! An ingestor adapts one raw byte stream into messages: each read either
//! yields a chunk of bytes, signals orderly closure, or fails. The decision
//! of what to do with each outcome — decode and forward, or stop — is made
//! here; the read itself and the channel send are plumbing outside this
//! library.

use vstd::prelude::*;

verus! {

/// What one read from a connection produced: a non-empty chunk of raw bytes,
/// an orderly close (a zero-length read), or a read error.
pub enum ReadOutcome {
    Data(Vec<u8>),
    Closed,
    Failed,
}

/// What the ingestor does next: forward one decoded message to the
/// aggregation core, or stop reading this connection.
pub enum IngestStep {
    Forward(String),
    Stop,
}

/// The text that lossy UTF-8 decoding yields for a byte sequence.
pub uninterp spec fn lossy_utf8_of(bytes: Seq<u8>) -> Seq<char>;

/// Relies on String::from_utf8_lossy: the decoded text is a function of the
/// bytes alone — invalid sequences are replaced, the call never fails, and
/// an empty input decodes to the empty string.
#[verifier::external_body]
fn lossy_decode(bytes: &[u8]) -> (text: String)
    ensures
        text@ == lossy_utf8_of(bytes@),
        bytes@.len() == 0 ==> text@.len() == 0,
{
    String::from_utf8_lossy(bytes).into_owned()
}

/// Decides one ingestor step: a chunk of bytes is decoded (lossily, never
/// failing) and forwarded as one message; closure and read errors both end
/// the connection's ingestion.
pub fn ingest_step(outcome: ReadOutcome) -> (step: IngestStep)
    ensures
        (match outcome {
            ReadOutcome::Data(bytes) => step matches IngestStep::Forward(m)
                && m@ == lossy_utf8_of(bytes@),
            ReadOutcome::Closed => step is Stop,
            ReadOutcome::Failed => step is Stop,
        }),
{
    match outcome {
        ReadOutcome::Data(bytes) => IngestStep::Forward(lossy_decode(bytes.as_slice())),
        ReadOutcome::Closed => IngestStep::Stop,
        ReadOutcome::Failed => IngestStep::Stop,
    }
}

} // verus!
