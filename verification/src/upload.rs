//! The chunked-upload state machine: one upload runs straight from idle
//! through connecting, streaming and awaiting the acknowledgement to a
//! terminal outcome. There is no retry at any state; once an upload has
//! failed or been acknowledged, nothing moves it again.

use vstd::prelude::*;

verus! {

/// The phase one upload is in.
#[derive(Clone, Copy, PartialEq, Eq, Structural, Debug)]
pub enum UploadPhase {
    /// Nothing has started.
    Idle,
    /// The connection to the sink is being established.
    Connecting,
    /// Chunks are being fed to the transport, in file order.
    Streaming,
    /// The stream closed cleanly; the sink's acknowledgement is pending.
    AwaitingAck,
    /// The sink acknowledged the whole upload.
    Acked,
    /// The upload failed; it is never retried.
    Failed,
}

/// What the caller, the file reader or the transport reports while an
/// upload runs.
#[derive(Clone, Copy, PartialEq, Eq, Structural, Debug)]
pub enum UploadEvent {
    /// The caller starts the upload.
    Start,
    /// The connection to the sink is established.
    Connected,
    /// Connection establishment failed or timed out.
    ConnectFailed,
    /// The transport accepted one more chunk.
    ChunkSent,
    /// Reading the source file failed.
    ReadFailed,
    /// The transport rejected a write, or the consumer disappeared.
    SendRejected,
    /// The source file is exhausted and the stream closed cleanly.
    StreamClosed,
    /// The sink acknowledged the whole upload.
    AckReceived,
    /// The sink rejected the upload or its acknowledgement never came.
    AckMissing,
}

/// Whether a phase is terminal: an acknowledged or failed upload never
/// moves again.
pub open spec fn is_terminal(p: UploadPhase) -> bool {
    p == UploadPhase::Acked || p == UploadPhase::Failed
}

/// The single step of the upload state machine. An event that does not
/// belong to the current phase leaves the phase unchanged.
pub open spec fn upload_step_spec(p: UploadPhase, ev: UploadEvent) -> UploadPhase {
    match (p, ev) {
        (UploadPhase::Idle, UploadEvent::Start) => UploadPhase::Connecting,
        (UploadPhase::Connecting, UploadEvent::Connected) => UploadPhase::Streaming,
        (UploadPhase::Connecting, UploadEvent::ConnectFailed) => UploadPhase::Failed,
        (UploadPhase::Streaming, UploadEvent::ChunkSent) => UploadPhase::Streaming,
        (UploadPhase::Streaming, UploadEvent::ReadFailed) => UploadPhase::Failed,
        (UploadPhase::Streaming, UploadEvent::SendRejected) => UploadPhase::Failed,
        (UploadPhase::Streaming, UploadEvent::StreamClosed) => UploadPhase::AwaitingAck,
        (UploadPhase::AwaitingAck, UploadEvent::AckReceived) => UploadPhase::Acked,
        (UploadPhase::AwaitingAck, UploadEvent::AckMissing) => UploadPhase::Failed,
        (q, _) => q,
    }
}

/// Advances one upload by one observed event.
pub fn upload_step(p: UploadPhase, ev: UploadEvent) -> (q: UploadPhase)
    ensures
        q == upload_step_spec(p, ev),
{
    match (p, ev) {
        (UploadPhase::Idle, UploadEvent::Start) => UploadPhase::Connecting,
        (UploadPhase::Connecting, UploadEvent::Connected) => UploadPhase::Streaming,
        (UploadPhase::Connecting, UploadEvent::ConnectFailed) => UploadPhase::Failed,
        (UploadPhase::Streaming, UploadEvent::ChunkSent) => UploadPhase::Streaming,
        (UploadPhase::Streaming, UploadEvent::ReadFailed) => UploadPhase::Failed,
        (UploadPhase::Streaming, UploadEvent::SendRejected) => UploadPhase::Failed,
        (UploadPhase::Streaming, UploadEvent::StreamClosed) => UploadPhase::AwaitingAck,
        (UploadPhase::AwaitingAck, UploadEvent::AckReceived) => UploadPhase::Acked,
        (UploadPhase::AwaitingAck, UploadEvent::AckMissing) => UploadPhase::Failed,
        (q, _) => q,
    }
}

/// The phase an upload reaches after a whole run of events.
pub open spec fn upload_run_spec(p: UploadPhase, evs: Seq<UploadEvent>) -> UploadPhase
    decreases evs.len(),
{
    if evs.len() == 0 {
        p
    } else {
        upload_run_spec(upload_step_spec(p, evs[0]), evs.skip(1))
    }
}

/// No retry at any state: a terminal phase absorbs every further event,
/// however long the run.
pub proof fn lemma_terminal_absorbs(p: UploadPhase, evs: Seq<UploadEvent>)
    requires
        is_terminal(p),
    ensures
        upload_run_spec(p, evs) == p,
    decreases evs.len(),
{
    if evs.len() > 0 {
        lemma_terminal_absorbs(upload_step_spec(p, evs[0]), evs.skip(1));
    }
}

/// An upload is acknowledged only by the sink: the only way a run ends in
/// the acknowledged phase without starting there is that some step stood
/// in the awaiting phase and received the acknowledgement.
pub proof fn lemma_ack_needs_acknowledgement(p: UploadPhase, evs: Seq<UploadEvent>)
    requires
        upload_run_spec(p, evs) == UploadPhase::Acked,
        p != UploadPhase::Acked,
    ensures
        exists|k: int|
            0 <= k < evs.len() && evs[k] == UploadEvent::AckReceived && upload_run_spec(
                p,
                evs.take(k),
            ) == UploadPhase::AwaitingAck,
    decreases evs.len(),
{
    let q = upload_step_spec(p, evs[0]);
    if q == UploadPhase::Acked {
        assert(p == UploadPhase::AwaitingAck && evs[0] == UploadEvent::AckReceived);
        assert(upload_run_spec(p, evs.take(0)) == p);
    } else {
        lemma_ack_needs_acknowledgement(q, evs.skip(1));
        let k0 = choose|k: int|
            0 <= k < evs.skip(1).len() && evs.skip(1)[k] == UploadEvent::AckReceived
                && upload_run_spec(q, evs.skip(1).take(k)) == UploadPhase::AwaitingAck;
        assert(evs.skip(1).take(k0) =~= evs.take(k0 + 1).skip(1));
        assert(upload_run_spec(p, evs.take(k0 + 1)) == upload_run_spec(
            q,
            evs.take(k0 + 1).skip(1),
        )) by {
            assert(evs.take(k0 + 1)[0] == evs[0]);
        }
        assert(evs[k0 + 1] == evs.skip(1)[k0]);
    }
}

} // verus!
