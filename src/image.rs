//! Image inspection models and the decisions of a streamed image pull.

use vstd::prelude::*;
use crate::error::{CommandError, ErrorKind, RuntimeFailure, classified_kind, classify_failure, describe, described};
use crate::types::{ProgressDetail, ProgressInfo};

verus! {

/// What the runtime reports of one image.
#[derive(Debug, Clone)]
pub struct ImageDetails {
    pub id: Option<String>,
    /// The digest of the parent image, as the runtime reports it.
    pub parent_id: Option<String>,
    pub repo_tags: Option<Vec<String>>,
    pub created: Option<String>,
    pub size: Option<i64>,
    pub author: Option<String>,
}

/// The runtime's answer to an image inspection, as received.
#[derive(Debug)]
pub struct RawImageInspect {
    pub id: Option<String>,
    pub parent: Option<String>,
    pub repo_tags: Option<Vec<String>>,
    pub created: Option<String>,
    pub size: Option<i64>,
    pub author: Option<String>,
}

/// The details of an inspected image; the parent is the runtime's parent
/// digest, and every absent field stays absent.
pub fn details_from_image_inspect(raw: RawImageInspect) -> (d: ImageDetails)
    ensures
        d.id == raw.id,
        d.parent_id == raw.parent,
        d.repo_tags == raw.repo_tags,
        d.created == raw.created,
        d.size == raw.size,
        d.author == raw.author,
{
    ImageDetails {
        id: raw.id,
        parent_id: raw.parent,
        repo_tags: raw.repo_tags,
        created: raw.created,
        size: raw.size,
        author: raw.author,
    }
}

/// One frame of the pull stream, as received.
#[derive(Debug)]
pub struct RawPullFrame {
    pub status: Option<String>,
    pub id: Option<String>,
    /// The error the runtime reported in this frame, if any.
    pub error: Option<String>,
    pub progress_detail: Option<ProgressDetail>,
}

/// The event a frame decodes to: a frame decodes when it carries a status
/// and no error.
pub open spec fn frame_progress(f: RawPullFrame) -> Option<ProgressInfo> {
    if f.error is None && f.status is Some {
        Some(ProgressInfo { status: f.status->0, progress_detail: f.progress_detail, id: f.id })
    } else {
        None
    }
}

/// Decodes one frame of the pull of `reference`. An error frame, or one
/// without a status, is a runtime error.
pub fn decode_pull_frame(reference: &str, frame: RawPullFrame) -> (r: Result<
    ProgressInfo,
    CommandError,
>)
    ensures
        r is Ok <==> frame_progress(frame) is Some,
        r is Ok ==> r->Ok_0 == frame_progress(frame)->0,
        r is Err ==> r->Err_0.kind_spec() == ErrorKind::RuntimeError,
        frame.error is Some ==> r->Err_0.message_view() == described(
            "pull image"@,
            reference@,
            frame.error->0@,
        ),
        frame.error is None && frame.status is None ==> r->Err_0.message_view() == described(
            "pull image"@,
            reference@,
            "progress frame without status"@,
        ),
{
    match frame.error {
        Some(e) => Err(CommandError::RuntimeError(describe("pull image", reference, e.as_str()))),
        None => match frame.status {
            Some(status) => Ok(
                ProgressInfo { status, progress_detail: frame.progress_detail, id: frame.id },
            ),
            None => Err(
                CommandError::RuntimeError(
                    describe("pull image", reference, "progress frame without status"),
                ),
            ),
        },
    }
}

/// Where a pull stands.
#[derive(PartialEq, Eq, Structural, Clone, Copy, Debug)]
pub enum PullPhase {
    /// The stream is open and events are being delivered.
    Streaming,
    /// The runtime closed the stream cleanly.
    Completed,
    /// The runtime reported an error, or a frame did not decode.
    Failed,
    /// The caller cancelled the pull.
    Cancelled,
}

/// What happened on the stream of a pull.
#[derive(Debug)]
pub enum PullEvent {
    Frame(RawPullFrame),
    StreamEnded,
    StreamFailed(RuntimeFailure),
    CancelRequested,
}

/// What the driver of a pull does next.
#[derive(Debug)]
pub enum PullAction {
    /// Hand this event to the caller and keep reading.
    Deliver(ProgressInfo),
    /// Close the stream and report success.
    Complete,
    /// Close the stream and report this error.
    Abort(CommandError),
    /// Drop the stream at once and return to the caller.
    Release,
    /// The pull is over: nothing to do.
    Ignore,
}

/// The phase after `e` arrives in phase `p`.
pub open spec fn next_phase(p: PullPhase, e: PullEvent) -> PullPhase {
    match p {
        PullPhase::Streaming => match e {
            PullEvent::Frame(f) => if frame_progress(f) is Some {
                PullPhase::Streaming
            } else {
                PullPhase::Failed
            },
            PullEvent::StreamEnded => PullPhase::Completed,
            PullEvent::StreamFailed(_) => PullPhase::Failed,
            PullEvent::CancelRequested => PullPhase::Cancelled,
        },
        _ => p,
    }
}

/// The event handed to the caller when `e` arrives in phase `p`, if any.
pub open spec fn delivery(p: PullPhase, e: PullEvent) -> Option<ProgressInfo> {
    match (p, e) {
        (PullPhase::Streaming, PullEvent::Frame(f)) => frame_progress(f),
        _ => None,
    }
}

/// The phase after a run of events.
pub open spec fn run_phase(p: PullPhase, es: Seq<PullEvent>) -> PullPhase
    decreases es.len(),
{
    if es.len() == 0 {
        p
    } else {
        run_phase(next_phase(p, es[0]), es.drop_first())
    }
}

/// The events handed to the caller over a run of events, in order.
pub open spec fn run_deliveries(p: PullPhase, es: Seq<PullEvent>) -> Seq<ProgressInfo>
    decreases es.len(),
{
    if es.len() == 0 {
        Seq::empty()
    } else {
        let head = match delivery(p, es[0]) {
            Some(x) => seq![x],
            None => Seq::empty(),
        };
        head + run_deliveries(next_phase(p, es[0]), es.drop_first())
    }
}

/// The stream events of a pull whose frames all arrive and then the stream
/// closes.
pub open spec fn clean_stream(frames: Seq<RawPullFrame>) -> Seq<PullEvent> {
    frames.map_values(|f: RawPullFrame| PullEvent::Frame(f)).push(PullEvent::StreamEnded)
}

/// A pull whose frames all decode and whose stream then closes delivers
/// every frame's event, in the order of arrival, and completes.
pub proof fn lemma_clean_pull_delivers_in_order(frames: Seq<RawPullFrame>)
    requires
        forall|i: int| 0 <= i < frames.len() ==> (#[trigger] frame_progress(frames[i])) is Some,
    ensures
        run_phase(PullPhase::Streaming, clean_stream(frames)) == PullPhase::Completed,
        run_deliveries(PullPhase::Streaming, clean_stream(frames)) == frames.map_values(
            |f: RawPullFrame| frame_progress(f)->0,
        ),
    decreases frames.len(),
{
    let es = clean_stream(frames);
    if frames.len() == 0 {
        assert(es.len() == 1);
        assert(es[0] == PullEvent::StreamEnded);
        assert(es.drop_first() =~= Seq::<PullEvent>::empty());
        assert(run_phase(PullPhase::Completed, es.drop_first()) == PullPhase::Completed);
        assert(run_deliveries(PullPhase::Completed, es.drop_first()) == Seq::<
            ProgressInfo,
        >::empty());
        assert(run_deliveries(PullPhase::Streaming, es) =~= Seq::<ProgressInfo>::empty());
        assert(frames.map_values(|f: RawPullFrame| frame_progress(f)->0) =~= Seq::<
            ProgressInfo,
        >::empty());
    } else {
        let rest = frames.drop_first();
        assert forall|i: int| 0 <= i < rest.len() implies (#[trigger] frame_progress(
            rest[i],
        )) is Some by {
            assert(rest[i] == frames[i + 1]);
        }
        lemma_clean_pull_delivers_in_order(rest);
        assert(es.drop_first() =~= clean_stream(rest));
        assert(es[0] == PullEvent::Frame(frames[0]));
        assert(frame_progress(frames[0]) is Some);
        assert(frames.map_values(|f: RawPullFrame| frame_progress(f)->0) =~= seq![
            frame_progress(frames[0])->0,
        ] + rest.map_values(|f: RawPullFrame| frame_progress(f)->0));
    }
}

/// Once a pull is over, no later event delivers anything or changes its
/// phase.
pub proof fn lemma_finished_pull_stays_silent(p: PullPhase, es: Seq<PullEvent>)
    requires
        p != PullPhase::Streaming,
    ensures
        run_phase(p, es) == p,
        run_deliveries(p, es) == Seq::<ProgressInfo>::empty(),
    decreases es.len(),
{
    if es.len() > 0 {
        lemma_finished_pull_stays_silent(p, es.drop_first());
        assert(run_deliveries(p, es) =~= Seq::<ProgressInfo>::empty());
    }
}

/// A cancellation while streaming ends the pull: whatever arrives after it,
/// nothing more is delivered and the pull stays cancelled.
pub proof fn lemma_cancel_ends_pull(es: Seq<PullEvent>)
    ensures
        run_phase(PullPhase::Streaming, seq![PullEvent::CancelRequested] + es)
            == PullPhase::Cancelled,
        run_deliveries(PullPhase::Streaming, seq![PullEvent::CancelRequested] + es) == Seq::<
            ProgressInfo,
        >::empty(),
{
    let all = seq![PullEvent::CancelRequested] + es;
    assert(all.drop_first() =~= es);
    lemma_finished_pull_stays_silent(PullPhase::Cancelled, es);
    assert(run_deliveries(PullPhase::Streaming, all) =~= Seq::<ProgressInfo>::empty());
}

/// The decisions of one image pull, fed one stream event at a time.
#[derive(Debug)]
pub struct PullSession {
    pub reference: String,
    pub phase: PullPhase,
}

impl PullSession {
    /// A pull of `reference` whose stream has just been opened.
    pub fn new(reference: &str) -> (s: PullSession)
        ensures
            s.reference@ == reference@,
            s.phase == PullPhase::Streaming,
    {
        PullSession { reference: String::from_str(reference), phase: PullPhase::Streaming }
    }

    /// Whether the pull is over and its stream may be dropped.
    pub fn is_finished(&self) -> (r: bool)
        ensures
            r == (self.phase != PullPhase::Streaming),
    {
        self.phase != PullPhase::Streaming
    }

    /// Takes one stream event and says what to do.
    pub fn step(&mut self, event: PullEvent) -> (a: PullAction)
        ensures
            final(self).reference == old(self).reference,
            final(self).phase == next_phase(old(self).phase, event),
            a is Deliver <==> delivery(old(self).phase, event) is Some,
            a is Deliver ==> a->Deliver_0 == delivery(old(self).phase, event)->0,
            a is Complete <==> (old(self).phase == PullPhase::Streaming
                && event is StreamEnded),
            a is Release <==> (old(self).phase == PullPhase::Streaming
                && event is CancelRequested),
            a is Abort <==> (old(self).phase == PullPhase::Streaming && next_phase(
                old(self).phase,
                event,
            ) == PullPhase::Failed),
            a is Ignore <==> old(self).phase != PullPhase::Streaming,
            a is Abort && event is StreamFailed ==> a->Abort_0.kind_spec() == classified_kind(
                event->StreamFailed_0,
            ) && a->Abort_0.message_view() == described(
                "pull image"@,
                old(self).reference@,
                event->StreamFailed_0.message@,
            ),
            a is Abort && event is Frame ==> a->Abort_0.kind_spec() == ErrorKind::RuntimeError,
    {
        if self.phase != PullPhase::Streaming {
            return PullAction::Ignore;
        }
        match event {
            PullEvent::Frame(f) => match decode_pull_frame(self.reference.as_str(), f) {
                Ok(p) => PullAction::Deliver(p),
                Err(e) => {
                    self.phase = PullPhase::Failed;
                    PullAction::Abort(e)
                },
            },
            PullEvent::StreamEnded => {
                self.phase = PullPhase::Completed;
                PullAction::Complete
            },
            PullEvent::StreamFailed(f) => {
                self.phase = PullPhase::Failed;
                PullAction::Abort(classify_failure("pull image", self.reference.as_str(), &f))
            },
            PullEvent::CancelRequested => {
                self.phase = PullPhase::Cancelled;
                PullAction::Release
            },
        }
    }
}

} // verus!
