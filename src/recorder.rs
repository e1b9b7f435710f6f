use vstd::prelude::*;
use crate::capture::{CaptureBuffer, PixelFormat, Resolution};

verus! {

/// Most frames a recorder holds for its encoder at once. A frame that arrives
/// while the queue is full is dropped and reported to the caller.
pub const FRAME_QUEUE_CAPACITY: usize = 64;

/// Lifecycle of one recording session.
#[derive(Clone, Copy, Debug, PartialEq, Eq, Structural)]
pub enum RecorderPhase {
    /// Frames are requested and accepted.
    Recording,
    /// Stop was requested: no new frames are requested, queued ones drain.
    Stopping,
    /// The encoder's completion was observed by `poll`.
    Finished,
}

/// Refusals of the recorder.
#[derive(Clone, Copy, Debug, PartialEq, Eq, Structural)]
pub enum RecorderError {
    /// A framerate of zero frames per second gives no pacing interval.
    InvalidFramerate,
    /// The encoder queue is full; the frame was dropped.
    QueueFull,
    /// The encoder has already closed the output; the frame was dropped.
    EncoderClosed,
}

/// What a finished session produced.
#[derive(Debug)]
pub struct RecordingSummary {
    pub path: String,
    /// Frames handed to the encoder during the session.
    pub frames_encoded: u64,
}

/// A movie recording session: the session's fixed parameters, the queue of
/// frames waiting for the background encoder (in arrival order), and the
/// progress the encoder has reported.
#[derive(Debug)]
pub struct Recorder {
    resolution: Resolution,
    format: PixelFormat,
    framerate: u32,
    path: String,
    phase: RecorderPhase,
    queue: Vec<CaptureBuffer>,
    frames_encoded: u64,
    encoder_done: bool,
}

impl Recorder {
    pub closed spec fn resolution_view(&self) -> Resolution {
        self.resolution
    }

    pub closed spec fn format_view(&self) -> PixelFormat {
        self.format
    }

    pub closed spec fn framerate_view(&self) -> u32 {
        self.framerate
    }

    pub closed spec fn path_view(&self) -> Seq<char> {
        self.path@
    }

    pub closed spec fn phase_view(&self) -> RecorderPhase {
        self.phase
    }

    /// Frames accepted and not yet handed to the encoder, oldest first.
    pub closed spec fn queue_view(&self) -> Seq<CaptureBuffer> {
        self.queue@
    }

    /// Frames handed to the encoder so far (by `take_frame`).
    pub closed spec fn frames_encoded_view(&self) -> u64 {
        self.frames_encoded
    }

    /// The encoder reported that it drained its queue and closed the output.
    pub closed spec fn encoder_done_view(&self) -> bool {
        self.encoder_done
    }

    /// The framerate is positive, the queue within its bound, and the encoder
    /// closes the output only after stop, once every frame was handed out.
    pub open spec fn wf(&self) -> bool {
        &&& self.framerate_view() >= 1
        &&& self.queue_view().len() <= FRAME_QUEUE_CAPACITY
        &&& self.encoder_done_view() ==> self.phase_view() != RecorderPhase::Recording
            && self.queue_view().len() == 0
        &&& self.phase_view() == RecorderPhase::Finished ==> self.encoder_done_view()
    }

    /// Stop has been requested, so no further frames are asked for.
    pub open spec fn stop_requested(&self) -> bool {
        self.phase_view() != RecorderPhase::Recording
    }

    /// `poll` reports completion now.
    pub open spec fn completion_ready(&self) -> bool {
        self.phase_view() == RecorderPhase::Stopping && self.encoder_done_view()
    }

    /// Starts a session in the recording phase with an empty frame queue.
    pub fn new(resolution: Resolution, format: PixelFormat, framerate: u32, path: String) -> (r:
        Result<Recorder, RecorderError>)
        ensures
            (r is Err) <==> framerate == 0,
            r is Err ==> r->Err_0 == RecorderError::InvalidFramerate,
            r matches Ok(rec) ==> rec.wf() && rec.resolution_view() == resolution
                && rec.format_view() == format && rec.framerate_view() == framerate
                && rec.path_view() == path@ && rec.phase_view() == RecorderPhase::Recording
                && rec.queue_view().len() == 0 && rec.frames_encoded_view() == 0
                && !rec.encoder_done_view(),
    {
        if framerate == 0 {
            return Err(RecorderError::InvalidFramerate);
        }
        Ok(Recorder {
            resolution,
            format,
            framerate,
            path,
            phase: RecorderPhase::Recording,
            queue: Vec::new(),
            frames_encoded: 0,
            encoder_done: false,
        })
    }

    pub fn phase(&self) -> (r: RecorderPhase)
        ensures
            r == self.phase_view(),
    {
        self.phase
    }

    pub fn framerate(&self) -> (r: u32)
        ensures
            r == self.framerate_view(),
    {
        self.framerate
    }

    pub fn resolution(&self) -> (r: Resolution)
        ensures
            r == self.resolution_view(),
    {
        self.resolution
    }

    pub fn format(&self) -> (r: PixelFormat)
        ensures
            r == self.format_view(),
    {
        self.format
    }

    /// File the session is written to.
    pub fn path(&self) -> (r: &String)
        ensures
            r@ == self.path_view(),
    {
        &self.path
    }

    pub fn queued_frames(&self) -> (r: usize)
        ensures
            r == self.queue_view().len(),
    {
        self.queue.len()
    }

    /// Whether stop has been requested.
    pub fn stop_signal_sent(&self) -> (r: bool)
        ensures
            r == self.stop_requested(),
    {
        match self.phase {
            RecorderPhase::Recording => false,
            _ => true,
        }
    }

    /// Queues a frame for the encoder. Frames keep their arrival order. Frames
    /// still arrive after stop is requested (they were asked for before), and
    /// are accepted until the encoder closes the output.
    pub fn add_frame(&mut self, frame: CaptureBuffer) -> (r: Result<(), RecorderError>)
        requires
            old(self).wf(),
            old(self).phase_view() != RecorderPhase::Finished,
            frame.resolution_view() == old(self).resolution_view(),
            frame.format_view() == old(self).format_view(),
        ensures
            final(self).wf(),
            r is Ok <==> !old(self).encoder_done_view() && old(self).queue_view().len()
                < FRAME_QUEUE_CAPACITY,
            r == Err::<(), RecorderError>(RecorderError::EncoderClosed) <==> old(self).encoder_done_view(),
            r == Err::<(), RecorderError>(RecorderError::QueueFull) <==> !old(self).encoder_done_view() && old(self).queue_view().len() >= FRAME_QUEUE_CAPACITY,
            r is Ok <==> old(self).accepts_frame(),
            r is Ok ==> final(self).appended(*old(self), frame),
            r is Err ==> *final(self) == *old(self),
    {
        if self.encoder_done {
            return Err(RecorderError::EncoderClosed);
        }
        if self.queue.len() >= FRAME_QUEUE_CAPACITY {
            return Err(RecorderError::QueueFull);
        }
        self.queue.push(frame);
        Ok(())
    }

    /// The recorder takes another frame now.
    pub open spec fn accepts_frame(&self) -> bool {
        !self.encoder_done_view() && self.queue_view().len() < FRAME_QUEUE_CAPACITY
    }

    /// `self` is `prev` with `frame` appended to the encoder queue.
    pub open spec fn appended(&self, prev: Recorder, frame: CaptureBuffer) -> bool {
        &&& self.queue_view() == prev.queue_view().push(frame)
        &&& self.phase_view() == prev.phase_view()
        &&& self.encoder_done_view() == prev.encoder_done_view()
        &&& self.frames_encoded_view() == prev.frames_encoded_view()
        &&& self.same_session(prev)
    }

    /// Session parameters are those of `other`.
    pub open spec fn same_session(&self, other: Recorder) -> bool {
        &&& self.resolution_view() == other.resolution_view()
        &&& self.format_view() == other.format_view()
        &&& self.framerate_view() == other.framerate_view()
        &&& self.path_view() == other.path_view()
    }

    /// Requests the end of the session: moves Recording to Stopping and keeps
    /// every queued frame. Calling it again changes nothing.
    pub fn stop(&mut self)
        requires
            old(self).wf(),
        ensures
            final(self).wf(),
            final(self).phase_view() == (if old(self).phase_view() == RecorderPhase::Recording {
                RecorderPhase::Stopping
            } else {
                old(self).phase_view()
            }),
            final(self).queue_view() == old(self).queue_view(),
            final(self).encoder_done_view() == old(self).encoder_done_view(),
            final(self).frames_encoded_view() == old(self).frames_encoded_view(),
            final(self).same_session(*old(self)),
    {
        if self.phase == RecorderPhase::Recording {
            self.phase = RecorderPhase::Stopping;
        }
    }

    /// Hands the oldest queued frame to the encoder, if any.
    pub fn take_frame(&mut self) -> (r: Option<CaptureBuffer>)
        requires
            old(self).wf(),
        ensures
            final(self).wf(),
            r is None <==> old(self).queue_view().len() == 0,
            r is None ==> *final(self) == *old(self),
            r matches Some(f) ==> f == old(self).queue_view()[0] && final(self).queue_view()
                == old(self).queue_view().drop_first() && final(self).frames_encoded_view() == (
            if old(self).frames_encoded_view() < u64::MAX {
                (old(self).frames_encoded_view() + 1) as u64
            } else {
                old(self).frames_encoded_view()
            }),
            final(self).phase_view() == old(self).phase_view(),
            final(self).encoder_done_view() == old(self).encoder_done_view(),
            final(self).same_session(*old(self)),
    {
        if self.queue.len() == 0 {
            return None;
        }
        let f = self.queue.remove(0);
        if self.frames_encoded < u64::MAX {
            self.frames_encoded = self.frames_encoded + 1;
        }
        Some(f)
    }

    /// The encoder reports that it closed the output. This is accepted only
    /// once stop was requested and every queued frame was handed out; the
    /// result says whether it was accepted.
    pub fn encoder_finished(&mut self) -> (r: bool)
        requires
            old(self).wf(),
        ensures
            final(self).wf(),
            r == (old(self).phase_view() == RecorderPhase::Stopping && old(self).queue_view().len()
                == 0),
            final(self).encoder_done_view() == (old(self).encoder_done_view() || r),
            final(self).phase_view() == old(self).phase_view(),
            final(self).queue_view() == old(self).queue_view(),
            final(self).frames_encoded_view() == old(self).frames_encoded_view(),
            final(self).same_session(*old(self)),
    {
        if self.phase == RecorderPhase::Stopping && self.queue.len() == 0 {
            self.encoder_done = true;
            true
        } else {
            false
        }
    }

    /// Recorder state after a `poll`.
    pub closed spec fn polled(&self) -> Recorder {
        if self.completion_ready() {
            Recorder { phase: RecorderPhase::Finished, ..*self }
        } else {
            *self
        }
    }

    /// Reports, without blocking, whether the session just completed: true the
    /// first time the encoder's completion is seen after stop, false otherwise.
    pub fn poll(&mut self) -> (r: bool)
        requires
            old(self).wf(),
        ensures
            final(self).wf(),
            r == old(self).completion_ready(),
            *final(self) == old(self).polled(),
            r ==> old(self).queue_view().len() == 0 && final(self).phase_view()
                == RecorderPhase::Finished,
            !r ==> *final(self) == *old(self),
            final(self).queue_view() == old(self).queue_view(),
            final(self).frames_encoded_view() == old(self).frames_encoded_view(),
            final(self).encoder_done_view() == old(self).encoder_done_view(),
            final(self).same_session(*old(self)),
    {
        if self.phase == RecorderPhase::Stopping && self.encoder_done {
            self.phase = RecorderPhase::Finished;
            true
        } else {
            false
        }
    }

    /// Ends a session whose completion `poll` reported.
    pub fn finish(self) -> (r: RecordingSummary)
        requires
            self.wf(),
            self.phase_view() == RecorderPhase::Finished,
        ensures
            r.path@ == self.path_view(),
            r.frames_encoded == self.frames_encoded_view(),
    {
        RecordingSummary { path: self.path, frames_encoded: self.frames_encoded }
    }
}

/// Frames reach the encoder queue in arrival order: two accepted frames stand
/// behind the earlier queue in the order they came, none dropped, duplicated
/// or reordered; and `take_frame` hands out the front of the queue first.
pub proof fn lemma_frames_kept_in_order(
    r0: Recorder,
    r1: Recorder,
    r2: Recorder,
    f1: CaptureBuffer,
    f2: CaptureBuffer,
)
    requires
        r1.appended(r0, f1),
        r2.appended(r1, f2),
    ensures
        r2.queue_view() == r0.queue_view() + seq![f1, f2],
        r2.queue_view()[r0.queue_view().len() as int] == f1,
        r2.queue_view()[r0.queue_view().len() as int + 1] == f2,
        r2.same_session(r0),
{
    assert(r2.queue_view() =~= r0.queue_view() + seq![f1, f2]);
}

/// `poll` reports completion at most once per session, and only after stop was
/// requested and the encoder's queue is empty: once it has reported, every
/// later poll reports nothing.
pub proof fn lemma_poll_reports_once(rec: Recorder)
    requires
        rec.wf(),
    ensures
        rec.completion_ready() ==> rec.stop_requested() && rec.queue_view().len() == 0,
        rec.completion_ready() ==> rec.polled().wf() && !rec.polled().completion_ready(),
        rec.completion_ready() ==> rec.polled().phase_view() == RecorderPhase::Finished,
        rec.phase_view() == RecorderPhase::Finished ==> !rec.completion_ready(),
{
}

} // verus!
