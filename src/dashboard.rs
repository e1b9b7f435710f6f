use vstd::prelude::*;
use crate::capture::{
    image_byte_len, movie_file_name, movie_path, painting_file_name, painting_path, CaptureBuffer, PixelFormat,
    Resolution, StillWriteJob,
};
use crate::messages::{CanvasMessage, DashboardMessage, FrameError, PointerPosition, Uniform};
use crate::pacing::{frame_due, movie_frame_due};
use crate::recorder::{Recorder, RecorderError, RecorderPhase, RecordingSummary};

verus! {

/// Pixel format the render loop reads movie frames back in.
pub const MOVIE_PIXEL_FORMAT: PixelFormat = PixelFormat::Rgba8;

/// Counter increment that stops at the largest value.
pub open spec fn bump(n: u64) -> u64 {
    if n < u64::MAX {
        (n + 1) as u64
    } else {
        n
    }
}

fn bump_counter(n: u64) -> (r: u64)
    ensures
        r == bump(n),
{
    if n < u64::MAX {
        n + 1
    } else {
        n
    }
}

/// What the dashboard shows and lets the user edit. Times are in microseconds.
#[derive(Debug)]
pub struct DashboardState {
    pub last_render_time: u64,
    pub frame_num: u64,
    pub frame_timeout_count: u64,
    pub mouse_pos: PointerPosition,
    pub render_window_size: Resolution,
    pub paused: bool,
    pub show_titlebar: bool,
    pub painting_resolution: Resolution,
    pub recording_resolution: Resolution,
    pub painting_filename: String,
    pub recording_filename: String,
    /// Frames per second of a new recording.
    pub movie_framerate: u32,
    pub open_painting_externally: bool,
    pub pause_while_painting: bool,
    /// A still capture was requested and its write has not completed yet.
    pub painting_pending: bool,
    /// The render loop was paused for the pending still capture, and is to be
    /// resumed once its write completes.
    pub paused_for_painting: bool,
    pub painting_start_time: Option<u64>,
    /// Error text of the last still-image write that failed.
    pub painting_error_msg: Option<String>,
    pub shader_compilation_error_msg: Option<String>,
    /// Movie frames dropped because the encoder could not take them.
    pub dropped_movie_frames: u64,
    pub gui_uniforms: Vec<Uniform>,
}

/// `s` holds the default settings and empty counters.
pub open spec fn is_default_state(s: DashboardState) -> bool {
    &&& s.last_render_time == 0
    &&& s.frame_num == 0
    &&& s.frame_timeout_count == 0
    &&& s.mouse_pos == (PointerPosition { x: 0, y: 0 })
    &&& s.render_window_size == (Resolution { width: 0, height: 0 })
    &&& !s.paused
    &&& s.show_titlebar
    &&& s.painting_resolution == (Resolution { width: 0, height: 0 })
    &&& s.recording_resolution == (Resolution { width: 512, height: 512 })
    &&& s.painting_filename@ == "Painting"@
    &&& s.recording_filename@ == "Muybridge"@
    &&& s.movie_framerate == 60
    &&& s.open_painting_externally
    &&& s.pause_while_painting
    &&& !s.painting_pending
    &&& !s.paused_for_painting
    &&& s.painting_start_time is None
    &&& s.painting_error_msg is None
    &&& s.shader_compilation_error_msg is None
    &&& s.dropped_movie_frames == 0
    &&& s.gui_uniforms@.len() == 0
}

impl DashboardState {
    pub fn new() -> (r: DashboardState)
        ensures
            is_default_state(r),
            r.last_render_time == 0,
            r.frame_num == 0,
            r.frame_timeout_count == 0,
            r.mouse_pos == (PointerPosition { x: 0, y: 0 }),
            r.render_window_size == (Resolution { width: 0, height: 0 }),
            !r.paused,
            r.show_titlebar,
            r.painting_resolution == (Resolution { width: 0, height: 0 }),
            r.recording_resolution == (Resolution { width: 512, height: 512 }),
            r.painting_filename@ == "Painting"@,
            r.recording_filename@ == "Muybridge"@,
            r.movie_framerate == 60,
            r.open_painting_externally,
            r.pause_while_painting,
            !r.painting_pending,
            !r.paused_for_painting,
            r.painting_start_time is None,
            r.painting_error_msg is None,
            r.shader_compilation_error_msg is None,
            r.dropped_movie_frames == 0,
            r.gui_uniforms@.len() == 0,
    {
        DashboardState {
            last_render_time: 0,
            frame_num: 0,
            frame_timeout_count: 0,
            mouse_pos: PointerPosition { x: 0, y: 0 },
            render_window_size: Resolution { width: 0, height: 0 },
            paused: false,
            show_titlebar: true,
            painting_resolution: Resolution { width: 0, height: 0 },
            recording_resolution: Resolution { width: 512, height: 512 },
            painting_filename: "Painting".to_owned(),
            recording_filename: "Muybridge".to_owned(),
            movie_framerate: 60,
            open_painting_externally: true,
            pause_while_painting: true,
            painting_pending: false,
            paused_for_painting: false,
            painting_start_time: None,
            painting_error_msg: None,
            shader_compilation_error_msg: None,
            dropped_movie_frames: 0,
            gui_uniforms: Vec::new(),
        }
    }
}

/// The dashboard's controller: the user-facing state, the active recording
/// session if any, the time of the last movie frame request, and the commands
/// waiting to be sent to the render loop, oldest first.
#[derive(Debug)]
pub struct Dashboard {
    state: DashboardState,
    recorder: Option<Recorder>,
    last_movie_frame_time: Option<u64>,
    outbox: Vec<DashboardMessage>,
}

impl Dashboard {
    pub closed spec fn state_view(&self) -> DashboardState {
        self.state
    }

    pub closed spec fn recorder_view(&self) -> Option<Recorder> {
        self.recorder
    }

    pub closed spec fn last_movie_frame_view(&self) -> Option<u64> {
        self.last_movie_frame_time
    }

    /// Commands not yet handed to the transport, oldest first.
    pub closed spec fn outbox_view(&self) -> Seq<DashboardMessage> {
        self.outbox@
    }

    /// A recording session, while held, is well formed and not yet finished
    /// (a finished one is released on the tick that observes it).
    pub open spec fn wf(&self) -> bool {
        match self.recorder_view() {
            Some(rec) => rec.wf() && rec.phase_view() != RecorderPhase::Finished,
            None => true,
        }
    }

    /// Only the recording session and its pacing changed between `prev` and `self`.
    pub open spec fn same_but_capture(&self, prev: Dashboard) -> bool {
        &&& self.state_view() == prev.state_view()
        &&& self.outbox_view() == prev.outbox_view()
    }

    /// Nothing but the user-facing state and the outbox changed.
    pub open spec fn same_capture(&self, prev: Dashboard) -> bool {
        &&& self.recorder_view() == prev.recorder_view()
        &&& self.last_movie_frame_view() == prev.last_movie_frame_view()
    }

    /// A movie frame can be handled only while a session exists, and only when
    /// it has the session's resolution and format.
    pub open spec fn accepts(&self, msg: CanvasMessage) -> bool {
        msg matches CanvasMessage::MovieFrameStarted(buf) ==> (self.recorder_view() matches Some(
            rec,
        ) && buf.resolution_view() == rec.resolution_view() && buf.format_view()
            == rec.format_view())
    }

    /// A controller with the given render window size and default settings.
    pub fn new(render_window_size: Resolution) -> (r: Dashboard)
        ensures
            r.wf(),
            r.state_view().render_window_size == render_window_size,
            is_default_state(
                (DashboardState {
                    render_window_size: Resolution { width: 0, height: 0 },
                    ..r.state_view()
                }),
            ),
            r.recorder_view() is None,
            r.last_movie_frame_view() is None,
            r.outbox_view().len() == 0,
    {
        let mut state = DashboardState::new();
        state.render_window_size = render_window_size;
        Dashboard { state, recorder: None, last_movie_frame_time: None, outbox: Vec::new() }
    }

    pub fn state(&self) -> (r: &DashboardState)
        ensures
            *r == self.state_view(),
    {
        &self.state
    }

    pub fn recorder(&self) -> (r: &Option<Recorder>)
        ensures
            *r == self.recorder_view(),
    {
        &self.recorder
    }

    /// Hands over the commands to send, oldest first, and empties the outbox.
    pub fn take_messages(&mut self) -> (r: Vec<DashboardMessage>)
        requires
            old(self).wf(),
        ensures
            final(self).wf(),
            r@ == old(self).outbox_view(),
            final(self).outbox_view().len() == 0,
            final(self).state_view() == old(self).state_view(),
            final(self).same_capture(*old(self)),
    {
        let mut taken: Vec<DashboardMessage> = Vec::new();
        std::mem::swap(&mut taken, &mut self.outbox);
        taken
    }

    /// Whether `handle_message` may be called with `msg`.
    pub fn accepts_message(&self, msg: &CanvasMessage) -> (r: bool)
        ensures
            r == self.accepts(*msg),
    {
        match msg {
            CanvasMessage::MovieFrameStarted(buf) => match &self.recorder {
                Some(rec) => buf.resolution() == rec.resolution() && buf.format() == rec.format(),
                None => false,
            },
            _ => true,
        }
    }

    /// Applies one event of the render loop. A still capture that arrives is
    /// returned as a write job for a background writer.
    pub fn handle_message(&mut self, msg: CanvasMessage) -> (r: Option<StillWriteJob>)
        requires
            old(self).wf(),
            old(self).accepts(msg),
        ensures
            final(self).wf(),
            r is Some <==> msg is PaintingStarted && old(self).state_view().painting_start_time is None,
            msg is MovieFrameStarted || final(self).same_capture(*old(self)),
            match msg {
                CanvasMessage::FrameStep => final(self).outbox_view() == old(self).outbox_view()
                    && final(self).state_view() == (DashboardState {
                    frame_num: bump(old(self).state_view().frame_num),
                    ..old(self).state_view()
                }),
                CanvasMessage::MouseMoved(pos) => final(self).outbox_view()
                    == old(self).outbox_view() && final(self).state_view() == (DashboardState {
                    mouse_pos: pos,
                    ..old(self).state_view()
                }),
                CanvasMessage::RenderPassSubmitted => final(self).same_but_capture(*old(self)),
                CanvasMessage::WindowResized(size) => final(self).outbox_view()
                    == old(self).outbox_view() && final(self).state_view() == (DashboardState {
                    render_window_size: size,
                    ..old(self).state_view()
                }),
                CanvasMessage::SwapChainFrameError(e) => final(self).outbox_view()
                    == old(self).outbox_view() && final(self).state_view() == (if e
                    == FrameError::Timeout {
                    DashboardState {
                        frame_timeout_count: bump(old(self).state_view().frame_timeout_count),
                        ..old(self).state_view()
                    }
                } else {
                    old(self).state_view()
                }),
                CanvasMessage::PaintingStarted(buf) => final(self).outbox_view()
                    == old(self).outbox_view() && if old(self).state_view().painting_start_time is Some {
                    // a write is already in flight: this capture is ignored
                    final(self).state_view() == old(self).state_view()
                } else {
                    final(self).state_view() == (DashboardState {
                        painting_pending: true,
                        painting_start_time: Some(buf.timestamp_view()),
                        ..old(self).state_view()
                    }) && (r matches Some(job) && job.buffer == buf && job.path@ == painting_path(
                        old(self).state_view().painting_filename@,
                    ) && job.open_after_write == old(self).state_view().open_painting_externally
                        && job.buffer.bytes_view().len() == image_byte_len(
                        buf.resolution_view(),
                        buf.format_view(),
                    ))
                },
                CanvasMessage::ShaderCompilationFailed(text) => final(self).outbox_view()
                    == old(self).outbox_view().push(DashboardMessage::Pause)
                    && final(self).state_view() == (DashboardState {
                    shader_compilation_error_msg: Some(text),
                    ..old(self).state_view()
                }),
                CanvasMessage::ShaderCompilationSucceeded => final(self).outbox_view() == (
                if old(self).state_view().paused_for_painting {
                    old(self).outbox_view()
                } else {
                    old(self).outbox_view().push(DashboardMessage::Play)
                }) && final(self).state_view() == (DashboardState {
                    shader_compilation_error_msg: None,
                    paused: false,
                    ..old(self).state_view()
                }),
                CanvasMessage::PausePlayChanged => final(self).outbox_view()
                    == old(self).outbox_view() && final(self).state_view() == (DashboardState {
                    paused: !old(self).state_view().paused,
                    ..old(self).state_view()
                }),
                CanvasMessage::UniformForGUI(u) => final(self).outbox_view()
                    == old(self).outbox_view() && final(self).state_view().gui_uniforms@
                    == old(self).state_view().gui_uniforms@.push(u) && final(self).state_view() == (DashboardState {
                    gui_uniforms: final(self).state_view().gui_uniforms,
                    ..old(self).state_view()
                }),
                CanvasMessage::UpdatePaintingResolutioninGUI(res) => final(self).outbox_view()
                    == old(self).outbox_view() && final(self).state_view() == (DashboardState {
                    painting_resolution: res,
                    ..old(self).state_view()
                }),
                CanvasMessage::MovieFrameStarted(buf) => final(self).outbox_view()
                    == old(self).outbox_view() && final(self).last_movie_frame_view() == old(self).last_movie_frame_view() && (old(self).recorder_view() matches Some(rec) && (
                if rec.accepts_frame() {
                    final(self).state_view() == old(self).state_view() && (final(self).recorder_view() matches Some(r2) && r2.appended(rec, buf))
                } else {
                    final(self).recorder_view() == old(self).recorder_view() && final(self).state_view() == (DashboardState {
                        dropped_movie_frames: bump(old(self).state_view().dropped_movie_frames),
                        ..old(self).state_view()
                    })
                })),
            },
    {
        match msg {
            CanvasMessage::FrameStep => {
                self.state.frame_num = bump_counter(self.state.frame_num);
                None
            },
            CanvasMessage::MouseMoved(pos) => {
                self.state.mouse_pos = pos;
                None
            },
            CanvasMessage::RenderPassSubmitted => None,
            CanvasMessage::WindowResized(size) => {
                self.state.render_window_size = size;
                None
            },
            CanvasMessage::SwapChainFrameError(e) => {
                if e == FrameError::Timeout {
                    self.state.frame_timeout_count = bump_counter(self.state.frame_timeout_count);
                }
                None
            },
            CanvasMessage::PaintingStarted(buf) => {
                if self.state.painting_start_time.is_some() {
                    return None;
                }
                // `bytes` states that a buffer holds exactly one image of its size
                let _checked_len: usize = buf.bytes().len();
                let path = painting_file_name(&self.state.painting_filename);
                self.state.painting_pending = true;
                self.state.painting_start_time = Some(buf.timestamp());
                Some(
                    StillWriteJob {
                        buffer: buf,
                        path,
                        open_after_write: self.state.open_painting_externally,
                    },
                )
            },
            CanvasMessage::ShaderCompilationFailed(text) => {
                self.state.shader_compilation_error_msg = Some(text);
                self.outbox.push(DashboardMessage::Pause);
                None
            },
            CanvasMessage::ShaderCompilationSucceeded => {
                self.state.shader_compilation_error_msg = None;
                // While a capture holds the render loop paused, its completion resumes it.
                if !self.state.paused_for_painting {
                    self.outbox.push(DashboardMessage::Play);
                }
                self.state.paused = false;
                None
            },
            CanvasMessage::PausePlayChanged => {
                self.state.paused = !self.state.paused;
                None
            },
            CanvasMessage::UniformForGUI(u) => {
                self.state.gui_uniforms.push(u);
                None
            },
            CanvasMessage::UpdatePaintingResolutioninGUI(res) => {
                self.state.painting_resolution = res;
                None
            },
            CanvasMessage::MovieFrameStarted(buf) => {
                match &mut self.recorder {
                    Some(rec) => {
                        match rec.add_frame(buf) {
                            Ok(()) => {},
                            Err(_) => {
                                self.state.dropped_movie_frames = bump_counter(
                                    self.state.dropped_movie_frames,
                                );
                            },
                        }
                    },
                    None => {},
                }
                None
            },
        }
    }

    /// The session is running (not stopping) and a frame interval has passed
    /// since the last movie frame request.
    pub open spec fn movie_request_due(&self, now: u64) -> bool {
        self.recorder_view() matches Some(rec) && !rec.stop_requested() && frame_due(
            rec.framerate_view() as nat,
            self.last_movie_frame_view(),
            now,
        )
    }

    /// Movie frame requests a tick at `now` emits.
    pub open spec fn movie_requests_at(&self, now: u64) -> Seq<DashboardMessage> {
        if self.movie_request_due(now) {
            seq![DashboardMessage::MovieRenderRequested(self.recorder_view()->Some_0.resolution_view())]
        } else {
            seq![]
        }
    }

    /// One controller tick at time `now` (microseconds), run after the pending
    /// events were handled: requests a movie frame when one is due, releases a
    /// session whose encoder completed, and re-announces the still capture
    /// resolution to the render loop.
    pub fn update(&mut self, now: u64) -> (r: Option<RecordingSummary>)
        requires
            old(self).wf(),
        ensures
            final(self).wf(),
            final(self).state_view() == old(self).state_view(),
            final(self).outbox_view() == old(self).outbox_view() + old(self).movie_requests_at(now)
                + seq![DashboardMessage::PaintingResolutionUpdated(old(self).state_view().painting_resolution)],
            final(self).last_movie_frame_view() == (if old(self).movie_request_due(now) {
                Some(now)
            } else {
                old(self).last_movie_frame_view()
            }),
            match old(self).recorder_view() {
                None => final(self).recorder_view() is None && r is None,
                Some(rec) => if rec.completion_ready() {
                    final(self).recorder_view() is None && (r matches Some(sum) && sum.path@
                        == rec.path_view() && sum.frames_encoded == rec.frames_encoded_view())
                } else {
                    final(self).recorder_view() == Some(rec) && r is None
                },
            },
    {
        let mut summary: Option<RecordingSummary> = None;
        let mut finished = false;
        match &mut self.recorder {
            Some(rec) => {
                let frame_needed = !rec.stop_signal_sent() && movie_frame_due(
                    rec.framerate(),
                    self.last_movie_frame_time,
                    now,
                );
                if frame_needed {
                    self.outbox.push(DashboardMessage::MovieRenderRequested(rec.resolution()));
                    self.last_movie_frame_time = Some(now);
                }
                finished = rec.poll();
            },
            None => {},
        }
        if finished {
            match self.recorder.take() {
                Some(rec) => {
                    summary = Some(rec.finish());
                },
                None => {},
            }
        }
        self.outbox.push(DashboardMessage::PaintingResolutionUpdated(self.state.painting_resolution));
        proof {
            assert(self.outbox@ =~= old(self).outbox_view() + old(self).movie_requests_at(now)
                + seq![DashboardMessage::PaintingResolutionUpdated(old(self).state_view().painting_resolution)]);
        }
        summary
    }

    /// The record button: starts a session with the current recording
    /// settings when none exists, else asks the running session to stop. A
    /// framerate of zero refuses the start and changes nothing.
    pub fn toggle_recording(&mut self) -> (r: Result<(), RecorderError>)
        requires
            old(self).wf(),
        ensures
            final(self).wf(),
            final(self).state_view() == old(self).state_view(),
            final(self).outbox_view() == old(self).outbox_view(),
            match old(self).recorder_view() {
                None => {
                    &&& (r is Err <==> old(self).state_view().movie_framerate == 0)
                    &&& r is Err ==> r->Err_0 == RecorderError::InvalidFramerate && *final(self)
                        == *old(self)
                    &&& r is Ok ==> final(self).last_movie_frame_view() == old(self).last_movie_frame_view() && (final(
                        self).recorder_view() matches Some(rec) && rec.phase_view()
                        == RecorderPhase::Recording && rec.queue_view().len() == 0
                        && rec.frames_encoded_view() == 0 && !rec.encoder_done_view()
                        && rec.resolution_view() == old(self).state_view().recording_resolution
                        && rec.format_view() == MOVIE_PIXEL_FORMAT && rec.framerate_view()
                        == old(self).state_view().movie_framerate && rec.path_view() == movie_path(
                        old(self).state_view().recording_filename@,
                    ))
                },
                Some(rec) => {
                    &&& r is Ok
                    &&& final(self).last_movie_frame_view() == old(self).last_movie_frame_view()
                    &&& final(self).recorder_view() matches Some(r2) && r2.phase_view()
                        == RecorderPhase::Stopping && r2.queue_view() == rec.queue_view()
                        && r2.encoder_done_view() == rec.encoder_done_view()
                        && r2.frames_encoded_view() == rec.frames_encoded_view()
                        && r2.same_session(rec)
                },
            },
    {
        match &mut self.recorder {
            Some(rec) => {
                rec.stop();
                Ok(())
            },
            None => {
                let path = movie_file_name(&self.state.recording_filename);
                match Recorder::new(
                    self.state.recording_resolution,
                    MOVIE_PIXEL_FORMAT,
                    self.state.movie_framerate,
                    path,
                ) {
                    Ok(rec) => {
                        self.recorder = Some(rec);
                        Ok(())
                    },
                    Err(e) => Err(e),
                }
            },
        }
    }

    /// After the dashboard drew its frame: sends every uniform the user edited
    /// to the render loop, in order, and records how long the frame took.
    pub fn post_render(&mut self, render_time: u64)
        requires
            old(self).wf(),
        ensures
            final(self).wf(),
            final(self).outbox_view() == old(self).outbox_view()
                + old(self).state_view().gui_uniforms@.map_values(
                |u: Uniform| DashboardMessage::UniformUpdatedViaGUI(u),
            ),
            final(self).state_view().gui_uniforms@.len() == 0,
            final(self).state_view() == (DashboardState {
                last_render_time: render_time,
                gui_uniforms: final(self).state_view().gui_uniforms,
                ..old(self).state_view()
            }),
            final(self).same_capture(*old(self)),
    {
        let mut pending: Vec<Uniform> = Vec::new();
        std::mem::swap(&mut pending, &mut self.state.gui_uniforms);
        let ghost all = pending@;
        let mut sent: Vec<DashboardMessage> = Vec::new();
        while pending.len() > 0
            invariant
                pending@.len() <= all.len(),
                pending@ == all.subrange(all.len() - pending@.len(), all.len() as int),
                sent@ == all.subrange(0, all.len() - pending@.len()).map_values(
                    |u: Uniform| DashboardMessage::UniformUpdatedViaGUI(u),
                ),
            decreases pending@.len(),
        {
            let ghost k = all.len() - pending@.len();
            let u = pending.remove(0);
            sent.push(DashboardMessage::UniformUpdatedViaGUI(u));
            proof {
                assert(pending@ =~= all.subrange(all.len() - pending@.len(), all.len() as int));
                assert(sent@ =~= all.subrange(0, all.len() - pending@.len()).map_values(
                    |u: Uniform| DashboardMessage::UniformUpdatedViaGUI(u),
                ));
            }
        }
        proof {
            assert(all.subrange(0, all.len() as int) =~= all);
        }
        self.outbox.append(&mut sent);
        self.state.last_render_time = render_time;
    }

    /// Base name (without extension) of the next still capture's file.
    pub fn set_painting_filename(&mut self, value: String)
        requires
            old(self).wf(),
        ensures
            final(self).wf(),
            final(self).state_view() == (DashboardState { painting_filename: value, ..old(self).state_view() }),
            final(self).outbox_view() == old(self).outbox_view(),
            final(self).same_capture(*old(self)),
    {
        self.state.painting_filename = value;
    }

    /// Base name (without extension) of the next recording's file.
    pub fn set_recording_filename(&mut self, value: String)
        requires
            old(self).wf(),
        ensures
            final(self).wf(),
            final(self).state_view() == (DashboardState { recording_filename: value, ..old(self).state_view() }),
            final(self).outbox_view() == old(self).outbox_view(),
            final(self).same_capture(*old(self)),
    {
        self.state.recording_filename = value;
    }

    /// Resolution of the next still capture.
    pub fn set_painting_resolution(&mut self, value: Resolution)
        requires
            old(self).wf(),
        ensures
            final(self).wf(),
            final(self).state_view() == (DashboardState { painting_resolution: value, ..old(self).state_view() }),
            final(self).outbox_view() == old(self).outbox_view(),
            final(self).same_capture(*old(self)),
    {
        self.state.painting_resolution = value;
    }

    /// Resolution of the next recording.
    pub fn set_recording_resolution(&mut self, value: Resolution)
        requires
            old(self).wf(),
        ensures
            final(self).wf(),
            final(self).state_view() == (DashboardState { recording_resolution: value, ..old(self).state_view() }),
            final(self).outbox_view() == old(self).outbox_view(),
            final(self).same_capture(*old(self)),
    {
        self.state.recording_resolution = value;
    }

    /// Frames per second of the next recording.
    pub fn set_movie_framerate(&mut self, value: u32)
        requires
            old(self).wf(),
        ensures
            final(self).wf(),
            final(self).state_view() == (DashboardState { movie_framerate: value, ..old(self).state_view() }),
            final(self).outbox_view() == old(self).outbox_view(),
            final(self).same_capture(*old(self)),
    {
        self.state.movie_framerate = value;
    }

    /// Whether the render loop pauses while a still capture is taken.
    pub fn set_pause_while_painting(&mut self, value: bool)
        requires
            old(self).wf(),
        ensures
            final(self).wf(),
            final(self).state_view() == (DashboardState { pause_while_painting: value, ..old(self).state_view() }),
            final(self).outbox_view() == old(self).outbox_view(),
            final(self).same_capture(*old(self)),
    {
        self.state.pause_while_painting = value;
    }

    /// Whether a written still capture is opened in a viewer.
    pub fn set_open_painting_externally(&mut self, value: bool)
        requires
            old(self).wf(),
        ensures
            final(self).wf(),
            final(self).state_view() == (DashboardState { open_painting_externally: value, ..old(self).state_view() }),
            final(self).outbox_view() == old(self).outbox_view(),
            final(self).same_capture(*old(self)),
    {
        self.state.open_painting_externally = value;
    }

    /// Encoder side: the oldest movie frame waiting in the session, if any.
    pub fn take_movie_frame(&mut self) -> (r: Option<CaptureBuffer>)
        requires
            old(self).wf(),
        ensures
            final(self).wf(),
            final(self).same_but_capture(*old(self)),
            final(self).last_movie_frame_view() == old(self).last_movie_frame_view(),
            match old(self).recorder_view() {
                None => r is None && final(self).recorder_view() is None,
                Some(rec) => final(self).recorder_view() matches Some(r2) && (if rec.queue_view().len() == 0 {
                    r is None && r2 == rec
                } else {
                    r == Some(rec.queue_view()[0]) && r2.queue_view() == rec.queue_view().drop_first()
                        && r2.phase_view() == rec.phase_view() && r2.same_session(rec)
                        && r2.frames_encoded_view() == crate::dashboard::bump(rec.frames_encoded_view())
                        && r2.encoder_done_view() == rec.encoder_done_view()
                }),
            },
    {
        match &mut self.recorder {
            Some(rec) => rec.take_frame(),
            None => None,
        }
    }

    /// Encoder side: the encoder closed the output. Accepted, and the result
    /// true, only when the session is stopping and its queue is empty.
    pub fn movie_encoder_finished(&mut self) -> (r: bool)
        requires
            old(self).wf(),
        ensures
            final(self).wf(),
            final(self).same_but_capture(*old(self)),
            final(self).last_movie_frame_view() == old(self).last_movie_frame_view(),
            match old(self).recorder_view() {
                None => !r && final(self).recorder_view() is None,
                Some(rec) => {
                    &&& r == (rec.phase_view() == RecorderPhase::Stopping && rec.queue_view().len() == 0)
                    &&& final(self).recorder_view() matches Some(r2) && r2.encoder_done_view()
                        == (rec.encoder_done_view() || r) && r2.phase_view() == rec.phase_view()
                        && r2.queue_view() == rec.queue_view() && r2.frames_encoded_view()
                        == rec.frames_encoded_view() && r2.same_session(rec)
                },
            },
    {
        match &mut self.recorder {
            Some(rec) => rec.encoder_finished(),
            None => false,
        }
    }

    /// `self` is `prev` after one pause toggle: the flag flipped and one
    /// notification queued.
    pub open spec fn pause_toggled_from(&self, prev: Dashboard) -> bool {
        &&& self.state_view() == (DashboardState { paused: !prev.state_view().paused, ..prev.state_view() })
        &&& self.outbox_view() == prev.outbox_view().push(DashboardMessage::PausePlayChanged)
        &&& self.same_capture(prev)
    }

    /// Flips the pause flag and tells the render loop.
    pub fn toggle_pause(&mut self)
        requires
            old(self).wf(),
        ensures
            final(self).wf(),
            final(self).pause_toggled_from(*old(self)),
    {
        self.state.paused = !self.state.paused;
        self.outbox.push(DashboardMessage::PausePlayChanged);
    }

    /// Flips the title bar flag and tells the render loop.
    pub fn toggle_titlebar(&mut self)
        requires
            old(self).wf(),
        ensures
            final(self).wf(),
            final(self).state_view() == (DashboardState { show_titlebar: !old(self).state_view().show_titlebar, ..old(self).state_view() }),
            final(self).outbox_view() == old(self).outbox_view().push(DashboardMessage::TitlebarStatusChanged),
            final(self).same_capture(*old(self)),
    {
        self.state.show_titlebar = !self.state.show_titlebar;
        self.outbox.push(DashboardMessage::TitlebarStatusChanged);
    }

    /// Asks the render loop for a still capture at the current painting
    /// resolution, pausing it first when so configured. While an earlier
    /// capture is still pending the request is refused and nothing changes;
    /// the result says whether the request was made.
    pub fn request_painting(&mut self) -> (r: bool)
        requires
            old(self).wf(),
        ensures
            final(self).wf(),
            r == !old(self).state_view().painting_pending,
            !r ==> *final(self) == *old(self),
            r ==> final(self).state_view() == (DashboardState {
                painting_pending: true,
                paused_for_painting: old(self).state_view().pause_while_painting,
                ..old(self).state_view()
            }),
            r ==> final(self).outbox_view() == old(self).outbox_view() + (if old(self).state_view().pause_while_painting {
                seq![DashboardMessage::Pause]
            } else {
                seq![]
            }) + seq![DashboardMessage::PaintingRenderRequested(old(self).state_view().painting_resolution)],
            final(self).same_capture(*old(self)),
    {
        if self.state.painting_pending {
            return false;
        }
        self.state.painting_pending = true;
        self.state.paused_for_painting = self.state.pause_while_painting;
        if self.state.pause_while_painting {
            self.outbox.push(DashboardMessage::Pause);
        }
        self.outbox.push(DashboardMessage::PaintingRenderRequested(self.state.painting_resolution));
        proof {
            assert(self.outbox@ =~= old(self).outbox_view() + (if old(self).state_view().pause_while_painting {
                seq![DashboardMessage::Pause]
            } else {
                seq![]
            }) + seq![DashboardMessage::PaintingRenderRequested(old(self).state_view().painting_resolution)]);
        }
        true
    }

    /// The background writer reported the end of a still-image write at `now`,
    /// with its error text if it failed. Clears the pending capture, resumes the
    /// render loop when it was paused for the capture, and returns how long the
    /// capture took when its start time is known.
    pub fn painting_write_finished(&mut self, error: Option<String>, now: u64) -> (r: Option<u64>)
        requires
            old(self).wf(),
        ensures
            final(self).wf(),
            final(self).state_view() == (DashboardState {
                painting_pending: false,
                paused_for_painting: false,
                painting_start_time: None,
                painting_error_msg: error,
                ..old(self).state_view()
            }),
            final(self).outbox_view() == (if old(self).state_view().paused_for_painting {
                old(self).outbox_view().push(DashboardMessage::Play)
            } else {
                old(self).outbox_view()
            }),
            r == (match old(self).state_view().painting_start_time {
                Some(t) => if t <= now { Some((now - t) as u64) } else { None },
                None => None,
            }),
            final(self).same_capture(*old(self)),
    {
        let elapsed = match self.state.painting_start_time {
            Some(t) => if t <= now { Some(now - t) } else { None },
            None => None,
        };
        self.state.painting_pending = false;
        self.state.painting_start_time = None;
        self.state.painting_error_msg = error;
        if self.state.paused_for_painting {
            self.outbox.push(DashboardMessage::Play);
        }
        self.state.paused_for_painting = false;
        elapsed
    }
}

/// Movie frame requests are never closer than one frame interval: when the
/// last request was made at `t1` (in this session or an earlier one, since
/// starting a session keeps that time), a tick at `t2` requests another frame only if
/// at least `1 / framerate` seconds passed (`(t2 - t1) * framerate` is at least
/// one second in microseconds).
pub proof fn lemma_movie_requests_spaced(d: Dashboard, t1: u64, t2: u64)
    requires
        d.wf(),
        d.last_movie_frame_view() == Some(t1),
        d.movie_request_due(t2),
    ensures
        d.recorder_view() matches Some(rec) && rec.framerate_view() >= 1 && t1 <= t2 && (t2 - t1)
            * rec.framerate_view() >= crate::pacing::MICROS_PER_SECOND,
{
}

/// Once stop was requested, no tick emits a movie frame request, while frames
/// already requested are still taken by the session.
pub proof fn lemma_no_requests_after_stop(d: Dashboard, now: u64)
    requires
        d.wf(),
        d.recorder_view() matches Some(rec) && rec.stop_requested(),
    ensures
        !d.movie_request_due(now),
        d.movie_requests_at(now) == Seq::<DashboardMessage>::empty(),
        d.recorder_view() matches Some(rec) && (rec.phase_view() == RecorderPhase::Stopping
            && !rec.encoder_done_view() && rec.queue_view().len()
            < crate::recorder::FRAME_QUEUE_CAPACITY ==> rec.accepts_frame()),
{
}

/// Toggling pause twice restores the pause flag and the rest of the state, and
/// queues exactly two pause notifications.
pub proof fn lemma_toggle_pause_twice(d0: Dashboard, d1: Dashboard, d2: Dashboard)
    requires
        d1.pause_toggled_from(d0),
        d2.pause_toggled_from(d1),
    ensures
        d2.state_view() == d0.state_view(),
        d2.outbox_view() == d0.outbox_view() + seq![DashboardMessage::PausePlayChanged, DashboardMessage::PausePlayChanged],
        d2.same_capture(d0),
{
    assert(d2.outbox_view() =~= d0.outbox_view() + seq![DashboardMessage::PausePlayChanged, DashboardMessage::PausePlayChanged]);
}

} // verus!
