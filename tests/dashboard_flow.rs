use shader_dashboard::capture::{CaptureBuffer, PixelFormat, Resolution};
use shader_dashboard::dashboard::{Dashboard, DashboardState, MOVIE_PIXEL_FORMAT};
use shader_dashboard::messages::{
    CanvasMessage, DashboardMessage, FrameError, PointerPosition, Uniform,
};
use shader_dashboard::recorder::{RecorderError, RecorderPhase};

fn res(width: u32, height: u32) -> Resolution {
    Resolution { width, height }
}

fn movie_frame(r: Resolution, timestamp: u64) -> CaptureBuffer {
    let len = r.width as usize * r.height as usize * MOVIE_PIXEL_FORMAT.bytes_per_pixel() as usize;
    CaptureBuffer::new(vec![0u8; len], r, MOVIE_PIXEL_FORMAT, timestamp).unwrap()
}

fn movie_requests(msgs: &[DashboardMessage]) -> usize {
    msgs.iter().filter(|m| matches!(m, DashboardMessage::MovieRenderRequested(_))).count()
}

#[test]
fn state_defaults() {
    let s = DashboardState::new();
    assert_eq!(s.frame_num, 0);
    assert!(!s.paused);
    assert!(s.show_titlebar);
    assert_eq!(s.recording_resolution, res(512, 512));
    assert_eq!(s.painting_resolution, res(0, 0));
    assert_eq!(s.painting_filename, "Painting");
    assert_eq!(s.recording_filename, "Muybridge");
    assert_eq!(s.movie_framerate, 60);
    assert!(s.open_painting_externally);
    assert!(s.pause_while_painting);
    assert!(!s.painting_pending);
    assert!(s.gui_uniforms.is_empty());
}

#[test]
fn toggle_pause_twice_restores_state() {
    let mut d = Dashboard::new(res(800, 600));
    let before = d.state().paused;
    d.toggle_pause();
    assert_eq!(d.state().paused, !before);
    d.toggle_pause();
    assert_eq!(d.state().paused, before);
    let msgs = d.take_messages();
    assert_eq!(msgs.len(), 2);
    assert!(msgs.iter().all(|m| matches!(m, DashboardMessage::PausePlayChanged)));
    assert!(d.take_messages().is_empty());
}

#[test]
fn toggle_titlebar_notifies() {
    let mut d = Dashboard::new(res(800, 600));
    d.toggle_titlebar();
    assert!(!d.state().show_titlebar);
    let msgs = d.take_messages();
    assert!(matches!(msgs[..], [DashboardMessage::TitlebarStatusChanged]));
}

#[test]
fn second_painting_request_while_pending_is_ignored() {
    let mut d = Dashboard::new(res(800, 600));
    d.set_pause_while_painting(true);
    d.set_painting_resolution(res(64, 32));
    assert!(d.request_painting());
    let msgs = d.take_messages();
    assert!(matches!(
        msgs[..],
        [DashboardMessage::Pause, DashboardMessage::PaintingRenderRequested(Resolution { width: 64, height: 32 })]
    ));
    assert!(d.state().painting_pending);
    assert!(!d.request_painting());
    assert!(d.take_messages().is_empty());
    assert!(d.state().painting_pending);
}

#[test]
fn painting_flow_resumes_after_write() {
    let mut d = Dashboard::new(res(800, 600));
    d.set_painting_resolution(res(2, 2));
    assert!(d.request_painting());
    d.take_messages();
    let buf = CaptureBuffer::new(vec![0u8; 16], res(2, 2), PixelFormat::Rgba8, 1_000).unwrap();
    let job = d.handle_message(CanvasMessage::PaintingStarted(buf)).unwrap();
    assert_eq!(job.path, "Painting.tiff");
    assert!(job.open_after_write);
    assert_eq!(job.buffer.timestamp(), 1_000);
    assert_eq!(d.state().painting_start_time, Some(1_000));
    assert_eq!(d.painting_write_finished(None, 251_000), Some(250_000));
    assert!(!d.state().painting_pending);
    assert_eq!(d.state().painting_start_time, None);
    let msgs = d.take_messages();
    assert!(matches!(msgs[..], [DashboardMessage::Play]));
    assert!(d.request_painting());
}

#[test]
fn painting_without_pause_sends_no_pause() {
    let mut d = Dashboard::new(res(800, 600));
    d.set_pause_while_painting(false);
    d.set_painting_filename(String::from("shot"));
    d.set_open_painting_externally(false);
    assert!(d.request_painting());
    let msgs = d.take_messages();
    assert!(matches!(msgs[..], [DashboardMessage::PaintingRenderRequested(_)]));
    let buf = CaptureBuffer::new(vec![0u8; 4], res(1, 1), PixelFormat::Bgra8, 5).unwrap();
    let job = d.handle_message(CanvasMessage::PaintingStarted(buf)).unwrap();
    assert_eq!(job.path, "shot.tiff");
    assert!(!job.open_after_write);
    assert_eq!(d.painting_write_finished(Some(String::from("disk full")), 2), None);
    assert_eq!(d.state().painting_error_msg, Some(String::from("disk full")));
    assert!(d.take_messages().is_empty());
}

#[test]
fn events_update_state() {
    let mut d = Dashboard::new(res(800, 600));
    assert!(d.handle_message(CanvasMessage::FrameStep).is_none());
    d.handle_message(CanvasMessage::FrameStep);
    assert_eq!(d.state().frame_num, 2);
    d.handle_message(CanvasMessage::MouseMoved(PointerPosition { x: 3, y: -4 }));
    assert_eq!(d.state().mouse_pos, PointerPosition { x: 3, y: -4 });
    d.handle_message(CanvasMessage::WindowResized(res(100, 50)));
    assert_eq!(d.state().render_window_size, res(100, 50));
    d.handle_message(CanvasMessage::SwapChainFrameError(FrameError::Timeout));
    d.handle_message(CanvasMessage::SwapChainFrameError(FrameError::Lost));
    assert_eq!(d.state().frame_timeout_count, 1);
    d.handle_message(CanvasMessage::UpdatePaintingResolutioninGUI(res(7, 9)));
    assert_eq!(d.state().painting_resolution, res(7, 9));
    d.handle_message(CanvasMessage::RenderPassSubmitted);
    d.handle_message(CanvasMessage::PausePlayChanged);
    assert!(d.state().paused);
    assert!(d.take_messages().is_empty());
}

#[test]
fn shader_failure_pauses_and_recovery_plays() {
    let mut d = Dashboard::new(res(800, 600));
    d.handle_message(CanvasMessage::PausePlayChanged);
    d.handle_message(CanvasMessage::ShaderCompilationFailed(String::from("bad")));
    assert_eq!(d.state().shader_compilation_error_msg, Some(String::from("bad")));
    d.handle_message(CanvasMessage::ShaderCompilationSucceeded);
    assert_eq!(d.state().shader_compilation_error_msg, None);
    assert!(!d.state().paused);
    let msgs = d.take_messages();
    assert!(matches!(msgs[..], [DashboardMessage::Pause, DashboardMessage::Play]));
}

#[test]
fn edited_uniforms_are_sent_in_order() {
    let mut d = Dashboard::new(res(800, 600));
    d.handle_message(CanvasMessage::UniformForGUI(Uniform { name: String::from("a"), bytes: vec![1] }));
    d.handle_message(CanvasMessage::UniformForGUI(Uniform { name: String::from("b"), bytes: vec![2, 3] }));
    d.post_render(16_000);
    assert_eq!(d.state().last_render_time, 16_000);
    assert!(d.state().gui_uniforms.is_empty());
    let msgs = d.take_messages();
    assert_eq!(msgs.len(), 2);
    match (&msgs[0], &msgs[1]) {
        (DashboardMessage::UniformUpdatedViaGUI(a), DashboardMessage::UniformUpdatedViaGUI(b)) => {
            assert_eq!(a.name, "a");
            assert_eq!(b.name, "b");
            assert_eq!(b.bytes, vec![2, 3]);
        }
        _ => panic!("unexpected messages"),
    }
}

#[test]
fn update_announces_painting_resolution() {
    let mut d = Dashboard::new(res(800, 600));
    d.set_painting_resolution(res(11, 13));
    assert!(d.update(0).is_none());
    let msgs = d.take_messages();
    assert!(matches!(
        msgs[..],
        [DashboardMessage::PaintingResolutionUpdated(Resolution { width: 11, height: 13 })]
    ));
}

#[test]
fn movie_requests_are_paced() {
    let mut d = Dashboard::new(res(800, 600));
    d.set_movie_framerate(30);
    d.set_recording_resolution(res(8, 8));
    assert_eq!(d.toggle_recording(), Ok(()));
    d.update(1_000_000);
    let msgs = d.take_messages();
    assert!(matches!(msgs[0], DashboardMessage::MovieRenderRequested(Resolution { width: 8, height: 8 })));
    assert_eq!(movie_requests(&msgs), 1);
    d.update(1_010_000);
    assert_eq!(movie_requests(&d.take_messages()), 0);
    d.update(1_033_333);
    assert_eq!(movie_requests(&d.take_messages()), 0);
    d.update(1_033_334);
    assert_eq!(movie_requests(&d.take_messages()), 1);
    d.update(1_050_000);
    assert_eq!(movie_requests(&d.take_messages()), 0);
}

#[test]
fn no_movie_requests_after_stop() {
    let mut d = Dashboard::new(res(800, 600));
    d.set_recording_resolution(res(2, 2));
    d.toggle_recording().unwrap();
    d.update(0);
    assert_eq!(movie_requests(&d.take_messages()), 1);
    d.toggle_recording().unwrap();
    assert_eq!(d.recorder().as_ref().unwrap().phase(), RecorderPhase::Stopping);
    for t in 1..20u64 {
        d.update(t * 1_000_000);
        assert_eq!(movie_requests(&d.take_messages()), 0);
    }
    // The frame asked for before the stop still arrives and is kept.
    let msg = CanvasMessage::MovieFrameStarted(movie_frame(res(2, 2), 5));
    assert!(d.accepts_message(&msg));
    d.handle_message(msg);
    assert_eq!(d.recorder().as_ref().unwrap().queued_frames(), 1);
}

#[test]
fn recording_session_through_dashboard() {
    let mut d = Dashboard::new(res(800, 600));
    d.set_recording_resolution(res(2, 2));
    d.set_recording_filename(String::from("clip"));
    d.set_movie_framerate(10);
    d.toggle_recording().unwrap();
    let r = d.recorder().as_ref().unwrap();
    assert_eq!(r.framerate(), 10);
    assert_eq!(r.resolution(), res(2, 2));
    for i in 0..3u64 {
        d.update(i * 100_000);
        let msg = CanvasMessage::MovieFrameStarted(movie_frame(res(2, 2), i * 100_000));
        assert!(d.accepts_message(&msg));
        d.handle_message(msg);
    }
    assert_eq!(movie_requests(&d.take_messages()), 3);
    d.toggle_recording().unwrap();
    assert!(d.update(400_000).is_none());
    assert!(!d.movie_encoder_finished());
    let mut drained = Vec::new();
    while let Some(f) = d.take_movie_frame() {
        drained.push(f.timestamp());
    }
    assert_eq!(drained, vec![0, 100_000, 200_000]);
    assert!(d.movie_encoder_finished());
    let summary = d.update(500_000).unwrap();
    assert_eq!(summary.path, "clip.mp4");
    assert_eq!(summary.frames_encoded, 3);
    assert!(d.recorder().is_none());
    assert!(d.update(600_000).is_none());
    assert_eq!(movie_requests(&d.take_messages()), 0);
}

#[test]
fn frame_without_session_is_not_accepted() {
    let d = Dashboard::new(res(800, 600));
    let msg = CanvasMessage::MovieFrameStarted(movie_frame(res(2, 2), 0));
    assert!(!d.accepts_message(&msg));
    assert!(d.accepts_message(&CanvasMessage::FrameStep));
}

#[test]
fn frame_of_other_resolution_is_not_accepted() {
    let mut d = Dashboard::new(res(800, 600));
    d.set_recording_resolution(res(2, 2));
    d.toggle_recording().unwrap();
    let msg = CanvasMessage::MovieFrameStarted(movie_frame(res(3, 2), 0));
    assert!(!d.accepts_message(&msg));
}

#[test]
fn zero_framerate_refuses_to_start() {
    let mut d = Dashboard::new(res(800, 600));
    d.set_movie_framerate(0);
    assert_eq!(d.toggle_recording(), Err(RecorderError::InvalidFramerate));
    assert!(d.recorder().is_none());
}

#[test]
fn full_queue_counts_dropped_frames() {
    let mut d = Dashboard::new(res(800, 600));
    d.set_recording_resolution(res(1, 1));
    d.toggle_recording().unwrap();
    for i in 0..70u64 {
        d.handle_message(CanvasMessage::MovieFrameStarted(movie_frame(res(1, 1), i)));
    }
    assert_eq!(d.state().dropped_movie_frames, 6);
    assert_eq!(d.recorder().as_ref().unwrap().queued_frames(), 64);
}

#[test]
fn dashboard_new_holds_default_state() {
    let d = Dashboard::new(res(640, 480));
    let s = d.state();
    assert_eq!(s.render_window_size, res(640, 480));
    assert!(s.show_titlebar);
    assert_eq!(s.recording_resolution, res(512, 512));
    assert_eq!(s.painting_resolution, res(0, 0));
    assert_eq!(s.frame_num, 0);
    assert_eq!(s.frame_timeout_count, 0);
    assert_eq!(s.last_render_time, 0);
    assert_eq!(s.dropped_movie_frames, 0);
    assert!(s.open_painting_externally);
    assert!(!s.paused_for_painting);
    assert_eq!(s.painting_start_time, None);
    assert_eq!(s.painting_error_msg, None);
    assert_eq!(s.shader_compilation_error_msg, None);
    assert!(s.gui_uniforms.is_empty());
    assert!(d.recorder().is_none());
}

#[test]
fn movie_requests_spaced_across_sessions() {
    let mut d = Dashboard::new(res(800, 600));
    d.set_movie_framerate(30);
    d.set_recording_resolution(res(1, 1));
    d.toggle_recording().unwrap();
    d.update(1_000_000);
    assert_eq!(movie_requests(&d.take_messages()), 1);
    d.toggle_recording().unwrap();
    assert!(d.movie_encoder_finished());
    assert!(d.update(1_000_001).is_some());
    d.toggle_recording().unwrap();
    d.update(1_000_002);
    assert_eq!(movie_requests(&d.take_messages()), 0);
    d.update(1_033_334);
    assert_eq!(movie_requests(&d.take_messages()), 1);
}

#[test]
fn second_capture_while_write_in_flight_is_ignored() {
    let mut d = Dashboard::new(res(800, 600));
    let first = CaptureBuffer::new(vec![0u8; 4], res(1, 1), PixelFormat::Rgba8, 10).unwrap();
    assert!(d.handle_message(CanvasMessage::PaintingStarted(first)).is_some());
    let second = CaptureBuffer::new(vec![0u8; 4], res(1, 1), PixelFormat::Rgba8, 20).unwrap();
    assert!(d.handle_message(CanvasMessage::PaintingStarted(second)).is_none());
    assert_eq!(d.state().painting_start_time, Some(10));
    d.painting_write_finished(None, 30);
    let third = CaptureBuffer::new(vec![0u8; 4], res(1, 1), PixelFormat::Rgba8, 40).unwrap();
    assert!(d.handle_message(CanvasMessage::PaintingStarted(third)).is_some());
}

#[test]
fn play_follows_the_pause_actually_sent() {
    let mut d = Dashboard::new(res(800, 600));
    d.set_pause_while_painting(true);
    assert!(d.request_painting());
    d.set_pause_while_painting(false);
    d.take_messages();
    d.painting_write_finished(None, 1);
    assert!(matches!(d.take_messages()[..], [DashboardMessage::Play]));

    d.set_pause_while_painting(false);
    assert!(d.request_painting());
    d.set_pause_while_painting(true);
    d.take_messages();
    d.painting_write_finished(None, 2);
    assert!(d.take_messages().is_empty());
}

#[test]
fn shader_recovery_waits_for_paused_capture() {
    let mut d = Dashboard::new(res(800, 600));
    assert!(d.request_painting());
    d.handle_message(CanvasMessage::ShaderCompilationFailed(String::from("bad")));
    d.handle_message(CanvasMessage::ShaderCompilationSucceeded);
    let msgs = d.take_messages();
    assert!(matches!(
        msgs[..],
        [DashboardMessage::Pause, DashboardMessage::PaintingRenderRequested(_), DashboardMessage::Pause]
    ));
    d.painting_write_finished(None, 5);
    assert!(matches!(d.take_messages()[..], [DashboardMessage::Play]));
    d.handle_message(CanvasMessage::ShaderCompilationSucceeded);
    assert!(matches!(d.take_messages()[..], [DashboardMessage::Play]));
}
