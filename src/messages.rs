use vstd::prelude::*;
use crate::capture::{CaptureBuffer, Resolution};

verus! {

/// A shader uniform the user can edit in the dashboard: its name and its raw
/// bytes as laid out for the GPU.
#[derive(Debug)]
pub struct Uniform {
    pub name: String,
    pub bytes: Vec<u8>,
}

/// Pointer position over the render canvas, in pixels.
#[derive(Clone, Copy, Debug, PartialEq, Eq, Structural)]
pub struct PointerPosition {
    pub x: i32,
    pub y: i32,
}

/// Why the render loop could not obtain a frame of its surface.
#[derive(Clone, Copy, Debug, PartialEq, Eq, Structural)]
pub enum FrameError {
    Timeout,
    Outdated,
    Lost,
    OutOfMemory,
}

/// Commands the dashboard sends to the render loop.
#[derive(Debug)]
pub enum DashboardMessage {
    PausePlayChanged,
    Play,
    Pause,
    TitlebarStatusChanged,
    PaintingRenderRequested(Resolution),
    PaintingResolutionUpdated(Resolution),
    MovieRenderRequested(Resolution),
    UniformUpdatedViaGUI(Uniform),
}

/// Events the render loop sends to the dashboard.
#[derive(Debug)]
pub enum CanvasMessage {
    FrameStep,
    MouseMoved(PointerPosition),
    RenderPassSubmitted,
    WindowResized(Resolution),
    SwapChainFrameError(FrameError),
    PaintingStarted(CaptureBuffer),
    ShaderCompilationFailed(String),
    ShaderCompilationSucceeded,
    PausePlayChanged,
    UniformForGUI(Uniform),
    UpdatePaintingResolutioninGUI(Resolution),
    MovieFrameStarted(CaptureBuffer),
}

} // verus!
