//! Coordination core of an interactive renderer's control dashboard: still
//! captures ("paintings"), paced movie recording, and the controller that
//! exchanges messages with the render loop.

pub mod capture;
pub mod dashboard;
pub mod messages;
pub mod pacing;
pub mod recorder;
