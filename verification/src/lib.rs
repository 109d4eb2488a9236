//! Per-frame render-command orchestration: passes record GPU work as plain
//! command lists, push them to an ordered queue, and the frame driver drains
//! that queue for submission.

pub mod command;
pub mod error;
pub mod frame;
pub mod handle;
pub mod queue;
pub mod scene;
pub mod systems;
pub mod target;
pub mod uniforms;
