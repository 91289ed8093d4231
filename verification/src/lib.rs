//! Push-to-talk dictation core: the typing reconciler, the keyboard operation
//! planner, the actor messages and the orchestration state machine.

pub mod actors;
pub mod audio;
pub mod config;
pub mod control;
pub mod keyboard;
pub mod model;
pub mod pure;
pub mod sources;
pub mod transcriber;
