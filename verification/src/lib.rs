//! The verified core of a modal terminal shell: keystrokes are translated
//! into semantic events by a mapper scoped to the active mode, and a
//! dispatch state machine owns the application state those events mutate.
//! The terminal, the channels and the task scheduling live outside; every
//! decision they carry out is specified and proved here.

pub mod collector;
pub mod command;
pub mod dispatch;
pub mod event;
pub mod key;
pub mod laws;
pub mod mapper;
pub mod state;
