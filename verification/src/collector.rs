//! The collector's decision logic: the state the polling task owns and how
//! it reacts to control instructions and to polled keys. The task's own
//! waiting, polling and channel sends are I/O around these functions.
use vstd::prelude::*;
use crate::dispatch::Request;
use crate::event::Event;
use crate::key::KeyEvent;
use crate::mapper::{map_key, mode_map};
use crate::state::Mode;

verus! {

/// What the collector task owns: which mode's mapper is installed, and
/// whether a stop was requested.
#[derive(Clone, Copy, PartialEq, Eq, Debug, Structural)]
pub struct CollectorState {
    pub mode: Mode,
    pub stop_requested: bool,
}

impl CollectorState {
    /// A collector as it starts: the Normal-mode mapper installed, running.
    pub fn new() -> (r: CollectorState)
        ensures
            r == (CollectorState { mode: Mode::Normal, stop_requested: false }),
    {
        CollectorState { mode: Mode::Normal, stop_requested: false }
    }

    /// React to one control instruction: Stop ends the task, UseMapper
    /// installs the mapper that belongs to the announced mode.
    pub fn handle_request(&mut self, request: Request)
        ensures
            *final(self) == (match request {
                Request::Stop => CollectorState { stop_requested: true, ..*old(self) },
                Request::UseMapper(mode) => CollectorState { mode, ..*old(self) },
            }),
    {
        match request {
            Request::Stop => self.stop_requested = true,
            Request::UseMapper(mode) => self.mode = mode,
        }
    }

    /// Map one polled key with the installed mapper: exactly the events to
    /// forward, in the order to forward them.
    pub fn handle_input(&self, key: KeyEvent) -> (r: Vec<Event>)
        ensures
            r@ == mode_map(self.mode, key),
    {
        map_key(self.mode, key)
    }
}

} // verus!
