//! The authoritative application state owned by the dispatch loop, and the
//! interaction mode that decides how keystrokes are interpreted.
use vstd::prelude::*;

verus! {

/// The active interpretation context for keystrokes.
#[derive(Clone, Copy, PartialEq, Eq, Debug, Structural)]
pub enum Mode {
    Normal,
    Command,
}

impl Mode {
    /// The text shown for this mode in the status line.
    pub open spec fn label_spec(self) -> Seq<char> {
        match self {
            Mode::Normal => "NORMAL"@,
            Mode::Command => "COMMAND"@,
        }
    }

    pub fn label(&self) -> (r: &'static str)
        ensures
            r@ == self.label_spec(),
    {
        match self {
            Mode::Normal => "NORMAL",
            Mode::Command => "COMMAND",
        }
    }
}

/// Which page the main block shows.
#[derive(Clone, Copy, PartialEq, Eq, Debug, Structural)]
pub enum Page {
    Devices,
}

/// Per-page state, present once the page has loaded anything.
pub enum PageState {
    Devices(DevicesPageState),
}

/// What the devices page knows: the names of the enumerated devices, and
/// whether a load is still in flight. Device enumeration itself is an outside
/// service; only these plain values of it reach the state.
pub struct DevicesPageState {
    pub devices: Vec<String>,
    pub loading: bool,
}

/// The mathematical model of the application state: the four fields the
/// dispatch state machine reads and writes, each as a plain value.
#[verifier::ext_equal]
pub struct StateModel {
    pub mode: Mode,
    pub command_buffer: Seq<char>,
    pub error_text: Option<Seq<char>>,
    pub exit_requested: bool,
}

impl StateModel {
    /// The state every session starts from: Normal mode, nothing typed,
    /// no error, not exiting.
    pub open spec fn init() -> StateModel {
        StateModel {
            mode: Mode::Normal,
            command_buffer: Seq::empty(),
            error_text: None,
            exit_requested: false,
        }
    }
}

/// The authoritative application state. The dispatch loop is its only
/// mutator; the renderer reads a snapshot of it once per frame.
pub struct State {
    pub mode: Mode,
    /// The in-progress command text, leading ':' separator included.
    pub command_buffer: String,
    /// Transient: set by a failed submission, cleared at the start of the
    /// next loop iteration.
    pub error_text: Option<String>,
    pub exit_requested: bool,
    pub page: Page,
    pub page_state: Option<PageState>,
}

impl View for State {
    type V = StateModel;

    open spec fn view(&self) -> StateModel {
        StateModel {
            mode: self.mode,
            command_buffer: self.command_buffer@,
            error_text: match self.error_text {
                Some(ref t) => Some(t@),
                None => None,
            },
            exit_requested: self.exit_requested,
        }
    }
}

impl Default for State {
    /// The startup state: Normal mode, empty buffer, no error, not exiting,
    /// devices page not yet loaded.
    fn default() -> (r: State)
        ensures
            r@ == StateModel::init(),
            r.page == Page::Devices,
            r.page_state is None,
    {
        let r = State {
            mode: Mode::Normal,
            command_buffer: String::new(),
            error_text: None,
            exit_requested: false,
            page: Page::Devices,
            page_state: None,
        };
        proof {
            assert(r@ =~= StateModel::init());
        }
        r
    }
}

} // verus!
