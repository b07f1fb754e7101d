//! What the application reads from the keyboard and hears back from the
//! work it asked for, and what it asks its caller to do.

use crate::types::{AnalysisResult, AnalysisResultView, Config, ConfigView};
use vstd::prelude::*;

verus! {

/// A key. `Other` stands for every key that the application ignores.
#[derive(Debug, Clone, Copy, PartialEq, Eq, Structural)]
pub enum KeyCode {
    Char(char),
    Enter,
    Esc,
    Tab,
    Backspace,
    Delete,
    Left,
    Right,
    Up,
    Down,
    Home,
    End,
    Other,
}

/// A key press: the key, and whether Control was held.
#[derive(Debug, Clone, Copy, PartialEq, Eq, Structural)]
pub struct KeyEvent {
    pub code: KeyCode,
    pub ctrl: bool,
}

impl KeyEvent {
    /// The key pressed alone.
    pub fn plain(code: KeyCode) -> (r: KeyEvent)
        ensures
            r == (KeyEvent { code, ctrl: false }),
    {
        KeyEvent { code, ctrl: false }
    }

    /// The key pressed with Control held.
    pub fn with_ctrl(code: KeyCode) -> (r: KeyEvent)
        ensures
            r == (KeyEvent { code, ctrl: true }),
    {
        KeyEvent { code, ctrl: true }
    }

    pub open spec fn spec_is_quit(&self) -> bool {
        self.ctrl && self.code == KeyCode::Char('c')
    }

    /// Whether the press is Control+C, which quits from every screen.
    #[verifier::when_used_as_spec(spec_is_quit)]
    pub fn is_quit(&self) -> (r: bool)
        ensures
            r == self.spec_is_quit(),
    {
        self.ctrl && match self.code {
            KeyCode::Char(c) => c == 'c',
            _ => false,
        }
    }

    pub open spec fn spec_is_kill_line(&self) -> bool {
        self.ctrl && self.code == KeyCode::Char('u')
    }

    /// Whether the press is Control+U, which deletes back to the line start.
    #[verifier::when_used_as_spec(spec_is_kill_line)]
    pub fn is_kill_line(&self) -> (r: bool)
        ensures
            r == self.spec_is_kill_line(),
    {
        self.ctrl && match self.code {
            KeyCode::Char(c) => c == 'u',
            _ => false,
        }
    }
}

/// Why a configuration is to be written to disk.
#[derive(Debug, Clone, Copy, PartialEq, Eq, Structural)]
pub enum PersistReason {
    /// The active backend was cycled from the prompt.
    ProviderSwitch,
    /// The configuration is to be replaced by the defaults.
    Reset,
    /// The settings screen was saved.
    Settings,
}

/// The snapshot that a background analysis works on. It is taken by value,
/// so later edits of the prompt or the configuration do not reach it.
#[derive(Debug)]
pub struct AnalysisRequest {
    pub config: Config,
    pub prompt: String,
}

/// Work that the application asks its caller to do.
#[derive(Debug)]
pub enum Action {
    /// Nothing to do.
    Nothing,
    /// Analyse the prompt of the request with the backend that its
    /// configuration selects, and report the outcome as
    /// `Event::AnalysisFinished`.
    Analyze(AnalysisRequest),
    /// Write the configuration to disk, and report the outcome at once as
    /// `Event::Persisted` with the same reason.
    Persist(Config, PersistReason),
}

pub enum ActionView {
    Nothing,
    Analyze { config: ConfigView, prompt: Seq<char> },
    Persist { config: ConfigView, reason: PersistReason },
}

impl View for Action {
    type V = ActionView;

    open spec fn view(&self) -> ActionView {
        match self {
            Action::Nothing => ActionView::Nothing,
            Action::Analyze(request) => ActionView::Analyze {
                config: request.config@,
                prompt: request.prompt@,
            },
            Action::Persist(config, reason) => ActionView::Persist {
                config: config@,
                reason: *reason,
            },
        }
    }
}

/// Something that happened outside and that the application reacts to.
#[derive(Debug)]
pub enum Event {
    /// A key was pressed.
    Key(KeyEvent),
    /// One polling interval went by.
    Tick,
    /// The background analysis ended, with a result or an error message.
    AnalysisFinished(Result<AnalysisResult, String>),
    /// A configuration write ended, well or with an error message.
    Persisted(PersistReason, Result<(), String>),
}

pub enum EventView {
    Key(KeyEvent),
    Tick,
    AnalysisFinished(Result<AnalysisResultView, Seq<char>>),
    Persisted(PersistReason, Result<(), Seq<char>>),
}

/// The outcome of an analysis as the model sees it.
pub open spec fn analysis_outcome_view(outcome: Result<AnalysisResult, String>) -> Result<
    AnalysisResultView,
    Seq<char>,
> {
    match outcome {
        Ok(result) => Ok(result@),
        Err(message) => Err(message@),
    }
}

/// The outcome of a configuration write as the model sees it.
pub open spec fn persist_outcome_view(outcome: Result<(), String>) -> Result<(), Seq<char>> {
    match outcome {
        Ok(_) => Ok(()),
        Err(message) => Err(message@),
    }
}

impl View for Event {
    type V = EventView;

    open spec fn view(&self) -> EventView {
        match self {
            Event::Key(key) => EventView::Key(*key),
            Event::Tick => EventView::Tick,
            Event::AnalysisFinished(outcome) => EventView::AnalysisFinished(
                analysis_outcome_view(*outcome),
            ),
            Event::Persisted(reason, outcome) => EventView::Persisted(
                *reason,
                persist_outcome_view(*outcome),
            ),
        }
    }
}

} // verus!
