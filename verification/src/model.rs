//! The application as a state machine over mathematical values: the state,
//! its invariant, the transition for every event, the work each transition
//! asks for, and the laws that hold of them.

use crate::buffer::TextBufferView;
use crate::input::{ActionView, EventView, KeyCode, KeyEvent, PersistReason};
use crate::palette::{command_named, lemma_matching_commands, matching_commands};
use crate::text::starts_with_slash;
use crate::types::{
    AnalysisResultView,
    AppState,
    Command,
    ConfigView,
    ProviderType,
    Screen,
    SettingsField,
};
use vstd::prelude::*;

verus! {

/// The message shown when writing the configuration after a backend switch
/// failed with `cause`.
pub open spec fn save_failure(cause: Seq<char>) -> Seq<char> {
    "Failed to save config: "@ + cause
}

/// The message shown when writing the default configuration failed with `cause`.
pub open spec fn reset_failure(cause: Seq<char>) -> Seq<char> {
    "Failed to reset config: "@ + cause
}

/// The message of the settings screen when saving failed with `cause`.
pub open spec fn settings_failure(cause: Seq<char>) -> Seq<char> {
    "Error: "@ + cause
}

/// The message of the settings screen when saving went well.
pub open spec fn settings_saved() -> Seq<char> {
    "Settings saved!"@
}

/// The number of polling intervals that one animation frame lasts.
pub open spec fn ticks_per_frame() -> nat {
    5
}

/// The number of animation frames.
pub open spec fn frame_count() -> nat {
    3
}

/// Everything the application knows, as mathematical values.
pub struct AppView {
    pub screen: Screen,
    pub state: AppState,
    pub prompt: TextBufferView,
    pub result: Option<AnalysisResultView>,
    pub error: Option<Seq<char>>,
    pub should_quit: bool,
    pub config: ConfigView,
    pub command_selected: nat,
    pub command_filter: Seq<char>,
    pub settings_selected: nat,
    pub settings_editing: bool,
    pub settings_edit: TextBufferView,
    pub settings_message: Option<Seq<char>>,
    pub settings_is_error: bool,
    pub settings_config: ConfigView,
    pub animation_frame: nat,
    pub analyzing_word: Seq<char>,
    pub tick_counter: nat,
}

impl AppView {
    /// The state after start-up with `config`.
    pub open spec fn initial(config: ConfigView) -> AppView {
        AppView {
            screen: Screen::Main,
            state: AppState::Idle,
            prompt: TextBufferView::empty(),
            result: None,
            error: None,
            should_quit: false,
            config,
            command_selected: 0,
            command_filter: Seq::empty(),
            settings_selected: 0,
            settings_editing: false,
            settings_edit: TextBufferView::empty(),
            settings_message: None,
            settings_is_error: false,
            settings_config: config,
            animation_frame: 0,
            analyzing_word: Seq::empty(),
            tick_counter: 0,
        }
    }

    /// The commands that the command menu lists.
    pub open spec fn filtered_commands(self) -> Seq<Command> {
        matching_commands(self.command_filter)
    }

    /// The rows of the settings screen.
    pub open spec fn settings_fields(self) -> Seq<SettingsField> {
        SettingsField::spec_fields_for_provider(self.settings_config.active)
    }

    /// Whether the command menu is shown.
    pub open spec fn menu_visible(self) -> bool {
        self.state == AppState::CommandMenu
    }

    /// Whether the command menu ought to be shown for the prompt as it
    /// stands: the prompt starts with a slash and selects a command.
    pub open spec fn menu_wanted(self) -> bool {
        starts_with_slash(self.prompt.text) && matching_commands(self.prompt.text).len() > 0
    }

    /// The invariant of the application.
    ///
    /// Both cursors stand within their texts. While the command menu is
    /// shown, the prompt starts with a slash, the filter is the prompt, and
    /// the selection points at one of the listed commands. The selected
    /// settings row exists, and is a text row while it is edited. The
    /// animation is within its frames and ticks.
    pub open spec fn wf(self) -> bool {
        &&& self.prompt.wf()
        &&& self.settings_edit.wf()
        &&& self.state == AppState::CommandMenu ==> {
            &&& starts_with_slash(self.prompt.text)
            &&& self.command_filter == self.prompt.text
            &&& self.command_selected < self.filtered_commands().len()
        }
        &&& self.settings_selected < self.settings_fields().len()
        &&& self.settings_editing ==> self.settings_fields()[self.settings_selected as int].is_text()
        &&& self.animation_frame < frame_count()
        &&& self.tick_counter < ticks_per_frame()
    }

    /// Hides the command menu and forgets its filter.
    pub open spec fn close_menu(self) -> AppView {
        AppView { state: AppState::Idle, command_filter: Seq::empty(), ..self }
    }

    /// Decides anew whether the command menu is shown, after the prompt
    /// changed. A prompt that starts with a slash and selects a command
    /// shows the menu with the prompt as filter and the first command
    /// selected. A prompt that starts with a slash and selects none hides
    /// it. Any other prompt hides a menu that was shown, and with `dismiss`
    /// also leaves a result that was shown.
    pub open spec fn refresh_menu(self, dismiss: bool) -> AppView {
        if starts_with_slash(self.prompt.text) {
            if matching_commands(self.prompt.text).len() > 0 {
                AppView {
                    state: AppState::CommandMenu,
                    command_filter: self.prompt.text,
                    command_selected: 0,
                    ..self
                }
            } else {
                AppView { command_selected: 0, ..self.close_menu() }
            }
        } else if dismiss || self.state == AppState::CommandMenu {
            self.close_menu()
        } else {
            self
        }
    }

    /// The effect of a command on the state, apart from what is written to
    /// disk: see [`AppView::command_action`], and [`AppView::persisted`] for
    /// what follows the write.
    pub open spec fn execute_command(self, cmd: Command) -> AppView {
        match cmd {
            Command::Settings => AppView {
                settings_config: self.config,
                settings_selected: 0,
                settings_editing: false,
                settings_message: None,
                screen: Screen::Settings,
                ..self
            },
            Command::Clear => AppView {
                prompt: TextBufferView::empty(),
                result: None,
                error: None,
                state: AppState::Idle,
                ..self
            },
            Command::Exit => AppView { should_quit: true, ..self },
            Command::Provider => AppView {
                config: self.config.with_active(self.config.active.next()),
                ..self
            },
            Command::Default => self,
        }
    }

    /// What a command asks the caller to write to disk.
    pub open spec fn command_action(self, cmd: Command) -> ActionView {
        match cmd {
            Command::Provider => ActionView::Persist {
                config: self.config.with_active(self.config.active.next()),
                reason: PersistReason::ProviderSwitch,
            },
            Command::Default => ActionView::Persist {
                config: ConfigView::initial(),
                reason: PersistReason::Reset,
            },
            _ => ActionView::Nothing,
        }
    }

    /// A command run from the prompt: its effect, then an empty prompt, the
    /// idle mode and no filter.
    pub open spec fn run_command(self, cmd: Command) -> AppView {
        AppView {
            prompt: TextBufferView::empty(),
            ..self.execute_command(cmd).close_menu()
        }
    }

    /// The start of an analysis: the mode is Analyzing, the earlier result
    /// and error are gone, `word` is the status word and the animation
    /// starts over.
    pub open spec fn start_analysis(self, word: Seq<char>) -> AppView {
        AppView {
            state: AppState::Analyzing,
            result: None,
            error: None,
            analyzing_word: word,
            animation_frame: 0,
            tick_counter: 0,
            ..self
        }
    }

    /// Whether Enter on the prompt starts an analysis.
    pub open spec fn enter_starts_analysis(self) -> bool {
        &&& self.state != AppState::CommandMenu
        &&& !starts_with_slash(self.prompt.text)
        &&& self.prompt.text.len() > 0
        &&& self.state != AppState::Analyzing
    }

    /// Enter on the prompt.
    pub open spec fn prompt_enter(self, word: Seq<char>) -> AppView {
        if self.state == AppState::CommandMenu {
            if self.command_selected < self.filtered_commands().len() {
                self.run_command(self.filtered_commands()[self.command_selected as int])
            } else {
                self.close_menu()
            }
        } else if starts_with_slash(self.prompt.text) {
            match command_named(self.prompt.text) {
                Some(cmd) => self.run_command(cmd),
                None => self,
            }
        } else if self.enter_starts_analysis() {
            self.start_analysis(word)
        } else {
            self
        }
    }

    /// What Enter on the prompt asks the caller to do.
    pub open spec fn prompt_enter_action(self) -> ActionView {
        if self.state == AppState::CommandMenu {
            if self.command_selected < self.filtered_commands().len() {
                self.command_action(self.filtered_commands()[self.command_selected as int])
            } else {
                ActionView::Nothing
            }
        } else if starts_with_slash(self.prompt.text) {
            match command_named(self.prompt.text) {
                Some(cmd) => self.command_action(cmd),
                None => ActionView::Nothing,
            }
        } else if self.enter_starts_analysis() {
            ActionView::Analyze { config: self.config, prompt: self.prompt.text }
        } else {
            ActionView::Nothing
        }
    }

    /// Tab on the prompt: with the menu shown, the selected command's name
    /// becomes the prompt and the menu goes.
    pub open spec fn prompt_tab(self) -> AppView {
        if self.state == AppState::CommandMenu {
            if self.command_selected < self.filtered_commands().len() {
                AppView {
                    prompt: TextBufferView::at_end(
                        self.filtered_commands()[self.command_selected as int].spec_name(),
                    ),
                    ..self.close_menu()
                }
            } else {
                self.close_menu()
            }
        } else {
            self
        }
    }

    /// Whether a key pressed on the prompt inserts or deletes text.
    pub open spec fn edits_prompt(self, key: KeyEvent) -> bool {
        match key.code {
            KeyCode::Char(_) => !key.is_kill_line() || self.prompt.cursor > 0,
            KeyCode::Backspace => self.prompt.cursor > 0,
            KeyCode::Delete => self.prompt.cursor < self.prompt.text.len(),
            _ => false,
        }
    }

    /// Esc on the prompt: leaves the command menu, or a result that is shown.
    pub open spec fn prompt_esc(self) -> AppView {
        if self.state == AppState::CommandMenu {
            self.close_menu()
        } else if self.state == AppState::ShowingResults {
            AppView { state: AppState::Idle, ..self }
        } else {
            self
        }
    }

    /// A character typed at the prompt.
    pub open spec fn prompt_insert(self, c: char) -> AppView {
        AppView { prompt: self.prompt.insert(c), error: None, ..self }.refresh_menu(false)
    }

    /// Control+U on the prompt: removes back to the start of the line.
    /// With the cursor at the start of the text nothing happens.
    pub open spec fn prompt_kill_line(self) -> AppView {
        if self.prompt.cursor > 0 {
            AppView {
                prompt: self.prompt.kill_to_line_start(),
                error: None,
                ..self
            }.refresh_menu(true)
        } else {
            self
        }
    }

    /// Backspace on the prompt. With the cursor at the start of the text
    /// nothing happens.
    pub open spec fn prompt_backspace(self) -> AppView {
        if self.prompt.cursor > 0 {
            AppView { prompt: self.prompt.backspace(), error: None, ..self }.refresh_menu(true)
        } else {
            self
        }
    }

    /// Delete on the prompt. With the cursor behind the text nothing happens.
    pub open spec fn prompt_delete(self) -> AppView {
        if self.prompt.cursor < self.prompt.text.len() {
            AppView { prompt: self.prompt.delete(), error: None, ..self }.refresh_menu(false)
        } else {
            self
        }
    }

    /// Up on the prompt: with the menu shown, selects the command above,
    /// and stays on the first.
    pub open spec fn menu_up(self) -> AppView {
        if self.state == AppState::CommandMenu && self.command_selected > 0 {
            AppView { command_selected: (self.command_selected - 1) as nat, ..self }
        } else {
            self
        }
    }

    /// Down on the prompt: with the menu shown, selects the command below,
    /// and stays on the last.
    pub open spec fn menu_down(self) -> AppView {
        if self.state == AppState::CommandMenu && self.command_selected + 1
            < self.filtered_commands().len() {
            AppView { command_selected: self.command_selected + 1, ..self }
        } else {
            self
        }
    }

    /// A key pressed on the prompt, in any mode but Analyzing.
    pub open spec fn handle_prompt_input(self, key: KeyEvent, word: Seq<char>) -> AppView {
        match key.code {
            KeyCode::Esc => self.prompt_esc(),
            KeyCode::Enter => self.prompt_enter(word),
            KeyCode::Char(c) => if key.is_kill_line() {
                self.prompt_kill_line()
            } else {
                self.prompt_insert(c)
            },
            KeyCode::Tab => self.prompt_tab(),
            KeyCode::Backspace => self.prompt_backspace(),
            KeyCode::Delete => self.prompt_delete(),
            KeyCode::Left => AppView { prompt: self.prompt.left(), ..self },
            KeyCode::Right => AppView { prompt: self.prompt.right(), ..self },
            KeyCode::Home => AppView { prompt: self.prompt.home(), ..self },
            KeyCode::End => AppView { prompt: self.prompt.end(), ..self },
            KeyCode::Up => self.menu_up(),
            KeyCode::Down => self.menu_down(),
            KeyCode::Other => self,
        }
    }

    /// What a key pressed on the prompt asks the caller to do.
    pub open spec fn prompt_action(self, key: KeyEvent) -> ActionView {
        if key.code == KeyCode::Enter {
            self.prompt_enter_action()
        } else {
            ActionView::Nothing
        }
    }

    /// A key pressed on the main screen. While an analysis runs only Esc is
    /// heard: it leaves the Analyzing mode, and the analysis runs on.
    pub open spec fn handle_main_input(self, key: KeyEvent, word: Seq<char>) -> AppView {
        if self.state == AppState::Analyzing {
            if key.code == KeyCode::Esc {
                AppView { state: AppState::Idle, ..self }
            } else {
                self
            }
        } else {
            self.handle_prompt_input(key, word)
        }
    }

    /// What a key pressed on the main screen asks the caller to do.
    pub open spec fn main_action(self, key: KeyEvent) -> ActionView {
        if self.state == AppState::Analyzing {
            ActionView::Nothing
        } else {
            self.prompt_action(key)
        }
    }

    /// A key pressed on the settings screen while no row is edited.
    pub open spec fn handle_settings_nav_input(self, key: KeyCode) -> AppView {
        let fields = self.settings_fields();
        let selected = self.settings_selected as int;
        match key {
            KeyCode::Esc => AppView { screen: Screen::Main, ..self },
            KeyCode::Up => if self.settings_selected > 0 {
                AppView {
                    settings_selected: (self.settings_selected - 1) as nat,
                    settings_message: None,
                    ..self
                }
            } else {
                self
            },
            KeyCode::Down | KeyCode::Tab => if self.settings_selected + 1 < fields.len() {
                AppView {
                    settings_selected: self.settings_selected + 1,
                    settings_message: None,
                    ..self
                }
            } else {
                self
            },
            KeyCode::Left | KeyCode::Right => if selected < fields.len()
                && fields[selected].is_provider_selector() {
                AppView {
                    settings_config: self.settings_config.with_active(
                        if key == KeyCode::Right {
                            self.settings_config.active.next()
                        } else {
                            self.settings_config.active.prev()
                        },
                    ),
                    settings_selected: 0,
                    ..self
                }
            } else {
                self
            },
            KeyCode::Enter => if selected < fields.len() {
                if fields[selected] == SettingsField::Save {
                    AppView { config: self.settings_config, ..self }
                } else if fields[selected] == SettingsField::Cancel {
                    AppView { screen: Screen::Main, ..self }
                } else if fields[selected].is_text() {
                    AppView {
                        settings_editing: true,
                        settings_edit: TextBufferView::at_end(
                            self.settings_config.field_value(fields[selected]),
                        ),
                        ..self
                    }
                } else {
                    self
                }
            } else {
                self
            },
            _ => self,
        }
    }

    /// A key pressed on the settings screen while a row is edited.
    pub open spec fn handle_settings_edit_input(self, key: KeyCode) -> AppView {
        let fields = self.settings_fields();
        let selected = self.settings_selected as int;
        match key {
            KeyCode::Esc => AppView {
                settings_editing: false,
                settings_edit: TextBufferView::empty(),
                ..self
            },
            KeyCode::Enter => AppView {
                settings_config: if selected < fields.len() {
                    self.settings_config.with_field_value(
                        fields[selected],
                        self.settings_edit.text,
                    )
                } else {
                    self.settings_config
                },
                settings_editing: false,
                settings_edit: TextBufferView::empty(),
                ..self
            },
            KeyCode::Char(c) => AppView { settings_edit: self.settings_edit.insert(c), ..self },
            KeyCode::Backspace => AppView { settings_edit: self.settings_edit.backspace(), ..self },
            KeyCode::Delete => AppView { settings_edit: self.settings_edit.delete(), ..self },
            KeyCode::Left => AppView { settings_edit: self.settings_edit.left(), ..self },
            KeyCode::Right => AppView { settings_edit: self.settings_edit.right(), ..self },
            KeyCode::Home => AppView { settings_edit: self.settings_edit.home(), ..self },
            KeyCode::End => AppView { settings_edit: self.settings_edit.end(), ..self },
            _ => self,
        }
    }

    /// A key pressed on the settings screen.
    pub open spec fn handle_settings_input(self, key: KeyCode) -> AppView {
        if self.settings_editing {
            self.handle_settings_edit_input(key)
        } else {
            self.handle_settings_nav_input(key)
        }
    }

    /// Whether a key pressed on the settings screen saves the working copy.
    pub open spec fn saves_settings(self, key: KeyCode) -> bool {
        &&& !self.settings_editing
        &&& key == KeyCode::Enter
        &&& self.settings_selected < self.settings_fields().len()
        &&& self.settings_fields()[self.settings_selected as int] == SettingsField::Save
    }

    /// What a key pressed on the settings screen asks the caller to do.
    pub open spec fn settings_action(self, key: KeyCode) -> ActionView {
        if self.saves_settings(key) {
            ActionView::Persist { config: self.settings_config, reason: PersistReason::Settings }
        } else {
            ActionView::Nothing
        }
    }

    /// A key press. Control+C quits from everywhere; any other press goes
    /// to the active screen.
    pub open spec fn handle_key(self, key: KeyEvent, word: Seq<char>) -> AppView {
        if key.is_quit() {
            AppView { should_quit: true, ..self }
        } else {
            match self.screen {
                Screen::Main => self.handle_main_input(key, word),
                Screen::Settings => self.handle_settings_input(key.code),
            }
        }
    }

    /// What a key press asks the caller to do.
    pub open spec fn key_action(self, key: KeyEvent) -> ActionView {
        if key.is_quit() {
            ActionView::Nothing
        } else {
            match self.screen {
                Screen::Main => self.main_action(key),
                Screen::Settings => self.settings_action(key.code),
            }
        }
    }

    /// One polling interval. The animation moves only while an analysis
    /// runs: every fifth tick shows the next of the three frames.
    pub open spec fn tick(self) -> AppView {
        if self.state == AppState::Analyzing {
            if self.tick_counter + 1 >= ticks_per_frame() {
                AppView {
                    tick_counter: 0,
                    animation_frame: (self.animation_frame + 1) % frame_count(),
                    ..self
                }
            } else {
                AppView { tick_counter: self.tick_counter + 1, ..self }
            }
        } else {
            self
        }
    }

    /// The end of a background analysis. A result is shown and clears the
    /// error; a failure shows its message, leaves the result as it was and
    /// returns to the idle mode.
    pub open spec fn complete_analysis(
        self,
        outcome: Result<AnalysisResultView, Seq<char>>,
    ) -> AppView {
        match outcome {
            Ok(result) => AppView {
                state: AppState::ShowingResults,
                result: Some(result),
                error: None,
                ..self
            },
            Err(message) => AppView { state: AppState::Idle, error: Some(message), ..self },
        }
    }

    /// The end of a configuration write.
    ///
    /// After a backend switch a failure shows its message and the switch
    /// stands. A reset replaces the configuration by the defaults only where
    /// the write went well. A saved settings screen closes; one that could
    /// not be saved stays, with the commit in place and the failure shown.
    pub open spec fn persisted(self, reason: PersistReason, outcome: Result<(), Seq<char>>) -> AppView {
        match reason {
            PersistReason::ProviderSwitch => match outcome {
                Ok(_) => self,
                Err(cause) => AppView { error: Some(save_failure(cause)), ..self },
            },
            PersistReason::Reset => match outcome {
                Ok(_) => AppView { config: ConfigView::initial(), error: None, ..self },
                Err(cause) => AppView { error: Some(reset_failure(cause)), ..self },
            },
            PersistReason::Settings => match outcome {
                Ok(_) => AppView {
                    settings_message: Some(settings_saved()),
                    settings_is_error: false,
                    screen: Screen::Main,
                    ..self
                },
                Err(cause) => AppView {
                    settings_message: Some(settings_failure(cause)),
                    settings_is_error: true,
                    ..self
                },
            },
        }
    }

    /// The state after `event`. `word` is the status word drawn in case the
    /// event starts an analysis.
    pub open spec fn step(self, event: EventView, word: Seq<char>) -> AppView {
        match event {
            EventView::Key(key) => self.handle_key(key, word),
            EventView::Tick => self.tick(),
            EventView::AnalysisFinished(outcome) => self.complete_analysis(outcome),
            EventView::Persisted(reason, outcome) => self.persisted(reason, outcome),
        }
    }

    /// What `event` asks the caller to do.
    pub open spec fn action(self, event: EventView) -> ActionView {
        match event {
            EventView::Key(key) => self.key_action(key),
            _ => ActionView::Nothing,
        }
    }

    /// The part of a loop iteration that comes before input: a finished
    /// analysis, if there is one, is taken in first, and then one polling
    /// interval goes by.
    pub open spec fn begin_iteration(
        self,
        completed: Option<Result<AnalysisResultView, Seq<char>>>,
    ) -> AppView {
        match completed {
            Some(outcome) => self.complete_analysis(outcome).tick(),
            None => self.tick(),
        }
    }

    /// Whether `events`, one after the other, may lead from `self` to `end`.
    pub open spec fn leads_to(self, events: Seq<EventView>, end: AppView) -> bool
        decreases events.len(),
    {
        if events.len() == 0 {
            end == self
        } else {
            exists|before: AppView, word: Seq<char>|
                #![trigger before.step(events.last(), word)]
                self.leads_to(events.drop_last(), before) && end == before.step(
                    events.last(),
                    word,
                )
        }
    }

    /// Whether `event` hides a command menu that the prompt still wants, or
    /// may do so: Esc and Tab in the menu, and the end of an analysis while
    /// the menu is shown.
    pub open spec fn may_hide_wanted_menu(self, event: EventView) -> bool {
        self.menu_visible() && match event {
            EventView::Key(key) => !key.is_quit() && self.screen == Screen::Main && (key.code
                == KeyCode::Esc || key.code == KeyCode::Tab),
            EventView::AnalysisFinished(_) => true,
            _ => false,
        }
    }
}

impl AppView {
    /// The start-up state meets the invariant.
    pub proof fn lemma_initial_wf(config: ConfigView)
        ensures
            Self::initial(config).wf(),
    {
        SettingsField::lemma_fields_shape(config.active);
    }

    /// Deciding anew whether the menu is shown keeps the invariant, and
    /// afterwards the menu is shown exactly if the prompt wants it.
    pub proof fn lemma_refresh_menu(self, dismiss: bool)
        requires
            self.close_menu().wf(),
        ensures
            self.refresh_menu(dismiss).wf(),
            self.refresh_menu(dismiss).menu_visible() == self.refresh_menu(dismiss).menu_wanted(),
            self.refresh_menu(dismiss).menu_visible() ==> self.refresh_menu(
                dismiss,
            ).command_selected == 0,
            self.refresh_menu(dismiss).prompt == self.prompt,
    {
    }

    /// Carrying out a command keeps the invariant, from the prompt or not.
    pub proof fn lemma_run_command_wf(self, cmd: Command)
        requires
            self.wf(),
        ensures
            self.execute_command(cmd).wf(),
            self.run_command(cmd).wf(),
    {
        SettingsField::lemma_fields_shape(self.config.active);
    }

    /// A key pressed on the prompt keeps the invariant.
    pub proof fn lemma_prompt_input_wf(self, key: KeyEvent, word: Seq<char>)
        requires
            self.wf(),
        ensures
            self.handle_prompt_input(key, word).wf(),
    {
        match key.code {
            KeyCode::Enter => {
                if self.state == AppState::CommandMenu {
                    if self.command_selected < self.filtered_commands().len() {
                        self.lemma_run_command_wf(
                            self.filtered_commands()[self.command_selected as int],
                        );
                    }
                } else if starts_with_slash(self.prompt.text) {
                    if let Some(cmd) = command_named(self.prompt.text) {
                        self.lemma_run_command_wf(cmd);
                    }
                }
            },
            KeyCode::Char(c) => {
                if key.is_kill_line() {
                    if self.prompt.cursor > 0 {
                        self.prompt.lemma_line_start_exists();
                        let edited = AppView {
                            prompt: self.prompt.kill_to_line_start(),
                            error: None,
                            ..self
                        };
                        edited.lemma_refresh_menu(true);
                    }
                } else {
                    let edited = AppView { prompt: self.prompt.insert(c), error: None, ..self };
                    edited.lemma_refresh_menu(false);
                }
            },
            KeyCode::Backspace => {
                if self.prompt.cursor > 0 {
                    let edited = AppView { prompt: self.prompt.backspace(), error: None, ..self };
                    edited.lemma_refresh_menu(true);
                }
            },
            KeyCode::Delete => {
                if self.prompt.cursor < self.prompt.text.len() {
                    let edited = AppView { prompt: self.prompt.delete(), error: None, ..self };
                    edited.lemma_refresh_menu(false);
                }
            },
            _ => {},
        }
    }

    /// A key pressed on the settings screen keeps the invariant.
    pub proof fn lemma_settings_input_wf(self, key: KeyCode)
        requires
            self.wf(),
        ensures
            self.handle_settings_input(key).wf(),
    {
        let active = self.settings_config.active;
        SettingsField::lemma_fields_shape(active);
        SettingsField::lemma_fields_shape(active.next());
        SettingsField::lemma_fields_shape(active.prev());
        let fields = self.settings_fields();
        let field = fields[self.settings_selected as int];
        self.settings_config.lemma_field_round_trip(field, field, self.settings_edit.text);
    }

    /// Every event keeps the invariant.
    pub proof fn lemma_step_wf(self, event: EventView, word: Seq<char>)
        requires
            self.wf(),
        ensures
            self.step(event, word).wf(),
    {
        match event {
            EventView::Key(key) => {
                self.lemma_prompt_input_wf(key, word);
                self.lemma_settings_input_wf(key.code);
            },
            EventView::Tick => {},
            EventView::AnalysisFinished(outcome) => {},
            EventView::Persisted(reason, outcome) => {},
        }
    }

    /// After every key that inserts into the prompt or deletes from it, the
    /// command menu is shown exactly if the prompt starts with a slash and
    /// selects at least one command; and where it is shown, the selection
    /// points at a listed command.
    pub proof fn lemma_menu_visibility(self, key: KeyEvent, word: Seq<char>)
        requires
            self.wf(),
            self.edits_prompt(key),
        ensures
            ({
                let next = self.handle_prompt_input(key, word);
                &&& next.menu_visible() == (starts_with_slash(next.prompt.text)
                    && matching_commands(next.prompt.text).len() > 0)
                &&& next.menu_visible() ==> next.command_selected
                    < next.filtered_commands().len()
            }),
    {
        self.lemma_prompt_input_wf(key, word);
        match key.code {
            KeyCode::Char(c) => {
                if key.is_kill_line() {
                    self.prompt.lemma_line_start_exists();
                    let edited = AppView {
                        prompt: self.prompt.kill_to_line_start(),
                        error: None,
                        ..self
                    };
                    edited.lemma_refresh_menu(true);
                } else {
                    let edited = AppView { prompt: self.prompt.insert(c), error: None, ..self };
                    edited.lemma_refresh_menu(false);
                }
            },
            KeyCode::Backspace => {
                let edited = AppView { prompt: self.prompt.backspace(), error: None, ..self };
                edited.lemma_refresh_menu(true);
            },
            KeyCode::Delete => {
                let edited = AppView { prompt: self.prompt.delete(), error: None, ..self };
                edited.lemma_refresh_menu(false);
            },
            _ => {},
        }
    }

    /// Where the command menu is shown exactly if the prompt wants it, this
    /// stays so over every event but those that hide the menu while the
    /// prompt stands: Esc and Tab in the menu, and the end of an analysis
    /// while the menu is shown.
    pub proof fn lemma_menu_visibility_kept(self, event: EventView, word: Seq<char>)
        requires
            self.wf(),
            self.menu_visible() == self.menu_wanted(),
            !self.may_hide_wanted_menu(event),
        ensures
            self.step(event, word).menu_visible() == self.step(event, word).menu_wanted(),
    {
        self.lemma_step_wf(event, word);
        match event {
            EventView::Key(key) => {
                if !key.is_quit() && self.screen == Screen::Main && self.state
                    != AppState::Analyzing {
                    if self.edits_prompt(key) {
                        self.lemma_menu_visibility(key, word);
                    }
                }
            },
            _ => {},
        }
    }

    /// Esc in the command menu hides a menu that the prompt still wants:
    /// afterwards the menu is hidden though the prompt starts with a slash
    /// and selects a command.
    pub proof fn lemma_esc_hides_wanted_menu(self, word: Seq<char>)
        requires
            self.wf(),
            self.menu_visible(),
        ensures
            ({
                let next = self.handle_prompt_input(
                    KeyEvent { code: KeyCode::Esc, ctrl: false },
                    word,
                );
                !next.menu_visible() && next.menu_wanted()
            }),
    {
    }

    /// Whenever the command menu is shown, the selection is less than the
    /// number of listed commands, whatever the filter; and there are at most
    /// as many listed commands as the registry holds.
    pub proof fn lemma_selection_in_range(self)
        requires
            self.wf(),
            self.menu_visible(),
        ensures
            self.command_selected < matching_commands(self.command_filter).len() <= 5,
            self.menu_wanted(),
    {
        lemma_matching_commands(self.command_filter);
    }

    /// Switching the active backend on the settings screen selects the
    /// first row again, and the rows are then the selector, that backend's
    /// own fields, Save and Cancel.
    pub proof fn lemma_switch_backend(self, key: KeyCode)
        requires
            self.wf(),
            !self.settings_editing,
            self.settings_fields()[self.settings_selected as int].is_provider_selector(),
            key == KeyCode::Left || key == KeyCode::Right,
        ensures
            ({
                let next = self.handle_settings_input(key);
                let target = if key == KeyCode::Right {
                    self.settings_config.active.next()
                } else {
                    self.settings_config.active.prev()
                };
                &&& next.settings_selected == 0
                &&& !next.settings_editing
                &&& next.settings_config == self.settings_config.with_active(target)
                &&& next.settings_fields() == seq![SettingsField::Provider]
                    + SettingsField::provider_fields(target) + seq![
                    SettingsField::Save,
                    SettingsField::Cancel,
                ]
                &&& next.config == self.config
            }),
    {
    }

    /// From each backend, Right and Left between them reach both others:
    /// every backend can be made active from every other in one key.
    pub proof fn lemma_every_backend_reachable(from: ProviderType, to: ProviderType)
        ensures
            to == from || to == from.next() || to == from.prev(),
    {
    }

    /// Clearing twice in a row leaves the same state as clearing once,
    /// and that state has an empty prompt, no result and no error.
    pub proof fn lemma_clear_idempotent(self)
        ensures
            self.execute_command(Command::Clear).execute_command(Command::Clear)
                == self.execute_command(Command::Clear),
            self.run_command(Command::Clear).run_command(Command::Clear) == self.run_command(
                Command::Clear,
            ),
            self.execute_command(Command::Clear).prompt == TextBufferView::empty(),
            self.execute_command(Command::Clear).result is None,
            self.execute_command(Command::Clear).error is None,
            self.execute_command(Command::Clear).state == AppState::Idle,
    {
    }

    /// An analysis that ends right after it started leaves exactly one of
    /// result and error: the result in the ShowingResults mode where it went
    /// well, the error in the idle mode where it did not.
    pub proof fn lemma_analysis_outcome(
        self,
        word: Seq<char>,
        outcome: Result<AnalysisResultView, Seq<char>>,
    )
        ensures
            self.start_analysis(word).state == AppState::Analyzing,
            self.start_analysis(word).result is None,
            self.start_analysis(word).error is None,
            ({
                let done = self.start_analysis(word).complete_analysis(outcome);
                match outcome {
                    Ok(result) => {
                        &&& done.state == AppState::ShowingResults
                        &&& done.result == Some(result)
                        &&& done.error is None
                    },
                    Err(message) => {
                        &&& done.state == AppState::Idle
                        &&& done.result is None
                        &&& done.error == Some(message)
                    },
                }
            }),
    {
    }

    /// Enter on a prompt that is not empty and does not start with a slash
    /// starts an analysis of that prompt with the configuration in force,
    /// from every mode but Analyzing.
    pub proof fn lemma_enter_starts_analysis(self, word: Seq<char>)
        requires
            self.wf(),
            self.screen == Screen::Main,
            self.state != AppState::Analyzing,
            self.prompt.text.len() > 0,
            !starts_with_slash(self.prompt.text),
        ensures
            ({
                let enter = KeyEvent { code: KeyCode::Enter, ctrl: false };
                &&& self.handle_key(enter, word) == self.start_analysis(word)
                &&& self.handle_key(enter, word).state == AppState::Analyzing
                &&& self.handle_key(enter, word).prompt == self.prompt
                &&& self.key_action(enter) == ActionView::Analyze {
                    config: self.config,
                    prompt: self.prompt.text,
                }
            }),
    {
    }

    /// Enter in the command menu runs the selected command and leaves the
    /// prompt empty, the mode idle and the filter empty; where the command
    /// is Settings, the settings screen is then open on a copy of the
    /// configuration with its first row selected.
    pub proof fn lemma_enter_runs_selected(self, word: Seq<char>)
        requires
            self.wf(),
            self.screen == Screen::Main,
            self.menu_visible(),
        ensures
            ({
                let enter = KeyEvent { code: KeyCode::Enter, ctrl: false };
                let cmd = self.filtered_commands()[self.command_selected as int];
                let next = self.handle_key(enter, word);
                &&& next == self.run_command(cmd)
                &&& next.prompt == TextBufferView::empty()
                &&& next.state == AppState::Idle
                &&& next.command_filter.len() == 0
                &&& self.key_action(enter) == self.command_action(cmd)
                &&& cmd == Command::Settings ==> {
                    &&& next.screen == Screen::Settings
                    &&& next.settings_config == self.config
                    &&& next.settings_selected == 0
                    &&& !next.settings_editing
                    &&& next.settings_message is None
                }
            }),
    {
    }

    /// No analysis is started while one runs: only a key on the main screen
    /// in another mode than Analyzing asks for one, and it carries the
    /// prompt and the configuration as they then stand.
    pub proof fn lemma_single_analysis(self, event: EventView)
        requires
            self.action(event) is Analyze,
        ensures
            event is Key,
            self.screen == Screen::Main,
            self.state != AppState::Analyzing,
            self.action(event) == (ActionView::Analyze {
                config: self.config,
                prompt: self.prompt.text,
            }),
            self.prompt.text.len() > 0,
    {
    }

    /// The Analyzing mode is left in two ways only: the analysis ends, or
    /// Esc is pressed on the main screen. Nothing else changes the mode,
    /// the status word or the prompt while an analysis runs.
    pub proof fn lemma_leaving_analyzing(self, event: EventView, word: Seq<char>)
        requires
            self.state == AppState::Analyzing,
        ensures
            ({
                let next = self.step(event, word);
                let ends = event is AnalysisFinished;
                let escapes = event is Key && !event->Key_0.is_quit() && self.screen
                    == Screen::Main && event->Key_0.code == KeyCode::Esc;
                &&& next.state != AppState::Analyzing <==> ends || escapes
                &&& escapes ==> next.state == AppState::Idle
                &&& next.prompt == self.prompt
                &&& next.analyzing_word == self.analyzing_word
            }),
    {
    }

    /// The configuration changes only as a whole: an event leaves it as it
    /// was, or replaces it by the working copy, by the defaults, or by
    /// itself with the next backend active.
    pub proof fn lemma_config_replaced_whole(self, event: EventView, word: Seq<char>)
        ensures
            ({
                let next = self.step(event, word).config;
                ||| next == self.config
                ||| next == self.settings_config
                ||| next == ConfigView::initial()
                ||| next == self.config.with_active(self.config.active.next())
            }),
    {
    }
}

/// Whatever events come in whatever order, the invariant holds at the end:
/// the cursor stands within `[0, length]` of the prompt, and while the
/// command menu is shown the selection points at one of the listed commands.
pub proof fn lemma_leads_to_wf(start: AppView, events: Seq<EventView>, end: AppView)
    requires
        start.wf(),
        start.leads_to(events, end),
    ensures
        end.wf(),
        end.prompt.cursor <= end.prompt.text.len(),
        end.menu_visible() ==> end.command_selected < end.filtered_commands().len(),
    decreases events.len(),
{
    if events.len() > 0 {
        let (before, word) = choose|before: AppView, word: Seq<char>|
            #![trigger before.step(events.last(), word)]
            start.leads_to(events.drop_last(), before) && end == before.step(events.last(), word);
        lemma_leads_to_wf(start, events.drop_last(), before);
        before.lemma_step_wf(events.last(), word);
    }
}

} // verus!
