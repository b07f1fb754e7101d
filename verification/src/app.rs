//! The application: one value that owns the state of every screen, and
//! the handlers that move it from event to event.

use crate::buffer::TextBuffer;
use crate::input::{
    analysis_outcome_view,
    persist_outcome_view,
    Action,
    AnalysisRequest,
    Event,
    EventView,
    KeyCode,
    KeyEvent,
    PersistReason,
};
use crate::model::AppView;
use crate::palette::{filter_commands, lookup_command};
use crate::types::{AnalysisResult, AnalysisResultView, AppState, Command, Config, Screen, SettingsField};
use crate::words::{is_status_word, pick_status_word};
use vstd::prelude::*;
use vstd::string::StringExecFns;

verus! {

/// The characters of an optional text.
pub open spec fn text_of(text: Option<String>) -> Option<Seq<char>> {
    match text {
        Some(s) => Some(s@),
        None => None,
    }
}

/// The content of an optional analysis result.
pub open spec fn result_of(result: Option<AnalysisResult>) -> Option<AnalysisResultView> {
    match result {
        Some(r) => Some(r@),
        None => None,
    }
}

/// `prefix` followed by `cause`.
fn message(prefix: &str, cause: &str) -> (text: String)
    ensures
        text@ == prefix@ + cause@,
{
    let mut text = prefix.to_owned();
    text.append(cause);
    text
}

/// The application.
#[derive(Debug)]
pub struct App {
    screen: Screen,
    state: AppState,
    prompt: TextBuffer,
    result: Option<AnalysisResult>,
    error: Option<String>,
    should_quit: bool,
    config: Config,
    command_selected: usize,
    command_filter: String,
    settings_selected: usize,
    settings_editing: bool,
    settings_edit: TextBuffer,
    settings_message: Option<String>,
    settings_is_error: bool,
    settings_config: Config,
    analyzing_animation_frame: u8,
    analyzing_word: String,
    animation_tick_counter: u8,
}

impl View for App {
    type V = AppView;

    closed spec fn view(&self) -> AppView {
        AppView {
            screen: self.screen,
            state: self.state,
            prompt: self.prompt@,
            result: result_of(self.result),
            error: text_of(self.error),
            should_quit: self.should_quit,
            config: self.config@,
            command_selected: self.command_selected as nat,
            command_filter: self.command_filter@,
            settings_selected: self.settings_selected as nat,
            settings_editing: self.settings_editing,
            settings_edit: self.settings_edit@,
            settings_message: text_of(self.settings_message),
            settings_is_error: self.settings_is_error,
            settings_config: self.settings_config@,
            animation_frame: self.analyzing_animation_frame as nat,
            analyzing_word: self.analyzing_word@,
            tick_counter: self.animation_tick_counter as nat,
        }
    }
}

impl App {
    /// The invariant of the application: see [`AppView::wf`].
    pub open spec fn wf(&self) -> bool {
        self@.wf()
    }

    /// The application at start-up, with the configuration that was loaded.
    pub fn new(config: Config) -> (app: App)
        ensures
            app.wf(),
            app@ == AppView::initial(config@),
    {
        proof {
            AppView::lemma_initial_wf(config@);
        }
        let settings_config = config.clone();
        App {
            screen: Screen::Main,
            state: AppState::Idle,
            prompt: TextBuffer::new(),
            result: None,
            error: None,
            should_quit: false,
            config,
            command_selected: 0,
            command_filter: String::new(),
            settings_selected: 0,
            settings_editing: false,
            settings_edit: TextBuffer::new(),
            settings_message: None,
            settings_is_error: false,
            settings_config,
            analyzing_animation_frame: 0,
            analyzing_word: String::new(),
            animation_tick_counter: 0,
        }
    }

    /// The active screen.
    pub fn screen(&self) -> (r: Screen)
        ensures
            r == self@.screen,
    {
        self.screen
    }

    /// The mode of the main screen.
    pub fn state(&self) -> (r: AppState)
        ensures
            r == self@.state,
    {
        self.state
    }

    /// The prompt as a string.
    pub fn prompt(&self) -> (r: String)
        ensures
            r@ == self@.prompt.text,
    {
        self.prompt.text()
    }

    /// The offset of the cursor in the prompt, in characters.
    pub fn cursor_position(&self) -> (r: usize)
        requires
            self.wf(),
        ensures
            r == self@.prompt.cursor,
            r <= self@.prompt.text.len(),
    {
        self.prompt.cursor()
    }

    /// The result of the last analysis that went well, unless cleared since.
    pub fn result(&self) -> (r: Option<&AnalysisResult>)
        ensures
            match r {
                Some(analysis) => self@.result == Some(analysis@),
                None => self@.result is None,
            },
    {
        self.result.as_ref()
    }

    /// The error message that is shown, if any.
    pub fn error(&self) -> (r: &Option<String>)
        ensures
            text_of(*r) == self@.error,
    {
        &self.error
    }

    /// Whether the application is to end.
    pub fn should_quit(&self) -> (r: bool)
        ensures
            r == self@.should_quit,
    {
        self.should_quit
    }

    /// The configuration in force.
    pub fn config(&self) -> (r: &Config)
        ensures
            r@ == self@.config,
    {
        &self.config
    }

    /// The index of the selected command among those the menu lists.
    pub fn command_selected(&self) -> (r: usize)
        ensures
            r == self@.command_selected,
    {
        self.command_selected
    }

    /// The filter of the command menu.
    pub fn command_filter(&self) -> (r: &String)
        ensures
            r@ == self@.command_filter,
    {
        &self.command_filter
    }

    /// The index of the selected row of the settings screen.
    pub fn settings_selected(&self) -> (r: usize)
        ensures
            r == self@.settings_selected,
    {
        self.settings_selected
    }

    /// Whether a row of the settings screen is being edited.
    pub fn settings_editing(&self) -> (r: bool)
        ensures
            r == self@.settings_editing,
    {
        self.settings_editing
    }

    /// The text of the settings edit buffer.
    pub fn settings_edit_value(&self) -> (r: String)
        ensures
            r@ == self@.settings_edit.text,
    {
        self.settings_edit.text()
    }

    /// The offset of the cursor in the settings edit buffer, in characters.
    pub fn settings_cursor(&self) -> (r: usize)
        ensures
            r == self@.settings_edit.cursor,
    {
        self.settings_edit.cursor()
    }

    /// The message of the settings screen, if any.
    pub fn settings_message(&self) -> (r: &Option<String>)
        ensures
            text_of(*r) == self@.settings_message,
    {
        &self.settings_message
    }

    /// Whether the message of the settings screen reports a failure.
    pub fn settings_is_error(&self) -> (r: bool)
        ensures
            r == self@.settings_is_error,
    {
        self.settings_is_error
    }

    /// The working copy of the configuration that the settings screen edits.
    pub fn settings_config(&self) -> (r: &Config)
        ensures
            r@ == self@.settings_config,
    {
        &self.settings_config
    }

    /// The animation frame of the status line: 0, 1 or 2.
    pub fn analyzing_animation_frame(&self) -> (r: u8)
        ensures
            r == self@.animation_frame,
    {
        self.analyzing_animation_frame
    }

    /// The word on the status line of a running analysis.
    pub fn analyzing_word(&self) -> (r: &String)
        ensures
            r@ == self@.analyzing_word,
    {
        &self.analyzing_word
    }

    /// The ticks gone by since the animation frame last changed.
    pub fn animation_tick_counter(&self) -> (r: u8)
        ensures
            r == self@.tick_counter,
    {
        self.animation_tick_counter
    }

    /// The commands that the command menu lists: those that the filter
    /// selects, in registry order.
    pub fn filtered_commands(&self) -> (commands: Vec<Command>)
        ensures
            commands@ == self@.filtered_commands(),
    {
        filter_commands(self.command_filter.as_str())
    }

    /// Hides the command menu and forgets its filter.
    fn close_menu(&mut self)
        ensures
            final(self)@ == old(self)@.close_menu(),
    {
        self.state = AppState::Idle;
        self.command_filter = String::new();
    }

    /// Decides anew whether the command menu is shown, after the prompt changed.
    fn refresh_menu(&mut self, dismiss: bool)
        requires
            old(self)@.close_menu().wf(),
        ensures
            final(self).wf(),
            final(self)@ == old(self)@.refresh_menu(dismiss),
    {
        proof {
            old(self)@.lemma_refresh_menu(dismiss);
        }
        if self.prompt.starts_with_slash() {
            let filter = self.prompt.text();
            let matching = filter_commands(filter.as_str());
            self.command_selected = 0;
            if matching.len() > 0 {
                self.state = AppState::CommandMenu;
                self.command_filter = filter;
            } else {
                self.close_menu();
            }
        } else if dismiss || self.state == AppState::CommandMenu {
            self.close_menu();
        }
    }

    /// Carries out a command, apart from what is to be written to disk,
    /// which the returned action asks for.
    ///
    /// Settings opens the settings screen on a fresh copy of the
    /// configuration. Clear empties the prompt and drops result and error.
    /// Exit sets the quit flag. Provider makes the next backend active and
    /// asks for the configuration to be written. Default asks for the
    /// default configuration to be written, and changes nothing until that
    /// went well.
    pub fn execute_command(&mut self, cmd: Command) -> (action: Action)
        requires
            old(self).wf(),
        ensures
            final(self).wf(),
            final(self)@ == old(self)@.execute_command(cmd),
            action@ == old(self)@.command_action(cmd),
    {
        proof {
            old(self)@.lemma_run_command_wf(cmd);
        }
        match cmd {
            Command::Settings => {
                self.settings_config = self.config.clone();
                self.settings_selected = 0;
                self.settings_editing = false;
                self.settings_message = None;
                self.screen = Screen::Settings;
                Action::Nothing
            },
            Command::Clear => {
                self.prompt.clear();
                self.result = None;
                self.error = None;
                self.state = AppState::Idle;
                Action::Nothing
            },
            Command::Exit => {
                self.should_quit = true;
                Action::Nothing
            },
            Command::Provider => {
                self.config.provider.active = self.config.provider.active.next();
                Action::Persist(self.config.clone(), PersistReason::ProviderSwitch)
            },
            Command::Default => Action::Persist(Config::default(), PersistReason::Reset),
        }
    }

    /// Carries out a command typed at the prompt, and leaves the prompt
    /// empty, the mode idle and the filter empty.
    fn run_command(&mut self, cmd: Command) -> (action: Action)
        requires
            old(self).wf(),
        ensures
            final(self).wf(),
            final(self)@ == old(self)@.run_command(cmd),
            action@ == old(self)@.command_action(cmd),
    {
        proof {
            old(self)@.lemma_run_command_wf(cmd);
        }
        let action = self.execute_command(cmd);
        self.prompt.clear();
        self.close_menu();
        action
    }

    /// Starts an analysis with `word` on the status line: the mode becomes
    /// Analyzing, the earlier result and error go, and the animation starts
    /// over. The request holds copies of the configuration and the prompt.
    pub fn begin_analysis(&mut self, word: String) -> (request: AnalysisRequest)
        requires
            old(self).wf(),
        ensures
            final(self).wf(),
            final(self)@ == old(self)@.start_analysis(word@),
            request.config@ == old(self)@.config,
            request.prompt@ == old(self)@.prompt.text,
    {
        self.state = AppState::Analyzing;
        self.result = None;
        self.error = None;
        self.analyzing_word = word;
        self.analyzing_animation_frame = 0;
        self.animation_tick_counter = 0;
        AnalysisRequest { config: self.config.clone(), prompt: self.prompt.text() }
    }

    /// Starts an analysis, with a status word drawn at random.
    pub fn start_analysis(&mut self) -> (request: AnalysisRequest)
        requires
            old(self).wf(),
        ensures
            final(self).wf(),
            final(self)@ == old(self)@.start_analysis(final(self)@.analyzing_word),
            is_status_word(final(self)@.analyzing_word),
            request.config@ == old(self)@.config,
            request.prompt@ == old(self)@.prompt.text,
    {
        let word = pick_status_word();
        self.begin_analysis(word)
    }

    /// Enter on the prompt.
    fn prompt_enter(&mut self) -> (action: Action)
        requires
            old(self).wf(),
        ensures
            final(self).wf(),
            final(self)@ == old(self)@.prompt_enter(final(self)@.analyzing_word),
            action@ == old(self)@.prompt_enter_action(),
            action@ is Analyze ==> is_status_word(final(self)@.analyzing_word),
    {
        if self.state == AppState::CommandMenu {
            let commands = self.filtered_commands();
            if self.command_selected < commands.len() {
                let cmd = commands[self.command_selected];
                self.run_command(cmd)
            } else {
                self.close_menu();
                Action::Nothing
            }
        } else if self.prompt.starts_with_slash() {
            match lookup_command(self.prompt.chars()) {
                Some(cmd) => self.run_command(cmd),
                None => Action::Nothing,
            }
        } else if !self.prompt.is_empty() && self.state != AppState::Analyzing {
            Action::Analyze(self.start_analysis())
        } else {
            Action::Nothing
        }
    }

    /// Tab on the prompt.
    fn prompt_tab(&mut self)
        requires
            old(self).wf(),
        ensures
            final(self).wf(),
            final(self)@ == old(self)@.prompt_tab(),
    {
        if self.state == AppState::CommandMenu {
            let commands = self.filtered_commands();
            if self.command_selected < commands.len() {
                self.prompt.set_text(commands[self.command_selected].name());
            }
            self.close_menu();
        }
    }

    /// Esc on the prompt.
    fn prompt_esc(&mut self)
        requires
            old(self).wf(),
        ensures
            final(self).wf(),
            final(self)@ == old(self)@.prompt_esc(),
    {
        if self.state == AppState::CommandMenu {
            self.close_menu();
        } else if self.state == AppState::ShowingResults {
            self.state = AppState::Idle;
        }
    }

    /// A character typed at the prompt.
    fn prompt_insert(&mut self, c: char)
        requires
            old(self).wf(),
        ensures
            final(self).wf(),
            final(self)@ == old(self)@.prompt_insert(c),
    {
        self.prompt.insert(c);
        self.error = None;
        self.refresh_menu(false);
    }

    /// Control+U on the prompt.
    fn prompt_kill_line(&mut self)
        requires
            old(self).wf(),
        ensures
            final(self).wf(),
            final(self)@ == old(self)@.prompt_kill_line(),
    {
        if self.prompt.cursor() > 0 {
            self.prompt.kill_to_line_start();
            self.error = None;
            self.refresh_menu(true);
        }
    }

    /// Backspace on the prompt.
    fn prompt_backspace(&mut self)
        requires
            old(self).wf(),
        ensures
            final(self).wf(),
            final(self)@ == old(self)@.prompt_backspace(),
    {
        if self.prompt.backspace() {
            self.error = None;
            self.refresh_menu(true);
        }
    }

    /// Delete on the prompt.
    fn prompt_delete(&mut self)
        requires
            old(self).wf(),
        ensures
            final(self).wf(),
            final(self)@ == old(self)@.prompt_delete(),
    {
        if self.prompt.delete() {
            self.error = None;
            self.refresh_menu(false);
        }
    }

    /// Up on the prompt.
    fn menu_up(&mut self)
        requires
            old(self).wf(),
        ensures
            final(self).wf(),
            final(self)@ == old(self)@.menu_up(),
    {
        if self.state == AppState::CommandMenu && self.command_selected > 0 {
            self.command_selected = self.command_selected - 1;
        }
    }

    /// Down on the prompt.
    fn menu_down(&mut self)
        requires
            old(self).wf(),
        ensures
            final(self).wf(),
            final(self)@ == old(self)@.menu_down(),
    {
        if self.state == AppState::CommandMenu {
            let commands = self.filtered_commands();
            if self.command_selected < commands.len() - 1 {
                self.command_selected = self.command_selected + 1;
            }
        }
    }

    /// Handles a key pressed on the prompt, in any mode but Analyzing.
    ///
    /// A character is inserted at the cursor; Backspace and Delete remove
    /// the character before and at the cursor; Control+U removes back to the
    /// start of the line. Each of them clears the error and decides anew
    /// whether the command menu is shown. Left, Right, Home and End move the
    /// cursor within the text. Up and Down move the selection of the menu
    /// within its list. Tab takes the selected command's name into the
    /// prompt. Esc leaves the menu or a result. Enter runs the selected
    /// command, else the command that the prompt names, else starts an
    /// analysis of a prompt that is not empty.
    pub fn handle_prompt_input(&mut self, key: KeyEvent) -> (action: Action)
        requires
            old(self).wf(),
        ensures
            final(self).wf(),
            final(self)@ == old(self)@.handle_prompt_input(key, final(self)@.analyzing_word),
            action@ == old(self)@.prompt_action(key),
            action@ is Analyze ==> is_status_word(final(self)@.analyzing_word),
    {
        match key.code {
            KeyCode::Enter => {
                return self.prompt_enter();
            },
            KeyCode::Esc => self.prompt_esc(),
            KeyCode::Char(c) => {
                if key.is_kill_line() {
                    self.prompt_kill_line();
                } else {
                    self.prompt_insert(c);
                }
            },
            KeyCode::Tab => self.prompt_tab(),
            KeyCode::Backspace => self.prompt_backspace(),
            KeyCode::Delete => self.prompt_delete(),
            KeyCode::Left => self.prompt.move_left(),
            KeyCode::Right => self.prompt.move_right(),
            KeyCode::Home => self.prompt.move_home(),
            KeyCode::End => self.prompt.move_end(),
            KeyCode::Up => self.menu_up(),
            KeyCode::Down => self.menu_down(),
            KeyCode::Other => {},
        }
        Action::Nothing
    }

    /// Handles a key pressed on the main screen. While an analysis runs
    /// only Esc is heard: it returns to the idle mode, and the analysis
    /// runs on in the background.
    pub fn handle_main_input(&mut self, key: KeyEvent) -> (action: Action)
        requires
            old(self).wf(),
        ensures
            final(self).wf(),
            final(self)@ == old(self)@.handle_main_input(key, final(self)@.analyzing_word),
            action@ == old(self)@.main_action(key),
            action@ is Analyze ==> is_status_word(final(self)@.analyzing_word),
    {
        if self.state == AppState::Analyzing {
            if key.code == KeyCode::Esc {
                self.state = AppState::Idle;
            }
            Action::Nothing
        } else {
            self.handle_prompt_input(key)
        }
    }

    /// The text of a row of the settings screen, as the working copy holds it.
    pub fn get_settings_field_value(&self, field: &SettingsField) -> (value: String)
        ensures
            value@ == self@.settings_config.field_value(*field),
    {
        self.settings_config.field_value(field)
    }

    /// Puts `value` into a text row of the working copy. Other rows leave
    /// it as it is.
    pub fn set_settings_field_value(&mut self, field: &SettingsField, value: String)
        ensures
            final(self)@ == (AppView {
                settings_config: old(self)@.settings_config.with_field_value(*field, value@),
                ..old(self)@
            }),
            old(self).wf() ==> final(self).wf(),
    {
        proof {
            old(self)@.settings_config.lemma_field_round_trip(*field, *field, value@);
        }
        self.settings_config.set_field_value(field, value);
    }

    /// Handles a key pressed on the settings screen while no row is edited.
    ///
    /// Esc and Enter on Cancel return to the main screen. Up and Down (or
    /// Tab) move the selection within the rows, without wrapping. Left and
    /// Right on the backend selector make the previous or next backend
    /// active and select the first row. Enter on a text row starts editing
    /// it, with its text in the edit buffer and the cursor at the end.
    /// Enter on Save commits the working copy as the configuration and asks
    /// for it to be written.
    pub fn handle_settings_nav_input(&mut self, key: KeyCode) -> (action: Action)
        requires
            old(self).wf(),
            !old(self)@.settings_editing,
        ensures
            final(self).wf(),
            final(self)@ == old(self)@.handle_settings_nav_input(key),
            action@ == old(self)@.settings_action(key),
    {
        proof {
            old(self)@.lemma_settings_input_wf(key);
        }
        let fields = SettingsField::fields_for_provider(self.settings_config.provider.active);
        match key {
            KeyCode::Esc => {
                self.screen = Screen::Main;
                Action::Nothing
            },
            KeyCode::Up => {
                if self.settings_selected > 0 {
                    self.settings_selected = self.settings_selected - 1;
                    self.settings_message = None;
                }
                Action::Nothing
            },
            KeyCode::Down | KeyCode::Tab => {
                if self.settings_selected < fields.len() - 1 {
                    self.settings_selected = self.settings_selected + 1;
                    self.settings_message = None;
                }
                Action::Nothing
            },
            KeyCode::Left | KeyCode::Right => {
                if fields[self.settings_selected].is_provider_selector() {
                    let active = self.settings_config.provider.active;
                    self.settings_config.provider.active = match key {
                        KeyCode::Right => active.next(),
                        _ => active.prev(),
                    };
                    self.settings_selected = 0;
                }
                Action::Nothing
            },
            KeyCode::Enter => {
                let field = fields[self.settings_selected];
                match field {
                    SettingsField::Save => {
                        self.config = self.settings_config.clone();
                        Action::Persist(self.config.clone(), PersistReason::Settings)
                    },
                    SettingsField::Cancel => {
                        self.screen = Screen::Main;
                        Action::Nothing
                    },
                    SettingsField::Provider => Action::Nothing,
                    _ => {
                        let value = self.settings_config.field_value(&field);
                        self.settings_edit.set_text(value.as_str());
                        self.settings_editing = true;
                        Action::Nothing
                    },
                }
            },
            _ => Action::Nothing,
        }
    }

    /// Handles a key pressed on the settings screen while a row is edited.
    ///
    /// The edit buffer is a single line, edited as the prompt is. Enter
    /// writes it into the row of the working copy and ends editing; Esc
    /// ends editing and leaves the row as it was.
    pub fn handle_settings_edit_input(&mut self, key: KeyCode)
        requires
            old(self).wf(),
            old(self)@.settings_editing,
        ensures
            final(self).wf(),
            final(self)@ == old(self)@.handle_settings_edit_input(key),
    {
        proof {
            old(self)@.lemma_settings_input_wf(key);
        }
        match key {
            KeyCode::Esc => {
                self.settings_editing = false;
                self.settings_edit.clear();
            },
            KeyCode::Enter => {
                let fields = SettingsField::fields_for_provider(
                    self.settings_config.provider.active,
                );
                let field = fields[self.settings_selected];
                let value = self.settings_edit.text();
                self.settings_config.set_field_value(&field, value);
                self.settings_editing = false;
                self.settings_edit.clear();
            },
            KeyCode::Char(c) => self.settings_edit.insert(c),
            KeyCode::Backspace => {
                self.settings_edit.backspace();
            },
            KeyCode::Delete => {
                self.settings_edit.delete();
            },
            KeyCode::Left => self.settings_edit.move_left(),
            KeyCode::Right => self.settings_edit.move_right(),
            KeyCode::Home => self.settings_edit.move_home(),
            KeyCode::End => self.settings_edit.move_end(),
            _ => {},
        }
    }

    /// Handles a key pressed on the settings screen.
    pub fn handle_settings_input(&mut self, key: KeyCode) -> (action: Action)
        requires
            old(self).wf(),
        ensures
            final(self).wf(),
            final(self)@ == old(self)@.handle_settings_input(key),
            action@ == old(self)@.settings_action(key),
    {
        if self.settings_editing {
            self.handle_settings_edit_input(key);
            Action::Nothing
        } else {
            self.handle_settings_nav_input(key)
        }
    }

    /// Handles a key press. Control+C sets the quit flag from every
    /// screen; any other press goes to the active screen.
    pub fn handle_key(&mut self, key: KeyEvent) -> (action: Action)
        requires
            old(self).wf(),
        ensures
            final(self).wf(),
            final(self)@ == old(self)@.handle_key(key, final(self)@.analyzing_word),
            action@ == old(self)@.key_action(key),
            action@ is Analyze ==> is_status_word(final(self)@.analyzing_word),
    {
        if key.is_quit() {
            self.should_quit = true;
            Action::Nothing
        } else {
            match self.screen {
                Screen::Main => self.handle_main_input(key),
                Screen::Settings => self.handle_settings_input(key.code),
            }
        }
    }

    /// Lets one polling interval go by. While an analysis runs, every
    /// fifth tick shows the next of the three animation frames.
    pub fn tick(&mut self)
        requires
            old(self).wf(),
        ensures
            final(self).wf(),
            final(self)@ == old(self)@.tick(),
    {
        if self.state == AppState::Analyzing {
            self.animation_tick_counter = self.animation_tick_counter + 1;
            if self.animation_tick_counter >= 5 {
                self.animation_tick_counter = 0;
                self.analyzing_animation_frame = (self.analyzing_animation_frame + 1) % 3;
            }
        }
    }

    /// Takes in the outcome of the background analysis. A result is shown
    /// and clears the error. A failure shows its message and returns to the
    /// idle mode, and leaves the result as it was.
    pub fn complete_analysis(&mut self, outcome: Result<AnalysisResult, String>)
        requires
            old(self).wf(),
        ensures
            final(self).wf(),
            final(self)@ == old(self)@.complete_analysis(analysis_outcome_view(outcome)),
    {
        match outcome {
            Ok(analysis) => {
                self.result = Some(analysis);
                self.state = AppState::ShowingResults;
                self.error = None;
            },
            Err(cause) => {
                self.state = AppState::Idle;
                self.error = Some(cause);
            },
        }
    }

    /// Takes in the outcome of a configuration write that an action asked for.
    pub fn persisted(&mut self, reason: PersistReason, outcome: Result<(), String>)
        requires
            old(self).wf(),
        ensures
            final(self).wf(),
            final(self)@ == old(self)@.persisted(reason, persist_outcome_view(outcome)),
    {
        match reason {
            PersistReason::ProviderSwitch => match outcome {
                Ok(_) => {},
                Err(cause) => {
                    self.error = Some(message("Failed to save config: ", cause.as_str()));
                },
            },
            PersistReason::Reset => match outcome {
                Ok(_) => {
                    self.config = Config::default();
                    self.error = None;
                },
                Err(cause) => {
                    self.error = Some(message("Failed to reset config: ", cause.as_str()));
                },
            },
            PersistReason::Settings => match outcome {
                Ok(_) => {
                    self.settings_message = Some("Settings saved!".to_owned());
                    self.settings_is_error = false;
                    self.screen = Screen::Main;
                },
                Err(cause) => {
                    self.settings_message = Some(message("Error: ", cause.as_str()));
                    self.settings_is_error = true;
                },
            },
        }
    }

    /// Begins a loop iteration, before input is read: takes in the outcome
    /// of the background analysis if one has arrived, and then lets one
    /// polling interval go by.
    pub fn begin_iteration(&mut self, completed: Option<Result<AnalysisResult, String>>)
        requires
            old(self).wf(),
        ensures
            final(self).wf(),
            final(self)@ == old(self)@.begin_iteration(
                match completed {
                    Some(outcome) => Some(analysis_outcome_view(outcome)),
                    None => None,
                },
            ),
    {
        match completed {
            Some(outcome) => self.complete_analysis(outcome),
            None => {},
        }
        self.tick();
    }

    /// Moves the application by one event, and says what the caller is to
    /// do next.
    pub fn step(&mut self, event: Event) -> (action: Action)
        requires
            old(self).wf(),
        ensures
            final(self).wf(),
            final(self)@ == old(self)@.step(event@, final(self)@.analyzing_word),
            action@ == old(self)@.action(event@),
            action@ is Analyze ==> is_status_word(final(self)@.analyzing_word),
    {
        match event {
            Event::Key(key) => self.handle_key(key),
            Event::Tick => {
                self.tick();
                Action::Nothing
            },
            Event::AnalysisFinished(outcome) => {
                self.complete_analysis(outcome);
                Action::Nothing
            },
            Event::Persisted(reason, outcome) => {
                self.persisted(reason, outcome);
                Action::Nothing
            },
        }
    }
    /// Starts the application with `config` and moves it by each of
    /// `events` in turn. Returns the application as it then stands, and
    /// what the last event asked for.
    pub fn replay(config: Config, events: Vec<Event>) -> (end: (App, Action))
        ensures
            end.0.wf(),
            AppView::initial(config@).leads_to(event_views(events@), end.0@),
            events.len() == 0 ==> end.1@ is Nothing,
            events.len() > 0 ==> exists|before: AppView|
                {
                    &&& AppView::initial(config@).leads_to(
                        event_views(events@).drop_last(),
                        before,
                    )
                    &&& end.0@ == #[trigger] before.step(
                        event_views(events@).last(),
                        end.0@.analyzing_word,
                    )
                    &&& end.1@ == before.action(event_views(events@).last())
                },
    {
        let mut app = App::new(config);
        let mut last = Action::Nothing;
        let ghost all = event_views(events@);
        let ghost mut before = app@;
        for event in it: events
            invariant
                app.wf(),
                it.seq() == events@,
                all == event_views(events@),
                AppView::initial(config@).leads_to(all.take(it.index()), app@),
                it.index() == 0 ==> last@ is Nothing,
                it.index() > 0 ==> {
                    &&& AppView::initial(config@).leads_to(all.take(it.index() - 1), before)
                    &&& app@ == before.step(all[it.index() - 1], app@.analyzing_word)
                    &&& last@ == before.action(all[it.index() - 1])
                },
        {
            let ghost at = it.index();
            proof {
                before = app@;
            }
            last = app.step(event);
            proof {
                let next = all.take(at + 1);
                assert(next.drop_last() =~= all.take(at));
                assert(next.last() == event@);
                assert(app@ == before.step(next.last(), app@.analyzing_word));
            }
        }
        proof {
            assert(all.take(all.len() as int) =~= all);
            if all.len() > 0 {
                assert(all.take(all.len() - 1) =~= all.drop_last());
            }
        }
        (app, last)
    }
}

/// The events of a list as the model sees them.
pub open spec fn event_views(events: Seq<Event>) -> Seq<EventView> {
    Seq::new(events.len(), |i: int| events[i]@)
}

} // verus!
