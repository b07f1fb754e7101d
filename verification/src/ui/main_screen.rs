//! The main screen: which rows it is made of and how high each is, the
//! status line of a running analysis, and where the command menu goes.

use crate::types::{AnalysisResult, AnalysisResultView, AppState, ProviderType};
use crate::ui::layout::{least, limit, max_u16, min_u16, most, sat_add, sat_sub, Rect};
use crate::ui::widgets::feedback::section_height;
use crate::ui::widgets::prompt_input::split_lines;
use crate::ui::widgets::{CommandMenu, Feedback, Header, PromptInput, ScoreDisplay};
use vstd::prelude::*;

verus! {

/// The main screen, as a picture of the state to draw.
#[derive(Debug)]
pub struct MainScreen<'a> {
    prompt: &'a str,
    cursor_position: usize,
    result: Option<&'a AnalysisResult>,
    state: AppState,
    error: Option<&'a str>,
    command_selected: usize,
    command_filter: String,
    active_provider: ProviderType,
    analyzing_word: &'a str,
    analyzing_frame: u8,
}

pub struct MainScreenView {
    pub prompt: Seq<char>,
    pub cursor_position: nat,
    pub result: Option<AnalysisResultView>,
    pub state: AppState,
    pub error: Option<Seq<char>>,
    pub command_selected: nat,
    pub command_filter: Seq<char>,
    pub active_provider: ProviderType,
    pub analyzing_word: Seq<char>,
    pub analyzing_frame: u8,
}

/// A row of the main screen.
#[derive(Debug, Clone, Copy, PartialEq, Eq, Structural)]
pub enum RowKind {
    Header,
    /// The active backend, with a free row below.
    Provider,
    /// The status line of a running analysis.
    Analyzing,
    Score,
    Feedback,
    Prompt,
    Error,
}

/// A row of the main screen and the number of terminal rows it takes.
#[derive(Debug, Clone, Copy, PartialEq, Eq, Structural)]
pub struct Row {
    pub kind: RowKind,
    pub height: u16,
}

/// The least height of a terminal that shows the logo.
pub open spec fn logo_threshold() -> int {
    22
}

/// The width that the score and the feedback are held to.
pub open spec fn panel_width() -> int {
    60
}

/// The width that the command menu is held to.
pub open spec fn menu_width() -> int {
    50
}

/// `count` dots.
pub open spec fn dots(count: nat) -> Seq<char> {
    Seq::new(count, |i: int| '.')
}

impl MainScreenView {
    /// Whether a terminal of `height` rows shows the logo.
    pub open spec fn shows_logo(height: u16) -> bool {
        height >= logo_threshold()
    }

    /// The rows of the prompt box: one for each line of the prompt, a
    /// border above and below, and three at least.
    pub open spec fn prompt_height(self) -> int {
        most(sat_add(least(split_lines(self.prompt).len() as int, limit()), 2), 3)
    }

    /// The rows of the feedback panel in a terminal of `width` columns.
    pub open spec fn feedback_height(self, width: u16) -> int {
        let columns = least(panel_width(), sat_sub(width as int, 2)) as u16;
        let improvements = section_height(self.result->0.improvements, columns);
        let unclear = section_height(self.result->0.unclear_parts, columns);
        if improvements == 0 && unclear == 0 {
            4
        } else {
            sat_add(improvements, unclear)
        }
    }

    /// The rows of the screen, top to bottom: header and backend always,
    /// the status line while an analysis runs, score and feedback while
    /// there is a result, the prompt always, and the error while there is one.
    pub open spec fn rows(self, width: u16, height: u16) -> Seq<Row> {
        seq![
            Row { kind: RowKind::Header, height: Header::spec_height(Self::shows_logo(height)) },
            Row { kind: RowKind::Provider, height: 2 },
        ] + (if self.state == AppState::Analyzing {
            seq![Row { kind: RowKind::Analyzing, height: 1 }]
        } else {
            Seq::empty()
        }) + (if self.result is Some {
            seq![
                Row { kind: RowKind::Score, height: 4 },
                Row { kind: RowKind::Feedback, height: self.feedback_height(width) as u16 },
            ]
        } else {
            Seq::empty()
        }) + seq![Row { kind: RowKind::Prompt, height: self.prompt_height() as u16 }] + (if self.error
            is Some {
            seq![Row { kind: RowKind::Error, height: 1 }]
        } else {
            Seq::empty()
        })
    }

    /// The status line of a running analysis: the status word and one to
    /// three dots, by the animation frame.
    pub open spec fn analyzing_text(self) -> Seq<char> {
        self.analyzing_word + dots((self.analyzing_frame + 1) as nat)
    }

    /// The area of the command menu: below the prompt box and one column
    /// in, but no lower than leaves room for it within the terminal.
    pub open spec fn menu_area(prompt_box: Rect, area: Rect, menu_height: u16) -> Rect {
        Rect {
            x: sat_add(prompt_box.x as int, 1) as u16,
            y: least(
                sat_add(prompt_box.y as int, prompt_box.height as int),
                sat_sub(area.height as int, sat_add(menu_height as int, 1)),
            ) as u16,
            width: least(menu_width(), sat_sub(area.width as int, 4)) as u16,
            height: menu_height,
        }
    }
}

impl<'a> View for MainScreen<'a> {
    type V = MainScreenView;

    closed spec fn view(&self) -> MainScreenView {
        MainScreenView {
            prompt: self.prompt@,
            cursor_position: self.cursor_position as nat,
            result: match self.result {
                Some(r) => Some(r@),
                None => None,
            },
            state: self.state,
            error: match self.error {
                Some(e) => Some(e@),
                None => None,
            },
            command_selected: self.command_selected as nat,
            command_filter: self.command_filter@,
            active_provider: self.active_provider,
            analyzing_word: self.analyzing_word@,
            analyzing_frame: self.analyzing_frame,
        }
    }
}

/// The number of lines of `text`, one more than it has newlines, stopped
/// at the largest extent.
fn count_lines(text: &str) -> (count: u16)
    ensures
        count == least(split_lines(text@).len() as int, limit()),
{
    let chars = crate::text::chars_of(text);
    let mut count: u16 = 1;
    let mut i: usize = 0;
    proof {
        assert(chars@.take(0).len() == 0);
    }
    while i < chars.len()
        invariant
            i <= chars.len(),
            count == least(split_lines(chars@.take(i as int)).len() as int, limit()),
        decreases chars.len() - i,
    {
        proof {
            let next = chars@.take(i + 1);
            assert(next.drop_last() =~= chars@.take(i as int));
        }
        if chars[i] == '\n' {
            count = count.saturating_add(1);
        }
        i += 1;
    }
    assert(chars@.take(chars.len() as int) =~= chars@);
    count
}

impl<'a> MainScreen<'a> {
    /// The main screen with the given prompt and cursor, idle, with Azure
    /// active, and nothing else to show.
    pub fn new(prompt: &'a str, cursor_position: usize) -> (screen: MainScreen<'a>)
        ensures
            screen@ == (MainScreenView {
                prompt: prompt@,
                cursor_position: cursor_position as nat,
                result: None,
                state: AppState::Idle,
                error: None,
                command_selected: 0,
                command_filter: Seq::empty(),
                active_provider: ProviderType::Azure,
                analyzing_word: ""@,
                analyzing_frame: 0,
            }),
    {
        MainScreen {
            prompt,
            cursor_position,
            result: None,
            state: AppState::Idle,
            error: None,
            command_selected: 0,
            command_filter: String::new(),
            active_provider: ProviderType::Azure,
            analyzing_word: "",
            analyzing_frame: 0,
        }
    }

    /// The same screen with the given result, or none.
    pub fn result(self, result: Option<&'a AnalysisResult>) -> (screen: MainScreen<'a>)
        ensures
            screen@ == (MainScreenView {
                result: match result {
                    Some(r) => Some(r@),
                    None => None,
                },
                ..self@
            }),
    {
        MainScreen { result, ..self }
    }

    /// The same screen in the given mode.
    pub fn state(self, state: AppState) -> (screen: MainScreen<'a>)
        ensures
            screen@ == (MainScreenView { state, ..self@ }),
    {
        MainScreen { state, ..self }
    }

    /// The same screen with the given error, or none.
    pub fn error(self, error: Option<&'a str>) -> (screen: MainScreen<'a>)
        ensures
            screen@ == (MainScreenView {
                error: match error {
                    Some(e) => Some(e@),
                    None => None,
                },
                ..self@
            }),
    {
        MainScreen { error, ..self }
    }

    /// The same screen with the given selection and filter of the command menu.
    pub fn command_menu(self, selected: usize, filter: String) -> (screen: MainScreen<'a>)
        ensures
            screen@ == (MainScreenView {
                command_selected: selected as nat,
                command_filter: filter@,
                ..self@
            }),
    {
        MainScreen { command_selected: selected, command_filter: filter, ..self }
    }

    /// The same screen with the given backend active.
    pub fn provider(self, provider: ProviderType) -> (screen: MainScreen<'a>)
        ensures
            screen@ == (MainScreenView { active_provider: provider, ..self@ }),
    {
        MainScreen { active_provider: provider, ..self }
    }

    /// The same screen with the given status word and animation frame.
    pub fn analyzing_animation(self, word: &'a str, frame: u8) -> (screen: MainScreen<'a>)
        ensures
            screen@ == (MainScreenView { analyzing_word: word@, analyzing_frame: frame, ..self@ }),
    {
        MainScreen { analyzing_word: word, analyzing_frame: frame, ..self }
    }

    /// Whether a terminal of `height` rows shows the logo.
    pub fn shows_logo(height: u16) -> (r: bool)
        ensures
            r == MainScreenView::shows_logo(height),
    {
        height >= 22
    }

    /// The header of the screen in a terminal of `height` rows.
    pub fn header(height: u16) -> (header: Header)
        ensures
            header.shows_logo() == MainScreenView::shows_logo(height),
    {
        Header::new(Self::shows_logo(height))
    }

    /// The name of the active backend, as the backend row shows it.
    pub fn provider_name(&self) -> (name: &'static str)
        ensures
            name@ == self@.active_provider.spec_display_name(),
    {
        self.active_provider.display_name()
    }

    /// Whether the command menu is shown.
    pub fn shows_command_menu(&self) -> (r: bool)
        ensures
            r == (self@.state == AppState::CommandMenu),
    {
        self.state == AppState::CommandMenu
    }

    /// The result to show, if any.
    pub fn shown_result(&self) -> (r: Option<&'a AnalysisResult>)
        ensures
            match r {
                Some(analysis) => self@.result == Some(analysis@),
                None => self@.result is None,
            },
    {
        self.result
    }

    /// The error to show, if any.
    pub fn shown_error(&self) -> (r: Option<&'a str>)
        ensures
            match r {
                Some(e) => self@.error == Some(e@),
                None => self@.error is None,
            },
    {
        self.error
    }

    /// The rows of the prompt box.
    pub fn prompt_height(&self) -> (rows: u16)
        ensures
            rows == self@.prompt_height(),
            rows >= 3,
    {
        max_u16(count_lines(self.prompt).saturating_add(2), 3)
    }

    /// The rows of the screen in a terminal of `width` by `height` cells,
    /// top to bottom, each with the number of terminal rows it takes.
    pub fn rows(&self, width: u16, height: u16) -> (rows: Vec<Row>)
        ensures
            rows@ == self@.rows(width, height),
    {
        let mut rows: Vec<Row> = Vec::new();
        rows.push(Row { kind: RowKind::Header, height: Header::height(Self::shows_logo(height)) });
        rows.push(Row { kind: RowKind::Provider, height: 2 });
        if self.state == AppState::Analyzing {
            rows.push(Row { kind: RowKind::Analyzing, height: 1 });
        }
        if let Some(result) = self.result {
            rows.push(Row { kind: RowKind::Score, height: ScoreDisplay::height() });
            let columns = min_u16(60, width.saturating_sub(2));
            let improvements = result.improvements.as_slice();
            let unclear_parts = result.unclear_parts.as_slice();
            assert(improvements.deep_view() =~= result@.improvements);
            assert(unclear_parts.deep_view() =~= result@.unclear_parts);
            let feedback = Feedback::new(improvements, unclear_parts);
            rows.push(Row { kind: RowKind::Feedback, height: feedback.calculate_height(columns) });
        }
        rows.push(Row { kind: RowKind::Prompt, height: self.prompt_height() });
        if self.error.is_some() {
            rows.push(Row { kind: RowKind::Error, height: 1 });
        }
        assert(rows@ =~= self@.rows(width, height));
        rows
    }

    /// The status line of a running analysis.
    pub fn analyzing_text(&self) -> (text: String)
        ensures
            text@ == self@.analyzing_text(),
    {
        let mut text = self.analyzing_word.to_owned();
        let mut i: u8 = 0;
        while i <= self.analyzing_frame
            invariant
                i <= self.analyzing_frame + 1,
                text@ =~= self@.analyzing_word + dots(i as nat),
            decreases self.analyzing_frame + 1 - i,
        {
            text.push('.');
            if i == self.analyzing_frame {
                assert(text@ =~= self@.analyzing_text());
                return text;
            }
            i += 1;
        }
        text
    }

    /// The prompt box of the screen: unfocused while the command menu is shown.
    pub fn prompt_input(&self) -> (input: PromptInput<'a>)
        ensures
            input.spec_content() == self@.prompt,
            input.spec_cursor() == self@.cursor_position,
            input.spec_focused() == (self@.state != AppState::CommandMenu),
            !input.spec_analyzing(),
    {
        PromptInput::new(self.prompt, self.cursor_position).focused(
            self.state != AppState::CommandMenu,
        )
    }

    /// The command menu of the screen.
    pub fn menu(&self) -> (menu: CommandMenu)
        ensures
            menu.spec_selected() == self@.command_selected,
            menu.spec_filter() == self@.command_filter,
    {
        CommandMenu::new(self.command_selected, self.command_filter.clone())
    }

    /// The area of the score or the feedback within the row given to it:
    /// the row, held to the panel width.
    pub fn panel_area(row: Rect) -> (area: Rect)
        ensures
            area == (Rect { width: least(panel_width(), row.width as int) as u16, ..row }),
    {
        row.narrowed(60)
    }

    /// The area of the command menu, given the area of the prompt box, the
    /// area of the terminal and the height of the menu.
    pub fn menu_area(prompt_box: Rect, area: Rect, menu_height: u16) -> (menu: Rect)
        ensures
            menu == MainScreenView::menu_area(prompt_box, area, menu_height),
    {
        let below = prompt_box.y.saturating_add(prompt_box.height);
        let lowest = area.height.saturating_sub(menu_height.saturating_add(1));
        Rect {
            x: prompt_box.x.saturating_add(1),
            y: min_u16(below, lowest),
            width: min_u16(50, area.width.saturating_sub(4)),
            height: menu_height,
        }
    }
}

} // verus!
