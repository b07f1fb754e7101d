//! The prompt box: the text line by line, with the cursor marked in the
//! line that holds it, or a placeholder while the prompt is empty.

use crate::text::{chars_of, split, split_chars, string_of, string_of_range};
use crate::ui::theme::Color;
use vstd::prelude::*;

verus! {

/// The prompt box of the main screen.
#[derive(Debug, Clone, Copy)]
pub struct PromptInput<'a> {
    content: &'a str,
    cursor_position: usize,
    is_focused: bool,
    is_analyzing: bool,
}

/// One line of the prompt as it is shown.
#[derive(Debug)]
pub enum PromptLine {
    /// A line without the cursor.
    Plain(String),
    /// The line that holds the cursor: the text before it, the cell under
    /// it, and the text behind that cell.
    Cursor { before: String, at: String, after: String },
}

pub enum PromptLineView {
    Plain(Seq<char>),
    Cursor { before: Seq<char>, at: Seq<char>, after: Seq<char> },
}

impl View for PromptLine {
    type V = PromptLineView;

    open spec fn view(&self) -> PromptLineView {
        match self {
            PromptLine::Plain(text) => PromptLineView::Plain(text@),
            PromptLine::Cursor { before, at, after } => PromptLineView::Cursor {
                before: before@,
                at: at@,
                after: after@,
            },
        }
    }
}

/// What the prompt box holds.
#[derive(Debug)]
pub enum PromptBody {
    /// An empty prompt that takes input: a cursor cell and the invitation.
    CursorPlaceholder,
    /// An empty prompt that takes none: the hint.
    Placeholder,
    /// The lines of the prompt, top to bottom.
    Lines(Vec<PromptLine>),
}

/// The lines of `text`: what stands between its newlines. A text has one
/// line more than it has newlines.
pub open spec fn split_lines(text: Seq<char>) -> Seq<Seq<char>> {
    split(text, '\n')
}

/// The offset in the text at which line `index` of `lines` begins.
pub open spec fn line_offset(lines: Seq<Seq<char>>, index: nat) -> nat
    decreases index,
{
    if index == 0 {
        0
    } else {
        line_offset(lines, (index - 1) as nat) + lines[index - 1].len() + 1
    }
}

/// Whether the cursor stands in line `index`: at one of its characters or
/// just behind its last.
pub open spec fn holds_cursor(lines: Seq<Seq<char>>, index: nat, cursor: nat) -> bool {
    line_offset(lines, index) <= cursor <= line_offset(lines, index) + lines[index as int].len()
}

/// A line as it is shown with the cursor at column `col`: the cell under
/// the cursor holds the character there, or a space behind the last.
pub open spec fn cursor_line(line: Seq<char>, col: int) -> PromptLineView {
    PromptLineView::Cursor {
        before: line.subrange(0, col),
        at: if col < line.len() {
            seq![line[col]]
        } else {
            seq![' ']
        },
        after: if col < line.len() {
            line.subrange(col + 1, line.len() as int)
        } else {
            Seq::empty()
        },
    }
}

/// Line `index` of `lines` as it is shown with the cursor at `cursor`.
pub open spec fn shown_line(lines: Seq<Seq<char>>, index: nat, cursor: nat) -> PromptLineView {
    if holds_cursor(lines, index, cursor) {
        cursor_line(lines[index as int], cursor - line_offset(lines, index))
    } else {
        PromptLineView::Plain(lines[index as int])
    }
}

/// A line as it is shown with the cursor at column `col`.
fn line_with_cursor(line: &Vec<char>, col: usize) -> (shown: PromptLine)
    requires
        col <= line.len(),
    ensures
        shown@ == cursor_line(line@, col as int),
{
    let before = string_of_range(line, 0, col);
    if col < line.len() {
        let mut at = String::new();
        at.push(line[col]);
        let after = string_of_range(line, col + 1, line.len());
        assert(at@ =~= seq![line@[col as int]]);
        PromptLine::Cursor { before, at, after }
    } else {
        let mut at = String::new();
        at.push(' ');
        assert(at@ =~= seq![' ']);
        PromptLine::Cursor { before, at, after: String::new() }
    }
}

impl<'a> PromptInput<'a> {
    pub closed spec fn spec_content(&self) -> Seq<char> {
        self.content@
    }

    pub closed spec fn spec_cursor(&self) -> nat {
        self.cursor_position as nat
    }

    pub closed spec fn spec_focused(&self) -> bool {
        self.is_focused
    }

    pub closed spec fn spec_analyzing(&self) -> bool {
        self.is_analyzing
    }

    /// A focused prompt box with the given text and cursor.
    pub fn new(content: &'a str, cursor_position: usize) -> (input: PromptInput<'a>)
        ensures
            input.spec_content() == content@,
            input.spec_cursor() == cursor_position,
            input.spec_focused(),
            !input.spec_analyzing(),
    {
        PromptInput { content, cursor_position, is_focused: true, is_analyzing: false }
    }

    /// The same box, focused or not.
    pub fn focused(self, focused: bool) -> (input: PromptInput<'a>)
        ensures
            input.spec_focused() == focused,
            input.spec_content() == self.spec_content(),
            input.spec_cursor() == self.spec_cursor(),
            input.spec_analyzing() == self.spec_analyzing(),
    {
        PromptInput { is_focused: focused, ..self }
    }

    /// The same box, with an analysis running or not.
    pub fn analyzing(self, analyzing: bool) -> (input: PromptInput<'a>)
        ensures
            input.spec_analyzing() == analyzing,
            input.spec_content() == self.spec_content(),
            input.spec_cursor() == self.spec_cursor(),
            input.spec_focused() == self.spec_focused(),
    {
        PromptInput { is_analyzing: analyzing, ..self }
    }

    /// Whether the box takes input: it is focused and no analysis runs.
    pub open spec fn takes_input(&self) -> bool {
        self.spec_focused() && !self.spec_analyzing()
    }

    /// The colour of the border: the primary colour while focused.
    pub fn border_color(&self) -> (color: Color)
        ensures
            color == if self.spec_focused() {
                Color::Primary
            } else {
                Color::Border
            },
    {
        if self.is_focused {
            Color::Primary
        } else {
            Color::Border
        }
    }

    /// The title on the border: a notice while an analysis runs.
    pub fn title(&self) -> (title: &'static str)
        ensures
            title@ == if self.spec_analyzing() {
                " Analyzing... "@
            } else {
                ""@
            },
    {
        if self.is_analyzing {
            " Analyzing... "
        } else {
            ""
        }
    }

    /// The invitation shown in an empty prompt that takes input.
    pub fn invitation() -> (text: &'static str)
        ensures
            text@
                == "With this treasure, I summon Eight-Handled Sword Divergent Sila Divine General Mahoraga"@,
    {
        "With this treasure, I summon Eight-Handled Sword Divergent Sila Divine General Mahoraga"
    }

    /// The hint shown in an empty prompt that takes no input.
    pub fn hint() -> (text: &'static str)
        ensures
            text@ == "Enter your prompt (Enter to analyze)"@,
    {
        "Enter your prompt (Enter to analyze)"
    }

    /// What the box holds. An empty prompt shows a placeholder. Any other
    /// prompt shows its lines; where the box takes input, the line that
    /// holds the cursor shows it.
    pub fn body(&self) -> (body: PromptBody)
        ensures
            self.spec_content().len() == 0 && self.takes_input() ==> body is CursorPlaceholder,
            self.spec_content().len() == 0 && !self.takes_input() ==> body is Placeholder,
            self.spec_content().len() > 0 ==> body is Lines && ({
                let shown = body->Lines_0;
                let lines = split_lines(self.spec_content());
                &&& shown.len() == lines.len()
                &&& forall|i: int|
                    0 <= i < shown.len() ==> (#[trigger] shown[i])@ == if self.takes_input() {
                        shown_line(lines, i as nat, self.spec_cursor())
                    } else {
                        PromptLineView::Plain(lines[i])
                    }
            }),
    {
        let takes_input = self.is_focused && !self.is_analyzing;
        let text = chars_of(self.content);
        if text.len() == 0 {
            if takes_input {
                return PromptBody::CursorPlaceholder;
            } else {
                return PromptBody::Placeholder;
            }
        }
        let lines = split_chars(&text, '\n');
        let ghost all = split_lines(text@);
        let mut shown: Vec<PromptLine> = Vec::new();
        // The cursor's offset from the start of the line at hand, while the
        // cursor does not stand before that line.
        let mut ahead: Option<usize> = if takes_input {
            Some(self.cursor_position)
        } else {
            None
        };
        let mut i: usize = 0;
        while i < lines.len()
            invariant
                i <= lines.len(),
                lines.len() == all.len(),
                forall|j: int| 0 <= j < lines.len() ==> (#[trigger] lines[j])@ == all[j],
                shown.len() == i,
                takes_input == self.takes_input(),
                !takes_input ==> ahead is None,
                takes_input ==> ahead == if self.spec_cursor() >= line_offset(all, i as nat) {
                    Some((self.spec_cursor() - line_offset(all, i as nat)) as usize)
                } else {
                    None::<usize>
                },
                forall|j: int|
                    0 <= j < i ==> (#[trigger] shown[j])@ == if takes_input {
                        shown_line(all, j as nat, self.spec_cursor())
                    } else {
                        PromptLineView::Plain(all[j])
                    },
            decreases lines.len() - i,
        {
            let line = &lines[i];
            let ghost start = line_offset(all, i as nat);
            assert(line_offset(all, (i + 1) as nat) == start + all[i as int].len() + 1);
            let next = match ahead {
                Some(col) => {
                    if col <= line.len() {
                        ahead = None;
                        line_with_cursor(line, col)
                    } else {
                        ahead = Some(col - line.len() - 1);
                        PromptLine::Plain(string_of(line))
                    }
                },
                None => PromptLine::Plain(string_of(line)),
            };
            shown.push(next);
            i += 1;
        }
        PromptBody::Lines(shown)
    }
}

} // verus!
