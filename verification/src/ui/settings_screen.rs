//! The settings screen: a popup with one row for each settings field of
//! the active backend, and a status line below.

use crate::types::{Config, ConfigView, SettingsField};
use crate::ui::layout::{centered_rect, least, min_u16, sat_sub, Rect};
use crate::ui::theme::Color;
use crate::ui::widgets::feedback::byte_len;
use vstd::prelude::*;
use vstd::string::StringExecFns;

verus! {

/// The settings screen, as a picture of the state to draw.
#[derive(Debug, Clone, Copy)]
pub struct SettingsScreen<'a> {
    config: &'a Config,
    selected_field: usize,
    editing: bool,
    edit_value: &'a str,
    cursor_position: usize,
    message: Option<&'a str>,
    is_error: bool,
}

pub struct SettingsScreenView {
    pub config: ConfigView,
    pub selected_field: nat,
    pub editing: bool,
    pub edit_value: Seq<char>,
    pub cursor_position: nat,
    pub message: Option<Seq<char>>,
    pub is_error: bool,
}

/// A row of the settings popup.
#[derive(Debug)]
pub enum FieldRow {
    /// Save or Cancel: the caption in brackets.
    Button { text: String, selected: bool },
    /// The backend selector: caption, the active backend's name, and a
    /// hint at the keys while selected.
    Selector { label: String, value: String, hint: String, selected: bool },
    /// A text field: caption, the text to show (masked for credentials;
    /// the edit buffer while the field is edited), and a hint while
    /// selected and not edited.
    Text { label: String, value: String, hint: String, selected: bool, editing: bool },
}

pub enum FieldRowView {
    Button { text: Seq<char>, selected: bool },
    Selector { label: Seq<char>, value: Seq<char>, hint: Seq<char>, selected: bool },
    Text { label: Seq<char>, value: Seq<char>, hint: Seq<char>, selected: bool, editing: bool },
}

impl View for FieldRow {
    type V = FieldRowView;

    open spec fn view(&self) -> FieldRowView {
        match self {
            FieldRow::Button { text, selected } => FieldRowView::Button {
                text: text@,
                selected: *selected,
            },
            FieldRow::Selector { label, value, hint, selected } => FieldRowView::Selector {
                label: label@,
                value: value@,
                hint: hint@,
                selected: *selected,
            },
            FieldRow::Text { label, value, hint, selected, editing } => FieldRowView::Text {
                label: label@,
                value: value@,
                hint: hint@,
                selected: *selected,
                editing: *editing,
            },
        }
    }
}

/// The status line below the popup.
#[derive(Debug)]
pub struct StatusLine {
    pub text: String,
    pub color: Color,
}

/// The most mask characters shown for a stored credential.
pub open spec fn mask_limit() -> int {
    20
}

/// The width that the popup is held to.
pub open spec fn popup_width() -> int {
    60
}

/// `count` mask characters.
pub open spec fn mask(count: nat) -> Seq<char> {
    Seq::new(count, |i: int| '•')
}

/// `count` mask characters.
pub fn mask_of(count: usize) -> (text: String)
    ensures
        text@ == mask(count as nat),
{
    let mut text = String::new();
    let mut i: usize = 0;
    while i < count
        invariant
            i <= count,
            text@ =~= mask(i as nat),
        decreases count - i,
    {
        text.push('•');
        i += 1;
    }
    text
}

/// The terminal rows that a settings row takes: one for a button, two for
/// any other.
pub open spec fn row_height(field: SettingsField) -> int {
    if field.is_button() {
        1
    } else {
        2
    }
}

/// The terminal rows that the first `upto` of `fields` take.
pub open spec fn rows_height(fields: Seq<SettingsField>, upto: nat) -> int
    decreases upto,
{
    if upto == 0 {
        0
    } else {
        rows_height(fields, (upto - 1) as nat) + row_height(fields[upto - 1])
    }
}

impl SettingsScreenView {
    /// The rows of the popup.
    pub open spec fn fields(self) -> Seq<SettingsField> {
        SettingsField::spec_fields_for_provider(self.config.active)
    }

    /// What a row shows for its field while it is not edited: the active
    /// backend's name, a text as it is, a credential as mask characters, one
    /// for each of its bytes and twenty at most, and nothing for a button.
    pub open spec fn field_value(self, field: SettingsField) -> Seq<char> {
        if field.is_provider_selector() {
            self.config.active.spec_display_name()
        } else if field.is_password() {
            mask(least(byte_len(self.config.field_value(field)) as int, mask_limit()) as nat)
        } else {
            self.config.field_value(field)
        }
    }

    /// What the row of a text field shows: the edit buffer while the
    /// field is edited, masked for a credential, else the stored value.
    pub open spec fn text_value(self, index: int) -> Seq<char> {
        let field = self.fields()[index];
        if self.editing && index == self.selected_field {
            if field.is_password() {
                mask(byte_len(self.edit_value) as nat)
            } else {
                self.edit_value
            }
        } else {
            self.field_value(field)
        }
    }

    /// The row at `index` of the popup.
    pub open spec fn row(self, index: int) -> FieldRowView {
        let field = self.fields()[index];
        let selected = index == self.selected_field;
        if field.is_button() {
            FieldRowView::Button { text: "[ "@ + field.spec_label() + " ]"@, selected }
        } else if field.is_provider_selector() {
            FieldRowView::Selector {
                label: field.spec_label() + ": "@,
                value: self.config.active.spec_display_name(),
                hint: if selected {
                    " (← →)"@
                } else {
                    ""@
                },
                selected,
            }
        } else {
            FieldRowView::Text {
                label: field.spec_label() + ": "@,
                value: self.text_value(index),
                hint: if selected && !self.editing {
                    " (Enter to edit)"@
                } else {
                    ""@
                },
                selected,
                editing: selected && self.editing,
            }
        }
    }

    /// The text of the status line: the message if there is one, else the
    /// keys of the mode at hand.
    pub open spec fn status_text(self) -> Seq<char> {
        match self.message {
            Some(message) => message,
            None => if self.editing {
                "Enter to save | Esc to cancel"@
            } else {
                "↑↓ Navigate | Enter to edit | Tab to next | Esc to close"@
            },
        }
    }

    /// The colour of the status line: red for a failure, green for any
    /// other message, dimmed for the keys.
    pub open spec fn status_color(self) -> Color {
        if self.message is Some {
            if self.is_error {
                Color::Error
            } else {
                Color::Success
            }
        } else {
            Color::Muted
        }
    }

    /// The area of the popup in a terminal of the given area: centred, as
    /// high as its rows with borders, padding and status line, and no
    /// larger than the terminal allows.
    pub open spec fn popup_area(self, area: Rect) -> Rect {
        Rect::spec_centered(
            least(popup_width(), sat_sub(area.width as int, 4)) as u16,
            least(rows_height(self.fields(), self.fields().len()) + 4, area.height as int) as u16,
            area,
        )
    }
}

impl<'a> View for SettingsScreen<'a> {
    type V = SettingsScreenView;

    closed spec fn view(&self) -> SettingsScreenView {
        SettingsScreenView {
            config: self.config@,
            selected_field: self.selected_field as nat,
            editing: self.editing,
            edit_value: self.edit_value@,
            cursor_position: self.cursor_position as nat,
            message: match self.message {
                Some(m) => Some(m@),
                None => None,
            },
            is_error: self.is_error,
        }
    }
}

/// The rows of a backend take nine terminal rows for OpenAI and Anthropic
/// and thirteen for Azure.
pub proof fn lemma_rows_height(view: SettingsScreenView)
    ensures
        rows_height(view.fields(), view.fields().len()) == 2 * view.fields().len() - 2,
        rows_height(view.fields(), view.fields().len()) == 8 || rows_height(
            view.fields(),
            view.fields().len(),
        ) == 12,
{
    SettingsField::lemma_fields_shape(view.config.active);
    reveal_with_fuel(rows_height, 8);
}

impl<'a> SettingsScreen<'a> {
    /// The settings screen for `config`, with the first row selected,
    /// nothing edited and no message.
    pub fn new(config: &'a Config) -> (screen: SettingsScreen<'a>)
        ensures
            screen@ == (SettingsScreenView {
                config: config@,
                selected_field: 0,
                editing: false,
                edit_value: ""@,
                cursor_position: 0,
                message: None,
                is_error: false,
            }),
    {
        SettingsScreen {
            config,
            selected_field: 0,
            editing: false,
            edit_value: "",
            cursor_position: 0,
            message: None,
            is_error: false,
        }
    }

    /// The same screen with the row at `field` selected.
    pub fn selected(self, field: usize) -> (screen: SettingsScreen<'a>)
        ensures
            screen@ == (SettingsScreenView { selected_field: field as nat, ..self@ }),
    {
        SettingsScreen { selected_field: field, ..self }
    }

    /// The same screen with the given edit mode, edit buffer and cursor.
    pub fn editing(self, editing: bool, value: &'a str, cursor: usize) -> (screen: SettingsScreen<
        'a,
    >)
        ensures
            screen@ == (SettingsScreenView {
                editing,
                edit_value: value@,
                cursor_position: cursor as nat,
                ..self@
            }),
    {
        SettingsScreen { editing, edit_value: value, cursor_position: cursor, ..self }
    }

    /// The same screen with the given message, or none.
    pub fn message(self, msg: Option<&'a str>, is_error: bool) -> (screen: SettingsScreen<'a>)
        ensures
            screen@ == (SettingsScreenView {
                message: match msg {
                    Some(m) => Some(m@),
                    None => None,
                },
                is_error,
                ..self@
            }),
    {
        SettingsScreen { message: msg, is_error, ..self }
    }

    /// What a row shows for its field while it is not edited.
    pub fn get_field_value(&self, field: &SettingsField) -> (value: String)
        ensures
            value@ == self@.field_value(*field),
    {
        if field.is_provider_selector() {
            self.config.provider.active.display_name().to_owned()
        } else if field.is_password() {
            let stored = self.config.field_value(field);
            let len = stored.as_str().len();
            mask_of(if len < 20 {
                len
            } else {
                20
            })
        } else {
            self.config.field_value(field)
        }
    }

    /// The rows of the popup, top to bottom.
    pub fn rows(&self) -> (rows: Vec<FieldRow>)
        ensures
            rows.len() == self@.fields().len(),
            forall|i: int| 0 <= i < rows.len() ==> (#[trigger] rows[i])@ == self@.row(i),
    {
        let fields = SettingsField::fields_for_provider(self.config.provider.active);
        let mut rows: Vec<FieldRow> = Vec::new();
        let mut i: usize = 0;
        while i < fields.len()
            invariant
                i <= fields.len(),
                fields@ == self@.fields(),
                rows.len() == i,
                forall|j: int| 0 <= j < i ==> (#[trigger] rows[j])@ == self@.row(j),
            decreases fields.len() - i,
        {
            let field = fields[i];
            let selected = i == self.selected_field;
            let row = if field.is_button() {
                let mut text = "[ ".to_owned();
                text.append(field.label());
                text.append(" ]");
                FieldRow::Button { text, selected }
            } else if field.is_provider_selector() {
                let mut label = field.label().to_owned();
                label.append(": ");
                let hint = if selected {
                    " (← →)"
                } else {
                    ""
                };
                FieldRow::Selector {
                    label,
                    value: self.config.provider.active.display_name().to_owned(),
                    hint: hint.to_owned(),
                    selected,
                }
            } else {
                let mut label = field.label().to_owned();
                label.append(": ");
                let value = if self.editing && selected {
                    if field.is_password() {
                        mask_of(self.edit_value.len())
                    } else {
                        self.edit_value.to_owned()
                    }
                } else {
                    self.get_field_value(&field)
                };
                let hint = if selected && !self.editing {
                    " (Enter to edit)"
                } else {
                    ""
                };
                FieldRow::Text {
                    label,
                    value,
                    hint: hint.to_owned(),
                    selected,
                    editing: selected && self.editing,
                }
            };
            rows.push(row);
            i += 1;
        }
        rows
    }

    /// What a text row shows in place of an empty text.
    pub fn empty_notice() -> (text: &'static str)
        ensures
            text@ == "(empty)"@,
    {
        "(empty)"
    }

    /// The status line below the popup.
    pub fn status(&self) -> (line: StatusLine)
        ensures
            line.text@ == self@.status_text(),
            line.color == self@.status_color(),
    {
        match self.message {
            Some(message) => StatusLine {
                text: message.to_owned(),
                color: if self.is_error {
                    Color::Error
                } else {
                    Color::Success
                },
            },
            None => StatusLine {
                text: if self.editing {
                    "Enter to save | Esc to cancel".to_owned()
                } else {
                    "↑↓ Navigate | Enter to edit | Tab to next | Esc to close".to_owned()
                },
                color: Color::Muted,
            },
        }
    }

    /// The area of the popup in a terminal of the given area.
    pub fn popup_area(&self, area: Rect) -> (popup: Rect)
        ensures
            popup == self@.popup_area(area),
    {
        let fields = SettingsField::fields_for_provider(self.config.provider.active);
        let mut content: u16 = 0;
        let mut i: usize = 0;
        proof {
            SettingsField::lemma_fields_shape(self@.config.active);
        }
        while i < fields.len()
            invariant
                i <= fields.len() <= 7,
                fields@ == self@.fields(),
                content == rows_height(fields@, i as nat),
                content <= 2 * i,
            decreases fields.len() - i,
        {
            content = content + if fields[i].is_button() {
                1
            } else {
                2
            };
            i += 1;
        }
        let height = min_u16(content + 4, area.height);
        let width = min_u16(60, area.width.saturating_sub(4));
        centered_rect(width, height, area)
    }
}

} // verus!
