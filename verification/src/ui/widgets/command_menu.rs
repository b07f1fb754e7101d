//! The command menu: the commands that the filter selects, one per row,
//! with the selected one marked.

use crate::palette::{filter_commands, matching_commands};
use crate::text::{chars_of, string_of};
use crate::types::Command;
use crate::ui::layout::most;
use vstd::prelude::*;
use vstd::string::StringExecFns;

verus! {

/// The command menu of the main screen.
#[derive(Debug)]
pub struct CommandMenu {
    selected: usize,
    filter: String,
}

/// One row of the command menu.
#[derive(Debug)]
pub struct MenuRow {
    /// The command's name, filled up with spaces to the width of the name column.
    pub name: String,
    /// A space and the command's description.
    pub description: String,
    /// Whether this is the selected row.
    pub selected: bool,
}

/// The width of the name column of the command menu.
pub open spec fn name_column() -> nat {
    12
}

/// The text filled up with spaces behind it to at least `width` characters.
pub open spec fn padded(text: Seq<char>, width: nat) -> Seq<char> {
    if text.len() >= width {
        text
    } else {
        text + Seq::new((width - text.len()) as nat, |i: int| ' ')
    }
}

/// The text filled up with spaces behind it to at least `width` characters.
pub fn pad_right(text: &str, width: usize) -> (r: String)
    ensures
        r@ == padded(text@, width as nat),
{
    let mut chars = chars_of(text);
    while chars.len() < width
        invariant
            chars@.len() >= text@.len(),
            chars@.len() <= most(width as int, text@.len() as int),
            chars@ =~= text@ + Seq::new((chars@.len() - text@.len()) as nat, |i: int| ' '),
        decreases width - chars.len(),
    {
        chars.push(' ');
    }
    assert(chars@ =~= padded(text@, width as nat));
    string_of(&chars)
}

impl CommandMenu {
    pub closed spec fn spec_selected(&self) -> nat {
        self.selected as nat
    }

    pub closed spec fn spec_filter(&self) -> Seq<char> {
        self.filter@
    }

    pub fn new(selected: usize, filter: String) -> (menu: CommandMenu)
        ensures
            menu.spec_selected() == selected,
            menu.spec_filter() == filter@,
    {
        CommandMenu { selected, filter }
    }

    /// The index of the selected row.
    pub fn selected(&self) -> (r: usize)
        ensures
            r == self.spec_selected(),
    {
        self.selected
    }

    /// The filter.
    pub fn filter(&self) -> (r: &String)
        ensures
            r@ == self.spec_filter(),
    {
        &self.filter
    }

    /// The commands that the menu lists: those that the filter selects, in
    /// registry order.
    pub fn filtered_commands(&self) -> (commands: Vec<Command>)
        ensures
            commands@ == matching_commands(self.spec_filter()),
    {
        filter_commands(self.filter.as_str())
    }

    /// The rows that the menu takes: one for each listed command, or one
    /// for the notice that there is none, and a border above and below.
    pub open spec fn spec_height(&self) -> int {
        most(matching_commands(self.spec_filter()).len() as int, 1) + 2
    }

    pub fn height(&self) -> (rows: u16)
        ensures
            rows == self.spec_height(),
            3 <= rows <= 7,
    {
        proof {
            crate::palette::lemma_matching_commands(self.spec_filter());
        }
        let commands = self.filtered_commands();
        let listed: usize = if commands.len() > 1 {
            commands.len()
        } else {
            1
        };
        (listed + 2) as u16
    }

    /// The row of the command at `index` of the list.
    pub open spec fn spec_row_selected(&self, index: int) -> bool {
        index == self.spec_selected()
    }

    /// The listed commands as rows, top to bottom. An empty list stands
    /// for the notice that no command matches.
    pub fn rows(&self) -> (rows: Vec<MenuRow>)
        ensures
            rows.len() == matching_commands(self.spec_filter()).len(),
            forall|i: int|
                0 <= i < rows.len() ==> {
                    let cmd = matching_commands(self.spec_filter())[i];
                    &&& (#[trigger] rows[i]).name@ == padded(cmd.spec_name(), name_column())
                    &&& rows[i].description@ == " "@ + cmd.spec_description()
                    &&& rows[i].selected == self.spec_row_selected(i)
                },
    {
        let commands = self.filtered_commands();
        let mut rows: Vec<MenuRow> = Vec::new();
        let mut i: usize = 0;
        while i < commands.len()
            invariant
                i <= commands.len(),
                rows.len() == i,
                commands@ == matching_commands(self.spec_filter()),
                forall|j: int|
                    0 <= j < i ==> {
                        let cmd = commands@[j];
                        &&& (#[trigger] rows[j]).name@ == padded(cmd.spec_name(), name_column())
                        &&& rows[j].description@ == " "@ + cmd.spec_description()
                        &&& rows[j].selected == self.spec_row_selected(j)
                    },
            decreases commands.len() - i,
        {
            let cmd = commands[i];
            let mut description = " ".to_owned();
            description.append(cmd.description());
            rows.push(MenuRow { name: pad_right(cmd.name(), 12), description, selected: i == self.selected });
            i += 1;
        }
        rows
    }
}

} // verus!
