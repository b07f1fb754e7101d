//! The command palette: which commands a typed filter selects, and which
//! command a typed name stands for.

use crate::text::{chars_of, contains, is_substring, lowercase_of, same_text};
use crate::types::Command;
use vstd::prelude::*;

verus! {

/// Whether a lowercased filter selects a command with the given lowercased
/// name and description: the empty filter and the bare slash select every
/// command, any other filter those that hold it in name or description.
pub open spec fn needle_selects(
    needle: Seq<char>,
    name: Seq<char>,
    description: Seq<char>,
) -> bool {
    ||| needle.len() == 0
    ||| (needle.len() == 1 && needle[0] == '/')
    ||| is_substring(needle, name)
    ||| is_substring(needle, description)
}

/// Whether a lowercased filter selects a command with the given lowercased
/// name and description.
pub fn selects(needle: &Vec<char>, name: &Vec<char>, description: &Vec<char>) -> (r: bool)
    ensures
        r == needle_selects(needle@, name@, description@),
{
    needle.len() == 0 || (needle.len() == 1 && needle[0] == '/') || contains(name, needle)
        || contains(description, needle)
}

/// Whether `filter` selects `cmd`, letter case set aside.
pub open spec fn command_matches(cmd: Command, filter: Seq<char>) -> bool {
    needle_selects(
        lowercase_of(filter),
        lowercase_of(cmd.spec_name()),
        lowercase_of(cmd.spec_description()),
    )
}

/// The commands that `filter` selects, in registry order.
pub open spec fn matching_commands(filter: Seq<char>) -> Seq<Command> {
    Command::spec_all().filter(|cmd: Command| command_matches(cmd, filter))
}

/// The commands that `filter` selects, in registry order.
pub fn filter_commands(filter: &str) -> (matching: Vec<Command>)
    ensures
        matching@ == matching_commands(filter@),
{
    let needle = chars_of(filter.to_lowercase().as_str());
    let all = Command::all();
    let ghost pred = |cmd: Command| command_matches(cmd, filter@);
    let mut matching: Vec<Command> = Vec::new();
    let mut i: usize = 0;
    proof {
        reveal(Seq::filter);
        assert(all@.take(0).filter(pred) =~= Seq::<Command>::empty());
    }
    while i < all.len()
        invariant
            i <= all.len(),
            all@ == Command::spec_all(),
            needle@ == lowercase_of(filter@),
            pred == (|cmd: Command| command_matches(cmd, filter@)),
            matching@ == all@.take(i as int).filter(pred),
        decreases all.len() - i,
    {
        let cmd = all[i];
        let name = chars_of(cmd.name().to_lowercase().as_str());
        let description = chars_of(cmd.description().to_lowercase().as_str());
        let hit = selects(&needle, &name, &description);
        proof {
            reveal(Seq::filter);
            let next = all@.take(i + 1);
            assert(next.drop_last() =~= all@.take(i as int));
            assert(next.last() == cmd);
            assert(hit == pred(cmd));
        }
        if hit {
            matching.push(cmd);
        }
        i += 1;
    }
    assert(all@.take(all.len() as int) =~= all@);
    matching
}

/// The first of `commands` whose name is exactly `text`.
pub open spec fn find_named(commands: Seq<Command>, text: Seq<char>) -> Option<Command>
    decreases commands.len(),
{
    if commands.len() == 0 {
        None
    } else if commands[0].spec_name() == text {
        Some(commands[0])
    } else {
        find_named(commands.drop_first(), text)
    }
}

/// The command whose name is exactly `text`, letter case included.
pub open spec fn command_named(text: Seq<char>) -> Option<Command> {
    find_named(Command::spec_all(), text)
}

/// The command whose name is exactly `text`, if there is one.
pub fn lookup_command(text: &Vec<char>) -> (found: Option<Command>)
    ensures
        found == command_named(text@),
{
    let all = Command::all();
    let mut i: usize = 0;
    assert(all@.skip(0) =~= all@);
    while i < all.len()
        invariant
            i <= all.len(),
            all@ == Command::spec_all(),
            command_named(text@) == find_named(all@.skip(i as int), text@),
        decreases all.len() - i,
    {
        let cmd = all[i];
        let name = chars_of(cmd.name());
        proof {
            assert(all@.skip(i as int)[0] == cmd);
            assert(all@.skip(i as int).drop_first() =~= all@.skip(i + 1));
        }
        if same_text(&name, text) {
            return Some(cmd);
        }
        i += 1;
    }
    None
}

/// Whatever the filter, the selected commands are commands of the registry,
/// each selected by the filter, and no more than the registry holds.
pub proof fn lemma_matching_commands(filter: Seq<char>)
    ensures
        matching_commands(filter).len() <= Command::spec_all().len() == 5,
        forall|i: int|
            0 <= i < matching_commands(filter).len() ==> command_matches(
                #[trigger] matching_commands(filter)[i],
                filter,
            ),
        forall|cmd: Command|
            command_matches(cmd, filter) ==> #[trigger] matching_commands(filter).contains(cmd),
{
    let pred = |cmd: Command| command_matches(cmd, filter);
    let all = Command::spec_all();
    all.lemma_filter_len(pred);
    assert forall|i: int| 0 <= i < matching_commands(filter).len() implies command_matches(
        #[trigger] matching_commands(filter)[i],
        filter,
    ) by {
        all.lemma_filter_pred(pred, i);
    }
    assert forall|cmd: Command| command_matches(cmd, filter) implies #[trigger] matching_commands(
        filter,
    ).contains(cmd) by {
        cmd.lemma_registry();
        let k = choose|k: int| 0 <= k < all.len() && all[k] == cmd;
        all.lemma_filter_contains(pred, k);
    }
}

/// The empty filter and the bare slash select the whole registry.
pub proof fn lemma_open_filter_selects_all(filter: Seq<char>)
    requires
        lowercase_of(filter).len() == 0 || lowercase_of(filter) == seq!['/'],
    ensures
        matching_commands(filter) == Command::spec_all(),
{
    let pred = |cmd: Command| command_matches(cmd, filter);
    let all = Command::spec_all();
    reveal_with_fuel(Seq::filter, 6);
    assert(pred(Command::Settings) && pred(Command::Provider) && pred(Command::Clear));
    assert(pred(Command::Default) && pred(Command::Exit));
    let a4 = all.drop_last();
    let a3 = a4.drop_last();
    let a2 = a3.drop_last();
    let a1 = a2.drop_last();
    assert(all.last() == Command::Exit);
    assert(a4.last() == Command::Default);
    assert(a3.last() == Command::Clear);
    assert(a2.last() == Command::Provider);
    assert(a1.last() == Command::Settings);
    assert(all.filter(pred) =~= all);
}

/// Every command is found by its own name.
pub proof fn lemma_command_named(cmd: Command)
    ensures
        command_named(cmd.spec_name()) == Some(cmd),
{
    reveal_strlit("/settings");
    reveal_strlit("/clear");
    reveal_strlit("/exit");
    reveal_strlit("/provider");
    reveal_strlit("/default");
    let all = Command::spec_all();
    let text = cmd.spec_name();
    reveal_with_fuel(find_named, 6);
    assert(Command::Settings.spec_name()[1] == 's');
    assert(Command::Provider.spec_name()[1] == 'p');
    assert(Command::Clear.spec_name()[1] == 'c');
    assert(Command::Default.spec_name()[1] == 'd');
    assert(Command::Exit.spec_name()[1] == 'e');
    let s1 = all.drop_first();
    let s2 = s1.drop_first();
    let s3 = s2.drop_first();
    let s4 = s3.drop_first();
    assert(all[0] == Command::Settings);
    assert(s1[0] == Command::Provider);
    assert(s2[0] == Command::Clear);
    assert(s3[0] == Command::Default);
    assert(s4[0] == Command::Exit);
}

} // verus!
