use mahoraga::buffer::{EditOp, TextBuffer};
use mahoraga::palette::{filter_commands, lookup_command, selects};
use mahoraga::text::{begins_with_slash, chars_of, contains, same_text, string_of};
use mahoraga::types::Command;
use mahoraga::words::{analyzing_synonyms, pick_status_word, pick_word, word_or_fallback};

fn cs(s: &str) -> Vec<char> {
    s.chars().collect()
}

#[test]
fn chars_and_strings_convert_both_ways() {
    assert_eq!(chars_of("héllo"), vec!['h', 'é', 'l', 'l', 'o']);
    assert_eq!(chars_of(""), Vec::<char>::new());
    assert_eq!(string_of(&vec!['a', 'ß', 'c']), "aßc");
    assert_eq!(string_of(&chars_of("round trip")), "round trip");
}

#[test]
fn slash_prefix() {
    assert!(begins_with_slash(&cs("/x")));
    assert!(begins_with_slash(&cs("/")));
    assert!(!begins_with_slash(&cs("")));
    assert!(!begins_with_slash(&cs("x/")));
}

#[test]
fn substring_search() {
    assert!(contains(&cs("hello"), &cs("")));
    assert!(contains(&cs(""), &cs("")));
    assert!(!contains(&cs(""), &cs("a")));
    assert!(contains(&cs("hello"), &cs("hello")));
    assert!(contains(&cs("hello"), &cs("he")));
    assert!(contains(&cs("hello"), &cs("lo")));
    assert!(contains(&cs("hello"), &cs("ll")));
    assert!(!contains(&cs("hello"), &cs("lol")));
    assert!(!contains(&cs("hello"), &cs("hello!")));
    assert!(contains(&cs("aab"), &cs("ab")));
}

#[test]
fn needle_selection() {
    assert!(selects(&cs(""), &cs("/exit"), &cs("exit the application")));
    assert!(selects(&cs("/"), &cs("exit"), &cs("nothing")));
    assert!(selects(&cs("/ex"), &cs("/exit"), &cs("exit the application")));
    assert!(selects(&cs("app"), &cs("/exit"), &cs("exit the application")));
    assert!(!selects(&cs("/q"), &cs("/exit"), &cs("exit the application")));
    assert!(!selects(&cs("EX"), &cs("/exit"), &cs("exit the application")));
}

#[test]
fn command_filter() {
    assert_eq!(filter_commands(""), Command::all().to_vec());
    assert_eq!(filter_commands("/"), Command::all().to_vec());
    assert_eq!(filter_commands("/set"), vec![Command::Settings]);
    assert_eq!(filter_commands("/SETTI"), vec![Command::Settings]);
    assert_eq!(filter_commands("/e"), vec![Command::Exit]);
    assert_eq!(filter_commands("/p"), vec![Command::Provider]);
    assert_eq!(filter_commands("set"), vec![Command::Settings, Command::Default]);
    assert_eq!(filter_commands("API"), vec![Command::Settings]);
    assert_eq!(filter_commands("e"), Command::all().to_vec());
    assert_eq!(filter_commands("current"), vec![Command::Clear]);
    assert_eq!(filter_commands("/zzz"), Vec::<Command>::new());
}

#[test]
fn command_lookup() {
    for c in Command::all() {
        assert_eq!(lookup_command(&cs(c.name())), Some(*c));
    }
    assert_eq!(lookup_command(&cs("/set")), None);
    assert_eq!(lookup_command(&cs("/Settings")), None);
    assert_eq!(lookup_command(&cs("")), None);
    assert!(same_text(&cs("ab"), &cs("ab")));
    assert!(!same_text(&cs("ab"), &cs("ac")));
    assert!(!same_text(&cs("ab"), &cs("abc")));
}

#[test]
fn status_words() {
    let words = analyzing_synonyms();
    assert_eq!(
        words,
        &[
            "Scrutinizing",
            "Dissecting",
            "Examining",
            "Evaluating",
            "Deconstructing",
            "Appraising",
            "Assessing",
            "Investigating",
            "Elucidating",
            "Interrogating",
        ]
    );
    for _ in 0..50 {
        let word = pick_status_word();
        assert!(words.contains(&word.as_str()));
    }
    assert_eq!(pick_word(&[]), "Analyzing");
    assert_eq!(pick_word(&["Only"]), "Only");
    assert_eq!(word_or_fallback(None), "Analyzing");
    assert_eq!(word_or_fallback(Some("Examining")), "Examining");
}

#[test]
fn buffer_editing() {
    let mut b = TextBuffer::new();
    assert!(b.is_empty());
    assert_eq!(b.cursor(), 0);
    assert!(!b.backspace());
    assert!(!b.delete());
    b.insert('a');
    b.insert('c');
    b.move_left();
    b.insert('b');
    assert_eq!(b.text(), "abc");
    assert_eq!(b.cursor(), 2);
    assert_eq!(b.len(), 3);
    assert_eq!(b.chars(), &vec!['a', 'b', 'c']);
    assert!(b.delete());
    assert_eq!(b.text(), "ab");
    assert!(!b.delete());
    assert!(b.backspace());
    assert_eq!(b.text(), "a");
    assert_eq!(b.cursor(), 1);
    b.move_right();
    assert_eq!(b.cursor(), 1);
    b.move_home();
    assert_eq!(b.cursor(), 0);
    b.move_left();
    assert_eq!(b.cursor(), 0);
    b.move_end();
    assert_eq!(b.cursor(), 1);
    b.set_text("/go");
    assert!(b.starts_with_slash());
    assert_eq!(b.cursor(), 3);
    let copy = b.clone();
    b.clear();
    assert_eq!(b.text(), "");
    assert_eq!(b.cursor(), 0);
    assert_eq!(copy.text(), "/go");
    assert_eq!(copy.cursor(), 3);
}

#[test]
fn buffer_line_start_and_kill() {
    let mut b = TextBuffer::from_str("ab\ncd\nef");
    assert_eq!(b.cursor(), 8);
    assert_eq!(b.line_start(), 6);
    b.move_left();
    b.kill_to_line_start();
    assert_eq!(b.text(), "ab\ncd\nf");
    assert_eq!(b.cursor(), 6);
    b.kill_to_line_start();
    assert_eq!(b.text(), "ab\ncd\nf");
    b.move_left();
    assert_eq!(b.line_start(), 3);
    b.kill_to_line_start();
    assert_eq!(b.text(), "ab\n\nf");
    assert_eq!(b.cursor(), 3);
    let mut one = TextBuffer::from_str("single");
    assert_eq!(one.line_start(), 0);
    one.kill_to_line_start();
    assert_eq!(one.text(), "");
}

#[test]
fn buffer_ops_keep_cursor_in_range() {
    let ops = [
        EditOp::Delete,
        EditOp::Backspace,
        EditOp::Insert('x'),
        EditOp::Insert('\n'),
        EditOp::Insert('y'),
        EditOp::Right,
        EditOp::Left,
        EditOp::Left,
        EditOp::Left,
        EditOp::Left,
        EditOp::Delete,
        EditOp::End,
        EditOp::KillToLineStart,
        EditOp::Backspace,
        EditOp::Backspace,
        EditOp::Home,
        EditOp::Insert('z'),
        EditOp::Clear,
        EditOp::Insert('q'),
    ];
    let mut b = TextBuffer::new();
    for op in ops {
        b.apply(op);
        assert!(b.cursor() <= b.len());
    }
    assert_eq!(b.text(), "q");
    assert_eq!(b.cursor(), 1);
}
