use mahoraga::types::{AnalysisResult, AppState, Command, Config, ProviderType, SettingsField};
use mahoraga::ui::layout::{centered_rect, clamp_u16, max_u16, min_u16, Rect};
use mahoraga::ui::main_screen::{Row, RowKind};
use mahoraga::ui::settings_screen::{mask_of, FieldRow};
use mahoraga::ui::theme::{score_color, score_label, Color, ScoreBand};
use mahoraga::ui::widgets::command_menu::pad_right;
use mahoraga::ui::widgets::feedback::rows_of;
use mahoraga::ui::widgets::prompt_input::{PromptBody, PromptLine};
use mahoraga::ui::widgets::{CommandMenu, Feedback, Header, PromptInput, ScoreDisplay};
use mahoraga::ui::{MainScreen, SettingsScreen};

fn strings(items: &[&str]) -> Vec<String> {
    items.iter().map(|s| s.to_string()).collect()
}

fn row(kind: RowKind, height: u16) -> Row {
    Row { kind, height }
}

#[test]
fn score_bands() {
    for (score, label, color) in [
        (0u8, "Very Poor", Color::Error),
        (29, "Very Poor", Color::Error),
        (30, "Poor", Color::Orange),
        (49, "Poor", Color::Orange),
        (50, "Fair", Color::Warning),
        (69, "Fair", Color::Warning),
        (70, "Good", Color::Success),
        (89, "Good", Color::Success),
        (90, "Excellent", Color::Success),
        (100, "Excellent", Color::Success),
        (101, "Very Poor", Color::Error),
        (255, "Very Poor", Color::Error),
    ] {
        assert_eq!(score_label(score), label, "{}", score);
        assert_eq!(score_color(score), color, "{}", score);
    }
    assert_eq!(ScoreBand::of(72), ScoreBand::Good);
}

#[test]
fn palette_colors() {
    assert_eq!(Color::Primary.rgb(), (212, 175, 55));
    assert_eq!(Color::Secondary.rgb(), (176, 176, 176));
    assert_eq!(Color::Muted.rgb(), (102, 102, 102));
    assert_eq!(Color::Success.rgb(), (34, 197, 94));
    assert_eq!(Color::Error.rgb(), (239, 68, 68));
    assert_eq!(Color::Warning.rgb(), (234, 179, 8));
    assert_eq!(Color::Orange.rgb(), (249, 115, 22));
    assert_eq!(Color::Background.rgb(), (17, 17, 17));
    assert_eq!(Color::Surface.rgb(), (30, 30, 30));
    assert_eq!(Color::Border.rgb(), (64, 64, 64));
}

#[test]
fn rect_arithmetic() {
    let outer = Rect::new(2, 3, 80, 24);
    assert_eq!(centered_rect(60, 13, outer), Rect::new(12, 8, 60, 13));
    assert_eq!(centered_rect(100, 30, outer), Rect::new(2, 3, 80, 24));
    assert_eq!(centered_rect(79, 23, outer), Rect::new(2, 3, 79, 23));
    assert_eq!(Rect::new(1, 1, 10, 5).inset(1, 1), Rect::new(2, 2, 8, 3));
    assert_eq!(Rect::new(1, 1, 1, 1).inset(1, 1), Rect::new(2, 2, 0, 0));
    assert_eq!(Rect::new(65535, 0, 4, 4).inset(1, 0), Rect::new(65535, 0, 2, 4));
    assert_eq!(Rect::new(0, 0, 100, 4).narrowed(60), Rect::new(0, 0, 60, 4));
    assert_eq!(Rect::new(0, 0, 40, 4).narrowed(60), Rect::new(0, 0, 40, 4));
    assert_eq!(min_u16(3, 9), 3);
    assert_eq!(max_u16(3, 9), 9);
    assert_eq!(clamp_u16(70000), 65535);
    assert_eq!(clamp_u16(12), 12);
}

#[test]
fn header_heights_and_lines() {
    assert_eq!(Header::height(true), 5);
    assert_eq!(Header::height(false), 1);
    let logo = Header::new(true);
    assert!(logo.show_logo());
    let lines = logo.lines("0.3.1");
    assert_eq!(lines.len(), 5);
    assert_eq!(lines[4], " v0.3.1");
    assert!(lines[0].starts_with(" ██   ██  ██████"));
    assert_eq!(lines[0].chars().count(), lines[3].chars().count());
    assert_eq!(Header::new(false).lines("0.3.1"), vec!["MAHORAGA v0.3.1".to_string()]);
}

#[test]
fn score_bar() {
    let display = ScoreDisplay::new(72);
    assert_eq!(display.score(), 72);
    assert_eq!(display.label(), "Good");
    assert_eq!(display.color(), Color::Success);
    assert_eq!(display.bar(58), (41, 17));
    assert_eq!(display.bar(0), (0, 0));
    assert_eq!(ScoreDisplay::new(100).bar(58), (58, 0));
    assert_eq!(ScoreDisplay::new(0).bar(58), (0, 58));
    assert_eq!(ScoreDisplay::new(200).bar(10), (20, 0));
    assert_eq!(ScoreDisplay::height(), 4);
}

#[test]
fn command_menu_rows_and_height() {
    let menu = CommandMenu::new(1, "/".to_string());
    assert_eq!(menu.selected(), 1);
    assert_eq!(menu.filter(), "/");
    assert_eq!(menu.filtered_commands(), Command::all().to_vec());
    assert_eq!(menu.height(), 7);
    let rows = menu.rows();
    assert_eq!(rows.len(), 5);
    assert_eq!(rows[0].name, "/settings   ");
    assert_eq!(rows[0].description, " Configure API settings");
    assert!(!rows[0].selected);
    assert!(rows[1].selected);
    assert_eq!(rows[1].name, "/provider   ");
    let narrow = CommandMenu::new(0, "/set".to_string());
    assert_eq!(narrow.filtered_commands(), vec![Command::Settings]);
    assert_eq!(narrow.height(), 3);
    let none = CommandMenu::new(0, "/zzz".to_string());
    assert!(none.filtered_commands().is_empty());
    assert_eq!(none.height(), 3);
    assert!(none.rows().is_empty());
    let all = CommandMenu::new(0, String::new());
    assert_eq!(all.height(), 7);
    assert_eq!(pad_right("ab", 4), "ab  ");
    assert_eq!(pad_right("abcdef", 4), "abcdef");
    assert_eq!(pad_right("é", 3), "é  ");
    assert_eq!(pad_right("/settings", 12), format!("{:<12}", "/settings"));
}

#[test]
fn feedback_heights() {
    let none: Vec<String> = Vec::new();
    assert_eq!(Feedback::new(&none, &none).calculate_height(60), 4);
    let one = strings(&["add a deadline"]);
    assert_eq!(Feedback::calculate_section_height(&none, 60), 0);
    assert_eq!(Feedback::calculate_section_height(&one, 60), 5);
    assert_eq!(Feedback::new(&one, &none).calculate_height(60), 5);
    assert_eq!(Feedback::new(&none, &one).calculate_height(60), 5);
    assert_eq!(Feedback::new(&one, &one).calculate_height(60), 10);
    let long = strings(&[&"x".repeat(52), &"y".repeat(53), "", &"z".repeat(104), &"w".repeat(105)]);
    assert_eq!(Feedback::calculate_section_height(&long, 60), 1 + 2 + 1 + 2 + 3 + 4);
    assert_eq!(Feedback::calculate_section_height(&long, 8), 5 + 4);
    assert_eq!(Feedback::calculate_section_height(&long, 0), 5 + 4);
    assert_eq!(Feedback::calculate_section_height(&long, 9), 52 + 53 + 1 + 104 + 105 + 4);
    let bytes = strings(&["éé"]);
    assert_eq!(Feedback::calculate_section_height(&bytes, 10), 2 + 4);
    assert_eq!(rows_of(0, 10), 1);
    assert_eq!(rows_of(10, 10), 1);
    assert_eq!(rows_of(11, 10), 2);
    assert_eq!(rows_of(5, 0), 1);
    assert_eq!(rows_of(70000, 1), 65535);
    let many: Vec<String> = vec!["a".repeat(70000)];
    assert_eq!(Feedback::calculate_section_height(&many, 9), 65535);
    let feedback = Feedback::new(&one, &none);
    assert_eq!(feedback.improvements(), &one[..]);
    assert!(feedback.unclear_parts().is_empty());
    assert_eq!(Feedback::with_padding(Rect::new(1, 1, 58, 5)), Rect::new(2, 2, 56, 3));
}

fn plain(line: &PromptLine) -> Option<&str> {
    match line {
        PromptLine::Plain(text) => Some(text.as_str()),
        _ => None,
    }
}

fn cursor(line: &PromptLine) -> Option<(&str, &str, &str)> {
    match line {
        PromptLine::Cursor { before, at, after } => {
            Some((before.as_str(), at.as_str(), after.as_str()))
        }
        _ => None,
    }
}

fn lines(body: PromptBody) -> Vec<PromptLine> {
    match body {
        PromptBody::Lines(lines) => lines,
        _ => panic!("the prompt is not empty"),
    }
}

#[test]
fn prompt_input_placeholders() {
    assert!(matches!(PromptInput::new("", 0).body(), PromptBody::CursorPlaceholder));
    assert!(matches!(PromptInput::new("", 0).focused(false).body(), PromptBody::Placeholder));
    assert!(matches!(PromptInput::new("", 0).analyzing(true).body(), PromptBody::Placeholder));
    assert_eq!(PromptInput::hint(), "Enter your prompt (Enter to analyze)");
    assert!(PromptInput::invitation().starts_with("With this treasure, I summon"));
    assert_eq!(PromptInput::new("", 0).title(), "");
    assert_eq!(PromptInput::new("", 0).analyzing(true).title(), " Analyzing... ");
    assert_eq!(PromptInput::new("", 0).border_color(), Color::Primary);
    assert_eq!(PromptInput::new("", 0).focused(false).border_color(), Color::Border);
}

#[test]
fn prompt_input_marks_the_cursor() {
    let shown = lines(PromptInput::new("ab\ncde\n", 4).body());
    assert_eq!(shown.len(), 3);
    assert_eq!(plain(&shown[0]), Some("ab"));
    assert_eq!(cursor(&shown[1]), Some(("c", "d", "e")));
    assert_eq!(plain(&shown[2]), Some(""));
    let shown = lines(PromptInput::new("ab\ncde\n", 2).body());
    assert_eq!(cursor(&shown[0]), Some(("ab", " ", "")));
    assert_eq!(plain(&shown[1]), Some("cde"));
    let shown = lines(PromptInput::new("ab\ncde\n", 3).body());
    assert_eq!(plain(&shown[0]), Some("ab"));
    assert_eq!(cursor(&shown[1]), Some(("", "c", "de")));
    let shown = lines(PromptInput::new("ab\ncde\n", 7).body());
    assert_eq!(cursor(&shown[2]), Some(("", " ", "")));
    let shown = lines(PromptInput::new("ab\ncde\n", 0).body());
    assert_eq!(cursor(&shown[0]), Some(("", "a", "b")));
    let shown = lines(PromptInput::new("ab", 9).body());
    assert_eq!(plain(&shown[0]), Some("ab"));
    let shown = lines(PromptInput::new("héé", 2).body());
    assert_eq!(cursor(&shown[0]), Some(("hé", "é", "")));
    let shown = lines(PromptInput::new("ab\ncd", 1).focused(false).body());
    assert_eq!(plain(&shown[0]), Some("ab"));
    assert_eq!(plain(&shown[1]), Some("cd"));
    let shown = lines(PromptInput::new("ab", 1).analyzing(true).body());
    assert_eq!(plain(&shown[0]), Some("ab"));
}

#[test]
fn main_screen_rows() {
    let screen = MainScreen::new("hello", 5);
    assert_eq!(
        screen.rows(80, 24),
        vec![row(RowKind::Header, 5), row(RowKind::Provider, 2), row(RowKind::Prompt, 3)]
    );
    assert_eq!(
        screen.rows(80, 21),
        vec![row(RowKind::Header, 1), row(RowKind::Provider, 2), row(RowKind::Prompt, 3)]
    );
    assert!(MainScreen::shows_logo(22));
    assert!(!MainScreen::shows_logo(21));
    assert!(MainScreen::header(30).show_logo());
    let result = AnalysisResult {
        score: 72,
        improvements: strings(&["add a deadline"]),
        unclear_parts: vec![],
    };
    let screen = MainScreen::new("a\nb\nc", 0)
        .state(AppState::Analyzing)
        .result(Some(&result))
        .error(Some("boom"))
        .provider(ProviderType::Anthropic)
        .analyzing_animation("Examining", 2)
        .command_menu(1, "/".to_string());
    assert_eq!(
        screen.rows(80, 40),
        vec![
            row(RowKind::Header, 5),
            row(RowKind::Provider, 2),
            row(RowKind::Analyzing, 1),
            row(RowKind::Score, 4),
            row(RowKind::Feedback, 5),
            row(RowKind::Prompt, 5),
            row(RowKind::Error, 1),
        ]
    );
    assert_eq!(screen.prompt_height(), 5);
    assert_eq!(screen.analyzing_text(), "Examining...");
    assert_eq!(screen.provider_name(), "Anthropic");
    assert!(!screen.shows_command_menu());
    assert_eq!(screen.shown_error(), Some("boom"));
    assert_eq!(screen.shown_result().map(|r| r.score), Some(72));
    assert_eq!(screen.menu().selected(), 1);
    assert_eq!(screen.menu().filter(), "/");
    assert_eq!(MainScreen::new("", 0).analyzing_animation("X", 0).analyzing_text(), "X.");
    assert_eq!(MainScreen::new("", 0).analyzing_animation("X", 1).analyzing_text(), "X..");
    let menu = MainScreen::new("/", 1).state(AppState::CommandMenu);
    assert!(menu.shows_command_menu());
    assert!(matches!(menu.prompt_input().focused(true).body(), PromptBody::Lines(_)));
    assert_eq!(menu.prompt_input().border_color(), Color::Border);
    assert_eq!(MainScreen::new("x", 1).prompt_input().border_color(), Color::Primary);
}

#[test]
fn main_screen_areas() {
    let area = Rect::new(0, 0, 80, 24);
    let prompt_box = Rect::new(1, 8, 78, 3);
    assert_eq!(MainScreen::menu_area(prompt_box, area, 7), Rect::new(2, 11, 50, 7));
    let low = Rect::new(1, 20, 78, 3);
    assert_eq!(MainScreen::menu_area(low, area, 7), Rect::new(2, 16, 50, 7));
    let tiny = Rect::new(0, 0, 30, 5);
    assert_eq!(MainScreen::menu_area(prompt_box, tiny, 7), Rect::new(2, 0, 26, 7));
    assert_eq!(MainScreen::panel_area(Rect::new(1, 1, 78, 4)), Rect::new(1, 1, 60, 4));
    assert_eq!(MainScreen::panel_area(Rect::new(1, 1, 40, 4)), Rect::new(1, 1, 40, 4));
}

#[test]
fn settings_screen_values_are_masked() {
    let mut config = Config::default();
    config.azure.url = "https://x".to_string();
    config.azure.api_key = "secret".to_string();
    config.openai.api_key = "k".repeat(30);
    let screen = SettingsScreen::new(&config);
    assert_eq!(screen.get_field_value(&SettingsField::Provider), "Azure OpenAI");
    assert_eq!(screen.get_field_value(&SettingsField::AzureUrl), "https://x");
    assert_eq!(screen.get_field_value(&SettingsField::AzureApiKey), "••••••");
    assert_eq!(screen.get_field_value(&SettingsField::OpenAIApiKey), "•".repeat(20));
    assert_eq!(screen.get_field_value(&SettingsField::AnthropicApiKey), "");
    assert_eq!(screen.get_field_value(&SettingsField::AzureDeployment), "");
    assert_eq!(screen.get_field_value(&SettingsField::Save), "");
    assert_eq!(screen.get_field_value(&SettingsField::Cancel), "");
    assert_eq!(mask_of(3), "•••");
    assert_eq!(mask_of(0), "");
    assert_eq!(SettingsScreen::empty_notice(), "(empty)");
}

#[test]
fn settings_screen_rows() {
    let mut config = Config::default();
    config.azure.url = "https://x".to_string();
    config.azure.api_key = "secret".to_string();
    let rows = SettingsScreen::new(&config).selected(1).rows();
    assert_eq!(rows.len(), 7);
    match &rows[0] {
        FieldRow::Selector { label, value, hint, selected } => {
            assert_eq!(label, "Provider: ");
            assert_eq!(value, "Azure OpenAI");
            assert_eq!(hint, "");
            assert!(!selected);
        }
        _ => panic!("the first row selects the backend"),
    }
    match &rows[1] {
        FieldRow::Text { label, value, hint, selected, editing } => {
            assert_eq!(label, "Azure URL: ");
            assert_eq!(value, "https://x");
            assert_eq!(hint, " (Enter to edit)");
            assert!(selected);
            assert!(!editing);
        }
        _ => panic!("the second row is a text field"),
    }
    match &rows[2] {
        FieldRow::Text { label, value, hint, selected, .. } => {
            assert_eq!(label, "API Key: ");
            assert_eq!(value, "••••••");
            assert_eq!(hint, "");
            assert!(!selected);
        }
        _ => panic!("the third row is a text field"),
    }
    match &rows[5] {
        FieldRow::Button { text, selected } => {
            assert_eq!(text, "[ Save ]");
            assert!(!selected);
        }
        _ => panic!("the sixth row is a button"),
    }
    match &rows[6] {
        FieldRow::Button { text, .. } => assert_eq!(text, "[ Cancel ]"),
        _ => panic!("the last row is a button"),
    }
    let rows = SettingsScreen::new(&config).selected(2).editing(true, "abé", 3).rows();
    match &rows[2] {
        FieldRow::Text { value, hint, selected, editing, .. } => {
            assert_eq!(value, "••••");
            assert_eq!(hint, "");
            assert!(selected);
            assert!(editing);
        }
        _ => panic!("the third row is a text field"),
    }
    match &rows[1] {
        FieldRow::Text { value, editing, .. } => {
            assert_eq!(value, "https://x");
            assert!(!editing);
        }
        _ => panic!("the second row is a text field"),
    }
    let rows = SettingsScreen::new(&config).selected(1).editing(true, "typed", 5).rows();
    match &rows[1] {
        FieldRow::Text { value, .. } => assert_eq!(value, "typed"),
        _ => panic!("the second row is a text field"),
    }
    let rows = SettingsScreen::new(&config).rows();
    match &rows[0] {
        FieldRow::Selector { hint, selected, .. } => {
            assert_eq!(hint, " (← →)");
            assert!(selected);
        }
        _ => panic!("the first row selects the backend"),
    }
}

#[test]
fn settings_screen_status_and_popup() {
    let mut config = Config::default();
    let screen = SettingsScreen::new(&config);
    let status = screen.status();
    assert_eq!(status.text, "↑↓ Navigate | Enter to edit | Tab to next | Esc to close");
    assert_eq!(status.color, Color::Muted);
    let status = screen.editing(true, "", 0).status();
    assert_eq!(status.text, "Enter to save | Esc to cancel");
    assert_eq!(status.color, Color::Muted);
    let status = screen.message(Some("Settings saved!"), false).status();
    assert_eq!(status.text, "Settings saved!");
    assert_eq!(status.color, Color::Success);
    let status = screen.editing(true, "", 0).message(Some("Error: x"), true).status();
    assert_eq!(status.text, "Error: x");
    assert_eq!(status.color, Color::Error);
    let area = Rect::new(0, 0, 80, 24);
    assert_eq!(screen.popup_area(area), Rect::new(10, 4, 60, 16));
    assert_eq!(screen.popup_area(Rect::new(0, 0, 40, 10)), Rect::new(2, 0, 36, 10));
    config.provider.active = ProviderType::OpenAI;
    let screen = SettingsScreen::new(&config);
    assert_eq!(screen.popup_area(area), Rect::new(10, 6, 60, 12));
    assert_eq!(screen.rows().len(), 5);
}
