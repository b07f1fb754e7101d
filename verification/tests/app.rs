use mahoraga::app::App;
use mahoraga::input::{Action, Event, KeyCode, KeyEvent, PersistReason};
use mahoraga::types::{AnalysisResult, AppState, Command, Config, ProviderType, Screen, SettingsField};
use mahoraga::words::analyzing_synonyms;

fn fresh() -> App {
    App::new(Config::default())
}

fn press(app: &mut App, code: KeyCode) -> Action {
    app.handle_key(KeyEvent::plain(code))
}

fn type_text(app: &mut App, text: &str) {
    for c in text.chars() {
        let action = press(app, KeyCode::Char(c));
        assert!(matches!(action, Action::Nothing));
    }
}

fn stub_result() -> AnalysisResult {
    AnalysisResult {
        score: 72,
        improvements: vec!["add a deadline".to_string()],
        unclear_parts: vec![],
    }
}

#[test]
fn new_app_is_idle_on_main_screen() {
    let app = fresh();
    assert_eq!(app.screen(), Screen::Main);
    assert_eq!(app.state(), AppState::Idle);
    assert_eq!(app.prompt(), "");
    assert_eq!(app.cursor_position(), 0);
    assert!(app.result().is_none());
    assert!(app.error().is_none());
    assert!(!app.should_quit());
    assert_eq!(app.command_selected(), 0);
    assert_eq!(app.command_filter(), "");
    assert_eq!(app.settings_selected(), 0);
    assert!(!app.settings_editing());
    assert_eq!(app.analyzing_animation_frame(), 0);
    assert_eq!(app.animation_tick_counter(), 0);
    assert_eq!(app.config().provider.active, ProviderType::Azure);
}

#[test]
fn analysis_success_shows_result() {
    let mut app = fresh();
    type_text(&mut app, "improve my onboarding flow");
    assert_eq!(app.state(), AppState::Idle);
    let action = press(&mut app, KeyCode::Enter);
    match action {
        Action::Analyze(request) => {
            assert_eq!(request.prompt, "improve my onboarding flow");
            assert_eq!(request.config.provider.active, ProviderType::Azure);
        }
        _ => panic!("Enter on a prompt starts an analysis"),
    }
    assert_eq!(app.state(), AppState::Analyzing);
    assert!(app.result().is_none());
    assert!(analyzing_synonyms().contains(&app.analyzing_word().as_str()));
    let action = app.step(Event::AnalysisFinished(Ok(stub_result())));
    assert!(matches!(action, Action::Nothing));
    assert_eq!(app.state(), AppState::ShowingResults);
    let result = app.result().expect("the result is kept");
    assert_eq!(result.score, 72);
    assert_eq!(result.improvements, vec!["add a deadline".to_string()]);
    assert!(result.unclear_parts.is_empty());
    assert!(app.error().is_none());
    assert_eq!(app.prompt(), "improve my onboarding flow");
}

#[test]
fn analysis_failure_shows_error() {
    let mut app = fresh();
    type_text(&mut app, "improve my onboarding flow");
    let action = press(&mut app, KeyCode::Enter);
    assert!(matches!(action, Action::Analyze(_)));
    assert_eq!(app.state(), AppState::Analyzing);
    app.complete_analysis(Err("missing credential".to_string()));
    assert_eq!(app.state(), AppState::Idle);
    assert_eq!(app.error().as_deref(), Some("missing credential"));
    assert!(app.result().is_none());
}

#[test]
fn begin_analysis_takes_the_given_word() {
    let mut app = fresh();
    type_text(&mut app, "abc");
    app.complete_analysis(Ok(stub_result()));
    let request = app.begin_analysis("Examining".to_string());
    assert_eq!(request.prompt, "abc");
    assert_eq!(app.analyzing_word(), "Examining");
    assert_eq!(app.state(), AppState::Analyzing);
    assert!(app.result().is_none());
    assert!(app.error().is_none());
}

#[test]
fn typing_a_slash_opens_the_menu_with_all_commands() {
    let mut app = fresh();
    type_text(&mut app, "/");
    assert_eq!(app.state(), AppState::CommandMenu);
    assert_eq!(app.command_filter(), "/");
    assert_eq!(app.filtered_commands(), Command::all().to_vec());
    assert_eq!(app.command_selected(), 0);
}

#[test]
fn typing_set_then_enter_opens_settings() {
    let mut app = fresh();
    type_text(&mut app, "/set");
    assert_eq!(app.state(), AppState::CommandMenu);
    assert_eq!(app.prompt(), "/set");
    assert_eq!(app.filtered_commands(), vec![Command::Settings]);
    assert_eq!(app.command_selected(), 0);
    let action = press(&mut app, KeyCode::Enter);
    assert!(matches!(action, Action::Nothing));
    assert_eq!(app.screen(), Screen::Settings);
    assert_eq!(app.prompt(), "");
    assert_eq!(app.cursor_position(), 0);
    assert_eq!(app.state(), AppState::Idle);
    assert_eq!(app.command_filter(), "");
}

#[test]
fn enter_in_menu_runs_the_selected_command() {
    let mut app = fresh();
    type_text(&mut app, "/");
    press(&mut app, KeyCode::Down);
    press(&mut app, KeyCode::Down);
    type_text(&mut app, "x");
    assert_eq!(app.state(), AppState::Idle);
    press(&mut app, KeyCode::Backspace);
    press(&mut app, KeyCode::Down);
    press(&mut app, KeyCode::Down);
    press(&mut app, KeyCode::Down);
    press(&mut app, KeyCode::Down);
    assert_eq!(app.command_selected(), 4);
    let action = press(&mut app, KeyCode::Enter);
    assert!(matches!(action, Action::Nothing));
    assert!(app.should_quit());
    assert_eq!(app.prompt(), "");
    assert_eq!(app.state(), AppState::Idle);
    assert_eq!(app.command_filter(), "");
}

#[test]
fn filter_without_match_hides_the_menu() {
    let mut app = fresh();
    type_text(&mut app, "/e");
    assert_eq!(app.state(), AppState::CommandMenu);
    type_text(&mut app, "q");
    assert_eq!(app.state(), AppState::Idle);
    assert_eq!(app.command_filter(), "");
    assert_eq!(app.prompt(), "/eq");
    press(&mut app, KeyCode::Backspace);
    assert_eq!(app.state(), AppState::CommandMenu);
    assert_eq!(app.command_filter(), "/e");
    assert_eq!(app.filtered_commands(), vec![Command::Exit]);
}

#[test]
fn filter_ignores_letter_case_and_reads_descriptions() {
    let mut app = fresh();
    type_text(&mut app, "/");
    assert_eq!(app.state(), AppState::CommandMenu);
    press(&mut app, KeyCode::Backspace);
    assert_eq!(app.state(), AppState::Idle);
    let mut app = fresh();
    type_text(&mut app, "/SET");
    assert_eq!(app.state(), AppState::CommandMenu);
    assert_eq!(app.filtered_commands(), vec![Command::Settings]);
}

#[test]
fn menu_selection_stays_within_the_list() {
    let mut app = fresh();
    type_text(&mut app, "/");
    press(&mut app, KeyCode::Up);
    assert_eq!(app.command_selected(), 0);
    for expected in 1..5 {
        press(&mut app, KeyCode::Down);
        assert_eq!(app.command_selected(), expected);
    }
    press(&mut app, KeyCode::Down);
    assert_eq!(app.command_selected(), 4);
    press(&mut app, KeyCode::Up);
    assert_eq!(app.command_selected(), 3);
    type_text(&mut app, "e");
    assert_eq!(app.command_selected(), 0);
    assert!(app.command_selected() < app.filtered_commands().len());
}

#[test]
fn tab_completes_the_selected_command() {
    let mut app = fresh();
    type_text(&mut app, "/");
    press(&mut app, KeyCode::Down);
    press(&mut app, KeyCode::Tab);
    assert_eq!(app.prompt(), "/provider");
    assert_eq!(app.cursor_position(), 9);
    assert_eq!(app.state(), AppState::Idle);
    assert_eq!(app.command_filter(), "");
    let mut plain = fresh();
    type_text(&mut plain, "abc");
    press(&mut plain, KeyCode::Tab);
    assert_eq!(plain.prompt(), "abc");
}

#[test]
fn esc_closes_the_menu_and_keeps_the_prompt() {
    let mut app = fresh();
    type_text(&mut app, "/cl");
    press(&mut app, KeyCode::Esc);
    assert_eq!(app.state(), AppState::Idle);
    assert_eq!(app.command_filter(), "");
    assert_eq!(app.prompt(), "/cl");
}

#[test]
fn exact_command_name_runs_without_menu() {
    let mut app = fresh();
    type_text(&mut app, "/exit");
    press(&mut app, KeyCode::Esc);
    assert_eq!(app.state(), AppState::Idle);
    let action = press(&mut app, KeyCode::Enter);
    assert!(matches!(action, Action::Nothing));
    assert!(app.should_quit());
    assert_eq!(app.prompt(), "");
}

#[test]
fn unknown_command_name_does_nothing() {
    let mut app = fresh();
    type_text(&mut app, "/nothing");
    assert_eq!(app.state(), AppState::Idle);
    let action = press(&mut app, KeyCode::Enter);
    assert!(matches!(action, Action::Nothing));
    assert_eq!(app.state(), AppState::Idle);
    assert_eq!(app.prompt(), "/nothing");
    assert_eq!(app.screen(), Screen::Main);
}

#[test]
fn enter_on_empty_prompt_does_nothing() {
    let mut app = fresh();
    let action = press(&mut app, KeyCode::Enter);
    assert!(matches!(action, Action::Nothing));
    assert_eq!(app.state(), AppState::Idle);
}

#[test]
fn keys_are_ignored_while_analyzing_except_esc() {
    let mut app = fresh();
    type_text(&mut app, "abc");
    press(&mut app, KeyCode::Enter);
    press(&mut app, KeyCode::Char('x'));
    press(&mut app, KeyCode::Backspace);
    let action = press(&mut app, KeyCode::Enter);
    assert!(matches!(action, Action::Nothing));
    assert_eq!(app.prompt(), "abc");
    assert_eq!(app.state(), AppState::Analyzing);
    press(&mut app, KeyCode::Esc);
    assert_eq!(app.state(), AppState::Idle);
    app.complete_analysis(Ok(stub_result()));
    assert_eq!(app.state(), AppState::ShowingResults);
}

#[test]
fn esc_dismisses_results_and_keeps_them() {
    let mut app = fresh();
    type_text(&mut app, "abc");
    press(&mut app, KeyCode::Enter);
    app.complete_analysis(Ok(stub_result()));
    press(&mut app, KeyCode::Esc);
    assert_eq!(app.state(), AppState::Idle);
    assert_eq!(app.result().map(|r| r.score), Some(72));
}

#[test]
fn typing_clears_the_error() {
    let mut app = fresh();
    type_text(&mut app, "abc");
    press(&mut app, KeyCode::Enter);
    app.complete_analysis(Err("boom".to_string()));
    assert!(app.error().is_some());
    type_text(&mut app, "d");
    assert!(app.error().is_none());
    assert_eq!(app.prompt(), "abcd");
}

#[test]
fn cursor_moves_and_edits_within_the_prompt() {
    let mut app = fresh();
    press(&mut app, KeyCode::Backspace);
    press(&mut app, KeyCode::Delete);
    press(&mut app, KeyCode::Left);
    press(&mut app, KeyCode::Right);
    assert_eq!(app.cursor_position(), 0);
    type_text(&mut app, "hello");
    assert_eq!(app.cursor_position(), 5);
    press(&mut app, KeyCode::Right);
    assert_eq!(app.cursor_position(), 5);
    press(&mut app, KeyCode::Left);
    press(&mut app, KeyCode::Left);
    assert_eq!(app.cursor_position(), 3);
    type_text(&mut app, "X");
    assert_eq!(app.prompt(), "helXlo");
    assert_eq!(app.cursor_position(), 4);
    press(&mut app, KeyCode::Backspace);
    assert_eq!(app.prompt(), "hello");
    assert_eq!(app.cursor_position(), 3);
    press(&mut app, KeyCode::Delete);
    assert_eq!(app.prompt(), "helo");
    assert_eq!(app.cursor_position(), 3);
    press(&mut app, KeyCode::Home);
    assert_eq!(app.cursor_position(), 0);
    press(&mut app, KeyCode::Backspace);
    assert_eq!(app.prompt(), "helo");
    press(&mut app, KeyCode::End);
    assert_eq!(app.cursor_position(), 4);
    press(&mut app, KeyCode::Delete);
    assert_eq!(app.prompt(), "helo");
}

#[test]
fn cursor_counts_characters() {
    let mut app = fresh();
    type_text(&mut app, "héllo");
    assert_eq!(app.cursor_position(), 5);
    press(&mut app, KeyCode::Left);
    press(&mut app, KeyCode::Left);
    press(&mut app, KeyCode::Left);
    press(&mut app, KeyCode::Backspace);
    assert_eq!(app.prompt(), "hllo");
    assert_eq!(app.cursor_position(), 1);
}

#[test]
fn ctrl_u_deletes_back_to_the_line_start() {
    let mut app = fresh();
    type_text(&mut app, "one\ntwo three");
    press(&mut app, KeyCode::Left);
    press(&mut app, KeyCode::Left);
    app.handle_key(KeyEvent::with_ctrl(KeyCode::Char('u')));
    assert_eq!(app.prompt(), "one\nee");
    assert_eq!(app.cursor_position(), 4);
    app.handle_key(KeyEvent::with_ctrl(KeyCode::Char('u')));
    assert_eq!(app.prompt(), "one\nee");
    assert_eq!(app.cursor_position(), 4);
    press(&mut app, KeyCode::Left);
    app.handle_key(KeyEvent::with_ctrl(KeyCode::Char('u')));
    assert_eq!(app.prompt(), "\nee");
    assert_eq!(app.cursor_position(), 0);
    app.handle_key(KeyEvent::with_ctrl(KeyCode::Char('u')));
    assert_eq!(app.prompt(), "\nee");
}

#[test]
fn ctrl_with_another_letter_types_it() {
    let mut app = fresh();
    app.handle_key(KeyEvent::with_ctrl(KeyCode::Char('a')));
    assert_eq!(app.prompt(), "a");
}

#[test]
fn delete_decides_the_menu_anew() {
    let mut app = fresh();
    type_text(&mut app, "a/exit");
    assert_eq!(app.state(), AppState::Idle);
    press(&mut app, KeyCode::Home);
    press(&mut app, KeyCode::Delete);
    assert_eq!(app.prompt(), "/exit");
    assert_eq!(app.state(), AppState::CommandMenu);
    assert_eq!(app.filtered_commands(), vec![Command::Exit]);
    press(&mut app, KeyCode::Delete);
    assert_eq!(app.prompt(), "exit");
    assert_eq!(app.state(), AppState::Idle);
    assert_eq!(app.command_filter(), "");
}

#[test]
fn ctrl_c_quits_from_both_screens() {
    let mut app = fresh();
    app.handle_key(KeyEvent::with_ctrl(KeyCode::Char('c')));
    assert!(app.should_quit());
    assert_eq!(app.prompt(), "");
    let mut app = fresh();
    app.execute_command(Command::Settings);
    app.handle_key(KeyEvent::with_ctrl(KeyCode::Char('c')));
    assert!(app.should_quit());
    let mut app = fresh();
    app.handle_key(KeyEvent::plain(KeyCode::Char('c')));
    assert!(!app.should_quit());
    assert_eq!(app.prompt(), "c");
}

#[test]
fn clear_twice_is_clear_once() {
    let mut app = fresh();
    type_text(&mut app, "abc");
    press(&mut app, KeyCode::Enter);
    app.complete_analysis(Ok(stub_result()));
    app.execute_command(Command::Clear);
    let once = (
        app.prompt(),
        app.cursor_position(),
        app.result().is_none(),
        app.error().clone(),
        app.state(),
        app.screen(),
    );
    assert_eq!(once, (String::new(), 0, true, None, AppState::Idle, Screen::Main));
    app.execute_command(Command::Clear);
    let twice = (
        app.prompt(),
        app.cursor_position(),
        app.result().is_none(),
        app.error().clone(),
        app.state(),
        app.screen(),
    );
    assert_eq!(once, twice);
}

#[test]
fn provider_command_cycles_and_asks_to_save() {
    let mut app = fresh();
    type_text(&mut app, "/provider");
    let action = press(&mut app, KeyCode::Enter);
    match action {
        Action::Persist(config, reason) => {
            assert_eq!(config.provider.active, ProviderType::OpenAI);
            assert_eq!(reason, PersistReason::ProviderSwitch);
        }
        _ => panic!("the switch is written to disk"),
    }
    assert_eq!(app.config().provider.active, ProviderType::OpenAI);
    assert_eq!(app.prompt(), "");
    app.persisted(PersistReason::ProviderSwitch, Err("disk full".to_string()));
    assert_eq!(app.error().as_deref(), Some("Failed to save config: disk full"));
    assert_eq!(app.config().provider.active, ProviderType::OpenAI);
    let action = app.execute_command(Command::Provider);
    assert!(matches!(action, Action::Persist(_, PersistReason::ProviderSwitch)));
    app.persisted(PersistReason::ProviderSwitch, Ok(()));
    assert_eq!(app.config().provider.active, ProviderType::Anthropic);
    app.execute_command(Command::Provider);
    assert_eq!(app.config().provider.active, ProviderType::Azure);
}

#[test]
fn default_command_resets_only_after_a_good_write() {
    let mut config = Config::default();
    config.provider.active = ProviderType::Anthropic;
    config.openai.api_key = "key".to_string();
    let mut app = App::new(config);
    let action = app.execute_command(Command::Default);
    match action {
        Action::Persist(config, reason) => {
            assert_eq!(reason, PersistReason::Reset);
            assert_eq!(config.provider.active, ProviderType::Azure);
            assert_eq!(config.openai.api_key, "");
        }
        _ => panic!("the defaults are written to disk"),
    }
    assert_eq!(app.config().provider.active, ProviderType::Anthropic);
    app.persisted(PersistReason::Reset, Err("read-only".to_string()));
    assert_eq!(app.error().as_deref(), Some("Failed to reset config: read-only"));
    assert_eq!(app.config().provider.active, ProviderType::Anthropic);
    assert_eq!(app.config().openai.api_key, "key");
    app.persisted(PersistReason::Reset, Ok(()));
    assert!(app.error().is_none());
    assert_eq!(app.config().provider.active, ProviderType::Azure);
    assert_eq!(app.config().openai.api_key, "");
}

#[test]
fn animation_advances_every_fifth_tick_while_analyzing() {
    let mut app = fresh();
    app.tick();
    assert_eq!(app.animation_tick_counter(), 0);
    type_text(&mut app, "abc");
    press(&mut app, KeyCode::Enter);
    for expected in 1..5 {
        app.tick();
        assert_eq!(app.animation_tick_counter(), expected);
        assert_eq!(app.analyzing_animation_frame(), 0);
    }
    app.tick();
    assert_eq!(app.animation_tick_counter(), 0);
    assert_eq!(app.analyzing_animation_frame(), 1);
    for _ in 0..5 {
        app.step(Event::Tick);
    }
    assert_eq!(app.analyzing_animation_frame(), 2);
    for _ in 0..5 {
        app.step(Event::Tick);
    }
    assert_eq!(app.analyzing_animation_frame(), 0);
    press(&mut app, KeyCode::Esc);
    app.tick();
    assert_eq!(app.animation_tick_counter(), 0);
}

#[test]
fn settings_navigation_is_clamped() {
    let mut app = fresh();
    app.execute_command(Command::Settings);
    assert_eq!(app.screen(), Screen::Settings);
    press(&mut app, KeyCode::Up);
    assert_eq!(app.settings_selected(), 0);
    for expected in 1..7 {
        press(&mut app, KeyCode::Down);
        assert_eq!(app.settings_selected(), expected);
    }
    press(&mut app, KeyCode::Down);
    assert_eq!(app.settings_selected(), 6);
    press(&mut app, KeyCode::Tab);
    assert_eq!(app.settings_selected(), 6);
    press(&mut app, KeyCode::Up);
    assert_eq!(app.settings_selected(), 5);
}

#[test]
fn switching_backend_resets_the_selection_and_the_fields() {
    let mut app = fresh();
    app.execute_command(Command::Settings);
    press(&mut app, KeyCode::Right);
    assert_eq!(app.settings_config().provider.active, ProviderType::OpenAI);
    assert_eq!(app.settings_selected(), 0);
    assert_eq!(
        SettingsField::fields_for_provider(app.settings_config().provider.active),
        vec![
            SettingsField::Provider,
            SettingsField::OpenAIApiKey,
            SettingsField::OpenAIModel,
            SettingsField::Save,
            SettingsField::Cancel,
        ]
    );
    press(&mut app, KeyCode::Right);
    assert_eq!(app.settings_config().provider.active, ProviderType::Anthropic);
    assert_eq!(
        SettingsField::fields_for_provider(app.settings_config().provider.active),
        vec![
            SettingsField::Provider,
            SettingsField::AnthropicApiKey,
            SettingsField::AnthropicModel,
            SettingsField::Save,
            SettingsField::Cancel,
        ]
    );
    press(&mut app, KeyCode::Right);
    assert_eq!(app.settings_config().provider.active, ProviderType::Azure);
    assert_eq!(
        SettingsField::fields_for_provider(app.settings_config().provider.active),
        vec![
            SettingsField::Provider,
            SettingsField::AzureUrl,
            SettingsField::AzureApiKey,
            SettingsField::AzureDeployment,
            SettingsField::AzureApiVersion,
            SettingsField::Save,
            SettingsField::Cancel,
        ]
    );
    press(&mut app, KeyCode::Left);
    assert_eq!(app.settings_config().provider.active, ProviderType::Anthropic);
    press(&mut app, KeyCode::Left);
    assert_eq!(app.settings_config().provider.active, ProviderType::OpenAI);
    press(&mut app, KeyCode::Left);
    assert_eq!(app.settings_config().provider.active, ProviderType::Azure);
    assert_eq!(app.settings_selected(), 0);
    assert_eq!(app.config().provider.active, ProviderType::Azure);
    press(&mut app, KeyCode::Down);
    press(&mut app, KeyCode::Right);
    assert_eq!(app.settings_config().provider.active, ProviderType::Azure);
    assert_eq!(app.settings_selected(), 1);
}

#[test]
fn editing_a_field_commits_on_enter_and_discards_on_esc() {
    let mut app = fresh();
    app.execute_command(Command::Settings);
    press(&mut app, KeyCode::Enter);
    assert!(!app.settings_editing());
    press(&mut app, KeyCode::Down);
    press(&mut app, KeyCode::Enter);
    assert!(app.settings_editing());
    assert_eq!(app.settings_edit_value(), "");
    type_text(&mut app, "https://x");
    assert_eq!(app.settings_cursor(), 9);
    press(&mut app, KeyCode::Left);
    press(&mut app, KeyCode::Backspace);
    press(&mut app, KeyCode::Home);
    press(&mut app, KeyCode::Delete);
    press(&mut app, KeyCode::End);
    assert_eq!(app.settings_edit_value(), "ttps:/x");
    press(&mut app, KeyCode::Enter);
    assert!(!app.settings_editing());
    assert_eq!(app.settings_config().azure.url, "ttps:/x");
    assert_eq!(app.get_settings_field_value(&SettingsField::AzureUrl), "ttps:/x");
    assert_eq!(app.config().azure.url, "");
    assert_eq!(app.settings_edit_value(), "");
    press(&mut app, KeyCode::Enter);
    assert!(app.settings_editing());
    assert_eq!(app.settings_edit_value(), "ttps:/x");
    assert_eq!(app.settings_cursor(), 7);
    type_text(&mut app, "zzz");
    press(&mut app, KeyCode::Esc);
    assert!(!app.settings_editing());
    assert_eq!(app.settings_config().azure.url, "ttps:/x");
    assert_eq!(app.screen(), Screen::Settings);
}

#[test]
fn save_commits_the_working_copy_and_closes_on_success() {
    let mut app = fresh();
    app.execute_command(Command::Settings);
    app.set_settings_field_value(&SettingsField::AzureApiKey, "secret".to_string());
    app.set_settings_field_value(&SettingsField::Save, "ignored".to_string());
    for _ in 0..5 {
        press(&mut app, KeyCode::Down);
    }
    assert_eq!(app.config().azure.api_key, "");
    let action = press(&mut app, KeyCode::Enter);
    match action {
        Action::Persist(config, reason) => {
            assert_eq!(reason, PersistReason::Settings);
            assert_eq!(config.azure.api_key, "secret");
        }
        _ => panic!("Save writes the configuration"),
    }
    assert_eq!(app.config().azure.api_key, "secret");
    assert_eq!(app.screen(), Screen::Settings);
    app.persisted(PersistReason::Settings, Err("no space".to_string()));
    assert_eq!(app.settings_message().as_deref(), Some("Error: no space"));
    assert!(app.settings_is_error());
    assert_eq!(app.screen(), Screen::Settings);
    assert_eq!(app.config().azure.api_key, "secret");
    app.step(Event::Persisted(PersistReason::Settings, Ok(())));
    assert_eq!(app.settings_message().as_deref(), Some("Settings saved!"));
    assert!(!app.settings_is_error());
    assert_eq!(app.screen(), Screen::Main);
}

#[test]
fn cancel_and_esc_leave_settings_without_committing() {
    let mut app = fresh();
    app.execute_command(Command::Settings);
    app.set_settings_field_value(&SettingsField::AzureUrl, "u".to_string());
    for _ in 0..6 {
        press(&mut app, KeyCode::Down);
    }
    let action = press(&mut app, KeyCode::Enter);
    assert!(matches!(action, Action::Nothing));
    assert_eq!(app.screen(), Screen::Main);
    assert_eq!(app.config().azure.url, "");
    app.execute_command(Command::Settings);
    assert_eq!(app.settings_config().azure.url, "");
    assert_eq!(app.settings_selected(), 0);
    press(&mut app, KeyCode::Esc);
    assert_eq!(app.screen(), Screen::Main);
}

#[test]
fn moving_the_selection_clears_the_settings_message() {
    let mut app = fresh();
    app.execute_command(Command::Settings);
    app.persisted(PersistReason::Settings, Err("x".to_string()));
    assert!(app.settings_message().is_some());
    press(&mut app, KeyCode::Down);
    assert!(app.settings_message().is_none());
}

#[test]
fn iteration_takes_in_the_outcome_before_it_ticks() {
    let mut app = fresh();
    type_text(&mut app, "abc");
    press(&mut app, KeyCode::Enter);
    app.begin_iteration(None);
    assert_eq!(app.animation_tick_counter(), 1);
    assert_eq!(app.state(), AppState::Analyzing);
    app.begin_iteration(Some(Ok(stub_result())));
    assert_eq!(app.state(), AppState::ShowingResults);
    assert_eq!(app.animation_tick_counter(), 1);
    app.begin_iteration(None);
    assert_eq!(app.animation_tick_counter(), 1);
    app.begin_iteration(Some(Err("late".to_string())));
    assert_eq!(app.state(), AppState::Idle);
    assert_eq!(app.error().as_deref(), Some("late"));
    assert_eq!(app.result().map(|r| r.score), Some(72));
}

#[test]
fn late_completion_after_esc_still_shows() {
    let mut app = fresh();
    type_text(&mut app, "abc");
    press(&mut app, KeyCode::Enter);
    press(&mut app, KeyCode::Esc);
    assert_eq!(app.state(), AppState::Idle);
    app.handle_key(KeyEvent::with_ctrl(KeyCode::Char('u')));
    type_text(&mut app, "/");
    assert_eq!(app.state(), AppState::CommandMenu);
    app.complete_analysis(Ok(stub_result()));
    assert_eq!(app.state(), AppState::ShowingResults);
    assert_eq!(app.prompt(), "/");
    let action = press(&mut app, KeyCode::Enter);
    assert!(matches!(action, Action::Nothing));
    assert_eq!(app.state(), AppState::ShowingResults);
}

#[test]
fn replay_runs_a_script_of_events() {
    let mut events: Vec<Event> = "/cl".chars().map(|c| Event::Key(KeyEvent::plain(KeyCode::Char(c)))).collect();
    events.push(Event::Tick);
    events.push(Event::Key(KeyEvent::plain(KeyCode::Tab)));
    let (app, last) = App::replay(Config::default(), events);
    assert!(matches!(last, Action::Nothing));
    assert_eq!(app.prompt(), "/clear");
    assert_eq!(app.state(), AppState::Idle);
    let mut events: Vec<Event> = "hi".chars().map(|c| Event::Key(KeyEvent::plain(KeyCode::Char(c)))).collect();
    events.push(Event::Key(KeyEvent::plain(KeyCode::Enter)));
    let (app, last) = App::replay(Config::default(), events);
    assert!(matches!(last, Action::Analyze(_)));
    assert_eq!(app.state(), AppState::Analyzing);
    let (app, last) = App::replay(Config::default(), Vec::new());
    assert!(matches!(last, Action::Nothing));
    assert_eq!(app.state(), AppState::Idle);
    assert_eq!(app.prompt(), "");
}

#[test]
fn cursor_stays_within_the_prompt_for_any_keys() {
    let keys = [
        KeyCode::Delete,
        KeyCode::Backspace,
        KeyCode::Char('/'),
        KeyCode::Char('s'),
        KeyCode::Left,
        KeyCode::Left,
        KeyCode::Left,
        KeyCode::Delete,
        KeyCode::Right,
        KeyCode::Right,
        KeyCode::Right,
        KeyCode::Char('\n'),
        KeyCode::Home,
        KeyCode::Backspace,
        KeyCode::End,
        KeyCode::Delete,
        KeyCode::Tab,
        KeyCode::Up,
        KeyCode::Down,
        KeyCode::Esc,
        KeyCode::Other,
        KeyCode::Backspace,
        KeyCode::Backspace,
        KeyCode::Backspace,
        KeyCode::Char('/'),
        KeyCode::Down,
        KeyCode::Down,
        KeyCode::Char('e'),
        KeyCode::Down,
    ];
    let mut app = fresh();
    for code in keys {
        press(&mut app, code);
        assert!(app.cursor_position() <= app.prompt().chars().count());
        let visible = app.state() == AppState::CommandMenu;
        if visible {
            assert!(app.command_selected() < app.filtered_commands().len());
            assert!(app.prompt().starts_with('/'));
            assert_eq!(app.command_filter(), &app.prompt());
        }
    }
}
