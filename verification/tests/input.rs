use karabiner_rcmd_binder::app::{App, InputMode, Tab};
use karabiner_rcmd_binder::app_discovery::DiscoveredApp;
use karabiner_rcmd_binder::config::model::{Action, Binding, Browser, Config, UrlMatchType};
use karabiner_rcmd_binder::editor::{
    ActionEditor, ActionEditorField, ActionType, BindingEditor, EditorField,
};
use karabiner_rcmd_binder::input::{
    handle_bindings_normal, handle_description_field_input, handle_editing_mode,
    handle_key, handle_key_field_input, handle_normal_mode, handle_selector_key,
    handle_settings_normal, help_text, hide_completion, is_char, is_left_step, is_right_step, is_sound,
    Effect, Key,
};

const NOW: i64 = 1_700_000_000;

fn fresh_app(keys: &[&str]) -> App {
    let mut config = Config::default();
    config.bindings = keys
        .iter()
        .map(|k| Binding { key: k.to_string(), description: String::new(), actions: Vec::new() })
        .collect();
    let mut app = App::new(config);
    app.finish_app_discovery(
        vec![
            DiscoveredApp::new("Terminal".to_string(), "com.apple.Terminal".to_string(), NOW),
            DiscoveredApp::new("iTerm".to_string(), "com.googlecode.iterm2".to_string(), NOW),
            DiscoveredApp::new("Safari".to_string(), "com.apple.Safari".to_string(), NOW),
        ],
        NOW,
    );
    app
}

fn press(app: &mut App, keys: &[Key]) {
    for key in keys {
        handle_editing_mode(app, *key);
    }
}

fn type_text(app: &mut App, text: &str) {
    for c in text.chars() {
        handle_editing_mode(app, Key::Char(c));
    }
}

fn editor(app: &App) -> &BindingEditor {
    app.binding_editor.as_ref().expect("binding editor")
}

fn action_editor(app: &App) -> &ActionEditor {
    editor(app).action_editor.as_ref().expect("action editor")
}

fn keys_in(app: &App) -> Vec<&str> {
    app.config.bindings.iter().map(|b| b.key.as_str()).collect()
}

#[test]
fn keys_are_told_apart() {
    assert!(is_left_step(Key::Left));
    assert!(is_left_step(Key::Char('<')));
    assert!(is_left_step(Key::Char(',')));
    assert!(!is_left_step(Key::Char('h')));
    assert!(!is_left_step(Key::Right));
    assert!(is_right_step(Key::Right));
    assert!(is_right_step(Key::Char('>')));
    assert!(is_right_step(Key::Char('.')));
    assert!(!is_right_step(Key::Char('l')));
    assert!(!is_right_step(Key::Left));
    assert!(is_char(Key::Char('s'), 's'));
    assert!(!is_char(Key::Char('S'), 's'));
    assert!(!is_char(Key::Enter, 's'));
}

#[test]
fn normal_mode_quits_switches_tabs_and_asks_for_a_save() {
    let mut app = fresh_app(&["a"]);
    assert_eq!(handle_normal_mode(&mut app, Key::Tab), Effect::Nothing);
    assert_eq!(app.tab, Tab::Settings);
    assert_eq!(handle_normal_mode(&mut app, Key::BackTab), Effect::Nothing);
    assert_eq!(app.tab, Tab::Bindings);
    assert_eq!(handle_normal_mode(&mut app, Key::Char('s')), Effect::SaveToEngine);
    assert!(!app.should_quit);
    assert_eq!(handle_normal_mode(&mut app, Key::Char('q')), Effect::Nothing);
    assert!(app.should_quit);
    assert_eq!(handle_normal_mode(&mut app, Key::Other), Effect::Nothing);
}

#[test]
fn normal_mode_walks_and_edits_the_list() {
    let mut app = fresh_app(&["a", "b"]);
    assert_eq!(app.dynamic_bindings.len(), 3);
    handle_normal_mode(&mut app, Key::Char('j'));
    assert_eq!(app.selected_binding, 1);
    handle_normal_mode(&mut app, Key::Down);
    assert_eq!(app.selected_binding, 2);
    handle_normal_mode(&mut app, Key::Char('k'));
    assert_eq!(app.selected_binding, 1);
    handle_normal_mode(&mut app, Key::Up);
    assert_eq!(app.selected_binding, 0);
    handle_normal_mode(&mut app, Key::Up);
    assert_eq!(app.selected_binding, 4);
    handle_bindings_normal(&mut app, Key::Char('d'));
    assert_eq!(app.dynamic_bindings.len(), 2);
    assert_eq!(app.selected_binding, 3);
    app.selected_binding = 0;
    handle_normal_mode(&mut app, Key::Char('d'));
    assert_eq!(keys_in(&app), vec!["b"]);
    handle_normal_mode(&mut app, Key::Char('a'));
    assert_eq!(app.input_mode, InputMode::Editing);
    assert_eq!(app.binding_editor, Some(BindingEditor::new()));
    app.cancel_edit();
    handle_normal_mode(&mut app, Key::Char('e'));
    assert_eq!(app.editing_binding_index, Some(0));
    assert_eq!(editor(&app).key, "b");
    app.cancel_edit();
    handle_normal_mode(&mut app, Key::Enter);
    assert_eq!(app.editing_binding_index, Some(0));
    app.cancel_edit();
    handle_bindings_normal(&mut app, Key::Char('x'));
    assert_eq!(app.binding_editor, None);
}

#[test]
fn settings_keys_step_the_browser() {
    let mut app = fresh_app(&[]);
    app.tab = Tab::Settings;
    for key in [Key::Right, Key::Char('l'), Key::Char('.'), Key::Char('>')] {
        app.config.settings.default_browser = Browser::Firefox;
        handle_normal_mode(&mut app, key);
        assert_eq!(app.config.settings.default_browser, Browser::Chrome);
    }
    for key in [Key::Left, Key::Char('h'), Key::Char(','), Key::Char('<')] {
        app.config.settings.default_browser = Browser::Firefox;
        handle_settings_normal(&mut app, key);
        assert_eq!(app.config.settings.default_browser, Browser::Edge);
    }
    handle_settings_normal(&mut app, Key::Char('j'));
    assert_eq!(app.config.settings.default_browser, Browser::Edge);
    assert_eq!(app.selected_binding, 0);
}

#[test]
fn hiding_the_completion_list_empties_it() {
    let mut app = fresh_app(&[]);
    app.update_app_autocomplete("");
    app.next_autocomplete();
    assert!(app.show_autocomplete);
    assert_eq!(app.autocomplete_suggestions.len(), 3);
    assert_eq!(app.autocomplete_selected, 1);
    hide_completion(&mut app);
    assert!(!app.show_autocomplete);
    assert!(app.autocomplete_suggestions.is_empty());
    assert_eq!(app.autocomplete_selected, 0);
}

#[test]
fn editing_without_an_editor_does_nothing() {
    let mut app = fresh_app(&["a"]);
    handle_editing_mode(&mut app, Key::Char('s'));
    handle_editing_mode(&mut app, Key::Esc);
    assert_eq!(app.binding_editor, None);
    assert_eq!(keys_in(&app), vec!["a"]);
}

#[test]
fn binding_fields_cycle_with_tab() {
    let mut app = fresh_app(&[]);
    app.start_new_binding();
    let forward = [EditorField::Description, EditorField::Actions, EditorField::Key];
    for field in forward {
        handle_editing_mode(&mut app, Key::Tab);
        assert_eq!(editor(&app).field, field);
    }
    let backward = [EditorField::Actions, EditorField::Description, EditorField::Key];
    for field in backward {
        handle_editing_mode(&mut app, Key::BackTab);
        assert_eq!(editor(&app).field, field);
    }
}

#[test]
fn typing_a_key_fills_the_completion_list() {
    let mut app = fresh_app(&[]);
    app.start_new_binding();
    type_text(&mut app, "f1");
    assert_eq!(editor(&app).key, "");
    handle_editing_mode(&mut app, Key::Enter);
    assert!(editor(&app).edit_mode);
    assert!(!app.show_autocomplete);
    assert_eq!(app.autocomplete_suggestions.len(), 10);
    type_text(&mut app, "F1");
    assert_eq!(editor(&app).key, "F1");
    assert!(app.show_autocomplete);
    assert_eq!(app.autocomplete_suggestions.len(), 10);
    assert_eq!(app.autocomplete_suggestions[1].value, "f10");
    press(&mut app, &[Key::Down, Key::Down]);
    assert_eq!(app.autocomplete_selected, 2);
    handle_editing_mode(&mut app, Key::Up);
    assert_eq!(app.autocomplete_selected, 1);
    handle_editing_mode(&mut app, Key::Enter);
    assert_eq!(editor(&app).key, "f10");
    assert!(!app.show_autocomplete);
    assert!(editor(&app).edit_mode);
    handle_editing_mode(&mut app, Key::Enter);
    assert!(!editor(&app).edit_mode);
    assert_eq!(editor(&app).key, "f10");
}

#[test]
fn backspace_and_right_in_the_key_field() {
    let mut app = fresh_app(&[]);
    app.start_new_binding();
    handle_editing_mode(&mut app, Key::Enter);
    type_text(&mut app, "pag");
    handle_editing_mode(&mut app, Key::Backspace);
    assert_eq!(editor(&app).key, "pa");
    let shown: Vec<&str> = app.autocomplete_suggestions.iter().map(|s| s.value.as_str()).collect();
    assert_eq!(shown, vec!["page_up", "page_down"]);
    handle_editing_mode(&mut app, Key::Down);
    handle_editing_mode(&mut app, Key::Right);
    assert_eq!(editor(&app).key, "page_down");
    assert!(!app.show_autocomplete);
    handle_editing_mode(&mut app, Key::Right);
    assert_eq!(editor(&app).key, "page_down");
    assert!(app.autocomplete_suggestions.is_empty());
    press(&mut app, &[Key::Down, Key::Up]);
    assert_eq!(app.autocomplete_selected, 0);
    for _ in 0..12 {
        handle_editing_mode(&mut app, Key::Backspace);
    }
    assert_eq!(editor(&app).key, "");
    assert!(!app.show_autocomplete);
    handle_key_field_input(&mut app, Key::Char('x'));
    assert_eq!(editor(&app).key, "x");
    handle_key_field_input(&mut app, Key::Other);
    assert_eq!(editor(&app).key, "x");
}

#[test]
fn description_takes_any_text() {
    let mut app = fresh_app(&[]);
    app.start_new_binding();
    press(&mut app, &[Key::Tab, Key::Enter]);
    type_text(&mut app, "saß");
    assert_eq!(editor(&app).description, "saß");
    assert_eq!(app.binding_editor.as_ref().unwrap().key, "");
    handle_editing_mode(&mut app, Key::Backspace);
    assert_eq!(editor(&app).description, "sa");
    press(&mut app, &[Key::Down, Key::Up, Key::Right, Key::Left]);
    assert_eq!(editor(&app).description, "sa");
    handle_editing_mode(&mut app, Key::Enter);
    assert!(!editor(&app).edit_mode);
    handle_description_field_input(&mut app, Key::Char('!'));
    assert_eq!(editor(&app).description, "sa!");
    for _ in 0..5 {
        handle_description_field_input(&mut app, Key::Backspace);
    }
    assert_eq!(editor(&app).description, "");
}

#[test]
fn escape_leaves_edit_mode_before_it_cancels() {
    let mut app = fresh_app(&["a"]);
    app.start_new_binding();
    handle_editing_mode(&mut app, Key::Enter);
    type_text(&mut app, "es");
    assert!(app.show_autocomplete);
    handle_editing_mode(&mut app, Key::Esc);
    assert!(!editor(&app).edit_mode);
    assert_eq!(editor(&app).key, "es");
    assert!(!app.show_autocomplete);
    assert_eq!(app.input_mode, InputMode::Editing);
    handle_editing_mode(&mut app, Key::Esc);
    assert_eq!(app.binding_editor, None);
    assert_eq!(app.input_mode, InputMode::Normal);
    assert_eq!(keys_in(&app), vec!["a"]);
}

#[test]
fn tab_leaves_edit_mode_and_hides_the_list() {
    let mut app = fresh_app(&[]);
    app.start_new_binding();
    handle_editing_mode(&mut app, Key::Enter);
    type_text(&mut app, "t");
    assert!(app.show_autocomplete);
    press(&mut app, &[Key::Down]);
    assert_eq!(app.autocomplete_selected, 1);
    handle_editing_mode(&mut app, Key::Tab);
    assert_eq!(editor(&app).field, EditorField::Description);
    assert!(!editor(&app).edit_mode);
    assert!(!app.show_autocomplete);
    assert!(app.autocomplete_suggestions.is_empty());
    assert_eq!(app.autocomplete_selected, 0);
    assert_eq!(editor(&app).key, "t");
}

#[test]
fn save_key_saves_only_outside_edit_mode_and_with_a_key() {
    let mut app = fresh_app(&["b"]);
    app.start_new_binding();
    handle_editing_mode(&mut app, Key::Char('s'));
    assert!(app.binding_editor.is_some());
    assert_eq!(keys_in(&app), vec!["b"]);
    handle_editing_mode(&mut app, Key::Enter);
    type_text(&mut app, "s");
    assert_eq!(editor(&app).key, "s");
    assert_eq!(keys_in(&app), vec!["b"]);
    handle_editing_mode(&mut app, Key::Enter);
    handle_editing_mode(&mut app, Key::Enter);
    assert!(!editor(&app).edit_mode);
    handle_editing_mode(&mut app, Key::Char('s'));
    assert_eq!(app.binding_editor, None);
    assert_eq!(keys_in(&app), vec!["b", "s"]);
    assert_eq!(app.selected_binding, 1);
    assert_eq!(app.input_mode, InputMode::Normal);
}

#[test]
fn saving_an_unknown_key_keeps_the_editor_open() {
    let mut app = fresh_app(&["b"]);
    app.start_new_binding();
    handle_editing_mode(&mut app, Key::Enter);
    type_text(&mut app, "q1");
    handle_editing_mode(&mut app, Key::Enter);
    press(&mut app, &[Key::Tab, Key::Tab]);
    assert_eq!(editor(&app).field, EditorField::Actions);
    handle_editing_mode(&mut app, Key::Char('s'));
    assert_eq!(keys_in(&app), vec!["b"]);
    assert_eq!(editor(&app).key, "q1");
    assert_eq!(app.input_mode, InputMode::Editing);
    assert_eq!(
        app.status_message,
        Some("Invalid key: 'q1'. Use autocomplete for valid keys.".to_string())
    );
}

#[test]
fn action_list_keys_edit_the_list() {
    let mut app = fresh_app(&[]);
    app.start_new_binding();
    press(&mut app, &[Key::Tab, Key::Tab]);
    press(&mut app, &[Key::Enter, Key::Char('e'), Key::Char('d'), Key::Char('K'), Key::Char('J')]);
    assert_eq!(editor(&app).action_editor, None);
    assert!(editor(&app).actions.is_empty());
    for name in ["one", "two", "three"] {
        handle_editing_mode(&mut app, Key::Char('a'));
        press(&mut app, &[Key::Right, Key::Right, Key::Tab, Key::Enter]);
        type_text(&mut app, name);
        press(&mut app, &[Key::Enter, Key::Char('s')]);
    }
    let commands = |app: &App| -> Vec<Action> { editor(app).actions.clone() };
    let shell = |s: &str| Action::Shell { command: s.to_string() };
    assert_eq!(commands(&app), vec![shell("one"), shell("two"), shell("three")]);
    assert_eq!(editor(&app).selected_action, 2);
    press(&mut app, &[Key::Char('j'), Key::Down]);
    assert_eq!(editor(&app).selected_action, 2);
    press(&mut app, &[Key::Char('k'), Key::Up, Key::Up]);
    assert_eq!(editor(&app).selected_action, 0);
    handle_editing_mode(&mut app, Key::Char('J'));
    assert_eq!(commands(&app), vec![shell("two"), shell("one"), shell("three")]);
    assert_eq!(editor(&app).selected_action, 1);
    handle_editing_mode(&mut app, Key::Char('K'));
    assert_eq!(commands(&app), vec![shell("one"), shell("two"), shell("three")]);
    handle_editing_mode(&mut app, Key::Char('d'));
    assert_eq!(commands(&app), vec![shell("two"), shell("three")]);
    handle_editing_mode(&mut app, Key::Char('e'));
    assert_eq!(editor(&app).editing_action_index, Some(0));
    assert_eq!(action_editor(&app).target, "two");
    press(&mut app, &[Key::Tab, Key::Enter, Key::Char('!'), Key::Enter, Key::Char('s')]);
    assert_eq!(commands(&app), vec![shell("two!"), shell("three")]);
    handle_editing_mode(&mut app, Key::Enter);
    assert_eq!(editor(&app).editing_action_index, Some(0));
    handle_editing_mode(&mut app, Key::Esc);
    assert_eq!(editor(&app).action_editor, None);
    assert_eq!(commands(&app), vec![shell("two!"), shell("three")]);
    handle_editing_mode(&mut app, Key::Char('s'));
    assert!(app.binding_editor.is_some());
}

#[test]
fn app_target_completes_from_the_cache() {
    let mut app = fresh_app(&[]);
    app.start_new_binding();
    press(&mut app, &[Key::Tab, Key::Tab, Key::Char('a'), Key::Tab]);
    assert_eq!(action_editor(&app).field, ActionEditorField::Target);
    type_text(&mut app, "x");
    assert_eq!(action_editor(&app).target, "");
    handle_editing_mode(&mut app, Key::Enter);
    assert!(action_editor(&app).edit_mode);
    assert!(app.show_autocomplete);
    assert_eq!(app.autocomplete_suggestions.len(), 3);
    type_text(&mut app, "TERM");
    assert_eq!(action_editor(&app).target, "TERM");
    let shown: Vec<&str> = app.autocomplete_suggestions.iter().map(|s| s.value.as_str()).collect();
    assert_eq!(shown, vec!["iTerm", "Terminal"]);
    press(&mut app, &[Key::Down, Key::Down, Key::Down, Key::Up]);
    assert_eq!(app.autocomplete_selected, 0);
    handle_editing_mode(&mut app, Key::Up);
    assert_eq!(app.autocomplete_selected, 1);
    handle_editing_mode(&mut app, Key::Enter);
    assert_eq!(action_editor(&app).target, "Terminal");
    assert_eq!(action_editor(&app).bundle_id, Some("com.apple.Terminal".to_string()));
    assert!(action_editor(&app).edit_mode);
    assert!(!app.show_autocomplete);
    handle_editing_mode(&mut app, Key::Backspace);
    assert_eq!(action_editor(&app).target, "Termina");
    assert!(app.show_autocomplete);
    assert_eq!(action_editor(&app).bundle_id, Some("com.apple.Terminal".to_string()));
    handle_editing_mode(&mut app, Key::Esc);
    assert!(!action_editor(&app).edit_mode);
    assert!(!app.show_autocomplete);
    handle_editing_mode(&mut app, Key::Char('s'));
    assert_eq!(
        editor(&app).actions,
        vec![Action::App {
            target: "Termina".to_string(),
            bundle_id: Some("com.apple.Terminal".to_string()),
        }]
    );
}

#[test]
fn url_target_gets_no_completion_and_no_bundle_id() {
    let mut app = fresh_app(&[]);
    app.start_new_binding();
    press(&mut app, &[Key::Tab, Key::Tab, Key::Char('a'), Key::Right, Key::Tab, Key::Enter]);
    assert_eq!(action_editor(&app).action_type, ActionType::Url);
    assert!(!app.show_autocomplete);
    type_text(&mut app, "https://t");
    assert!(!app.show_autocomplete);
    assert!(app.autocomplete_suggestions.is_empty());
    app.update_app_autocomplete("term");
    handle_editing_mode(&mut app, Key::Enter);
    assert_eq!(action_editor(&app).target, "iTerm");
    assert_eq!(action_editor(&app).bundle_id, None);
    assert!(!app.show_autocomplete);
    handle_editing_mode(&mut app, Key::Enter);
    assert!(!action_editor(&app).edit_mode);
}

#[test]
fn selectors_answer_at_once() {
    let mut app = fresh_app(&[]);
    app.start_new_binding();
    press(&mut app, &[Key::Tab, Key::Tab, Key::Char('a')]);
    assert_eq!(action_editor(&app).field, ActionEditorField::Type);
    handle_editing_mode(&mut app, Key::Left);
    assert_eq!(action_editor(&app).action_type, ActionType::Shell);
    handle_editing_mode(&mut app, Key::Char(','));
    assert_eq!(action_editor(&app).action_type, ActionType::Url);
    handle_editing_mode(&mut app, Key::Char('>'));
    assert_eq!(action_editor(&app).action_type, ActionType::Shell);
    press(&mut app, &[Key::Char('<'), Key::Enter, Key::Char('x'), Key::Up]);
    assert_eq!(action_editor(&app).action_type, ActionType::Url);
    assert!(!action_editor(&app).edit_mode);
    press(&mut app, &[Key::Tab, Key::Tab]);
    assert_eq!(action_editor(&app).field, ActionEditorField::MatchType);
    handle_editing_mode(&mut app, Key::Right);
    assert_eq!(action_editor(&app).match_type, UrlMatchType::Path);
    press(&mut app, &[Key::Left, Key::Left]);
    assert_eq!(action_editor(&app).match_type, UrlMatchType::Exact);
    handle_editing_mode(&mut app, Key::Left);
    assert_eq!(action_editor(&app).match_type, UrlMatchType::Glob);
    handle_editing_mode(&mut app, Key::Tab);
    assert_eq!(action_editor(&app).field, ActionEditorField::Browser);
    handle_editing_mode(&mut app, Key::Left);
    assert_eq!(action_editor(&app).browser, Some(Browser::Edge));
    handle_editing_mode(&mut app, Key::Char('.'));
    assert_eq!(action_editor(&app).browser, None);
    handle_editing_mode(&mut app, Key::Right);
    assert_eq!(action_editor(&app).browser, Some(Browser::Firefox));
    handle_editing_mode(&mut app, Key::Left);
    assert_eq!(action_editor(&app).browser, None);
    handle_editing_mode(&mut app, Key::Tab);
    assert_eq!(action_editor(&app).field, ActionEditorField::Type);
    handle_editing_mode(&mut app, Key::BackTab);
    assert_eq!(action_editor(&app).field, ActionEditorField::Browser);
    handle_editing_mode(&mut app, Key::Char('s'));
    assert_eq!(
        editor(&app).actions,
        vec![Action::Url { target: String::new(), match_type: UrlMatchType::Glob, browser: None }]
    );
    let mut ae = ActionEditor::new();
    ae.field = ActionEditorField::Target;
    handle_selector_key(&mut ae, Key::Left);
    handle_selector_key(&mut ae, Key::Right);
    assert_eq!(ae.action_type, ActionType::App);
}

#[test]
fn cancelling_an_action_leaves_the_binding_editor_open() {
    let mut app = fresh_app(&[]);
    app.start_new_binding();
    press(&mut app, &[Key::Tab, Key::Tab, Key::Char('a'), Key::Tab, Key::Enter]);
    type_text(&mut app, "Saf");
    assert!(app.show_autocomplete);
    handle_editing_mode(&mut app, Key::Esc);
    assert!(!app.show_autocomplete);
    assert_eq!(action_editor(&app).target, "Saf");
    handle_editing_mode(&mut app, Key::Esc);
    assert_eq!(editor(&app).action_editor, None);
    assert!(editor(&app).actions.is_empty());
    assert_eq!(app.input_mode, InputMode::Editing);
}

#[test]
fn a_binding_is_built_key_by_key() {
    let mut app = fresh_app(&["a", "z"]);
    handle_normal_mode(&mut app, Key::Char('a'));
    let keys = [
        Key::Enter,
        Key::Char('t'),
        Key::Enter,
        Key::Enter,
        Key::Tab,
        Key::Enter,
        Key::Char('T'),
        Key::Enter,
        Key::Tab,
        Key::Char('a'),
        Key::Tab,
        Key::Enter,
        Key::Char('s'),
        Key::Char('a'),
        Key::Enter,
        Key::Esc,
        Key::Char('s'),
        Key::Char('s'),
    ];
    press(&mut app, &keys);
    assert_eq!(app.binding_editor, None);
    assert_eq!(keys_in(&app), vec!["a", "t", "z"]);
    assert_eq!(app.selected_binding, 1);
    assert_eq!(
        app.config.bindings[1],
        Binding {
            key: "t".to_string(),
            description: "T".to_string(),
            actions: vec![Action::App {
                target: "Safari".to_string(),
                bundle_id: Some("com.apple.Safari".to_string()),
            }],
        }
    );
    let suggested: Vec<&str> = app.dynamic_bindings.iter().map(|b| b.key.as_str()).collect();
    assert_eq!(suggested, vec!["i", "s"]);
}

#[test]
fn key_field_input_without_an_editor_only_walks_the_list() {
    let mut app = fresh_app(&[]);
    app.update_autocomplete("page");
    handle_key_field_input(&mut app, Key::Char('x'));
    handle_key_field_input(&mut app, Key::Backspace);
    assert_eq!(app.binding_editor, None);
    assert_eq!(app.autocomplete_suggestions.len(), 2);
    handle_key_field_input(&mut app, Key::Down);
    assert_eq!(app.autocomplete_selected, 1);
    handle_key_field_input(&mut app, Key::Up);
    assert_eq!(app.autocomplete_selected, 0);
    handle_key_field_input(&mut app, Key::Right);
    assert!(!app.show_autocomplete);
    assert!(app.autocomplete_suggestions.is_empty());
    assert_eq!(app.binding_editor, None);
}

#[test]
fn keys_go_to_the_lists_or_to_the_editor() {
    let mut app = fresh_app(&["a", "b"]);
    assert!(is_sound(&app));
    assert_eq!(handle_key(&mut app, Key::Char('j')), Effect::Nothing);
    assert_eq!(app.selected_binding, 1);
    assert_eq!(handle_key(&mut app, Key::Char('s')), Effect::SaveToEngine);
    assert_eq!(handle_key(&mut app, Key::Char('e')), Effect::Nothing);
    assert_eq!(app.input_mode, InputMode::Editing);
    assert!(is_sound(&app));
    assert_eq!(handle_key(&mut app, Key::Char('j')), Effect::Nothing);
    assert_eq!(app.selected_binding, 1);
    assert_eq!(handle_key(&mut app, Key::Enter), Effect::Nothing);
    assert_eq!(handle_key(&mut app, Key::Char('s')), Effect::Nothing);
    assert_eq!(editor(&app).key, "bs");
    assert_eq!(handle_key(&mut app, Key::Backspace), Effect::Nothing);
    assert_eq!(handle_key(&mut app, Key::Esc), Effect::Nothing);
    assert_eq!(handle_key(&mut app, Key::Char('s')), Effect::Nothing);
    assert_eq!(app.input_mode, InputMode::Normal);
    assert_eq!(app.binding_editor, None);
    assert!(is_sound(&app));
    assert_eq!(handle_key(&mut app, Key::Char('q')), Effect::Nothing);
    assert!(app.should_quit);
}

#[test]
fn unsound_states_are_recognised() {
    let mut app = fresh_app(&["a"]);
    app.selected_binding = usize::MAX;
    assert!(!is_sound(&app));
    app.selected_binding = 7;
    assert!(is_sound(&app));
    app.autocomplete_selected = 1;
    assert!(!is_sound(&app));
    app.update_autocomplete("page");
    app.autocomplete_selected = 1;
    assert!(is_sound(&app));
    app.binding_editor = Some(BindingEditor::new());
    assert!(!is_sound(&app));
    app.input_mode = InputMode::Editing;
    assert!(is_sound(&app));
    app.editing_binding_index = Some(1);
    assert!(!is_sound(&app));
    app.editing_binding_index = Some(0);
    assert!(is_sound(&app));
    let mut broken = BindingEditor::new();
    broken.selected_action = 1;
    app.binding_editor = Some(broken);
    assert!(!is_sound(&app));
    let mut broken = BindingEditor::new();
    broken.action_editor = Some(ActionEditor::new());
    broken.editing_action_index = Some(0);
    app.binding_editor = Some(broken);
    assert!(!is_sound(&app));
    let mut fine = BindingEditor::new();
    fine.editing_action_index = Some(3);
    app.binding_editor = Some(fine);
    assert!(is_sound(&app));
}

#[test]
fn the_status_line_offers_the_keys_of_the_focus() {
    let mut app = fresh_app(&["a"]);
    assert_eq!(help_text(&app), "(a)dd (e)dit (d)elete (j/k)nav (Tab)switch (s)ave (q)uit");
    app.next_tab();
    assert_eq!(help_text(&app), "(←→)change (Tab)switch (s)ave (q)uit");
    app.next_tab();
    app.start_new_binding();
    assert_eq!(help_text(&app), "[NAV] (Enter)edit (s)ave (Tab)next (Esc)cancel");
    handle_editing_mode(&mut app, Key::Enter);
    assert_eq!(
        help_text(&app),
        "[EDIT] Type key | (↑↓)autocomplete (Enter)finish (Tab)next (Esc)exit"
    );
    press(&mut app, &[Key::Tab, Key::Enter]);
    assert_eq!(help_text(&app), "[EDIT] Type description | (Enter)finish (Tab)next (Esc)exit");
    handle_editing_mode(&mut app, Key::Tab);
    assert_eq!(
        help_text(&app),
        "[NAV] (a)dd (e)dit (d)elete (j/k)nav (J/K)move (s)ave (Tab)next (Esc)cancel"
    );
    handle_editing_mode(&mut app, Key::Char('a'));
    assert_eq!(help_text(&app), "[NAV] (←→)change (s)ave (Tab)next (Esc)cancel");
    handle_editing_mode(&mut app, Key::Tab);
    assert_eq!(help_text(&app), "[NAV] (Enter)edit (s)ave (Tab)next (Esc)cancel");
    handle_editing_mode(&mut app, Key::Enter);
    assert_eq!(
        help_text(&app),
        "[EDIT] Type app name | (↑↓)autocomplete (Enter)finish (Tab)next (Esc)exit"
    );
    press(&mut app, &[Key::Esc, Key::BackTab, Key::Right, Key::Tab, Key::Enter]);
    assert_eq!(help_text(&app), "[EDIT] Type target | (Enter)finish (Tab)next (Esc)exit");
    app.input_mode = InputMode::Normal;
    assert_eq!(help_text(&app), "");
    app.cancel_edit();
    app.input_mode = InputMode::Editing;
    assert_eq!(help_text(&app), "");
    let mut odd = BindingEditor::new();
    odd.field = EditorField::Actions;
    odd.edit_mode = true;
    app.binding_editor = Some(odd);
    assert_eq!(help_text(&app), "[NAV]");
}

#[test]
fn an_empty_list_asks_nothing_of_the_selection() {
    let mut app = App::new(Config::default());
    app.selected_binding = usize::MAX;
    assert!(is_sound(&app));
    assert_eq!(handle_key(&mut app, Key::Char('j')), Effect::Nothing);
    assert_eq!(handle_key(&mut app, Key::Char('k')), Effect::Nothing);
    assert_eq!(handle_key(&mut app, Key::Char('d')), Effect::Nothing);
    assert_eq!(app.selected_binding, usize::MAX);
    let mut listed = fresh_app(&["a"]);
    listed.selected_binding = usize::MAX;
    assert!(!is_sound(&listed));
}
