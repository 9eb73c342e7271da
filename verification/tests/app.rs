use karabiner_rcmd_binder::app::{find_key, sort_bindings, App, InputMode, SettingsField, Tab};
use karabiner_rcmd_binder::app_discovery::DiscoveredApp;
use karabiner_rcmd_binder::config::model::{Action, AnchorKey, Binding, Browser, Config};
use karabiner_rcmd_binder::editor::{BindingEditor, EditorField};
use karabiner_rcmd_binder::suggest::AutocompleteSuggestion;

const NOW: i64 = 1_700_000_000;

fn saved(key: &str) -> Binding {
    Binding { key: key.to_string(), description: format!("About {}", key), actions: Vec::new() }
}

fn app_seen(name: &str, bundle_id: &str) -> DiscoveredApp {
    DiscoveredApp::new(name.to_string(), bundle_id.to_string(), NOW)
}

fn app_with(keys: &[&str]) -> App {
    let mut config = Config::default();
    config.bindings = keys.iter().map(|k| saved(k)).collect();
    App::new(config)
}

fn app_with_apps(keys: &[&str]) -> App {
    let mut app = app_with(keys);
    app.finish_app_discovery(
        vec![
            app_seen("Terminal", "com.apple.Terminal"),
            app_seen("Calendar", "com.apple.iCal"),
            app_seen("Safari", "com.apple.Safari"),
        ],
        NOW,
    );
    app
}

fn keys_of(bindings: &Vec<Binding>) -> Vec<&str> {
    bindings.iter().map(|b| b.key.as_str()).collect()
}

fn is_sorted(bindings: &Vec<Binding>) -> bool {
    bindings.windows(2).all(|w| w[0].key <= w[1].key)
}

fn selection_is_on_the_list(app: &App) -> bool {
    let total = app.config.bindings.len() + app.dynamic_bindings.len();
    app.selected_binding < total || (total == 0 && app.selected_binding == 0)
}

#[test]
fn a_new_app_starts_on_the_bindings() {
    let app = app_with(&["a", "b"]);
    assert_eq!(app.tab, Tab::Bindings);
    assert_eq!(app.input_mode, InputMode::Normal);
    assert!(!app.should_quit);
    assert_eq!(app.status_message, None);
    assert_eq!(app.selected_binding, 0);
    assert_eq!(app.binding_editor, None);
    assert_eq!(app.editing_binding_index, None);
    assert_eq!(app.settings_field, SettingsField::AnchorKey);
    assert!(app.autocomplete_suggestions.is_empty());
    assert_eq!(app.autocomplete_selected, 0);
    assert!(!app.show_autocomplete);
    assert!(app.discovered_apps.is_empty());
    assert!(!app.apps_loading);
    assert!(app.dynamic_bindings.is_empty());
    assert_eq!(keys_of(&app.config.bindings), vec!["a", "b"]);
}

#[test]
fn status_and_tabs() {
    let mut app = app_with(&[]);
    app.set_status("Saved".to_string());
    assert_eq!(app.status_message, Some("Saved".to_string()));
    app.clear_status();
    assert_eq!(app.status_message, None);
    app.next_tab();
    assert_eq!(app.tab, Tab::Settings);
    app.next_tab();
    assert_eq!(app.tab, Tab::Bindings);
    app.prev_tab();
    assert_eq!(app.tab, Tab::Settings);
    app.prev_tab();
    assert_eq!(app.tab, Tab::Bindings);
    app.start_app_discovery();
    assert!(app.apps_loading);
}

#[test]
fn selection_walks_saved_and_suggested_bindings_around() {
    let mut app = app_with_apps(&["a", "t"]);
    assert_eq!(keys_of(&app.dynamic_bindings), vec!["c", "s"]);
    let mut visited = Vec::new();
    for _ in 0..5 {
        visited.push((app.selected_binding, app.is_on_dynamic_binding()));
        app.next_binding();
    }
    assert_eq!(visited, vec![(0, false), (1, false), (2, true), (3, true), (0, false)]);
    app.selected_binding = 0;
    app.prev_binding();
    assert_eq!(app.selected_binding, 3);
    app.prev_binding();
    assert_eq!(app.selected_binding, 2);
    let mut empty = app_with(&[]);
    empty.next_binding();
    assert_eq!(empty.selected_binding, 0);
    empty.prev_binding();
    assert_eq!(empty.selected_binding, 0);
    assert!(empty.is_on_dynamic_binding());
}

#[test]
fn sorting_is_stable_and_by_key() {
    let bindings = vec![
        Binding { key: "t".to_string(), description: "first".to_string(), actions: vec![] },
        saved("a"),
        Binding { key: "t".to_string(), description: "second".to_string(), actions: vec![] },
        saved("f10"),
        saved("f2"),
        saved("B"),
    ];
    let sorted = sort_bindings(&bindings);
    assert_eq!(keys_of(&sorted), vec!["B", "a", "f10", "f2", "t", "t"]);
    assert_eq!(sorted[4].description, "first");
    assert_eq!(sorted[5].description, "second");
    assert_eq!(find_key(&sorted, "t"), 4);
    assert_eq!(find_key(&sorted, "B"), 0);
    assert_eq!(find_key(&sorted, "zz"), 0);
    assert_eq!(find_key(&Vec::new(), "a"), 0);
}

#[test]
fn promoting_a_suggestion_saves_it_in_order() {
    let mut app = app_with_apps(&["a", "t"]);
    app.selected_binding = 3;
    app.add_dynamic_binding();
    assert_eq!(keys_of(&app.config.bindings), vec!["a", "s", "t"]);
    assert_eq!(app.selected_binding, 1);
    assert_eq!(keys_of(&app.dynamic_bindings), vec!["c"]);
    assert_eq!(app.binding_editor, None);
    assert_eq!(app.input_mode, InputMode::Normal);
    assert_eq!(app.config.bindings[1].description, "Open Safari");
    assert_eq!(
        app.config.bindings[1].actions,
        vec![Action::App {
            target: "Safari".to_string(),
            bundle_id: Some("com.apple.Safari".to_string()),
        }]
    );
}

#[test]
fn promoting_does_nothing_on_a_saved_binding_or_off_the_list() {
    let mut app = app_with_apps(&["a", "t"]);
    app.selected_binding = 1;
    app.add_dynamic_binding();
    assert_eq!(keys_of(&app.config.bindings), vec!["a", "t"]);
    assert_eq!(app.selected_binding, 1);
    app.selected_binding = 9;
    app.add_dynamic_binding();
    assert_eq!(keys_of(&app.config.bindings), vec!["a", "t"]);
    assert_eq!(keys_of(&app.dynamic_bindings), vec!["c", "s"]);
    assert_eq!(app.selected_binding, 9);
}

#[test]
fn editing_a_saved_binding_opens_a_copy() {
    let mut app = app_with(&["a", "t"]);
    app.selected_binding = 1;
    app.start_edit_binding();
    assert_eq!(app.input_mode, InputMode::Editing);
    assert_eq!(app.editing_binding_index, Some(1));
    assert_eq!(app.binding_editor, Some(BindingEditor::from_binding(&saved("t"))));
    assert_eq!(keys_of(&app.config.bindings), vec!["a", "t"]);
}

#[test]
fn editing_a_suggestion_promotes_it_first() {
    let mut app = app_with_apps(&["a", "t"]);
    app.selected_binding = 2;
    app.start_edit_binding();
    assert_eq!(keys_of(&app.config.bindings), vec!["a", "c", "t"]);
    assert_eq!(app.selected_binding, 1);
    assert_eq!(app.editing_binding_index, Some(1));
    assert_eq!(app.input_mode, InputMode::Editing);
    assert_eq!(app.binding_editor, Some(BindingEditor::from_binding(&app.config.bindings[1])));
    assert_eq!(keys_of(&app.dynamic_bindings), vec!["s"]);
}

#[test]
fn editing_off_the_list_opens_nothing() {
    let mut app = app_with(&[]);
    app.start_edit_binding();
    assert_eq!(app.binding_editor, None);
    assert_eq!(app.input_mode, InputMode::Normal);
}

#[test]
fn deleting_a_saved_binding_frees_its_letter() {
    let mut app = app_with_apps(&["a", "s", "t"]);
    assert_eq!(keys_of(&app.dynamic_bindings), vec!["c"]);
    app.selected_binding = 1;
    app.delete_binding();
    assert_eq!(keys_of(&app.config.bindings), vec!["a", "t"]);
    assert_eq!(keys_of(&app.dynamic_bindings), vec!["c", "s"]);
    assert_eq!(app.selected_binding, 1);
}

#[test]
fn deleting_the_last_entry_moves_the_selection_up() {
    let mut app = app_with(&["a", "b"]);
    app.selected_binding = 1;
    app.delete_binding();
    assert_eq!(keys_of(&app.config.bindings), vec!["a"]);
    assert_eq!(app.selected_binding, 0);
    app.delete_binding();
    assert!(app.config.bindings.is_empty());
    assert_eq!(app.selected_binding, 0);
    app.delete_binding();
    assert!(app.config.bindings.is_empty());
    assert_eq!(app.selected_binding, 0);
}

#[test]
fn deleting_a_suggestion_touches_no_saved_binding() {
    let mut app = app_with_apps(&["a", "t"]);
    app.selected_binding = 3;
    app.delete_binding();
    assert_eq!(keys_of(&app.config.bindings), vec!["a", "t"]);
    assert_eq!(keys_of(&app.dynamic_bindings), vec!["c"]);
    assert_eq!(app.selected_binding, 2);
    app.delete_binding();
    assert!(app.dynamic_bindings.is_empty());
    assert_eq!(app.selected_binding, 1);
}

#[test]
fn saving_an_invalid_key_changes_nothing_but_the_status() {
    let mut app = app_with_apps(&["a", "t"]);
    app.start_new_binding();
    let mut editor = app.binding_editor.take().unwrap();
    editor.key = "q1".to_string();
    editor.description = "Quit".to_string();
    app.binding_editor = Some(editor.clone());
    app.save_binding();
    assert_eq!(keys_of(&app.config.bindings), vec!["a", "t"]);
    assert_eq!(app.config.bindings, vec![saved("a"), saved("t")]);
    assert_eq!(app.binding_editor, Some(editor));
    assert_eq!(app.input_mode, InputMode::Editing);
    assert_eq!(app.selected_binding, 0);
    assert_eq!(keys_of(&app.dynamic_bindings), vec!["c", "s"]);
    assert_eq!(
        app.status_message,
        Some("Invalid key: 'q1'. Use autocomplete for valid keys.".to_string())
    );
}

#[test]
fn saving_a_new_binding_sorts_it_in_and_selects_it() {
    let mut app = app_with_apps(&["a", "t"]);
    app.start_new_binding();
    assert_eq!(app.input_mode, InputMode::Editing);
    assert_eq!(app.editing_binding_index, None);
    assert_eq!(app.binding_editor, Some(BindingEditor::new()));
    let mut editor = app.binding_editor.take().unwrap();
    editor.key = "c".to_string();
    editor.field = EditorField::Actions;
    app.binding_editor = Some(editor);
    app.save_binding();
    assert_eq!(keys_of(&app.config.bindings), vec!["a", "c", "t"]);
    assert_eq!(app.selected_binding, 1);
    assert_eq!(app.binding_editor, None);
    assert_eq!(app.editing_binding_index, None);
    assert_eq!(app.input_mode, InputMode::Normal);
    assert_eq!(keys_of(&app.dynamic_bindings), vec!["s"]);
    assert_eq!(app.status_message, None);
}

#[test]
fn saving_an_edited_binding_replaces_it_and_follows_its_key() {
    let mut app = app_with(&["a", "b", "c"]);
    app.selected_binding = 0;
    app.start_edit_binding();
    let mut editor = app.binding_editor.take().unwrap();
    editor.key = "z".to_string();
    editor.description = "Moved".to_string();
    app.binding_editor = Some(editor);
    app.save_binding();
    assert_eq!(keys_of(&app.config.bindings), vec!["b", "c", "z"]);
    assert_eq!(app.config.bindings[2].description, "Moved");
    assert_eq!(app.selected_binding, 2);
    assert_eq!(app.binding_editor, None);
    assert_eq!(app.editing_binding_index, None);
}

#[test]
fn saving_without_an_editor_does_nothing() {
    let mut app = app_with(&["a"]);
    app.save_binding();
    assert_eq!(keys_of(&app.config.bindings), vec!["a"]);
    assert_eq!(app.status_message, None);
}

#[test]
fn cancelling_drops_the_working_copy() {
    let mut app = app_with(&["a", "b"]);
    app.selected_binding = 1;
    app.start_edit_binding();
    let mut editor = app.binding_editor.take().unwrap();
    editor.key = "changed".to_string();
    app.binding_editor = Some(editor);
    app.cancel_edit();
    assert_eq!(app.binding_editor, None);
    assert_eq!(app.editing_binding_index, None);
    assert_eq!(app.input_mode, InputMode::Normal);
    assert_eq!(app.config.bindings, vec![saved("a"), saved("b")]);
}

#[test]
fn table_stays_sorted_and_selection_on_the_list() {
    let mut app = app_with_apps(&["m", "b"]);
    app.config.bindings = sort_bindings(&app.config.bindings);
    app.generate_dynamic_bindings();
    let steps: Vec<fn(&mut App)> = vec![
        |app| app.selected_binding = app.config.bindings.len(),
        |app| app.add_dynamic_binding(),
        |app| app.next_binding(),
        |app| app.delete_binding(),
        |app| {
            app.start_new_binding();
            let mut editor = app.binding_editor.take().unwrap();
            editor.key = "a".to_string();
            app.binding_editor = Some(editor);
            app.save_binding();
        },
        |app| app.prev_binding(),
        |app| app.delete_binding(),
        |app| app.selected_binding = app.config.bindings.len() + app.dynamic_bindings.len() - 1,
        |app| app.delete_binding(),
        |app| app.add_dynamic_binding(),
        |app| app.delete_binding(),
        |app| app.delete_binding(),
        |app| app.delete_binding(),
        |app| app.delete_binding(),
        |app| app.delete_binding(),
        |app| app.delete_binding(),
        |app| app.add_dynamic_binding(),
    ];
    for step in steps {
        step(&mut app);
        assert!(is_sorted(&app.config.bindings), "{:?}", keys_of(&app.config.bindings));
        assert!(selection_is_on_the_list(&app), "{}", app.selected_binding);
    }
}

#[test]
fn key_completion_lists_at_most_ten_and_shows_when_typed() {
    let mut app = app_with(&[]);
    app.autocomplete_selected = 3;
    app.update_autocomplete("f1");
    let shown: Vec<&str> = app.autocomplete_suggestions.iter().map(|s| s.value.as_str()).collect();
    assert_eq!(shown, vec!["f1", "f10", "f11", "f12", "f13", "f14", "f15", "f16", "f17", "f18"]);
    assert!(app.autocomplete_suggestions.iter().all(|s| s.display == s.value && s.bundle_id.is_empty()));
    assert_eq!(app.autocomplete_selected, 0);
    assert!(app.show_autocomplete);
    app.update_autocomplete("");
    assert_eq!(app.autocomplete_suggestions.len(), 10);
    assert_eq!(app.autocomplete_suggestions[0].value, "a");
    assert!(!app.show_autocomplete);
    app.update_autocomplete("nothing");
    assert!(app.autocomplete_suggestions.is_empty());
    assert!(!app.show_autocomplete);
    app.update_autocomplete("TAB");
    assert_eq!(app.autocomplete_suggestions.len(), 1);
    assert_eq!(app.autocomplete_suggestions[0].value, "tab");
}

#[test]
fn app_completion_tells_equal_names_apart() {
    let mut app = app_with(&[]);
    app.finish_app_discovery(
        vec![
            app_seen("Terminal", "com.apple.terminal"),
            app_seen("Terminal", "com.other.terminal"),
            app_seen("Safari", "com.apple.Safari"),
        ],
        NOW,
    );
    app.update_app_autocomplete("term");
    let labels: Vec<&str> =
        app.autocomplete_suggestions.iter().map(|s| s.display.as_str()).collect();
    assert_eq!(labels, vec!["Terminal (apple.terminal)", "Terminal (other.terminal)"]);
    assert_ne!(labels[0], labels[1]);
    assert!(app.autocomplete_suggestions.iter().all(|s| s.value == "Terminal"));
    let ids: Vec<&str> =
        app.autocomplete_suggestions.iter().map(|s| s.bundle_id.as_str()).collect();
    assert_eq!(ids, vec!["com.apple.terminal", "com.other.terminal"]);
    assert!(app.show_autocomplete);
    assert_eq!(app.autocomplete_selected, 0);
}

#[test]
fn app_completion_shows_a_single_name_bare() {
    let mut app = app_with(&[]);
    app.finish_app_discovery(
        vec![app_seen("Terminal", "com.apple.Terminal"), app_seen("Safari", "com.apple.Safari")],
        NOW,
    );
    app.update_app_autocomplete("TERM");
    assert_eq!(
        app.autocomplete_suggestions,
        vec![AutocompleteSuggestion {
            display: "Terminal".to_string(),
            value: "Terminal".to_string(),
            bundle_id: "com.apple.Terminal".to_string(),
        }]
    );
    app.update_app_autocomplete("");
    assert_eq!(app.autocomplete_suggestions.len(), 2);
    assert!(app.show_autocomplete);
    app.update_app_autocomplete("zzz");
    assert!(app.autocomplete_suggestions.is_empty());
    assert!(!app.show_autocomplete);
}

#[test]
fn discovery_fills_cache_and_suggestions() {
    let mut app = app_with(&["s"]);
    app.config.cached_apps = vec![
        DiscoveredApp::new("Old".to_string(), "com.example.old".to_string(), NOW - 31 * 86400),
        DiscoveredApp::new("Mail".to_string(), "com.apple.mail".to_string(), NOW - 86400),
    ];
    app.start_app_discovery();
    app.finish_app_discovery(
        vec![app_seen("Terminal", "com.apple.Terminal"), app_seen("Safari", "com.apple.Safari")],
        NOW,
    );
    assert!(!app.apps_loading);
    let names: Vec<&str> = app.discovered_apps.iter().map(|a| a.name.as_str()).collect();
    assert_eq!(names, vec!["Mail", "Safari", "Terminal"]);
    assert_eq!(app.config.cached_apps, app.discovered_apps);
    assert_eq!(keys_of(&app.dynamic_bindings), vec!["m", "t"]);
    assert_eq!(app.dynamic_bindings[0].description, "Open Mail");
}

#[test]
fn discovery_refreshes_what_it_found_to_the_current_time() {
    let mut app = app_with(&[]);
    app.config.cached_apps = vec![
        DiscoveredApp::new("Mail".to_string(), "com.apple.mail".to_string(), NOW - 86400),
        DiscoveredApp::new("Safari".to_string(), "com.apple.Safari".to_string(), NOW - 40 * 86400),
    ];
    app.finish_app_discovery(
        vec![
            DiscoveredApp::new("Safari".to_string(), "com.apple.Safari".to_string(), 0),
            DiscoveredApp::new("Terminal".to_string(), "com.apple.Terminal".to_string(), 0),
        ],
        NOW,
    );
    assert_eq!(
        app.discovered_apps,
        vec![
            DiscoveredApp::new("Mail".to_string(), "com.apple.mail".to_string(), NOW - 86400),
            DiscoveredApp::new("Safari".to_string(), "com.apple.Safari".to_string(), NOW),
            DiscoveredApp::new("Terminal".to_string(), "com.apple.Terminal".to_string(), NOW),
        ]
    );
    assert_eq!(app.config.cached_apps, app.discovered_apps);
    let first = app.discovered_apps.clone();
    app.finish_app_discovery(
        vec![
            DiscoveredApp::new("Safari".to_string(), "com.apple.Safari".to_string(), 0),
            DiscoveredApp::new("Terminal".to_string(), "com.apple.Terminal".to_string(), 0),
        ],
        NOW + 3600,
    );
    let identity = |a: &DiscoveredApp| (a.name.clone(), a.bundle_id.clone(), a.last_component.clone());
    let before: Vec<_> = first.iter().map(identity).collect();
    let after: Vec<_> = app.discovered_apps.iter().map(identity).collect();
    assert_eq!(before, after);
    let seen_at: Vec<i64> = app.discovered_apps.iter().map(|a| a.last_seen).collect();
    assert_eq!(seen_at, vec![NOW - 86400, NOW + 3600, NOW + 3600]);
}

#[test]
fn completion_highlight_wraps() {
    let mut app = app_with(&[]);
    app.next_autocomplete();
    app.prev_autocomplete();
    assert_eq!(app.autocomplete_selected, 0);
    assert_eq!(app.select_autocomplete(), None);
    app.update_autocomplete("page");
    assert_eq!(app.autocomplete_suggestions.len(), 2);
    assert_eq!(app.select_autocomplete().map(|s| s.value), Some("page_up".to_string()));
    app.next_autocomplete();
    assert_eq!(app.autocomplete_selected, 1);
    assert_eq!(app.select_autocomplete().map(|s| s.value), Some("page_down".to_string()));
    app.next_autocomplete();
    assert_eq!(app.autocomplete_selected, 0);
    app.prev_autocomplete();
    assert_eq!(app.autocomplete_selected, 1);
    app.prev_autocomplete();
    assert_eq!(app.autocomplete_selected, 0);
    app.show_autocomplete = false;
    assert_eq!(app.select_autocomplete(), None);
    app.show_autocomplete = true;
    app.autocomplete_selected = 5;
    assert_eq!(app.select_autocomplete(), None);
}

#[test]
fn settings_step_around() {
    let mut app = app_with(&[]);
    let forward =
        [Browser::Chrome, Browser::Safari, Browser::Arc, Browser::Edge, Browser::Firefox];
    for browser in forward {
        app.next_browser();
        assert_eq!(app.config.settings.default_browser, browser);
    }
    let backward =
        [Browser::Edge, Browser::Arc, Browser::Safari, Browser::Chrome, Browser::Firefox];
    for browser in backward {
        app.prev_browser();
        assert_eq!(app.config.settings.default_browser, browser);
    }
    app.next_anchor_key();
    assert_eq!(app.config.settings.anchor_key, AnchorKey::RightOption);
    app.next_anchor_key();
    assert_eq!(app.config.settings.anchor_key, AnchorKey::RightCommand);
    app.prev_anchor_key();
    assert_eq!(app.config.settings.anchor_key, AnchorKey::RightOption);
    app.prev_anchor_key();
    assert_eq!(app.config.settings.anchor_key, AnchorKey::RightCommand);
    app.next_settings_field();
    assert_eq!(app.settings_field, SettingsField::DefaultBrowser);
    app.next_settings_field();
    assert_eq!(app.settings_field, SettingsField::AnchorKey);
}

#[test]
fn walking_an_empty_list_moves_nothing() {
    let mut app = app_with(&[]);
    app.selected_binding = usize::MAX;
    app.next_binding();
    assert_eq!(app.selected_binding, usize::MAX);
    app.prev_binding();
    assert_eq!(app.selected_binding, usize::MAX);
    app.autocomplete_selected = usize::MAX;
    app.next_autocomplete();
    assert_eq!(app.autocomplete_selected, usize::MAX);
    app.prev_autocomplete();
    assert_eq!(app.autocomplete_selected, usize::MAX);
}
