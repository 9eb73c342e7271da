use karabiner_rcmd_binder::config::model::{Action, Binding, Browser, UrlMatchType};
use karabiner_rcmd_binder::editor::{
    clone_optional_editor, ActionEditor, ActionEditorField, ActionType, BindingEditor,
    EditorField,
};

fn open_app(target: &str) -> Action {
    Action::App { target: target.to_string(), bundle_id: Some(format!("id.{}", target)) }
}

fn editor_with(names: &[&str]) -> BindingEditor {
    let mut editor = BindingEditor::new();
    editor.actions = names.iter().map(|n| open_app(n)).collect();
    editor
}

fn targets(editor: &BindingEditor) -> Vec<String> {
    editor
        .actions
        .iter()
        .map(|a| match a {
            Action::App { target, .. } => target.clone(),
            Action::Url { target, .. } => target.clone(),
            Action::Shell { command } => command.clone(),
        })
        .collect()
}

#[test]
fn action_types_cycle() {
    assert_eq!(ActionType::App.next(), ActionType::Url);
    assert_eq!(ActionType::Url.next(), ActionType::Shell);
    assert_eq!(ActionType::Shell.next(), ActionType::App);
    assert_eq!(ActionType::App.prev(), ActionType::Shell);
    assert_eq!(ActionType::Url.prev(), ActionType::App);
    assert_eq!(ActionType::Shell.prev(), ActionType::Url);
    assert_eq!(ActionType::App.as_str(), "App");
    assert_eq!(ActionType::Url.as_str(), "URL");
    assert_eq!(ActionType::Shell.as_str(), "Shell");
}

#[test]
fn new_action_editor_is_a_blank_app_action() {
    let editor = ActionEditor::new();
    assert_eq!(editor.action_type, ActionType::App);
    assert_eq!(editor.target, "");
    assert_eq!(editor.bundle_id, None);
    assert_eq!(editor.match_type, UrlMatchType::Domain);
    assert_eq!(editor.browser, None);
    assert_eq!(editor.field, ActionEditorField::Type);
    assert!(!editor.edit_mode);
    assert_eq!(editor.to_action(), Action::App { target: String::new(), bundle_id: None });
}

#[test]
fn action_editor_round_trips_actions() {
    let actions = vec![
        open_app("Terminal"),
        Action::App { target: "Legacy".to_string(), bundle_id: None },
        Action::Url {
            target: "https://example.com".to_string(),
            match_type: UrlMatchType::Glob,
            browser: Some(Browser::Edge),
        },
        Action::Url { target: "u".to_string(), match_type: UrlMatchType::Exact, browser: None },
        Action::Shell { command: "ls -la".to_string() },
    ];
    for action in &actions {
        let editor = ActionEditor::from_action(action);
        assert_eq!(&editor.to_action(), action);
        assert_eq!(editor.field, ActionEditorField::Type);
        assert!(!editor.edit_mode);
        assert_eq!(editor.clone(), editor);
    }
    let editor = ActionEditor::from_action(&actions[4]);
    assert_eq!(editor.action_type, ActionType::Shell);
    assert_eq!(editor.target, "ls -la");
    assert_eq!(editor.match_type, UrlMatchType::Domain);
    let editor = ActionEditor::from_action(&actions[2]);
    assert_eq!(editor.bundle_id, None);
    assert_eq!(editor.browser, Some(Browser::Edge));
}

#[test]
fn changing_the_type_keeps_what_the_other_types_need() {
    let mut editor = ActionEditor::from_action(&open_app("Terminal"));
    editor.action_type = ActionType::Shell;
    assert_eq!(editor.to_action(), Action::Shell { command: "Terminal".to_string() });
    editor.action_type = ActionType::Url;
    assert_eq!(
        editor.to_action(),
        Action::Url {
            target: "Terminal".to_string(),
            match_type: UrlMatchType::Domain,
            browser: None
        }
    );
    editor.action_type = ActionType::App;
    assert_eq!(editor.to_action(), open_app("Terminal"));
}

#[test]
fn action_fields_cycle_by_type() {
    for kind in [ActionType::App, ActionType::Shell] {
        let mut editor = ActionEditor::new();
        editor.action_type = kind;
        editor.next_field();
        assert_eq!(editor.field, ActionEditorField::Target);
        editor.next_field();
        assert_eq!(editor.field, ActionEditorField::Type);
        editor.prev_field();
        assert_eq!(editor.field, ActionEditorField::Target);
        editor.prev_field();
        assert_eq!(editor.field, ActionEditorField::Type);
        editor.field = ActionEditorField::MatchType;
        editor.next_field();
        assert_eq!(editor.field, ActionEditorField::Type);
        editor.field = ActionEditorField::Browser;
        editor.next_field();
        assert_eq!(editor.field, ActionEditorField::Type);
        editor.field = ActionEditorField::Browser;
        editor.prev_field();
        assert_eq!(editor.field, ActionEditorField::MatchType);
        editor.prev_field();
        assert_eq!(editor.field, ActionEditorField::Target);
    }
    let mut editor = ActionEditor::new();
    editor.action_type = ActionType::Url;
    let forward = [
        ActionEditorField::Target,
        ActionEditorField::MatchType,
        ActionEditorField::Browser,
        ActionEditorField::Type,
    ];
    for field in forward {
        editor.next_field();
        assert_eq!(editor.field, field);
    }
    let backward = [
        ActionEditorField::Browser,
        ActionEditorField::MatchType,
        ActionEditorField::Target,
        ActionEditorField::Type,
    ];
    for field in backward {
        editor.prev_field();
        assert_eq!(editor.field, field);
    }
}

#[test]
fn browser_selector_passes_through_the_default() {
    let mut editor = ActionEditor::new();
    let forward = [
        Some(Browser::Firefox),
        Some(Browser::Chrome),
        Some(Browser::Safari),
        Some(Browser::Arc),
        Some(Browser::Edge),
        None,
        Some(Browser::Firefox),
    ];
    for browser in forward {
        editor.next_browser_choice();
        assert_eq!(editor.browser, browser);
    }
    editor.browser = None;
    let backward = [
        Some(Browser::Edge),
        Some(Browser::Arc),
        Some(Browser::Safari),
        Some(Browser::Chrome),
        Some(Browser::Firefox),
        None,
        Some(Browser::Edge),
    ];
    for browser in backward {
        editor.prev_browser_choice();
        assert_eq!(editor.browser, browser);
    }
}

#[test]
fn match_type_selector_wraps() {
    let mut editor = ActionEditor::new();
    assert_eq!(editor.match_type, UrlMatchType::Domain);
    let forward =
        [UrlMatchType::Path, UrlMatchType::Glob, UrlMatchType::Exact, UrlMatchType::Domain];
    for m in forward {
        editor.next_match_type();
        assert_eq!(editor.match_type, m);
    }
    let backward =
        [UrlMatchType::Exact, UrlMatchType::Glob, UrlMatchType::Path, UrlMatchType::Domain];
    for m in backward {
        editor.prev_match_type();
        assert_eq!(editor.match_type, m);
    }
}

#[test]
fn binding_editor_round_trips_bindings() {
    let editor = BindingEditor::new();
    assert_eq!(editor.key, "");
    assert_eq!(editor.description, "");
    assert!(editor.actions.is_empty());
    assert_eq!(editor.selected_action, 0);
    assert_eq!(editor.field, EditorField::Key);
    assert_eq!(editor.action_editor, None);
    assert_eq!(editor.editing_action_index, None);
    assert!(!editor.edit_mode);
    let binding = Binding {
        key: "t".to_string(),
        description: "Terminals".to_string(),
        actions: vec![open_app("Terminal"), open_app("iTerm")],
    };
    let editor = BindingEditor::from_binding(&binding);
    assert_eq!(editor.to_binding(), binding);
    assert_eq!(editor.selected_action, 0);
    assert_eq!(editor.field, EditorField::Key);
    assert_eq!(editor.clone(), editor);
    assert_eq!(clone_optional_editor(&None), None);
    assert_eq!(clone_optional_editor(&Some(ActionEditor::new())), Some(ActionEditor::new()));
}

#[test]
fn binding_fields_cycle() {
    let mut editor = BindingEditor::new();
    for field in [EditorField::Description, EditorField::Actions, EditorField::Key] {
        editor.next_field();
        assert_eq!(editor.field, field);
    }
    for field in [EditorField::Actions, EditorField::Description, EditorField::Key] {
        editor.prev_field();
        assert_eq!(editor.field, field);
    }
}

#[test]
fn adding_an_action_appends_and_selects_it() {
    let mut editor = editor_with(&["a", "b"]);
    editor.start_adding_action();
    assert_eq!(editor.action_editor, Some(ActionEditor::new()));
    assert_eq!(editor.editing_action_index, None);
    let mut action_editor = editor.action_editor.take().unwrap();
    action_editor.action_type = ActionType::Shell;
    action_editor.target = "ls".to_string();
    editor.action_editor = Some(action_editor);
    editor.finish_action_edit();
    assert_eq!(targets(&editor), vec!["a", "b", "ls"]);
    assert_eq!(editor.selected_action, 2);
    assert_eq!(editor.action_editor, None);
    assert_eq!(editor.editing_action_index, None);
    editor.finish_action_edit();
    assert_eq!(targets(&editor), vec!["a", "b", "ls"]);
}

#[test]
fn editing_an_action_replaces_it_in_place() {
    let mut editor = editor_with(&["a", "b", "c"]);
    editor.selected_action = 1;
    editor.start_editing_action();
    assert_eq!(editor.editing_action_index, Some(1));
    assert_eq!(editor.action_editor, Some(ActionEditor::from_action(&open_app("b"))));
    let mut action_editor = editor.action_editor.take().unwrap();
    action_editor.target = "B".to_string();
    editor.action_editor = Some(action_editor);
    editor.finish_action_edit();
    assert_eq!(targets(&editor), vec!["a", "B", "c"]);
    assert_eq!(editor.selected_action, 1);
    assert_eq!(editor.action_editor, None);
    assert_eq!(editor.editing_action_index, None);
}

#[test]
fn editing_without_actions_opens_nothing() {
    let mut editor = BindingEditor::new();
    editor.start_editing_action();
    assert_eq!(editor.action_editor, None);
    assert_eq!(editor.editing_action_index, None);
}

#[test]
fn cancelling_an_action_edit_changes_no_action() {
    let mut editor = editor_with(&["a", "b"]);
    editor.selected_action = 1;
    editor.start_editing_action();
    let mut action_editor = editor.action_editor.take().unwrap();
    action_editor.target = "changed".to_string();
    editor.action_editor = Some(action_editor);
    editor.cancel_action_edit();
    assert_eq!(targets(&editor), vec!["a", "b"]);
    assert_eq!(editor.action_editor, None);
    assert_eq!(editor.editing_action_index, None);
    assert_eq!(editor.selected_action, 1);
}

#[test]
fn deleting_keeps_the_selection_on_the_list() {
    let mut editor = editor_with(&["a", "b", "c"]);
    editor.selected_action = 1;
    editor.delete_selected_action();
    assert_eq!(targets(&editor), vec!["a", "c"]);
    assert_eq!(editor.selected_action, 1);
    editor.delete_selected_action();
    assert_eq!(targets(&editor), vec!["a"]);
    assert_eq!(editor.selected_action, 0);
    editor.delete_selected_action();
    assert!(editor.actions.is_empty());
    assert_eq!(editor.selected_action, 0);
    editor.delete_selected_action();
    assert!(editor.actions.is_empty());
    assert_eq!(editor.selected_action, 0);
}

#[test]
fn moving_swaps_with_the_neighbour_and_stops_at_the_ends() {
    let mut editor = editor_with(&["a", "b", "c"]);
    editor.move_action_up();
    assert_eq!(targets(&editor), vec!["a", "b", "c"]);
    assert_eq!(editor.selected_action, 0);
    editor.move_action_down();
    assert_eq!(targets(&editor), vec!["b", "a", "c"]);
    assert_eq!(editor.selected_action, 1);
    editor.move_action_down();
    assert_eq!(targets(&editor), vec!["b", "c", "a"]);
    assert_eq!(editor.selected_action, 2);
    editor.move_action_down();
    assert_eq!(targets(&editor), vec!["b", "c", "a"]);
    assert_eq!(editor.selected_action, 2);
    editor.move_action_up();
    assert_eq!(targets(&editor), vec!["b", "a", "c"]);
    assert_eq!(editor.selected_action, 1);
    let mut empty = BindingEditor::new();
    empty.move_action_down();
    empty.move_action_up();
    assert!(empty.actions.is_empty());
    assert_eq!(empty.selected_action, 0);
}

#[test]
fn highlight_moves_within_the_list() {
    let mut editor = editor_with(&["a", "b"]);
    editor.select_previous_action();
    assert_eq!(editor.selected_action, 0);
    editor.select_next_action();
    assert_eq!(editor.selected_action, 1);
    editor.select_next_action();
    assert_eq!(editor.selected_action, 1);
    editor.select_previous_action();
    assert_eq!(editor.selected_action, 0);
    let mut empty = BindingEditor::new();
    empty.select_next_action();
    assert_eq!(empty.selected_action, 0);
}
