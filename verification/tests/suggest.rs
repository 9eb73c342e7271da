use karabiner_rcmd_binder::app_discovery::{lowered_components, lowered_names, DiscoveredApp};
use karabiner_rcmd_binder::config::model::{Action, Binding};
use karabiner_rcmd_binder::suggest::{
    find_beginning_with, letter_is_bound, letters, name_is_shared, suggest_apps,
    suggest_bindings, suggestion_for_app, suggestions_from_keys, AutocompleteSuggestion,
    SUGGESTION_LIMIT,
};

fn found(name: &str, bundle_id: &str) -> DiscoveredApp {
    DiscoveredApp::new(name.to_string(), bundle_id.to_string(), 0)
}

fn bound(key: &str) -> Binding {
    Binding { key: key.to_string(), description: String::new(), actions: Vec::new() }
}

fn entry(display: &str, value: &str, bundle_id: &str) -> AutocompleteSuggestion {
    AutocompleteSuggestion {
        display: display.to_string(),
        value: value.to_string(),
        bundle_id: bundle_id.to_string(),
    }
}

fn row(s: &str) -> Vec<char> {
    s.chars().collect()
}

fn suggest(apps: &Vec<DiscoveredApp>, partial: &str) -> Vec<AutocompleteSuggestion> {
    suggest_apps(
        apps,
        &lowered_names(apps),
        &lowered_components(apps),
        partial.is_empty(),
        &row(&partial.to_lowercase()),
    )
}

#[test]
fn key_suggestions_are_the_first_ten_codes() {
    assert_eq!(SUGGESTION_LIMIT, 10);
    let codes = vec!["f1", "f10"];
    assert_eq!(suggestions_from_keys(&codes), vec![entry("f1", "f1", ""), entry("f10", "f10", "")]);
    let many = vec!["a", "b", "c", "d", "e", "f", "g", "h", "i", "j", "k", "l"];
    let suggestions = suggestions_from_keys(&many);
    assert_eq!(suggestions.len(), 10);
    assert_eq!(suggestions[9], entry("j", "j", ""));
    assert_eq!(suggestions_from_keys(&Vec::new()), Vec::new());
    assert_eq!(suggestions[0].clone(), suggestions[0]);
}

#[test]
fn shared_names_are_told_apart_by_their_bundle_ids() {
    let apps = vec![
        found("Safari", "com.apple.Safari"),
        found("Terminal", "com.apple.terminal"),
        found("terminal", "org.other.terminal"),
    ];
    assert!(name_is_shared(&apps, "Terminal"));
    assert!(name_is_shared(&apps, "TERMINAL"));
    assert!(!name_is_shared(&apps, "Safari"));
    assert!(!name_is_shared(&apps, "Nothing"));
    assert_eq!(
        suggest(&apps, "term"),
        vec![
            entry("Terminal (apple.terminal)", "Terminal", "com.apple.terminal"),
            entry("terminal (other.terminal)", "terminal", "org.other.terminal"),
        ]
    );
    assert_eq!(
        suggestion_for_app(&apps, &apps[0]),
        entry("Safari", "Safari", "com.apple.Safari")
    );
}

#[test]
fn a_single_name_is_shown_bare() {
    let apps = vec![found("Safari", "com.apple.Safari"), found("Terminal", "com.apple.Terminal")];
    assert_eq!(suggest(&apps, "term"), vec![entry("Terminal", "Terminal", "com.apple.Terminal")]);
}

#[test]
fn apps_match_by_name_or_last_component() {
    let apps = vec![
        found("Calendar", "com.apple.iCal"),
        found("KakaoWork", "com.kakaoenterprise.macos.kakaowork"),
        found("Visual Studio Code", "com.microsoft.VSCode"),
        found("Mail", "com.apple.mail"),
    ];
    let shown = |partial: &str| -> Vec<String> {
        suggest(&apps, partial).into_iter().map(|s| s.value).collect()
    };
    assert_eq!(shown("ical"), vec!["Calendar"]);
    assert_eq!(shown("VSC"), vec!["Visual Studio Code"]);
    assert_eq!(shown("studio"), vec!["Visual Studio Code"]);
    assert_eq!(shown("al"), vec!["Calendar", "Visual Studio Code"]);
    assert_eq!(shown("k"), vec!["KakaoWork"]);
    assert_eq!(shown("microsoft"), Vec::<String>::new());
    assert_eq!(shown(""), vec!["Calendar", "KakaoWork", "Visual Studio Code", "Mail"]);
}

#[test]
fn filtered_apps_are_capped_at_ten_but_all_are_shown_for_nothing() {
    let apps: Vec<DiscoveredApp> =
        (0..15).map(|i| found(&format!("App {}", i), &format!("com.example.app{}", i))).collect();
    let filtered = suggest(&apps, "app");
    assert_eq!(filtered.len(), 10);
    assert_eq!(filtered[0].value, "App 0");
    assert_eq!(filtered[9].value, "App 9");
    assert_eq!(suggest(&apps, "").len(), 15);
    assert_eq!(suggest(&apps, "app1").len(), 6);
    assert_eq!(suggest(&Vec::new(), ""), Vec::new());
}

#[test]
fn letters_are_the_alphabet() {
    let all: String = letters().iter().collect();
    assert_eq!(all, "abcdefghijklmnopqrstuvwxyz");
}

#[test]
fn bound_letters_are_found_by_their_key() {
    let bindings = vec![bound("t"), bound("f1"), bound("S")];
    assert!(letter_is_bound(&bindings, 't'));
    assert!(!letter_is_bound(&bindings, 'f'));
    assert!(!letter_is_bound(&bindings, 's'));
    assert!(!letter_is_bound(&Vec::new(), 'a'));
}

#[test]
fn first_name_with_an_initial_is_found() {
    let names = vec![row("safari"), row(""), row("terminal"), row("slack")];
    assert_eq!(find_beginning_with(&names, 's'), Some(0));
    assert_eq!(find_beginning_with(&names, 't'), Some(2));
    assert_eq!(find_beginning_with(&names, 'x'), None);
    assert_eq!(find_beginning_with(&Vec::new(), 's'), None);
}

#[test]
fn free_letters_get_the_first_app_of_their_initial() {
    let apps = vec![
        found("Calendar", "com.apple.iCal"),
        found("Safari", "com.apple.Safari"),
        found("slack", "com.tinyspeck.slackmacgap"),
        found("Terminal", "com.apple.Terminal"),
        found("Über", "com.example.uber"),
    ];
    let bindings = vec![bound("t"), bound("f1")];
    let suggested = suggest_bindings(&bindings, &apps, &lowered_names(&apps));
    assert_eq!(
        suggested,
        vec![
            Binding {
                key: "c".to_string(),
                description: "Open Calendar".to_string(),
                actions: vec![Action::App {
                    target: "Calendar".to_string(),
                    bundle_id: Some("com.apple.iCal".to_string()),
                }],
            },
            Binding {
                key: "s".to_string(),
                description: "Open Safari".to_string(),
                actions: vec![Action::App {
                    target: "Safari".to_string(),
                    bundle_id: Some("com.apple.Safari".to_string()),
                }],
            },
        ]
    );
    assert_eq!(suggest_bindings(&bindings, &Vec::new(), &Vec::new()), Vec::new());
    let all_bound: Vec<Binding> = letters().iter().map(|c| bound(&c.to_string())).collect();
    assert_eq!(suggest_bindings(&all_bound, &apps, &lowered_names(&apps)), Vec::new());
}
