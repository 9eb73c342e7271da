//! What the binder proposes: completions for a partly typed key or
//! application name, and bindings for letters that have none yet.

use crate::app_discovery::{
    extract_parent_component, lowered_components_of, lowered_names_of, parent_component_of,
    DiscoveredApp, DiscoveredAppView,
};
use crate::config::model::{Action, ActionView, Binding, BindingView};
use crate::keycodes::{completions, texts};
use crate::text::{
    chars_contain, eq_ignore_ascii_case, eq_ignoring_ascii_case, has_substring, lowercase_of,
    push_char, rows,
};
use vstd::prelude::*;
use vstd::string::StringExecFns;

verus! {

/// One entry of the completion list.
#[derive(Debug, PartialEq, Eq)]
pub struct AutocompleteSuggestion {
    /// What the list shows.
    pub display: String,
    /// What goes into the field when the entry is chosen.
    pub value: String,
    /// The bundle id that goes with an application; empty for a key.
    pub bundle_id: String,
}

/// What an `AutocompleteSuggestion` holds.
pub struct SuggestionView {
    pub display: Seq<char>,
    pub value: Seq<char>,
    pub bundle_id: Seq<char>,
}

impl View for AutocompleteSuggestion {
    type V = SuggestionView;

    open spec fn view(&self) -> SuggestionView {
        SuggestionView { display: self.display@, value: self.value@, bundle_id: self.bundle_id@ }
    }
}

impl DeepView for AutocompleteSuggestion {
    type V = SuggestionView;

    open spec fn deep_view(&self) -> SuggestionView {
        self@
    }
}

impl Clone for AutocompleteSuggestion {
    fn clone(&self) -> (r: Self)
        ensures
            r@ == self@,
    {
        AutocompleteSuggestion {
            display: self.display.clone(),
            value: self.value.clone(),
            bundle_id: self.bundle_id.clone(),
        }
    }
}

/// The most entries that a filtered completion list holds.
pub const SUGGESTION_LIMIT: usize = 10;

/// The entry that proposes a key code.
pub open spec fn key_suggestion(code: Seq<char>) -> SuggestionView {
    SuggestionView { display: code, value: code, bundle_id: Seq::empty() }
}

/// The entries for the first ten of `codes`.
pub open spec fn key_suggestions_from(codes: Seq<Seq<char>>) -> Seq<SuggestionView> {
    Seq::new(
        if codes.len() < SUGGESTION_LIMIT {
            codes.len()
        } else {
            SUGGESTION_LIMIT as nat
        },
        |i: int| key_suggestion(codes[i]),
    )
}

/// The completion list for a partly typed key: the first ten key codes that
/// complete it.
pub open spec fn key_suggestions(partial: Seq<char>) -> Seq<SuggestionView> {
    key_suggestions_from(completions(partial))
}

/// How many of the first `n` applications have `name`, but for the case of
/// ASCII letters.
pub open spec fn same_name_count(apps: Seq<DiscoveredAppView>, name: Seq<char>, n: nat) -> nat
    decreases n,
{
    if n == 0 {
        0
    } else if eq_ignoring_ascii_case(apps[n - 1].name, name) {
        same_name_count(apps, name, (n - 1) as nat) + 1
    } else {
        same_name_count(apps, name, (n - 1) as nat)
    }
}

/// Two or more applications have `name`, but for the case of ASCII letters.
pub open spec fn has_name_conflict(apps: Seq<DiscoveredAppView>, name: Seq<char>) -> bool {
    same_name_count(apps, name, apps.len()) > 1
}

/// What the completion list shows for an application: its name, followed
/// in brackets by the last two parts of its bundle id where another
/// application has the same name.
pub open spec fn app_label(apps: Seq<DiscoveredAppView>, app: DiscoveredAppView) -> Seq<char> {
    if has_name_conflict(apps, app.name) {
        app.name + " ("@ + parent_component_of(app.bundle_id) + ")"@
    } else {
        app.name
    }
}

/// The entry that proposes an application. Its value is the bare name.
pub open spec fn app_suggestion(
    apps: Seq<DiscoveredAppView>,
    app: DiscoveredAppView,
) -> SuggestionView {
    SuggestionView { display: app_label(apps, app), value: app.name, bundle_id: app.bundle_id }
}

/// Of the first `n` applications, the first `cap` whose name or last
/// component, as given in `names` and `components`, holds `needle`.
pub open spec fn matching_apps(
    apps: Seq<DiscoveredAppView>,
    names: Seq<Seq<char>>,
    components: Seq<Seq<char>>,
    needle: Seq<char>,
    n: nat,
    cap: nat,
) -> Seq<DiscoveredAppView>
    decreases n,
{
    if n == 0 {
        Seq::empty()
    } else {
        let prev = matching_apps(apps, names, components, needle, (n - 1) as nat, cap);
        if prev.len() < cap && (has_substring(names[n - 1], needle) || has_substring(
            components[n - 1],
            needle,
        )) {
            prev.push(apps[n - 1])
        } else {
            prev
        }
    }
}

/// The completion list for applications: all of them where `show_all` is
/// set, else the first ten that match `needle`.
pub open spec fn app_suggestions_from(
    apps: Seq<DiscoveredAppView>,
    names: Seq<Seq<char>>,
    components: Seq<Seq<char>>,
    show_all: bool,
    needle: Seq<char>,
) -> Seq<SuggestionView> {
    let shown = if show_all {
        apps
    } else {
        matching_apps(apps, names, components, needle, apps.len(), SUGGESTION_LIMIT as nat)
    };
    shown.map_values(|a: DiscoveredAppView| app_suggestion(apps, a))
}

/// The completion list for a partly typed application name: every
/// application where nothing was typed, else the first ten whose lowercase
/// name or last component holds the lowercase form of what was typed.
pub open spec fn app_suggestions(
    apps: Seq<DiscoveredAppView>,
    partial: Seq<char>,
) -> Seq<SuggestionView> {
    app_suggestions_from(
        apps,
        lowered_names_of(apps),
        lowered_components_of(apps),
        partial.len() == 0,
        lowercase_of(partial),
    )
}

/// The letters that a suggested binding can have for its key.
pub open spec fn alphabet() -> Seq<char> {
    seq![
        'a', 'b', 'c', 'd', 'e', 'f', 'g', 'h', 'i', 'j', 'k', 'l', 'm', 'n', 'o', 'p', 'q', 'r',
        's', 't', 'u', 'v', 'w', 'x', 'y', 'z',
    ]
}

/// A saved binding has `key` for its key.
pub open spec fn has_key(bindings: Seq<BindingView>, key: Seq<char>) -> bool {
    exists|i: int| 0 <= i < bindings.len() && (#[trigger] bindings[i]).key == key
}

/// The first index from `from` on at which a name begins with `c`; -1 where
/// none does.
pub open spec fn first_beginning_with(names: Seq<Seq<char>>, c: char, from: int) -> int
    decreases names.len() - from,
{
    if from < 0 || from >= names.len() {
        -1
    } else if names[from].len() > 0 && names[from][0] == c {
        from
    } else {
        first_beginning_with(names, c, from + 1)
    }
}

/// The binding that proposes `app` for the letter `c`.
pub open spec fn suggested_binding(app: DiscoveredAppView, c: char) -> BindingView {
    BindingView {
        key: seq![c],
        description: "Open "@ + app.name,
        actions: seq![ActionView::App { target: app.name, bundle_id: Some(app.bundle_id) }],
    }
}

/// The suggested bindings for the first `n` letters: for each letter that no
/// saved binding has for its key, the first application whose name, as given
/// in `names`, begins with it.
pub open spec fn suggested_from(
    bindings: Seq<BindingView>,
    apps: Seq<DiscoveredAppView>,
    names: Seq<Seq<char>>,
    n: nat,
) -> Seq<BindingView>
    decreases n,
{
    if n == 0 {
        Seq::empty()
    } else {
        let prev = suggested_from(bindings, apps, names, (n - 1) as nat);
        let c = alphabet()[n - 1];
        let at = first_beginning_with(names, c, 0);
        if !has_key(bindings, seq![c]) && at >= 0 {
            prev.push(suggested_binding(apps[at], c))
        } else {
            prev
        }
    }
}

/// The suggested bindings: for each letter from `a` to `z` that no saved
/// binding has for its key, the first application whose lowercase name
/// begins with it.
pub open spec fn suggested(
    bindings: Seq<BindingView>,
    apps: Seq<DiscoveredAppView>,
) -> Seq<BindingView> {
    suggested_from(bindings, apps, lowered_names_of(apps), 26)
}

/// Where a table has every key of another, it leaves no fewer letters free:
/// there are at least as many suggestions for the smaller table.
pub proof fn lemma_suggested_grows(
    fewer: Seq<BindingView>,
    more: Seq<BindingView>,
    apps: Seq<DiscoveredAppView>,
    names: Seq<Seq<char>>,
    n: nat,
)
    requires
        forall|key: Seq<char>| has_key(fewer, key) ==> has_key(more, key),
    ensures
        suggested_from(more, apps, names, n).len() <= suggested_from(fewer, apps, names, n).len(),
    decreases n,
{
    if n > 0 {
        lemma_suggested_grows(fewer, more, apps, names, (n - 1) as nat);
    }
}

/// The entries for the first ten of `codes`.
pub fn suggestions_from_keys(codes: &Vec<&'static str>) -> (r: Vec<AutocompleteSuggestion>)
    ensures
        r.deep_view() == key_suggestions_from(texts(codes@)),
{
    let mut out: Vec<AutocompleteSuggestion> = Vec::new();
    let mut i: usize = 0;
    while i < codes.len() && i < SUGGESTION_LIMIT
        invariant
            i <= codes.len(),
            i <= SUGGESTION_LIMIT,
            out.len() == i,
            forall|j: int| 0 <= j < i ==> (#[trigger] out[j])@ == key_suggestion(codes[j]@),
        decreases codes.len() - i,
    {
        out.push(
            AutocompleteSuggestion {
                display: String::from_str(codes[i]),
                value: String::from_str(codes[i]),
                bundle_id: String::new(),
            },
        );
        i += 1;
    }
    assert(out.deep_view() =~= key_suggestions_from(texts(codes@)));
    out
}

/// Whether two or more applications have `name`, but for the case of ASCII
/// letters.
pub fn name_is_shared(apps: &Vec<DiscoveredApp>, name: &str) -> (r: bool)
    ensures
        r == has_name_conflict(apps.deep_view(), name@),
{
    let mut seen: usize = 0;
    let mut i: usize = 0;
    while i < apps.len()
        invariant
            i <= apps.len(),
            seen <= i,
            seen == same_name_count(apps.deep_view(), name@, i as nat),
        decreases apps.len() - i,
    {
        if eq_ignore_ascii_case(apps[i].name.as_str(), name) {
            seen += 1;
        }
        i += 1;
    }
    seen > 1
}

/// The completion entry for `app`, labelled so that it can be told from the
/// others of `apps`.
pub fn suggestion_for_app(apps: &Vec<DiscoveredApp>, app: &DiscoveredApp) -> (r:
    AutocompleteSuggestion)
    ensures
        r@ == app_suggestion(apps.deep_view(), app@),
{
    let mut display = app.name.clone();
    if name_is_shared(apps, app.name.as_str()) {
        let parent = extract_parent_component(app.bundle_id.as_str());
        display.append(" (");
        display.append(parent.as_str());
        display.append(")");
    }
    AutocompleteSuggestion { display, value: app.name.clone(), bundle_id: app.bundle_id.clone() }
}

/// The completion list for applications, given the lowercase forms of their
/// names and last components and of what was typed: all applications where
/// `show_all` is set, else the first ten whose name or last component holds
/// `needle`.
pub fn suggest_apps(
    apps: &Vec<DiscoveredApp>,
    names: &Vec<Vec<char>>,
    components: &Vec<Vec<char>>,
    show_all: bool,
    needle: &Vec<char>,
) -> (r: Vec<AutocompleteSuggestion>)
    requires
        names.len() == apps.len(),
        components.len() == apps.len(),
    ensures
        r.deep_view() == app_suggestions_from(
            apps.deep_view(),
            rows(names@),
            rows(components@),
            show_all,
            needle@,
        ),
{
    let ghost all = apps.deep_view();
    let mut out: Vec<AutocompleteSuggestion> = Vec::new();
    let mut i: usize = 0;
    while i < apps.len()
        invariant
            i <= apps.len(),
            names.len() == apps.len(),
            components.len() == apps.len(),
            all == apps.deep_view(),
            out.len() <= i,
            show_all ==> out.deep_view() == all.take(i as int).map_values(
                |a: DiscoveredAppView| app_suggestion(all, a),
            ),
            !show_all ==> out.deep_view() == matching_apps(
                all,
                rows(names@),
                rows(components@),
                needle@,
                i as nat,
                SUGGESTION_LIMIT as nat,
            ).map_values(|a: DiscoveredAppView| app_suggestion(all, a)),
            !show_all ==> out.len() == matching_apps(
                all,
                rows(names@),
                rows(components@),
                needle@,
                i as nat,
                SUGGESTION_LIMIT as nat,
            ).len(),
        decreases apps.len() - i,
    {
        let ghost before = out.deep_view();
        let ghost shown = matching_apps(
            all,
            rows(names@),
            rows(components@),
            needle@,
            i as nat,
            SUGGESTION_LIMIT as nat,
        );
        let wanted = show_all || (out.len() < SUGGESTION_LIMIT && (chars_contain(&names[i], needle)
            || chars_contain(&components[i], needle)));
        if wanted {
            out.push(suggestion_for_app(apps, &apps[i]));
            proof {
                assert(out.deep_view() =~= before.push(app_suggestion(all, all[i as int])));
                if show_all {
                    assert(all.take(i + 1) =~= all.take(i as int).push(all[i as int]));
                    assert(all.take(i + 1).map_values(
                        |a: DiscoveredAppView| app_suggestion(all, a),
                    ) =~= before.push(app_suggestion(all, all[i as int])));
                } else {
                    assert(shown.push(all[i as int]).map_values(
                        |a: DiscoveredAppView| app_suggestion(all, a),
                    ) =~= before.push(app_suggestion(all, all[i as int])));
                }
            }
        }
        i += 1;
    }
    assert(all.take(apps.len() as int) =~= all);
    out
}

/// The letters `a` to `z`.
pub fn letters() -> (r: &'static [char])
    ensures
        r@ == alphabet(),
{
    &[
        'a', 'b', 'c', 'd', 'e', 'f', 'g', 'h', 'i', 'j', 'k', 'l', 'm', 'n', 'o', 'p', 'q', 'r',
        's', 't', 'u', 'v', 'w', 'x', 'y', 'z',
    ]
}

/// Whether a binding of `bindings` has the one letter `c` for its key.
pub fn letter_is_bound(bindings: &Vec<Binding>, c: char) -> (r: bool)
    ensures
        r == has_key(bindings.deep_view(), seq![c]),
{
    let mut key = String::new();
    push_char(&mut key, c);
    assert(key@ =~= seq![c]);
    let mut i: usize = 0;
    while i < bindings.len()
        invariant
            i <= bindings.len(),
            key@ == seq![c],
            forall|j: int| 0 <= j < i ==> (#[trigger] bindings.deep_view()[j]).key != seq![c],
        decreases bindings.len() - i,
    {
        if bindings[i].key == key {
            assert(bindings.deep_view()[i as int].key == seq![c]);
            return true;
        }
        i += 1;
    }
    false
}

/// The first index at which a name begins with `c`.
pub fn find_beginning_with(names: &Vec<Vec<char>>, c: char) -> (r: Option<usize>)
    ensures
        match r {
            Some(i) => i < names.len() && i == first_beginning_with(rows(names@), c, 0),
            None => first_beginning_with(rows(names@), c, 0) == -1,
        },
{
    let mut i: usize = 0;
    while i < names.len()
        invariant
            i <= names.len(),
            first_beginning_with(rows(names@), c, 0) == first_beginning_with(
                rows(names@),
                c,
                i as int,
            ),
        decreases names.len() - i,
    {
        assert(rows(names@)[i as int] == names[i as int]@);
        if names[i].len() > 0 && names[i][0] == c {
            return Some(i);
        }
        i += 1;
    }
    None
}

/// The bindings to suggest, given the lowercase forms of the applications'
/// names: for each letter that no saved binding has for its key, one that
/// opens the first application whose name begins with it.
pub fn suggest_bindings(bindings: &Vec<Binding>, apps: &Vec<DiscoveredApp>, names: &Vec<Vec<char>>) -> (r:
    Vec<Binding>)
    requires
        names.len() == apps.len(),
    ensures
        r.deep_view() == suggested_from(bindings.deep_view(), apps.deep_view(), rows(names@), 26),
        r.len() <= 26,
{
    let keys = letters();
    let mut out: Vec<Binding> = Vec::new();
    let mut n: usize = 0;
    while n < keys.len()
        invariant
            n <= 26,
            keys@ == alphabet(),
            names.len() == apps.len(),
            out.len() <= n,
            out.deep_view() == suggested_from(
                bindings.deep_view(),
                apps.deep_view(),
                rows(names@),
                n as nat,
            ),
        decreases 26 - n,
    {
        let c = keys[n];
        let ghost before = out.deep_view();
        if !letter_is_bound(bindings, c) {
            if let Some(at) = find_beginning_with(names, c) {
                let app = &apps[at];
                let mut key = String::new();
                push_char(&mut key, c);
                let mut description = String::from_str("Open ");
                description.append(app.name.as_str());
                let mut actions: Vec<Action> = Vec::new();
                actions.push(
                    Action::App {
                        target: app.name.clone(),
                        bundle_id: Some(app.bundle_id.clone()),
                    },
                );
                let binding = Binding { key, description, actions };
                proof {
                    assert(binding.key@ =~= seq![c]);
                    assert(binding.actions.deep_view() =~= seq![
                        ActionView::App { target: app@.name, bundle_id: Some(app@.bundle_id) },
                    ]);
                    assert(binding@ == suggested_binding(apps.deep_view()[at as int], c));
                }
                out.push(binding);
                assert(out.deep_view() =~= before.push(
                    suggested_binding(apps.deep_view()[at as int], c),
                ));
            }
        }
        n += 1;
    }
    out
}

} // verus!
