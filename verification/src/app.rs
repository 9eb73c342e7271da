//! The state of the interactive binder and the operations on it.
//!
//! The list that the user walks through holds the saved bindings first and
//! the suggested ones behind them: a selection below the number of saved
//! bindings is a saved binding, one from there on is a suggestion.

use crate::app_discovery::{
    clone_apps, identities, in_batch, is_fresh, is_last_of_id, lemma_merge_again,
    lowered_components, lowered_names, merge_discovered, merged_cache, DiscoveredApp,
    DiscoveredAppView,
};
use crate::config::model::{AnchorKey, Binding, BindingView, Browser, Config, ConfigView};
use crate::editor::{BindingEditor, BindingEditorView};
use crate::keycodes::{autocomplete, is_valid_key, key_codes};
use crate::sorting::{
    key_le, lemma_stable_order_sorts, permuted, places, stable_order, stable_order_of, SortKey,
    SortKeyView,
};
use crate::suggest::{
    app_suggestions, has_key, key_suggestions, lemma_suggested_grows, suggest_apps,
    suggest_bindings, suggested, suggestions_from_keys, AutocompleteSuggestion, SuggestionView,
};
use crate::text::{chars_of, lemma_lex_le_refl, lex_le, to_lowercase};
use vstd::prelude::*;
use vstd::string::StringExecFns;

verus! {

/// The two screens.
#[derive(Clone, Copy, Debug, PartialEq, Eq, Structural)]
pub enum Tab {
    Bindings,
    Settings,
}

/// Whether keys go to the lists or to an open editor.
#[derive(Clone, Copy, Debug, PartialEq, Eq, Structural)]
pub enum InputMode {
    Normal,
    Editing,
}

/// The fields of the settings screen.
#[derive(Clone, Copy, Debug, PartialEq, Eq, Structural)]
pub enum SettingsField {
    AnchorKey,
    DefaultBrowser,
}

/// Everything the binder holds while it runs.
#[derive(Debug, PartialEq, Eq)]
pub struct App {
    pub config: Config,
    pub tab: Tab,
    pub input_mode: InputMode,
    pub should_quit: bool,
    pub status_message: Option<String>,
    /// The place in the list of saved bindings followed by the suggestions.
    pub selected_binding: usize,
    pub binding_editor: Option<BindingEditor>,
    /// The saved binding that the editor was opened on; `None` for a new one.
    pub editing_binding_index: Option<usize>,
    pub settings_field: SettingsField,
    pub autocomplete_suggestions: Vec<AutocompleteSuggestion>,
    pub autocomplete_selected: usize,
    pub show_autocomplete: bool,
    pub discovered_apps: Vec<DiscoveredApp>,
    pub apps_loading: bool,
    /// The suggestions: bindings for letters that no saved binding uses.
    pub dynamic_bindings: Vec<Binding>,
}

/// What an `App` holds.
pub struct AppView {
    pub config: ConfigView,
    pub tab: Tab,
    pub input_mode: InputMode,
    pub should_quit: bool,
    pub status_message: Option<Seq<char>>,
    pub selected_binding: usize,
    pub binding_editor: Option<BindingEditorView>,
    pub editing_binding_index: Option<usize>,
    pub settings_field: SettingsField,
    pub autocomplete_suggestions: Seq<SuggestionView>,
    pub autocomplete_selected: usize,
    pub show_autocomplete: bool,
    pub discovered_apps: Seq<DiscoveredAppView>,
    pub apps_loading: bool,
    pub dynamic_bindings: Seq<BindingView>,
}

impl View for App {
    type V = AppView;

    open spec fn view(&self) -> AppView {
        AppView {
            config: self.config@,
            tab: self.tab,
            input_mode: self.input_mode,
            should_quit: self.should_quit,
            status_message: self.status_message.deep_view(),
            selected_binding: self.selected_binding,
            binding_editor: self.binding_editor.deep_view(),
            editing_binding_index: self.editing_binding_index,
            settings_field: self.settings_field,
            autocomplete_suggestions: self.autocomplete_suggestions.deep_view(),
            autocomplete_selected: self.autocomplete_selected,
            show_autocomplete: self.show_autocomplete,
            discovered_apps: self.discovered_apps.deep_view(),
            apps_loading: self.apps_loading,
            dynamic_bindings: self.dynamic_bindings.deep_view(),
        }
    }
}

/// The keys by which the table of bindings is sorted.
pub open spec fn binding_keys(bindings: Seq<BindingView>) -> Seq<SortKeyView> {
    bindings.map_values(|b: BindingView| SortKeyView { primary: b.key, secondary: Seq::empty() })
}

/// The bindings in ascending order of their keys, those of one key in the
/// order they had.
pub open spec fn sorted_bindings(bindings: Seq<BindingView>) -> Seq<BindingView> {
    permuted(bindings, stable_order_of(binding_keys(bindings), bindings.len()))
}

/// No binding stands before one of a smaller key.
pub open spec fn sorted_by_key(bindings: Seq<BindingView>) -> bool {
    forall|i: int, j: int|
        0 <= i < j < bindings.len() ==> lex_le(
            (#[trigger] bindings[i]).key,
            (#[trigger] bindings[j]).key,
        )
}

/// The first place from `from` on at which a binding has `key`; -1 where none has.
pub open spec fn key_position(bindings: Seq<BindingView>, key: Seq<char>, from: int) -> int
    decreases bindings.len() - from,
{
    if from < 0 || from >= bindings.len() {
        -1
    } else if bindings[from].key == key {
        from
    } else {
        key_position(bindings, key, from + 1)
    }
}

/// The first place at which a binding has `key`; 0 where none has.
pub open spec fn place_of_key(bindings: Seq<BindingView>, key: Seq<char>) -> usize {
    if key_position(bindings, key, 0) < 0 {
        0
    } else {
        key_position(bindings, key, 0) as usize
    }
}

/// What the status line says when a binding cannot be saved for its key.
pub open spec fn invalid_key_message(key: Seq<char>) -> Seq<char> {
    "Invalid key: '"@ + key + "'. Use autocomplete for valid keys."@
}

/// The browser one step later in the list, around the end.
pub open spec fn browser_after(b: Browser) -> Browser {
    Browser::listed()[(b.position() + 1) % 5]
}

/// The browser one step earlier in the list, around the end.
pub open spec fn browser_before(b: Browser) -> Browser {
    Browser::listed()[if b.position() == 0 {
        4
    } else {
        b.position() - 1
    }]
}

/// The other anchor key.
pub open spec fn other_anchor(k: AnchorKey) -> AnchorKey {
    match k {
        AnchorKey::RightCommand => AnchorKey::RightOption,
        AnchorKey::RightOption => AnchorKey::RightCommand,
    }
}

impl AppView {
    /// The state at start, around a loaded configuration.
    pub open spec fn initial(config: ConfigView) -> AppView {
        AppView {
            config,
            tab: Tab::Bindings,
            input_mode: InputMode::Normal,
            should_quit: false,
            status_message: None,
            selected_binding: 0,
            binding_editor: None,
            editing_binding_index: None,
            settings_field: SettingsField::AnchorKey,
            autocomplete_suggestions: Seq::empty(),
            autocomplete_selected: 0,
            show_autocomplete: false,
            discovered_apps: Seq::empty(),
            apps_loading: false,
            dynamic_bindings: Seq::empty(),
        }
    }

    /// The length of the list: saved bindings and suggestions.
    pub open spec fn total(self) -> int {
        (self.config.bindings.len() + self.dynamic_bindings.len()) as int
    }

    /// The selection is a place of the list; on an empty list it is 0.
    pub open spec fn selection_ok(self) -> bool {
        self.selected_binding < self.total() || (self.total() == 0 && self.selected_binding == 0)
    }

    /// There are no more suggestions than the saved bindings and the known
    /// applications give rise to.
    pub open spec fn suggestions_bounded(self) -> bool {
        self.dynamic_bindings.len() <= suggested(self.config.bindings, self.discovered_apps).len()
    }

    /// What holds of the list between any two operations on it: the saved
    /// bindings are sorted by key, the selection is a place of the list, and
    /// there are no more suggestions than can be made.
    pub open spec fn table_ok(self) -> bool {
        &&& sorted_by_key(self.config.bindings)
        &&& self.selection_ok()
        &&& self.suggestions_bounded()
    }

    /// With another table of saved bindings.
    pub open spec fn with_bindings(self, bindings: Seq<BindingView>) -> AppView {
        AppView { config: ConfigView { bindings, ..self.config }, ..self }
    }

    /// With the suggestions made anew from the saved bindings and the known
    /// applications.
    pub open spec fn resuggested(self) -> AppView {
        AppView {
            dynamic_bindings: suggested(self.config.bindings, self.discovered_apps),
            ..self
        }
    }

    /// With the other screen in front.
    pub open spec fn other_tab(self) -> AppView {
        AppView {
            tab: match self.tab {
                Tab::Bindings => Tab::Settings,
                Tab::Settings => Tab::Bindings,
            },
            ..self
        }
    }

    /// With the selection one place down, around the end.
    pub open spec fn selecting_next(self) -> AppView {
        if self.total() > 0 {
            AppView {
                selected_binding: ((self.selected_binding + 1) % self.total()) as usize,
                ..self
            }
        } else {
            self
        }
    }

    /// With the selection one place up, around the end.
    pub open spec fn selecting_previous(self) -> AppView {
        if self.total() > 0 {
            AppView {
                selected_binding: if self.selected_binding == 0 {
                    (self.total() - 1) as usize
                } else {
                    (self.selected_binding - 1) as usize
                },
                ..self
            }
        } else {
            self
        }
    }

    /// With an editor open for a new binding.
    pub open spec fn adding(self) -> AppView {
        AppView {
            binding_editor: Some(BindingEditorView::blank()),
            editing_binding_index: None,
            input_mode: InputMode::Editing,
            ..self
        }
    }

    /// The selection is a suggestion, not a saved binding.
    pub open spec fn on_suggestion(self) -> bool {
        self.selected_binding >= self.config.bindings.len()
    }

    /// The suggestion under the selection, where the selection is on one.
    pub open spec fn selected_suggestion(self) -> Option<BindingView> {
        if self.config.bindings.len() <= self.selected_binding < self.total() {
            Some(self.dynamic_bindings[self.selected_binding - self.config.bindings.len()])
        } else {
            None
        }
    }

    /// With `binding` taken into the saved table: the table is sorted again,
    /// the selection goes to the first binding of that key, and the
    /// suggestions are made anew.
    pub open spec fn taking(self, binding: BindingView, placed: Seq<BindingView>) -> AppView {
        let table = sorted_bindings(placed);
        AppView {
            selected_binding: place_of_key(table, binding.key),
            ..self.with_bindings(table)
        }.resuggested()
    }

    /// With the selected suggestion made a saved binding; unchanged where the
    /// selection is not on a suggestion.
    pub open spec fn promoted(self) -> AppView {
        match self.selected_suggestion() {
            Some(binding) => self.taking(binding, self.config.bindings.push(binding)),
            None => self,
        }
    }

    /// With the editor open on the selected binding; a suggestion is made a
    /// saved binding first.
    pub open spec fn editing_selected(self) -> AppView {
        if self.selected_binding < self.config.bindings.len() {
            AppView {
                binding_editor: Some(
                    BindingEditorView::of(self.config.bindings[self.selected_binding as int]),
                ),
                editing_binding_index: Some(self.selected_binding),
                input_mode: InputMode::Editing,
                ..self
            }
        } else {
            match self.selected_suggestion() {
                Some(binding) => {
                    let taken = self.taking(binding, self.config.bindings.push(binding));
                    AppView {
                        binding_editor: Some(BindingEditorView::of(binding)),
                        editing_binding_index: Some(taken.selected_binding),
                        input_mode: InputMode::Editing,
                        ..taken
                    }
                },
                None => self,
            }
        }
    }

    /// The selection, brought back onto a list of `total` entries.
    pub open spec fn kept_on_list(selected: usize, total: int) -> usize {
        if selected >= total && total > 0 {
            (total - 1) as usize
        } else {
            selected
        }
    }

    /// Without the selected entry. Where a saved binding leaves, the
    /// suggestions are made anew; a suggestion just leaves its list.
    pub open spec fn deleted(self) -> AppView {
        let saved = self.config.bindings.len();
        if self.selected_binding < saved {
            let rest = self.config.bindings.remove(self.selected_binding as int);
            AppView {
                selected_binding: Self::kept_on_list(
                    self.selected_binding,
                    (rest.len() + self.dynamic_bindings.len()) as int,
                ),
                ..self.with_bindings(rest)
            }.resuggested()
        } else if self.selected_binding < self.total() {
            let rest = self.dynamic_bindings.remove(self.selected_binding - saved);
            AppView {
                selected_binding: Self::kept_on_list(
                    self.selected_binding,
                    (saved + rest.len()) as int,
                ),
                dynamic_bindings: rest,
                ..self
            }
        } else {
            self
        }
    }

    /// After an attempt to save the edited binding. A key outside the
    /// vocabulary leaves a message and everything else as it was, the editor
    /// open. Otherwise the binding takes the place it was opened on, or is
    /// added, the editor closes, the table is sorted again, the selection
    /// goes to the first binding of the saved key, and the suggestions are
    /// made anew.
    pub open spec fn saved(self) -> AppView {
        match self.binding_editor {
            None => self,
            Some(editor) => if !key_codes().contains(editor.key) {
                AppView { status_message: Some(invalid_key_message(editor.key)), ..self }
            } else {
                let placed = match self.editing_binding_index {
                    Some(idx) => self.config.bindings.update(idx as int, editor.binding()),
                    None => self.config.bindings.push(editor.binding()),
                };
                AppView {
                    binding_editor: None,
                    editing_binding_index: None,
                    input_mode: InputMode::Normal,
                    ..self
                }.taking(editor.binding(), placed)
            },
        }
    }

    /// Saving cannot fail for want of the place that the editor was opened on.
    pub open spec fn can_save(self) -> bool {
        match (self.binding_editor, self.editing_binding_index) {
            (Some(editor), Some(idx)) => key_codes().contains(editor.key) ==> idx
                < self.config.bindings.len(),
            _ => true,
        }
    }

    /// The highlight of the completion list is on the list; on an empty list
    /// it is 0.
    pub open spec fn completion_ok(self) -> bool {
        self.autocomplete_selected == 0 || self.autocomplete_selected
            < self.autocomplete_suggestions.len()
    }

    /// What holds while an editor is open: its highlights are on their lists,
    /// and what it was opened on is still there.
    pub open spec fn editing_ok(self) -> bool {
        &&& self.completion_ok()
        &&& match self.binding_editor {
            Some(editor) => {
                &&& editor.selection_ok()
                &&& editor.edit_target_ok()
                &&& (self.editing_binding_index matches Some(i) ==> i
                    < self.config.bindings.len())
            },
            None => true,
        }
    }

    /// With the editor closed and its content dropped.
    pub open spec fn cancelled(self) -> AppView {
        AppView {
            binding_editor: None,
            editing_binding_index: None,
            input_mode: InputMode::Normal,
            ..self
        }
    }

    /// With the completion list filled for a partly typed key. The list
    /// shows where it has entries and something was typed.
    pub open spec fn completing_key(self, partial: Seq<char>) -> AppView {
        AppView {
            autocomplete_suggestions: key_suggestions(partial),
            autocomplete_selected: 0,
            show_autocomplete: key_suggestions(partial).len() > 0 && partial.len() > 0,
            ..self
        }
    }

    /// With the completion list filled for a partly typed application name.
    /// The list shows where it has entries.
    pub open spec fn completing_app(self, partial: Seq<char>) -> AppView {
        AppView {
            autocomplete_suggestions: app_suggestions(self.discovered_apps, partial),
            autocomplete_selected: 0,
            show_autocomplete: app_suggestions(self.discovered_apps, partial).len() > 0,
            ..self
        }
    }

    /// With a batch of discovered applications merged into the cache at the
    /// time `now`: what the batch holds counts as seen at `now`.
    pub open spec fn discovered(self, batch: Seq<DiscoveredAppView>, now: int) -> AppView {
        let merged = merged_cache(self.config.cached_apps, batch, now);
        AppView {
            config: ConfigView { cached_apps: merged, ..self.config },
            discovered_apps: merged,
            apps_loading: false,
            ..self
        }.resuggested()
    }

    /// The highlighted entry of the completion list, while the list shows.
    pub open spec fn chosen_completion(self) -> Option<SuggestionView> {
        if self.show_autocomplete && self.autocomplete_selected
            < self.autocomplete_suggestions.len() {
            Some(self.autocomplete_suggestions[self.autocomplete_selected as int])
        } else {
            None
        }
    }

    /// With the highlight of the completion list one entry down, around the end.
    pub open spec fn highlighting_next(self) -> AppView {
        if self.autocomplete_suggestions.len() > 0 {
            AppView {
                autocomplete_selected: ((self.autocomplete_selected + 1)
                    % self.autocomplete_suggestions.len() as int) as usize,
                ..self
            }
        } else {
            self
        }
    }

    /// With the highlight of the completion list one entry up, around the end.
    pub open spec fn highlighting_previous(self) -> AppView {
        if self.autocomplete_suggestions.len() > 0 {
            AppView {
                autocomplete_selected: if self.autocomplete_selected == 0 {
                    (self.autocomplete_suggestions.len() - 1) as usize
                } else {
                    (self.autocomplete_selected - 1) as usize
                },
                ..self
            }
        } else {
            self
        }
    }

    /// With another default browser.
    pub open spec fn with_default_browser(self, browser: Browser) -> AppView {
        AppView {
            config: ConfigView {
                settings: crate::config::model::Settings {
                    default_browser: browser,
                    ..self.config.settings
                },
                ..self.config
            },
            ..self
        }
    }

    /// With another anchor key.
    pub open spec fn with_anchor_key(self, key: AnchorKey) -> AppView {
        AppView {
            config: ConfigView {
                settings: crate::config::model::Settings {
                    anchor_key: key,
                    ..self.config.settings
                },
                ..self.config
            },
            ..self
        }
    }
}

/// A sorted table is sorted by key and has the bindings it was made of.
pub proof fn lemma_sorted_bindings(bindings: Seq<BindingView>)
    ensures
        sorted_by_key(sorted_bindings(bindings)),
        sorted_bindings(bindings).len() == bindings.len(),
        forall|b: BindingView| sorted_bindings(bindings).contains(b) <==> bindings.contains(b),
{
    let keys = binding_keys(bindings);
    let order = stable_order_of(keys, bindings.len());
    let table = sorted_bindings(bindings);
    lemma_stable_order_sorts(keys, bindings.len());
    assert forall|i: int, j: int| 0 <= i < j < table.len() implies lex_le(
        (#[trigger] table[i]).key,
        (#[trigger] table[j]).key,
    ) by {
        assert(key_le(keys[order[i]], keys[order[j]]));
        lemma_lex_le_refl(table[i].key);
    }
    assert forall|b: BindingView| table.contains(b) <==> bindings.contains(b) by {
        if table.contains(b) {
            let i = choose|i: int| 0 <= i < table.len() && table[i] == b;
            assert(bindings[order[i]] == b);
        }
        if bindings.contains(b) {
            let k = choose|k: int| 0 <= k < bindings.len() && bindings[k] == b;
            assert(order.contains(k));
            let i = choose|i: int| 0 <= i < order.len() && order[i] == k;
            assert(table[i] == b);
        }
    }
}

/// Where a binding of the table has `key`, the search for the key finds a
/// place of the table.
pub proof fn lemma_key_position(bindings: Seq<BindingView>, key: Seq<char>, from: int)
    requires
        0 <= from,
    ensures
        key_position(bindings, key, from) == -1 || (from <= key_position(bindings, key, from)
            < bindings.len() && bindings[key_position(bindings, key, from)].key == key),
        (exists|i: int| from <= i < bindings.len() && (#[trigger] bindings[i]).key == key)
            ==> key_position(bindings, key, from) >= 0,
    decreases bindings.len() - from,
{
    if from < bindings.len() && bindings[from].key != key {
        lemma_key_position(bindings, key, from + 1);
    }
}

/// Taking a binding into the table leaves the list in order: sorted, and the
/// selection on the table.
pub proof fn lemma_taking_keeps_order(pre: AppView, binding: BindingView, placed: Seq<BindingView>)
    requires
        0 < placed.len() <= usize::MAX,
    ensures
        pre.taking(binding, placed).table_ok(),
        pre.taking(binding, placed).selected_binding < placed.len(),
        pre.taking(binding, placed).config.bindings.len() == placed.len(),
{
    let table = sorted_bindings(placed);
    lemma_sorted_bindings(placed);
    lemma_key_position(table, binding.key, 0);
}

/// Promoting the selected suggestion leaves the list in order.
pub proof fn lemma_promoted_keeps_order(pre: AppView)
    requires
        pre.table_ok(),
        pre.config.bindings.len() < usize::MAX,
    ensures
        pre.promoted().table_ok(),
{
    match pre.selected_suggestion() {
        Some(binding) => {
            lemma_taking_keeps_order(pre, binding, pre.config.bindings.push(binding));
        },
        None => {},
    }
}

/// Opening the editor on the selected entry leaves the list in order, and
/// the editor can be saved.
pub proof fn lemma_editing_keeps_order(pre: AppView)
    requires
        pre.table_ok(),
        pre.config.bindings.len() < usize::MAX,
    ensures
        pre.editing_selected().table_ok(),
        pre.can_save() || pre.selected_binding < pre.total()
            ==> pre.editing_selected().can_save(),
{
    if pre.selected_binding >= pre.config.bindings.len() {
        match pre.selected_suggestion() {
            Some(binding) => {
                lemma_taking_keeps_order(pre, binding, pre.config.bindings.push(binding));
            },
            None => {},
        }
    }
}

/// Deleting the selected entry leaves the list in order.
pub proof fn lemma_deleted_keeps_order(pre: AppView)
    requires
        pre.table_ok(),
    ensures
        pre.deleted().table_ok(),
{
    let saved = pre.config.bindings.len();
    if pre.selected_binding < saved {
        let rest = pre.config.bindings.remove(pre.selected_binding as int);
        assert forall|i: int, j: int| 0 <= i < j < rest.len() implies lex_le(
            (#[trigger] rest[i]).key,
            (#[trigger] rest[j]).key,
        ) by {
            let pi = if i < pre.selected_binding {
                i
            } else {
                i + 1
            };
            let pj = if j < pre.selected_binding {
                j
            } else {
                j + 1
            };
            assert(rest[i] == pre.config.bindings[pi] && rest[j] == pre.config.bindings[pj]);
        }
        assert forall|key: Seq<char>| has_key(rest, key) implies has_key(
            pre.config.bindings,
            key,
        ) by {
            let i = choose|i: int| 0 <= i < rest.len() && (#[trigger] rest[i]).key == key;
            let pi = if i < pre.selected_binding {
                i
            } else {
                i + 1
            };
            assert(pre.config.bindings[pi].key == key);
        }
        let names = crate::app_discovery::lowered_names_of(pre.discovered_apps);
        lemma_suggested_grows(rest, pre.config.bindings, pre.discovered_apps, names, 26);
    }
}

/// Taking in the same batch again, at a later time, leaves the same
/// applications in the cache and in the list of known applications, in the
/// same order; only the times they were last seen at advance. This holds
/// where no entry that the batch does not renew turns 30 days old in between.
pub proof fn lemma_discovery_again(
    pre: AppView,
    batch: Seq<DiscoveredAppView>,
    now1: int,
    now2: int,
)
    requires
        now1 <= now2,
        forall|e: DiscoveredAppView|
            #[trigger] pre.discovered(batch, now1).discovered_apps.contains(e) && !in_batch(
                batch,
                e.bundle_id,
            ) ==> is_fresh(e, now2),
    ensures
        identities(pre.discovered(batch, now1).discovered(batch, now2).discovered_apps)
            == identities(pre.discovered(batch, now1).discovered_apps),
        identities(pre.discovered(batch, now1).discovered(batch, now2).config.cached_apps)
            == identities(pre.discovered(batch, now1).config.cached_apps),
        forall|i: int|
            0 <= i < pre.discovered(batch, now1).discovered_apps.len() ==> pre.discovered(
                batch,
                now1,
            ).discovered_apps[i].last_seen <= (#[trigger] pre.discovered(batch, now1).discovered(
                batch,
                now2,
            ).discovered_apps[i]).last_seen,
{
    let first = merged_cache(pre.config.cached_apps, batch, now1);
    assert(pre.discovered(batch, now1).discovered_apps == first);
    assert forall|e: DiscoveredAppView| #[trigger]
        first.contains(e) && !in_batch(batch, e.bundle_id) implies is_fresh(e, now2) by {
        assert(pre.discovered(batch, now1).discovered_apps.contains(e));
    }
    lemma_merge_again(pre.config.cached_apps, batch, now1, now2);
}

/// Saving the edited binding leaves the list in order.
pub proof fn lemma_saved_keeps_order(pre: AppView)
    requires
        pre.table_ok(),
        pre.can_save(),
        pre.config.bindings.len() < usize::MAX,
    ensures
        pre.saved().table_ok(),
{
    match pre.binding_editor {
        None => {},
        Some(editor) => {
            if key_codes().contains(editor.key) {
                let placed = match pre.editing_binding_index {
                    Some(idx) => pre.config.bindings.update(idx as int, editor.binding()),
                    None => pre.config.bindings.push(editor.binding()),
                };
                let closed = AppView {
                    binding_editor: None,
                    editing_binding_index: None,
                    input_mode: InputMode::Normal,
                    ..pre
                };
                lemma_taking_keeps_order(closed, editor.binding(), placed);
            }
        },
    }
}

/// The bindings in ascending order of their keys.
pub fn sort_bindings(bindings: &Vec<Binding>) -> (r: Vec<Binding>)
    ensures
        r.deep_view() == sorted_bindings(bindings.deep_view()),
{
    let mut keys: Vec<SortKey> = Vec::new();
    let mut i: usize = 0;
    while i < bindings.len()
        invariant
            i <= bindings.len(),
            keys.len() == i,
            forall|j: int|
                0 <= j < i ==> (#[trigger] keys[j])@ == (SortKeyView {
                    primary: bindings[j]@.key,
                    secondary: Seq::empty(),
                }),
        decreases bindings.len() - i,
    {
        keys.push(SortKey { primary: chars_of(bindings[i].key.as_str()), secondary: Vec::new() });
        i += 1;
    }
    assert(keys.deep_view() =~= binding_keys(bindings.deep_view()));
    let order = stable_order(&keys);
    let mut out: Vec<Binding> = Vec::new();
    let mut k: usize = 0;
    while k < order.len()
        invariant
            k <= order.len(),
            out.len() == k,
            order.len() == bindings.len(),
            forall|j: int| 0 <= j < order.len() ==> (#[trigger] order[j]) < bindings.len(),
            places(order@) == stable_order_of(keys.deep_view(), bindings.len() as nat),
            forall|j: int| 0 <= j < k ==> out[j]@ == bindings[order[j] as int]@,
        decreases order.len() - k,
    {
        out.push(bindings[order[k]].clone());
        k += 1;
    }
    assert(out.deep_view() =~= sorted_bindings(bindings.deep_view()));
    out
}

/// The first place at which a binding has `key`; 0 where none has.
pub fn find_key(bindings: &Vec<Binding>, key: &str) -> (r: usize)
    ensures
        r == place_of_key(bindings.deep_view(), key@),
{
    let mut i: usize = 0;
    while i < bindings.len()
        invariant
            i <= bindings.len(),
            key_position(bindings.deep_view(), key@, 0) == key_position(
                bindings.deep_view(),
                key@,
                i as int,
            ),
        decreases bindings.len() - i,
    {
        if crate::text::str_eq(bindings[i].key.as_str(), key) {
            return i;
        }
        i += 1;
    }
    0
}

impl App {
    /// The state at start, around a loaded configuration.
    pub fn new(config: Config) -> (r: Self)
        ensures
            r@ == AppView::initial(config@),
    {
        let r = App {
            config,
            tab: Tab::Bindings,
            input_mode: InputMode::Normal,
            should_quit: false,
            status_message: None,
            selected_binding: 0,
            binding_editor: None,
            editing_binding_index: None,
            settings_field: SettingsField::AnchorKey,
            autocomplete_suggestions: Vec::new(),
            autocomplete_selected: 0,
            show_autocomplete: false,
            discovered_apps: Vec::new(),
            apps_loading: false,
            dynamic_bindings: Vec::new(),
        };
        assert(r.autocomplete_suggestions.deep_view() =~= Seq::empty());
        assert(r.discovered_apps.deep_view() =~= Seq::empty());
        assert(r.dynamic_bindings.deep_view() =~= Seq::empty());
        r
    }

    /// Puts a message on the status line.
    pub fn set_status(&mut self, msg: String)
        ensures
            final(self)@ == (AppView { status_message: Some(msg@), ..old(self)@ }),
    {
        self.status_message = Some(msg);
    }

    /// Takes the message off the status line.
    pub fn clear_status(&mut self)
        ensures
            final(self)@ == (AppView { status_message: None, ..old(self)@ }),
    {
        self.status_message = None;
    }

    /// Brings the other screen to the front.
    pub fn next_tab(&mut self)
        ensures
            final(self)@ == old(self)@.other_tab(),
    {
        self.tab =
        match self.tab {
            Tab::Bindings => Tab::Settings,
            Tab::Settings => Tab::Bindings,
        };
    }

    /// Brings the other screen to the front.
    pub fn prev_tab(&mut self)
        ensures
            final(self)@ == old(self)@.other_tab(),
    {
        self.next_tab();
    }

    /// Moves the selection one place down the list, around the end.
    pub fn next_binding(&mut self)
        requires
            old(self)@.total() <= usize::MAX,
            old(self)@.total() > 0 ==> old(self).selected_binding < usize::MAX,
        ensures
            final(self)@ == old(self)@.selecting_next(),
            old(self)@.table_ok() ==> final(self)@.table_ok(),
    {
        let total = self.config.bindings.len() + self.dynamic_bindings.len();
        if total > 0 {
            self.selected_binding = (self.selected_binding + 1) % total;
        }
    }

    /// Moves the selection one place up the list, around the end.
    pub fn prev_binding(&mut self)
        requires
            old(self)@.total() <= usize::MAX,
        ensures
            final(self)@ == old(self)@.selecting_previous(),
            old(self)@.table_ok() ==> final(self)@.table_ok(),
    {
        let total = self.config.bindings.len() + self.dynamic_bindings.len();
        if total > 0 {
            self.selected_binding =
            if self.selected_binding == 0 {
                total - 1
            } else {
                self.selected_binding - 1
            };
        }
    }

    /// Opens the editor for a new binding.
    pub fn start_new_binding(&mut self)
        ensures
            final(self)@ == old(self)@.adding(),
            old(self)@.completion_ok() ==> final(self)@.editing_ok(),
    {
        self.binding_editor = Some(BindingEditor::new());
        self.editing_binding_index = None;
        self.input_mode = InputMode::Editing;
    }

    /// Whether the selection is on a suggestion.
    pub fn is_on_dynamic_binding(&self) -> (r: bool)
        ensures
            r == self@.on_suggestion(),
    {
        self.selected_binding >= self.config.bindings.len()
    }

    /// Takes `binding` into the saved table, sorts the table, moves the
    /// selection to the binding's key and makes the suggestions anew.
    fn take_binding(&mut self, binding: Binding)
        ensures
            final(self)@ == old(self)@.taking(binding@, old(self)@.config.bindings.push(binding@)),
            final(self)@.table_ok(),
            final(self).selected_binding < final(self).config.bindings.len(),
    {
        let key = binding.key.clone();
        let ghost before = self.config.bindings.deep_view();
        self.config.bindings.push(binding);
        proof {
            assert(self.config.bindings.deep_view() =~= before.push(binding@));
            assert(before.push(binding@).len() == self.config.bindings.len());
            lemma_taking_keeps_order(old(self)@, binding@, before.push(binding@));
        }
        self.config.bindings = sort_bindings(&self.config.bindings);
        self.selected_binding = find_key(&self.config.bindings, key.as_str());
        self.generate_dynamic_bindings();
    }

    /// Makes the selected suggestion a saved binding, without opening the editor.
    pub fn add_dynamic_binding(&mut self)
        ensures
            final(self)@ == old(self)@.promoted(),
            old(self)@.table_ok() ==> final(self)@.table_ok(),
    {
        let saved_count = self.config.bindings.len();
        if self.selected_binding < saved_count {
            return ;
        }
        let dynamic_index = self.selected_binding - saved_count;
        if dynamic_index < self.dynamic_bindings.len() {
            let binding = self.dynamic_bindings[dynamic_index].clone();
            self.take_binding(binding);
        }
    }

    /// Opens the editor on the selected binding. A suggestion is made a saved
    /// binding first.
    pub fn start_edit_binding(&mut self)
        ensures
            final(self)@ == old(self)@.editing_selected(),
            old(self)@.table_ok() ==> final(self)@.table_ok(),
            old(self)@.can_save() || old(self).selected_binding < old(self)@.total()
                ==> final(self)@.can_save(),
            old(self)@.completion_ok() && (old(self)@.editing_ok() || old(self).selected_binding
                < old(self)@.total()) ==> final(self)@.editing_ok(),
    {
        let saved_count = self.config.bindings.len();
        if self.selected_binding < saved_count {
            self.binding_editor = Some(
                BindingEditor::from_binding(&self.config.bindings[self.selected_binding]),
            );
            self.editing_binding_index = Some(self.selected_binding);
            self.input_mode = InputMode::Editing;
        } else {
            let dynamic_index = self.selected_binding - saved_count;
            if dynamic_index < self.dynamic_bindings.len() {
                let binding = self.dynamic_bindings[dynamic_index].clone();
                let editor = BindingEditor::from_binding(&binding);
                self.take_binding(binding);
                self.binding_editor = Some(editor);
                self.editing_binding_index = Some(self.selected_binding);
                self.input_mode = InputMode::Editing;
            }
        }
    }

    /// Deletes the selected entry: a saved binding from the table, a suggestion
    /// from the list of suggestions.
    pub fn delete_binding(&mut self)
        requires
            old(self)@.total() <= usize::MAX,
        ensures
            final(self)@ == old(self)@.deleted(),
            old(self)@.table_ok() ==> final(self)@.table_ok(),
    {
        let saved_count = self.config.bindings.len();
        if self.selected_binding < saved_count {
            let ghost before = self.config.bindings.deep_view();
            self.config.bindings.remove(self.selected_binding);
            assert(self.config.bindings.deep_view() =~= before.remove(
                self.selected_binding as int,
            ));
            let total = self.config.bindings.len() + self.dynamic_bindings.len();
            if self.selected_binding >= total && total > 0 {
                self.selected_binding = total - 1;
            }
            self.generate_dynamic_bindings();
        } else {
            let dynamic_index = self.selected_binding - saved_count;
            if dynamic_index < self.dynamic_bindings.len() {
                let ghost before = self.dynamic_bindings.deep_view();
                self.dynamic_bindings.remove(dynamic_index);
                assert(self.dynamic_bindings.deep_view() =~= before.remove(dynamic_index as int));
                let total = self.config.bindings.len() + self.dynamic_bindings.len();
                if self.selected_binding >= total && total > 0 {
                    self.selected_binding = total - 1;
                }
            }
        }
        proof {
            assert(self@ == old(self)@.deleted());
            if old(self)@.table_ok() {
                lemma_deleted_keeps_order(old(self)@);
            }
        }
    }

    /// Saves the edited binding into the table, unless its key is not a key
    /// code: then the editor stays open and the status line says why.
    pub fn save_binding(&mut self)
        requires
            old(self)@.can_save(),
        ensures
            final(self)@ == old(self)@.saved(),
            old(self)@.table_ok() ==> final(self)@.table_ok(),
            old(self)@.editing_ok() ==> final(self)@.editing_ok(),
    {
        if let Some(editor) = self.binding_editor.take() {
            if !is_valid_key(editor.key.as_str()) {
                let mut msg = String::from_str("Invalid key: '");
                msg.append(editor.key.as_str());
                msg.append("'. Use autocomplete for valid keys.");
                self.status_message = Some(msg);
                self.binding_editor = Some(editor);
                return ;
            }
            let binding = editor.to_binding();
            let key = binding.key.clone();
            let ghost before = self.config.bindings.deep_view();
            if let Some(idx) = self.editing_binding_index.take() {
                self.config.bindings[idx] = binding;
                assert(self.config.bindings.deep_view() =~= before.update(
                    idx as int,
                    editor@.binding(),
                ));
            } else {
                self.config.bindings.push(binding);
                assert(self.config.bindings.deep_view() =~= before.push(editor@.binding()));
            }
            proof {
                let closed = AppView {
                    binding_editor: None,
                    editing_binding_index: None,
                    input_mode: InputMode::Normal,
                    ..old(self)@
                };
                assert(self.config.bindings.deep_view().len() == self.config.bindings.len());
                lemma_taking_keeps_order(
                    closed,
                    editor@.binding(),
                    self.config.bindings.deep_view(),
                );
            }
            self.config.bindings = sort_bindings(&self.config.bindings);
            self.selected_binding = find_key(&self.config.bindings, key.as_str());
            self.input_mode = InputMode::Normal;
            self.generate_dynamic_bindings();
        }
    }

    /// Closes the editor and drops its content.
    pub fn cancel_edit(&mut self)
        ensures
            final(self)@ == old(self)@.cancelled(),
    {
        self.binding_editor = None;
        self.editing_binding_index = None;
        self.input_mode = InputMode::Normal;
    }

    /// Fills the completion list for a partly typed key.
    pub fn update_autocomplete(&mut self, partial: &str)
        ensures
            final(self)@ == old(self)@.completing_key(partial@),
            final(self)@.completion_ok(),
    {
        let codes = autocomplete(partial);
        self.autocomplete_suggestions = suggestions_from_keys(&codes);
        self.autocomplete_selected = 0;
        self.show_autocomplete = self.autocomplete_suggestions.len() > 0 && !partial.is_empty();
    }

    /// Fills the completion list for a partly typed application name.
    pub fn update_app_autocomplete(&mut self, partial: &str)
        ensures
            final(self)@ == old(self)@.completing_app(partial@),
            final(self)@.completion_ok(),
    {
        let names = lowered_names(&self.discovered_apps);
        let components = lowered_components(&self.discovered_apps);
        let lower = to_lowercase(partial);
        let needle = chars_of(lower.as_str());
        self.autocomplete_suggestions =
        suggest_apps(&self.discovered_apps, &names, &components, partial.is_empty(), &needle);
        self.autocomplete_selected = 0;
        self.show_autocomplete = self.autocomplete_suggestions.len() > 0;
    }

    /// Notes that discovery is under way.
    pub fn start_app_discovery(&mut self)
        ensures
            final(self)@ == (AppView { apps_loading: true, ..old(self)@ }),
    {
        self.apps_loading = true;
    }

    /// Takes in what discovery found, at the time `now` in seconds since the
    /// Unix epoch: every application of the batch is taken as seen at `now`
    /// and merged into the cache, cached entries not seen for 30 days are
    /// dropped, and the suggestions are made anew.
    pub fn finish_app_discovery(&mut self, apps: Vec<DiscoveredApp>, now: i64)
        ensures
            final(self)@ == old(self)@.discovered(apps.deep_view(), now as int),
            forall|i: int| #[trigger]
                is_last_of_id(apps.deep_view(), i) ==> final(self)@.discovered_apps.contains(
                    DiscoveredAppView { last_seen: now as int, ..apps.deep_view()[i] },
                ),
            forall|e: DiscoveredAppView|
                final(self)@.discovered_apps.contains(e) ==> is_fresh(e, now as int),
            sorted_by_key(old(self)@.config.bindings) ==> sorted_by_key(
                final(self)@.config.bindings,
            ),
            final(self)@.suggestions_bounded(),
    {
        let merged = merge_discovered(&self.config.cached_apps, &apps, now);
        self.discovered_apps = clone_apps(&merged);
        self.config.cached_apps = merged;
        self.apps_loading = false;
        self.generate_dynamic_bindings();
    }

    /// Makes the suggestions anew from the saved bindings and the known
    /// applications.
    pub fn generate_dynamic_bindings(&mut self)
        ensures
            final(self)@ == old(self)@.resuggested(),
    {
        let names = lowered_names(&self.discovered_apps);
        self.dynamic_bindings =
        suggest_bindings(&self.config.bindings, &self.discovered_apps, &names);
    }

    /// The highlighted entry of the completion list, while the list shows.
    pub fn select_autocomplete(&mut self) -> (r: Option<AutocompleteSuggestion>)
        ensures
            final(self)@ == old(self)@,
            r.deep_view() == old(self)@.chosen_completion(),
    {
        if self.show_autocomplete && self.autocomplete_selected
            < self.autocomplete_suggestions.len() {
            Some(self.autocomplete_suggestions[self.autocomplete_selected].clone())
        } else {
            None
        }
    }

    /// Moves the highlight of the completion list one entry down, around the end.
    pub fn next_autocomplete(&mut self)
        requires
            old(self).autocomplete_suggestions.len() > 0 ==> old(self).autocomplete_selected
                < usize::MAX,
        ensures
            final(self)@ == old(self)@.highlighting_next(),
            old(self)@.completion_ok() ==> final(self)@.completion_ok(),
    {
        if self.autocomplete_suggestions.len() > 0 {
            self.autocomplete_selected = (self.autocomplete_selected + 1)
                % self.autocomplete_suggestions.len();
        }
    }

    /// Moves the highlight of the completion list one entry up, around the end.
    pub fn prev_autocomplete(&mut self)
        ensures
            final(self)@ == old(self)@.highlighting_previous(),
            old(self)@.completion_ok() ==> final(self)@.completion_ok(),
    {
        if self.autocomplete_suggestions.len() > 0 {
            self.autocomplete_selected =
            if self.autocomplete_selected == 0 {
                self.autocomplete_suggestions.len() - 1
            } else {
                self.autocomplete_selected - 1
            };
        }
    }

    /// Steps the default browser one later in the list, around the end.
    pub fn next_browser(&mut self)
        ensures
            final(self)@ == old(self)@.with_default_browser(
                browser_after(old(self)@.config.settings.default_browser),
            ),
    {
        let browsers = Browser::all();
        let current_idx = self.config.settings.default_browser.index();
        let next_idx = if current_idx + 1 < browsers.len() {
            current_idx + 1
        } else {
            0
        };
        self.config.settings.default_browser = browsers[next_idx];
    }

    /// Steps the default browser one earlier in the list, around the end.
    pub fn prev_browser(&mut self)
        ensures
            final(self)@ == old(self)@.with_default_browser(
                browser_before(old(self)@.config.settings.default_browser),
            ),
    {
        let browsers = Browser::all();
        let current_idx = self.config.settings.default_browser.index();
        let prev_idx = if current_idx == 0 {
            browsers.len() - 1
        } else {
            current_idx - 1
        };
        self.config.settings.default_browser = browsers[prev_idx];
    }

    /// Steps the anchor key one later in the list, around the end.
    pub fn next_anchor_key(&mut self)
        ensures
            final(self)@ == old(self)@.with_anchor_key(
                other_anchor(old(self)@.config.settings.anchor_key),
            ),
    {
        let keys = AnchorKey::all();
        let idx = self.config.settings.anchor_key.index();
        let next_idx = if idx + 1 < keys.len() {
            idx + 1
        } else {
            0
        };
        self.config.settings.anchor_key = keys[next_idx];
    }

    /// Steps the anchor key one earlier in the list, around the end.
    pub fn prev_anchor_key(&mut self)
        ensures
            final(self)@ == old(self)@.with_anchor_key(
                other_anchor(old(self)@.config.settings.anchor_key),
            ),
    {
        let keys = AnchorKey::all();
        let idx = self.config.settings.anchor_key.index();
        let prev_idx = if idx == 0 {
            keys.len() - 1
        } else {
            idx - 1
        };
        self.config.settings.anchor_key = keys[prev_idx];
    }

    /// Moves the focus of the settings screen to its other field.
    pub fn next_settings_field(&mut self)
        ensures
            final(self)@ == (AppView {
                settings_field: match old(self)@.settings_field {
                    SettingsField::AnchorKey => SettingsField::DefaultBrowser,
                    SettingsField::DefaultBrowser => SettingsField::AnchorKey,
                },
                ..old(self)@
            }),
    {
        self.settings_field =
        match self.settings_field {
            SettingsField::AnchorKey => SettingsField::DefaultBrowser,
            SettingsField::DefaultBrowser => SettingsField::AnchorKey,
        };
    }
}

} // verus!
