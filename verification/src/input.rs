//! What each key does.
//!
//! Outside an editor, keys walk the lists. Inside one, a field is either
//! navigated or edited: in navigation mode keys act on the field, in edit
//! mode they go into its text. Selector fields are never edited; left and
//! right step them at once.

use crate::app::{App, AppView, InputMode, Tab};
use crate::editor::{
    browser_choice_after, browser_choice_before, match_type_after, match_type_before,
    ActionEditor, ActionEditorField, ActionEditorView, ActionType, BindingEditorView,
    EditorField,
};
use crate::text::{decimal, decimal_text, pop_char, push_char};
use vstd::string::StringExecFns;
use vstd::prelude::*;

verus! {

/// A key press, as far as the binder tells keys apart.
#[derive(Clone, Copy, Debug, PartialEq, Eq, Structural)]
pub enum Key {
    Char(char),
    Enter,
    Esc,
    Tab,
    BackTab,
    Backspace,
    Up,
    Down,
    Left,
    Right,
    Other,
}

/// What the caller has to do after a key was handled outside an editor.
#[derive(Clone, Copy, Debug, PartialEq, Eq, Structural)]
pub enum Effect {
    /// Nothing.
    Nothing,
    /// Write the bindings to the remapping engine.
    SaveToEngine,
}

/// The key steps a selector to the left.
pub open spec fn steps_left(key: Key) -> bool {
    key == Key::Left || key == Key::Char('<') || key == Key::Char(',')
}

/// The key steps a selector to the right.
pub open spec fn steps_right(key: Key) -> bool {
    key == Key::Right || key == Key::Char('>') || key == Key::Char('.')
}

/// A text without its last character; an empty text stays empty.
pub open spec fn without_last(text: Seq<char>) -> Seq<char> {
    if text.len() > 0 {
        text.drop_last()
    } else {
        text
    }
}

/// The action editor after a key on one of its selector fields.
pub open spec fn selector_step(ae: ActionEditorView, key: Key) -> ActionEditorView {
    if steps_left(key) {
        match ae.field {
            ActionEditorField::Type => ActionEditorView {
                action_type: ae.action_type.preceding(),
                ..ae
            },
            ActionEditorField::MatchType => ActionEditorView {
                match_type: match_type_before(ae.match_type),
                ..ae
            },
            ActionEditorField::Browser => ActionEditorView {
                browser: browser_choice_before(ae.browser),
                ..ae
            },
            ActionEditorField::Target => ae,
        }
    } else if steps_right(key) {
        match ae.field {
            ActionEditorField::Type => ActionEditorView {
                action_type: ae.action_type.following(),
                ..ae
            },
            ActionEditorField::MatchType => ActionEditorView {
                match_type: match_type_after(ae.match_type),
                ..ae
            },
            ActionEditorField::Browser => ActionEditorView {
                browser: browser_choice_after(ae.browser),
                ..ae
            },
            ActionEditorField::Target => ae,
        }
    } else {
        ae
    }
}

impl AppView {
    /// With `editor` for the open binding editor.
    pub open spec fn with_editor(self, editor: BindingEditorView) -> AppView {
        AppView { binding_editor: Some(editor), ..self }
    }

    /// With `editor` for the open binding editor and `ae` for its action editor.
    pub open spec fn with_action_editor(
        self,
        editor: BindingEditorView,
        ae: ActionEditorView,
    ) -> AppView {
        self.with_editor(BindingEditorView { action_editor: Some(ae), ..editor })
    }

    /// With the completion list hidden and emptied.
    pub open spec fn hiding_completion(self) -> AppView {
        AppView {
            show_autocomplete: false,
            autocomplete_suggestions: Seq::empty(),
            autocomplete_selected: 0,
            ..self
        }
    }

    /// With the flag that ends the program set.
    pub open spec fn quitting(self) -> AppView {
        AppView { should_quit: true, ..self }
    }

    /// After a key on the list of bindings.
    pub open spec fn bindings_step(self, key: Key) -> AppView {
        if key == Key::Char('j') || key == Key::Down {
            self.selecting_next()
        } else if key == Key::Char('k') || key == Key::Up {
            self.selecting_previous()
        } else if key == Key::Char('a') {
            self.adding()
        } else if key == Key::Char('e') || key == Key::Enter {
            self.editing_selected()
        } else if key == Key::Char('d') {
            self.deleted()
        } else {
            self
        }
    }

    /// After a key on the settings screen.
    pub open spec fn settings_step(self, key: Key) -> AppView {
        if key == Key::Left || key == Key::Char('h') || key == Key::Char(',') || key == Key::Char(
            '<',
        ) {
            self.with_default_browser(
                crate::app::browser_before(self.config.settings.default_browser),
            )
        } else if key == Key::Right || key == Key::Char('l') || key == Key::Char('.') || key
            == Key::Char('>') {
            self.with_default_browser(crate::app::browser_after(self.config.settings.default_browser))
        } else {
            self
        }
    }

    /// After a key outside an editor.
    pub open spec fn normal_step(self, key: Key) -> AppView {
        if key == Key::Char('q') {
            self.quitting()
        } else if key == Key::Tab || key == Key::BackTab {
            self.other_tab()
        } else if key == Key::Char('s') {
            self
        } else {
            match self.tab {
                Tab::Bindings => self.bindings_step(key),
                Tab::Settings => self.settings_step(key),
            }
        }
    }

    /// After a key typed into the description.
    pub open spec fn description_field_step(self, editor: BindingEditorView, key: Key) -> AppView {
        match key {
            Key::Char(c) => self.with_editor(
                BindingEditorView { description: editor.description.push(c), ..editor },
            ),
            Key::Backspace => self.with_editor(
                BindingEditorView { description: without_last(editor.description), ..editor },
            ),
            _ => self,
        }
    }

    /// After a key typed into the key field: the text changes and the
    /// completion list follows it, the arrows walk the list, and right takes
    /// the highlighted entry. Without an editor there is no text to change.
    pub open spec fn key_field_step(self, key: Key) -> AppView {
        match key {
            Key::Char(c) => match self.binding_editor {
                Some(editor) => self.with_editor(
                    BindingEditorView { key: editor.key.push(c), ..editor },
                ).completing_key(editor.key.push(c)),
                None => self,
            },
            Key::Backspace => match self.binding_editor {
                Some(editor) => self.with_editor(
                    BindingEditorView { key: without_last(editor.key), ..editor },
                ).completing_key(without_last(editor.key)),
                None => self,
            },
            Key::Down => if self.show_autocomplete {
                self.highlighting_next()
            } else {
                self
            },
            Key::Up => if self.show_autocomplete {
                self.highlighting_previous()
            } else {
                self
            },
            Key::Right => match self.chosen_completion() {
                Some(chosen) => match self.binding_editor {
                    Some(editor) => self.hiding_completion().with_editor(
                        BindingEditorView { key: chosen.value, ..editor },
                    ),
                    None => self.hiding_completion(),
                },
                None => self,
            },
            _ => self,
        }
    }

    /// After a key while the binding editor has the focus.
    pub open spec fn binding_editor_step(self, editor: BindingEditorView, key: Key) -> AppView {
        if key == Key::Esc {
            if editor.edit_mode {
                self.hiding_completion().with_editor(
                    BindingEditorView { edit_mode: false, ..editor },
                )
            } else {
                self.hiding_completion().cancelled()
            }
        } else if key == Key::Tab {
            self.hiding_completion().with_editor(
                BindingEditorView { edit_mode: false, field: editor.field_after(), ..editor },
            )
        } else if key == Key::BackTab {
            self.hiding_completion().with_editor(
                BindingEditorView { edit_mode: false, field: editor.field_before(), ..editor },
            )
        } else if editor.field == EditorField::Actions {
            self.action_list_step(editor, key)
        } else if editor.edit_mode {
            if key == Key::Enter {
                if self.show_autocomplete && editor.field == EditorField::Key {
                    if self.autocomplete_selected < self.autocomplete_suggestions.len() {
                        self.hiding_completion().with_editor(
                            BindingEditorView {
                                key: self.autocomplete_suggestions[self.autocomplete_selected as int].value,
                                ..editor
                            },
                        )
                    } else {
                        self.hiding_completion()
                    }
                } else {
                    self.hiding_completion().with_editor(
                        BindingEditorView { edit_mode: false, ..editor },
                    )
                }
            } else if editor.field == EditorField::Key {
                self.key_field_step(key)
            } else {
                self.description_field_step(editor, key)
            }
        } else if key == Key::Enter {
            let opened = self.with_editor(BindingEditorView { edit_mode: true, ..editor });
            if editor.field == EditorField::Key {
                opened.completing_key(editor.key)
            } else {
                opened
            }
        } else if key == Key::Char('s') && editor.key.len() > 0 {
            self.saved()
        } else {
            self
        }
    }

    /// After a key on the list of actions.
    pub open spec fn action_list_step(self, editor: BindingEditorView, key: Key) -> AppView {
        if key == Key::Char('s') {
            if editor.key.len() > 0 {
                self.saved()
            } else {
                self
            }
        } else if key == Key::Enter || key == Key::Char('e') {
            if editor.actions.len() > 0 {
                self.with_editor(editor.editing_action())
            } else {
                self
            }
        } else if key == Key::Char('a') {
            self.with_editor(editor.adding_action())
        } else if key == Key::Char('d') {
            self.with_editor(editor.deleted_action())
        } else if key == Key::Char('k') || key == Key::Up {
            self.with_editor(editor.highlight_up())
        } else if key == Key::Char('j') || key == Key::Down {
            self.with_editor(editor.highlight_down())
        } else if key == Key::Char('K') {
            self.with_editor(editor.moved_up())
        } else if key == Key::Char('J') {
            self.with_editor(editor.moved_down())
        } else {
            self
        }
    }

    /// After a key on the target field of the action editor.
    pub open spec fn target_step(
        self,
        editor: BindingEditorView,
        ae: ActionEditorView,
        key: Key,
    ) -> AppView {
        if !ae.edit_mode {
            if key == Key::Enter {
                let opened = self.with_action_editor(
                    editor,
                    ActionEditorView { edit_mode: true, ..ae },
                );
                if ae.action_type == ActionType::App {
                    opened.completing_app(ae.target)
                } else {
                    opened
                }
            } else {
                self
            }
        } else {
            match key {
                Key::Enter => if self.show_autocomplete {
                    if self.autocomplete_selected < self.autocomplete_suggestions.len() {
                        let chosen = self.autocomplete_suggestions[self.autocomplete_selected as int];
                        self.hiding_completion().with_action_editor(
                            editor,
                            ActionEditorView {
                                target: chosen.value,
                                bundle_id: if ae.action_type == ActionType::App {
                                    Some(chosen.bundle_id)
                                } else {
                                    ae.bundle_id
                                },
                                ..ae
                            },
                        )
                    } else {
                        self.hiding_completion()
                    }
                } else {
                    self.hiding_completion().with_action_editor(
                        editor,
                        ActionEditorView { edit_mode: false, ..ae },
                    )
                },
                Key::Char(c) => {
                    let typed = self.with_action_editor(
                        editor,
                        ActionEditorView { target: ae.target.push(c), ..ae },
                    );
                    if ae.action_type == ActionType::App {
                        typed.completing_app(ae.target.push(c))
                    } else {
                        typed
                    }
                },
                Key::Backspace => {
                    let typed = self.with_action_editor(
                        editor,
                        ActionEditorView { target: without_last(ae.target), ..ae },
                    );
                    if ae.action_type == ActionType::App {
                        typed.completing_app(without_last(ae.target))
                    } else {
                        typed
                    }
                },
                Key::Down => if self.show_autocomplete {
                    self.highlighting_next()
                } else {
                    self
                },
                Key::Up => if self.show_autocomplete {
                    self.highlighting_previous()
                } else {
                    self
                },
                _ => self,
            }
        }
    }

    /// After a key while the action editor has the focus.
    pub open spec fn action_editor_step(
        self,
        editor: BindingEditorView,
        ae: ActionEditorView,
        key: Key,
    ) -> AppView {
        if key == Key::Esc {
            if ae.edit_mode {
                self.hiding_completion().with_action_editor(
                    editor,
                    ActionEditorView { edit_mode: false, ..ae },
                )
            } else {
                self.hiding_completion().with_editor(editor.cancelled_action())
            }
        } else if key == Key::Tab {
            self.hiding_completion().with_action_editor(
                editor,
                ActionEditorView { edit_mode: false, field: ae.field_after(), ..ae },
            )
        } else if key == Key::BackTab {
            self.hiding_completion().with_action_editor(
                editor,
                ActionEditorView { edit_mode: false, field: ae.field_before(), ..ae },
            )
        } else if !ae.edit_mode && key == Key::Char('s') {
            self.hiding_completion().with_editor(editor.finished_action())
        } else if ae.field == ActionEditorField::Target {
            self.target_step(editor, ae, key)
        } else {
            self.with_action_editor(editor, selector_step(ae, key))
        }
    }

    /// After a key while an editor is open: the key goes to the action
    /// editor where one is open, else to the binding editor.
    pub open spec fn editing_step(self, key: Key) -> AppView {
        match self.binding_editor {
            None => self,
            Some(editor) => match editor.action_editor {
                Some(ae) => self.action_editor_step(editor, ae, key),
                None => self.binding_editor_step(editor, key),
            },
        }
    }

    /// The keys that the status line offers, for the screen or the field that
    /// has the focus.
    pub open spec fn help_line(self) -> Seq<char> {
        match (self.input_mode, self.binding_editor) {
            (InputMode::Normal, None) => match self.tab {
                Tab::Bindings => "(a)dd (e)dit (d)elete (j/k)nav (Tab)switch (s)ave (q)uit"@,
                Tab::Settings => "(\u{2190}\u{2192})change (Tab)switch (s)ave (q)uit"@,
            },
            (InputMode::Editing, Some(editor)) => match editor.action_editor {
                Some(ae) => if ae.edit_mode {
                    if ae.action_type == ActionType::App {
                        "[EDIT] Type app name | (\u{2191}\u{2193})autocomplete (Enter)finish (Tab)next (Esc)exit"@
                    } else {
                        "[EDIT] Type target | (Enter)finish (Tab)next (Esc)exit"@
                    }
                } else if ae.field == ActionEditorField::Target {
                    "[NAV] (Enter)edit (s)ave (Tab)next (Esc)cancel"@
                } else {
                    "[NAV] (\u{2190}\u{2192})change (s)ave (Tab)next (Esc)cancel"@
                },
                None => if editor.edit_mode {
                    match editor.field {
                        EditorField::Key => "[EDIT] Type key | (\u{2191}\u{2193})autocomplete (Enter)finish (Tab)next (Esc)exit"@,
                        EditorField::Description => "[EDIT] Type description | (Enter)finish (Tab)next (Esc)exit"@,
                        EditorField::Actions => "[NAV]"@,
                    }
                } else {
                    match editor.field {
                        EditorField::Actions => "[NAV] (a)dd (e)dit (d)elete (j/k)nav (J/K)move (s)ave (Tab)next (Esc)cancel"@,
                        _ => "[NAV] (Enter)edit (s)ave (Tab)next (Esc)cancel"@,
                    }
                },
            },
            _ => ""@,
        }
    }

    /// After a key: outside an editor the key walks the lists, inside one it
    /// goes to the editor.
    pub open spec fn key_step(self, key: Key) -> AppView {
        match self.input_mode {
            InputMode::Normal => self.normal_step(key),
            InputMode::Editing => self.editing_step(key),
        }
    }

    /// Outside editing there is no editor open.
    pub open spec fn mode_ok(self) -> bool {
        self.input_mode == InputMode::Normal ==> self.binding_editor is None
    }

    /// What holds between any two keys: the highlights of an open editor
    /// are on their lists, what it was opened on is still there, no editor is
    /// open outside editing, and the places of the list can be counted.
    pub open spec fn sound(self) -> bool {
        &&& self.editing_ok()
        &&& self.mode_ok()
        &&& self.total() <= usize::MAX
        &&& (self.total() > 0 ==> self.selected_binding < usize::MAX)
    }
}

/// What the status line says after the bindings were written to the
/// engine: how many bundle ids were looked up, where any were.
pub open spec fn saved_message(notes: nat) -> Seq<char> {
    if notes > 0 {
        "Saved ("@ + decimal(notes) + " bundle IDs updated)"@
    } else {
        "Saved to karabiner.json (backup created)"@
    }
}

/// What the status line says after the bindings were written to the engine.
pub fn save_status(notes: usize) -> (r: String)
    ensures
        r@ == saved_message(notes as nat),
{
    if notes > 0 {
        let mut text = String::from_str("Saved (");
        text.append(decimal_text(notes).as_str());
        text.append(" bundle IDs updated)");
        text
    } else {
        String::from_str("Saved to karabiner.json (backup created)")
    }
}

/// Whether the key steps a selector to the left.
pub fn is_left_step(key: Key) -> (r: bool)
    ensures
        r == steps_left(key),
{
    match key {
        Key::Left => true,
        Key::Char(c) => c == '<' || c == ',',
        _ => false,
    }
}

/// Whether the key steps a selector to the right.
pub fn is_right_step(key: Key) -> (r: bool)
    ensures
        r == steps_right(key),
{
    match key {
        Key::Right => true,
        Key::Char(c) => c == '>' || c == '.',
        _ => false,
    }
}

/// Whether the key is the character `c`.
pub fn is_char(key: Key, c: char) -> (r: bool)
    ensures
        r == (key == Key::Char(c)),
{
    match key {
        Key::Char(k) => k == c,
        _ => false,
    }
}

/// Hides the completion list and empties it.
pub fn hide_completion(app: &mut App)
    ensures
        final(app)@ == old(app)@.hiding_completion(),
        final(app)@.completion_ok(),
{
    app.show_autocomplete = false;
    app.autocomplete_suggestions = Vec::new();
    app.autocomplete_selected = 0;
    assert(app.autocomplete_suggestions.deep_view() =~= Seq::empty());
}

/// Handles a key on the list of bindings.
pub fn handle_bindings_normal(app: &mut App, key: Key)
    requires
        old(app)@.total() <= usize::MAX,
        old(app)@.total() > 0 ==> old(app).selected_binding < usize::MAX,
    ensures
        final(app)@ == old(app)@.bindings_step(key),
        old(app)@.table_ok() ==> final(app)@.table_ok(),
        old(app)@.completion_ok() && old(app)@.binding_editor is None
            ==> final(app)@.editing_ok(),
        old(app)@.mode_ok() ==> final(app)@.mode_ok(),
{
    match key {
        Key::Down => app.next_binding(),
        Key::Up => app.prev_binding(),
        Key::Enter => app.start_edit_binding(),
        Key::Char(c) => {
            if c == 'j' {
                app.next_binding();
            } else if c == 'k' {
                app.prev_binding();
            } else if c == 'a' {
                app.start_new_binding();
            } else if c == 'e' {
                app.start_edit_binding();
            } else if c == 'd' {
                app.delete_binding();
            }
        },
        _ => {},
    }
}

/// Handles a key on the settings screen.
pub fn handle_settings_normal(app: &mut App, key: Key)
    ensures
        final(app)@ == old(app)@.settings_step(key),
{
    match key {
        Key::Left => app.prev_browser(),
        Key::Right => app.next_browser(),
        Key::Char(c) => {
            if c == 'h' || c == ',' || c == '<' {
                app.prev_browser();
            } else if c == 'l' || c == '.' || c == '>' {
                app.next_browser();
            }
        },
        _ => {},
    }
}

/// Handles a key outside an editor. `q` ends the program, tab changes the
/// screen, and `s` asks the caller to write the bindings to the engine; the
/// other keys go to the screen in front.
pub fn handle_normal_mode(app: &mut App, key: Key) -> (effect: Effect)
    requires
        old(app)@.total() <= usize::MAX,
        old(app)@.total() > 0 ==> old(app).selected_binding < usize::MAX,
    ensures
        final(app)@ == old(app)@.normal_step(key),
        effect == (if key == Key::Char('s') {
            Effect::SaveToEngine
        } else {
            Effect::Nothing
        }),
        old(app)@.table_ok() ==> final(app)@.table_ok(),
        old(app)@.completion_ok() && old(app)@.binding_editor is None
            ==> final(app)@.editing_ok(),
        old(app)@.mode_ok() ==> final(app)@.mode_ok(),
{
    if is_char(key, 'q') {
        app.should_quit = true;
        return Effect::Nothing;
    }
    if is_char(key, 's') {
        return Effect::SaveToEngine;
    }
    match key {
        Key::Tab => app.next_tab(),
        Key::BackTab => app.prev_tab(),
        _ => match app.tab {
            Tab::Bindings => handle_bindings_normal(app, key),
            Tab::Settings => handle_settings_normal(app, key),
        },
    }
    Effect::Nothing
}

/// Handles a key typed into the description of the open binding editor.
pub fn handle_description_field_input(app: &mut App, key: Key)
    requires
        old(app).binding_editor is Some,
    ensures
        final(app)@ == old(app)@.description_field_step(old(app)@.binding_editor->0, key),
        old(app)@.editing_ok() ==> final(app)@.editing_ok(),
        old(app)@.table_ok() ==> final(app)@.table_ok(),
{
    if let Some(mut editor) = app.binding_editor.take() {
        match key {
            Key::Char(c) => {
                push_char(&mut editor.description, c);
            },
            Key::Backspace => {
                pop_char(&mut editor.description);
            },
            _ => {},
        }
        app.binding_editor = Some(editor);
    }
}

/// Handles a key typed into the key field of the open binding editor.
pub fn handle_key_field_input(app: &mut App, key: Key)
    requires
        old(app).autocomplete_suggestions.len() > 0 ==> old(app).autocomplete_selected
            < usize::MAX,
    ensures
        final(app)@ == old(app)@.key_field_step(key),
        old(app)@.editing_ok() ==> final(app)@.editing_ok(),
        old(app)@.table_ok() ==> final(app)@.table_ok(),
{
    match key {
        Key::Char(c) => {
            if let Some(mut editor) = app.binding_editor.take() {
                push_char(&mut editor.key, c);
                let typed = editor.key.clone();
                app.binding_editor = Some(editor);
                app.update_autocomplete(typed.as_str());
            }
        },
        Key::Backspace => {
            if let Some(mut editor) = app.binding_editor.take() {
                pop_char(&mut editor.key);
                let typed = editor.key.clone();
                app.binding_editor = Some(editor);
                app.update_autocomplete(typed.as_str());
            }
        },
        Key::Down => {
            if app.show_autocomplete {
                app.next_autocomplete();
            }
        },
        Key::Up => {
            if app.show_autocomplete {
                app.prev_autocomplete();
            }
        },
        Key::Right => {
            if let Some(suggestion) = app.select_autocomplete() {
                if let Some(mut editor) = app.binding_editor.take() {
                    editor.key = suggestion.value;
                    app.binding_editor = Some(editor);
                }
                hide_completion(app);
            }
        },
        _ => {},
    }
}

/// Handles a key on the list of actions of the open binding editor.
fn handle_action_list_key(app: &mut App, key: Key)
    requires
        old(app).binding_editor is Some,
        old(app)@.binding_editor->0.action_editor is None,
        old(app)@.editing_ok(),
    ensures
        final(app)@ == old(app)@.action_list_step(old(app)@.binding_editor->0, key),
        final(app)@.editing_ok(),
        old(app)@.table_ok() ==> final(app)@.table_ok(),
{
    let mut save = false;
    if let Some(mut editor) = app.binding_editor.take() {
        match key {
            Key::Enter => {
                if editor.actions.len() > 0 {
                    editor.start_editing_action();
                }
            },
            Key::Up => editor.select_previous_action(),
            Key::Down => editor.select_next_action(),
            Key::Char(c) => {
                if c == 's' {
                    save = !editor.key.as_str().is_empty();
                } else if c == 'e' {
                    if editor.actions.len() > 0 {
                        editor.start_editing_action();
                    }
                } else if c == 'a' {
                    editor.start_adding_action();
                } else if c == 'd' {
                    editor.delete_selected_action();
                } else if c == 'k' {
                    editor.select_previous_action();
                } else if c == 'j' {
                    editor.select_next_action();
                } else if c == 'K' {
                    editor.move_action_up();
                } else if c == 'J' {
                    editor.move_action_down();
                }
            },
            _ => {},
        }
        app.binding_editor = Some(editor);
    }
    if save {
        app.save_binding();
    }
}

/// Sets or clears the edit mode of the open binding editor.
fn set_edit_mode(app: &mut App, on: bool)
    requires
        old(app).binding_editor is Some,
    ensures
        final(app)@ == old(app)@.with_editor(
            BindingEditorView { edit_mode: on, ..old(app)@.binding_editor->0 },
        ),
{
    if let Some(mut editor) = app.binding_editor.take() {
        editor.edit_mode = on;
        app.binding_editor = Some(editor);
    }
}

/// Puts `key` into the key field of the open binding editor.
fn set_key_text(app: &mut App, key: String)
    requires
        old(app).binding_editor is Some,
    ensures
        final(app)@ == old(app)@.with_editor(
            BindingEditorView { key: key@, ..old(app)@.binding_editor->0 },
        ),
{
    if let Some(mut editor) = app.binding_editor.take() {
        editor.key = key;
        app.binding_editor = Some(editor);
    }
}

/// Leaves edit mode and moves the focus of the binding editor one field on,
/// or one field back.
fn move_binding_field(app: &mut App, forward: bool)
    requires
        old(app).binding_editor is Some,
    ensures
        final(app)@ == old(app)@.hiding_completion().with_editor(
            BindingEditorView {
                edit_mode: false,
                field: if forward {
                    old(app)@.binding_editor->0.field_after()
                } else {
                    old(app)@.binding_editor->0.field_before()
                },
                ..old(app)@.binding_editor->0
            },
        ),
{
    hide_completion(app);
    if let Some(mut editor) = app.binding_editor.take() {
        editor.edit_mode = false;
        if forward {
            editor.next_field();
        } else {
            editor.prev_field();
        }
        app.binding_editor = Some(editor);
    }
}

/// Handles enter in a text field of the binding editor that is being
/// edited: it takes the highlighted completion of a key, or ends the editing.
fn accept_binding_text(app: &mut App)
    requires
        old(app).binding_editor is Some,
    ensures
        final(app)@ == ({
            let pre = old(app)@;
            let editor = pre.binding_editor->0;
            if pre.show_autocomplete && editor.field == EditorField::Key {
                if pre.autocomplete_selected < pre.autocomplete_suggestions.len() {
                    pre.hiding_completion().with_editor(
                        BindingEditorView {
                            key: pre.autocomplete_suggestions[pre.autocomplete_selected as int].value,
                            ..editor
                        },
                    )
                } else {
                    pre.hiding_completion()
                }
            } else {
                pre.hiding_completion().with_editor(BindingEditorView { edit_mode: false, ..editor })
            }
        }),
{
    let on_key = match &app.binding_editor {
        Some(editor) => match editor.field {
            EditorField::Key => true,
            _ => false,
        },
        None => false,
    };
    if app.show_autocomplete && on_key {
        if app.autocomplete_selected < app.autocomplete_suggestions.len() {
            let value = app.autocomplete_suggestions[app.autocomplete_selected].value.clone();
            set_key_text(app, value);
        }
    } else {
        set_edit_mode(app, false);
    }
    hide_completion(app);
}

/// Handles enter on a text field of the binding editor that is not being
/// edited: editing begins, and the key field gets its completion list.
fn open_binding_text(app: &mut App)
    requires
        old(app).binding_editor is Some,
    ensures
        final(app)@ == ({
            let pre = old(app)@;
            let editor = pre.binding_editor->0;
            let opened = pre.with_editor(BindingEditorView { edit_mode: true, ..editor });
            if editor.field == EditorField::Key {
                opened.completing_key(editor.key)
            } else {
                opened
            }
        }),
        old(app)@.binding_editor->0.field != EditorField::Key ==> final(app)@.completion_ok()
            == old(app)@.completion_ok(),
        old(app)@.binding_editor->0.field == EditorField::Key ==> final(app)@.completion_ok(),
{
    let typed = match &app.binding_editor {
        Some(editor) => match editor.field {
            EditorField::Key => Some(editor.key.clone()),
            _ => None,
        },
        None => None,
    };
    set_edit_mode(app, true);
    if let Some(text) = typed {
        app.update_autocomplete(text.as_str());
    }
}

/// Handles a key while the binding editor has the focus.
fn handle_binding_editor_key(app: &mut App, key: Key)
    requires
        old(app).binding_editor is Some,
        old(app)@.binding_editor->0.action_editor is None,
        old(app)@.editing_ok(),
    ensures
        final(app)@ == old(app)@.binding_editor_step(old(app)@.binding_editor->0, key),
        final(app)@.editing_ok(),
        old(app)@.table_ok() ==> final(app)@.table_ok(),
{
    let (field, edit_mode, has_key) = match &app.binding_editor {
        Some(editor) => (editor.field, editor.edit_mode, !editor.key.as_str().is_empty()),
        None => (EditorField::Key, false, false),
    };
    match key {
        Key::Esc => {
            hide_completion(app);
            if edit_mode {
                set_edit_mode(app, false);
            } else {
                app.cancel_edit();
            }
        },
        Key::Tab => move_binding_field(app, true),
        Key::BackTab => move_binding_field(app, false),
        _ => match field {
            EditorField::Actions => handle_action_list_key(app, key),
            _ => {
                if edit_mode {
                    match key {
                        Key::Enter => accept_binding_text(app),
                        _ => match field {
                            EditorField::Key => {
                                assert(app.autocomplete_suggestions.deep_view().len()
                                    == app.autocomplete_suggestions.len());
                                handle_key_field_input(app, key)
                            },
                            _ => handle_description_field_input(app, key),
                        },
                    }
                } else {
                    match key {
                        Key::Enter => open_binding_text(app),
                        Key::Char(c) => {
                            if c == 's' && has_key {
                                app.save_binding();
                            }
                        },
                        _ => {},
                    }
                }
            },
        },
    }
}

/// Handles a key on a selector field of the action editor.
pub fn handle_selector_key(ae: &mut ActionEditor, key: Key)
    ensures
        final(ae)@ == selector_step(old(ae)@, key),
{
    if is_left_step(key) {
        match ae.field {
            ActionEditorField::Type => {
                ae.action_type = ae.action_type.prev();
            },
            ActionEditorField::MatchType => ae.prev_match_type(),
            ActionEditorField::Browser => ae.prev_browser_choice(),
            ActionEditorField::Target => {},
        }
    } else if is_right_step(key) {
        match ae.field {
            ActionEditorField::Type => {
                ae.action_type = ae.action_type.next();
            },
            ActionEditorField::MatchType => ae.next_match_type(),
            ActionEditorField::Browser => ae.next_browser_choice(),
            ActionEditorField::Target => {},
        }
    }
}

/// Puts `ae` in the place of the open action editor.
fn put_action_editor(app: &mut App, ae: ActionEditor)
    requires
        old(app).binding_editor is Some,
    ensures
        final(app)@ == old(app)@.with_action_editor(old(app)@.binding_editor->0, ae@),
{
    if let Some(mut editor) = app.binding_editor.take() {
        editor.action_editor = Some(ae);
        app.binding_editor = Some(editor);
    }
}

/// A copy of the open action editor.
fn copy_action_editor(app: &App) -> (r: ActionEditor)
    requires
        app.binding_editor is Some,
        app@.binding_editor->0.action_editor is Some,
    ensures
        r@ == app@.binding_editor->0.action_editor->0,
{
    match &app.binding_editor {
        Some(editor) => match &editor.action_editor {
            Some(ae) => ae.clone(),
            None => ActionEditor::new(),
        },
        None => ActionEditor::new(),
    }
}

/// Handles enter on the target field in edit mode: it takes the highlighted
/// completion, or ends the editing.
fn accept_target(app: &mut App)
    requires
        old(app).binding_editor is Some,
        old(app)@.binding_editor->0.action_editor is Some,
    ensures
        final(app)@ == ({
            let pre = old(app)@;
            let editor = pre.binding_editor->0;
            let ae = editor.action_editor->0;
            if pre.show_autocomplete {
                if pre.autocomplete_selected < pre.autocomplete_suggestions.len() {
                    let chosen = pre.autocomplete_suggestions[pre.autocomplete_selected as int];
                    pre.hiding_completion().with_action_editor(
                        editor,
                        ActionEditorView {
                            target: chosen.value,
                            bundle_id: if ae.action_type == ActionType::App {
                                Some(chosen.bundle_id)
                            } else {
                                ae.bundle_id
                            },
                            ..ae
                        },
                    )
                } else {
                    pre.hiding_completion()
                }
            } else {
                pre.hiding_completion().with_action_editor(
                    editor,
                    ActionEditorView { edit_mode: false, ..ae },
                )
            }
        }),
{
    let mut ae = copy_action_editor(app);
    if app.show_autocomplete {
        if app.autocomplete_selected < app.autocomplete_suggestions.len() {
            let chosen = &app.autocomplete_suggestions[app.autocomplete_selected];
            ae.target = chosen.value.clone();
            match ae.action_type {
                ActionType::App => {
                    ae.bundle_id = Some(chosen.bundle_id.clone());
                },
                _ => {},
            }
            put_action_editor(app, ae);
        }
    } else {
        ae.edit_mode = false;
        put_action_editor(app, ae);
    }
    hide_completion(app);
}

/// Handles a character or backspace typed into the target field, or enter
/// that opens the field: the text changes, and for an application the
/// completion list follows it.
fn change_target(app: &mut App, key: Key)
    requires
        old(app).binding_editor is Some,
        old(app)@.binding_editor->0.action_editor is Some,
        key is Char || key is Backspace || key is Enter,
    ensures
        final(app)@ == ({
            let pre = old(app)@;
            let editor = pre.binding_editor->0;
            let ae = editor.action_editor->0;
            let changed = match key {
                Key::Char(c) => ActionEditorView { target: ae.target.push(c), ..ae },
                Key::Backspace => ActionEditorView { target: without_last(ae.target), ..ae },
                _ => ActionEditorView { edit_mode: true, ..ae },
            };
            let typed = pre.with_action_editor(editor, changed);
            if ae.action_type == ActionType::App {
                typed.completing_app(changed.target)
            } else {
                typed
            }
        }),
        old(app)@.binding_editor->0.action_editor->0.action_type == ActionType::App
            ==> final(app)@.completion_ok(),
        old(app)@.binding_editor->0.action_editor->0.action_type != ActionType::App
            ==> final(app)@.completion_ok() == old(app)@.completion_ok(),
{
    let mut ae = copy_action_editor(app);
    match key {
        Key::Char(c) => {
            push_char(&mut ae.target, c);
        },
        Key::Backspace => {
            pop_char(&mut ae.target);
        },
        _ => {
            ae.edit_mode = true;
        },
    }
    let refill = match ae.action_type {
        ActionType::App => Some(ae.target.clone()),
        _ => None,
    };
    put_action_editor(app, ae);
    if let Some(typed) = refill {
        app.update_app_autocomplete(typed.as_str());
    }
}

/// Handles a key on the target field of the open action editor.
fn handle_target_key(app: &mut App, key: Key)
    requires
        old(app).binding_editor is Some,
        old(app)@.binding_editor->0.action_editor is Some,
        old(app)@.editing_ok(),
    ensures
        final(app)@ == old(app)@.target_step(
            old(app)@.binding_editor->0,
            old(app)@.binding_editor->0.action_editor->0,
            key,
        ),
        final(app)@.editing_ok(),
        old(app)@.table_ok() ==> final(app)@.table_ok(),
{
    let edit_mode = match &app.binding_editor {
        Some(editor) => match &editor.action_editor {
            Some(ae) => ae.edit_mode,
            None => false,
        },
        None => false,
    };
    if !edit_mode {
        match key {
            Key::Enter => change_target(app, key),
            _ => {},
        }
    } else {
        match key {
            Key::Enter => accept_target(app),
            Key::Char(_) => change_target(app, key),
            Key::Backspace => change_target(app, key),
            Key::Down => {
                if app.show_autocomplete {
                    assert(app.autocomplete_suggestions.deep_view().len()
                        == app.autocomplete_suggestions.len());
                    app.next_autocomplete();
                }
            },
            Key::Up => {
                if app.show_autocomplete {
                    app.prev_autocomplete();
                }
            },
            _ => {},
        }
    }
}

/// Handles escape, tab, back tab and the save key of the action editor.
fn leave_action_field(app: &mut App, key: Key)
    requires
        old(app).binding_editor is Some,
        old(app)@.binding_editor->0.action_editor is Some,
        old(app)@.editing_ok(),
        key == Key::Esc || key == Key::Tab || key == Key::BackTab || (key == Key::Char('s')
            && !old(app)@.binding_editor->0.action_editor->0.edit_mode),
    ensures
        final(app)@ == old(app)@.action_editor_step(
            old(app)@.binding_editor->0,
            old(app)@.binding_editor->0.action_editor->0,
            key,
        ),
        final(app)@.editing_ok(),
        old(app)@.table_ok() ==> final(app)@.table_ok(),
{
    hide_completion(app);
    if let Some(mut editor) = app.binding_editor.take() {
        match key {
            Key::Char(_) => editor.finish_action_edit(),
            _ => {
                if let Some(mut ae) = editor.action_editor.take() {
                    match key {
                        Key::Esc => {
                            if ae.edit_mode {
                                ae.edit_mode = false;
                                editor.action_editor = Some(ae);
                            } else {
                                editor.action_editor = Some(ae);
                                editor.cancel_action_edit();
                            }
                        },
                        Key::Tab => {
                            ae.edit_mode = false;
                            ae.next_field();
                            editor.action_editor = Some(ae);
                        },
                        _ => {
                            ae.edit_mode = false;
                            ae.prev_field();
                            editor.action_editor = Some(ae);
                        },
                    }
                }
            },
        }
        app.binding_editor = Some(editor);
    }
}

/// Handles a key while the action editor has the focus.
fn handle_action_editor_key(app: &mut App, key: Key)
    requires
        old(app).binding_editor is Some,
        old(app)@.binding_editor->0.action_editor is Some,
        old(app)@.editing_ok(),
    ensures
        final(app)@ == old(app)@.action_editor_step(
            old(app)@.binding_editor->0,
            old(app)@.binding_editor->0.action_editor->0,
            key,
        ),
        final(app)@.editing_ok(),
        old(app)@.table_ok() ==> final(app)@.table_ok(),
{
    let (field, edit_mode) = match &app.binding_editor {
        Some(editor) => match &editor.action_editor {
            Some(ae) => (ae.field, ae.edit_mode),
            None => (ActionEditorField::Type, false),
        },
        None => (ActionEditorField::Type, false),
    };
    let leaving = match key {
        Key::Esc => true,
        Key::Tab => true,
        Key::BackTab => true,
        _ => !edit_mode && is_char(key, 's'),
    };
    if leaving {
        leave_action_field(app, key);
    } else {
        match field {
            ActionEditorField::Target => handle_target_key(app, key),
            _ => {
                let mut ae = copy_action_editor(app);
                handle_selector_key(&mut ae, key);
                put_action_editor(app, ae);
            },
        }
    }
}

/// Handles a key while an editor is open: the key goes to the action editor
/// where one is open, else to the binding editor. Without an editor nothing
/// happens.
pub fn handle_editing_mode(app: &mut App, key: Key)
    requires
        old(app)@.editing_ok(),
    ensures
        final(app)@ == old(app)@.editing_step(key),
        final(app)@.editing_ok(),
        old(app)@.mode_ok() ==> final(app)@.mode_ok(),
        old(app)@.table_ok() ==> final(app)@.table_ok(),
{
    let target = match &app.binding_editor {
        Some(editor) => Some(editor.action_editor.is_some()),
        None => None,
    };
    match target {
        Some(true) => handle_action_editor_key(app, key),
        Some(false) => handle_binding_editor_key(app, key),
        None => {},
    }
}

/// Whether the state is sound, so that the next key can be handled.
pub fn is_sound(app: &App) -> (r: bool)
    ensures
        r == app@.sound(),
{
    let counted = app.config.bindings.len() <= usize::MAX - app.dynamic_bindings.len();
    let empty = app.config.bindings.len() == 0 && app.dynamic_bindings.len() == 0;
    let fits = counted && (empty || app.selected_binding < usize::MAX);
    let completion = app.autocomplete_selected == 0 || app.autocomplete_selected
        < app.autocomplete_suggestions.len();
    let editor = match &app.binding_editor {
        Some(editor) => {
            let selection = editor.selected_action < editor.actions.len() || (
            editor.actions.len() == 0 && editor.selected_action == 0);
            let target = match (&editor.action_editor, editor.editing_action_index) {
                (Some(_), Some(i)) => i < editor.actions.len(),
                _ => true,
            };
            let place = match app.editing_binding_index {
                Some(i) => i < app.config.bindings.len(),
                None => true,
            };
            selection && target && place
        },
        None => true,
    };
    let mode = match app.input_mode {
        InputMode::Normal => app.binding_editor.is_none(),
        InputMode::Editing => true,
    };
    fits && completion && editor && mode
}

/// Handles a key: outside an editor it walks the lists, inside one it goes
/// to the editor. The result tells whether the caller has to write the
/// bindings to the engine.
pub fn handle_key(app: &mut App, key: Key) -> (effect: Effect)
    requires
        old(app)@.sound(),
    ensures
        final(app)@ == old(app)@.key_step(key),
        effect == (if old(app)@.input_mode == InputMode::Normal && key == Key::Char('s') {
            Effect::SaveToEngine
        } else {
            Effect::Nothing
        }),
        final(app)@.editing_ok(),
        final(app)@.mode_ok(),
        old(app)@.table_ok() ==> final(app)@.table_ok(),
{
    match app.input_mode {
        InputMode::Normal => handle_normal_mode(app, key),
        InputMode::Editing => {
            handle_editing_mode(app, key);
            Effect::Nothing
        },
    }
}

/// The keys that the status line offers, for the screen or the field that
/// has the focus.
pub fn help_text(app: &App) -> (r: &'static str)
    ensures
        r@ == app@.help_line(),
{
    match (app.input_mode, &app.binding_editor) {
        (InputMode::Normal, None) => match app.tab {
            Tab::Bindings => "(a)dd (e)dit (d)elete (j/k)nav (Tab)switch (s)ave (q)uit",
            Tab::Settings => "(\u{2190}\u{2192})change (Tab)switch (s)ave (q)uit",
        },
        (InputMode::Editing, Some(editor)) => match &editor.action_editor {
            Some(ae) => if ae.edit_mode {
                match ae.action_type {
                    ActionType::App => "[EDIT] Type app name | (\u{2191}\u{2193})autocomplete (Enter)finish (Tab)next (Esc)exit",
                    _ => "[EDIT] Type target | (Enter)finish (Tab)next (Esc)exit",
                }
            } else {
                match ae.field {
                    ActionEditorField::Target => "[NAV] (Enter)edit (s)ave (Tab)next (Esc)cancel",
                    _ => "[NAV] (\u{2190}\u{2192})change (s)ave (Tab)next (Esc)cancel",
                }
            },
            None => if editor.edit_mode {
                match editor.field {
                    EditorField::Key => "[EDIT] Type key | (\u{2191}\u{2193})autocomplete (Enter)finish (Tab)next (Esc)exit",
                    EditorField::Description => "[EDIT] Type description | (Enter)finish (Tab)next (Esc)exit",
                    EditorField::Actions => "[NAV]",
                }
            } else {
                match editor.field {
                    EditorField::Actions => "[NAV] (a)dd (e)dit (d)elete (j/k)nav (J/K)move (s)ave (Tab)next (Esc)cancel",
                    _ => "[NAV] (Enter)edit (s)ave (Tab)next (Esc)cancel",
                }
            },
        },
        _ => "",
    }
}

} // verus!
