//! The working copies that the user edits: one binding, and within it one
//! action at a time.
//!
//! Each editor holds a copy of what it edits, a field that has the focus, and
//! a flag that tells whether keys go into the field's text (edit mode) or act
//! on the field (navigation mode). Nothing reaches the saved table before the
//! binding is saved.

use crate::config::model::{
    clone_actions, clone_optional_text, Action, ActionView, Binding, BindingView, Browser,
    UrlMatchType,
};
use vstd::prelude::*;

verus! {

/// The fields of the binding editor, in cycling order.
#[derive(Clone, Copy, Debug, PartialEq, Eq, Structural)]
pub enum EditorField {
    Key,
    Description,
    Actions,
}

/// The fields of the action editor. The last two exist for URL actions only.
#[derive(Clone, Copy, Debug, PartialEq, Eq, Structural)]
pub enum ActionEditorField {
    Type,
    Target,
    MatchType,
    Browser,
}

/// The kind of action that the action editor is set to.
#[derive(Clone, Copy, Debug, PartialEq, Eq, Structural)]
pub enum ActionType {
    App,
    Url,
    Shell,
}

impl ActionType {
    /// The name shown in the type selector.
    pub open spec fn label(self) -> Seq<char> {
        match self {
            ActionType::App => "App"@,
            ActionType::Url => "URL"@,
            ActionType::Shell => "Shell"@,
        }
    }

    /// The kind one step to the right, around the end.
    pub open spec fn following(self) -> ActionType {
        match self {
            ActionType::App => ActionType::Url,
            ActionType::Url => ActionType::Shell,
            ActionType::Shell => ActionType::App,
        }
    }

    /// The kind one step to the left, around the end.
    pub open spec fn preceding(self) -> ActionType {
        match self {
            ActionType::App => ActionType::Shell,
            ActionType::Url => ActionType::App,
            ActionType::Shell => ActionType::Url,
        }
    }

    /// The name shown in the type selector.
    pub fn as_str(&self) -> (r: &'static str)
        ensures
            r@ == self.label(),
    {
        match self {
            ActionType::App => "App",
            ActionType::Url => "URL",
            ActionType::Shell => "Shell",
        }
    }

    /// The kind one step to the right, around the end.
    pub fn next(&self) -> (r: ActionType)
        ensures
            r == self.following(),
    {
        match self {
            ActionType::App => ActionType::Url,
            ActionType::Url => ActionType::Shell,
            ActionType::Shell => ActionType::App,
        }
    }

    /// The kind one step to the left, around the end.
    pub fn prev(&self) -> (r: ActionType)
        ensures
            r == self.preceding(),
    {
        match self {
            ActionType::App => ActionType::Shell,
            ActionType::Url => ActionType::App,
            ActionType::Shell => ActionType::Url,
        }
    }
}

/// The browser choice one step to the right: from "use the default" to the
/// first browser, from the last browser back to "use the default".
pub open spec fn browser_choice_after(choice: Option<Browser>) -> Option<Browser> {
    match choice {
        None => Some(Browser::listed()[0]),
        Some(b) => if b.position() == Browser::listed().len() - 1 {
            None
        } else {
            Some(Browser::listed()[b.position() + 1])
        },
    }
}

/// The browser choice one step to the left: from "use the default" to the
/// last browser, from the first browser back to "use the default".
pub open spec fn browser_choice_before(choice: Option<Browser>) -> Option<Browser> {
    match choice {
        None => Some(Browser::listed()[Browser::listed().len() - 1]),
        Some(b) => if b.position() == 0 {
            None
        } else {
            Some(Browser::listed()[b.position() - 1])
        },
    }
}

/// The match type one step to the right, around the end.
pub open spec fn match_type_after(m: UrlMatchType) -> UrlMatchType {
    UrlMatchType::listed()[(m.position() + 1) % 4]
}

/// The match type one step to the left, around the end.
pub open spec fn match_type_before(m: UrlMatchType) -> UrlMatchType {
    UrlMatchType::listed()[if m.position() == 0 {
        3
    } else {
        m.position() - 1
    }]
}

/// The working copy of one action.
#[derive(Debug, PartialEq, Eq)]
pub struct ActionEditor {
    pub action_type: ActionType,
    /// The target of an application or URL action, the command of a shell action.
    pub target: String,
    /// The bundle id, for application actions.
    pub bundle_id: Option<String>,
    pub match_type: UrlMatchType,
    /// The browser of a URL action; `None` stands for the configured default.
    pub browser: Option<Browser>,
    pub field: ActionEditorField,
    /// Set while keys are typed into the target field.
    pub edit_mode: bool,
}

/// What an `ActionEditor` holds.
pub struct ActionEditorView {
    pub action_type: ActionType,
    pub target: Seq<char>,
    pub bundle_id: Option<Seq<char>>,
    pub match_type: UrlMatchType,
    pub browser: Option<Browser>,
    pub field: ActionEditorField,
    pub edit_mode: bool,
}

impl ActionEditorView {
    /// The editor for a new action: an application action without a target.
    pub open spec fn blank() -> ActionEditorView {
        ActionEditorView {
            action_type: ActionType::App,
            target: Seq::empty(),
            bundle_id: None,
            match_type: UrlMatchType::Domain,
            browser: None,
            field: ActionEditorField::Type,
            edit_mode: false,
        }
    }

    /// The editor filled from an action.
    pub open spec fn of(action: ActionView) -> ActionEditorView {
        match action {
            ActionView::App { target, bundle_id } => ActionEditorView {
                action_type: ActionType::App,
                target,
                bundle_id,
                ..ActionEditorView::blank()
            },
            ActionView::Url { target, match_type, browser } => ActionEditorView {
                action_type: ActionType::Url,
                target,
                match_type,
                browser,
                ..ActionEditorView::blank()
            },
            ActionView::Shell { command } => ActionEditorView {
                action_type: ActionType::Shell,
                target: command,
                ..ActionEditorView::blank()
            },
        }
    }

    /// The action that the editor describes.
    pub open spec fn action(self) -> ActionView {
        match self.action_type {
            ActionType::App => ActionView::App { target: self.target, bundle_id: self.bundle_id },
            ActionType::Url => ActionView::Url {
                target: self.target,
                match_type: self.match_type,
                browser: self.browser,
            },
            ActionType::Shell => ActionView::Shell { command: self.target },
        }
    }

    /// The field after this one: type, target, and for a URL action match
    /// type and browser, then type again.
    pub open spec fn field_after(self) -> ActionEditorField {
        match self.field {
            ActionEditorField::Type => ActionEditorField::Target,
            ActionEditorField::Target => if self.action_type == ActionType::Url {
                ActionEditorField::MatchType
            } else {
                ActionEditorField::Type
            },
            ActionEditorField::MatchType => if self.action_type == ActionType::Url {
                ActionEditorField::Browser
            } else {
                ActionEditorField::Type
            },
            ActionEditorField::Browser => ActionEditorField::Type,
        }
    }

    /// The field before this one.
    pub open spec fn field_before(self) -> ActionEditorField {
        match self.field {
            ActionEditorField::Type => if self.action_type == ActionType::Url {
                ActionEditorField::Browser
            } else {
                ActionEditorField::Target
            },
            ActionEditorField::Target => ActionEditorField::Type,
            ActionEditorField::MatchType => ActionEditorField::Target,
            ActionEditorField::Browser => ActionEditorField::MatchType,
        }
    }
}

impl View for ActionEditor {
    type V = ActionEditorView;

    open spec fn view(&self) -> ActionEditorView {
        ActionEditorView {
            action_type: self.action_type,
            target: self.target@,
            bundle_id: self.bundle_id.deep_view(),
            match_type: self.match_type,
            browser: self.browser,
            field: self.field,
            edit_mode: self.edit_mode,
        }
    }
}

impl DeepView for ActionEditor {
    type V = ActionEditorView;

    open spec fn deep_view(&self) -> ActionEditorView {
        self@
    }
}

impl Clone for ActionEditor {
    fn clone(&self) -> (r: Self)
        ensures
            r@ == self@,
    {
        ActionEditor {
            action_type: self.action_type,
            target: self.target.clone(),
            bundle_id: clone_optional_text(&self.bundle_id),
            match_type: self.match_type,
            browser: self.browser,
            field: self.field,
            edit_mode: self.edit_mode,
        }
    }
}

impl ActionEditor {
    /// The editor for a new action.
    pub fn new() -> (r: Self)
        ensures
            r@ == ActionEditorView::blank(),
    {
        ActionEditor {
            action_type: ActionType::App,
            target: String::new(),
            bundle_id: None,
            match_type: UrlMatchType::Domain,
            browser: None,
            field: ActionEditorField::Type,
            edit_mode: false,
        }
    }

    /// The editor filled from an action.
    pub fn from_action(action: &Action) -> (r: Self)
        ensures
            r@ == ActionEditorView::of(action@),
    {
        match action {
            Action::App { target, bundle_id } => ActionEditor {
                action_type: ActionType::App,
                target: target.clone(),
                bundle_id: clone_optional_text(bundle_id),
                match_type: UrlMatchType::Domain,
                browser: None,
                field: ActionEditorField::Type,
                edit_mode: false,
            },
            Action::Url { target, match_type, browser } => ActionEditor {
                action_type: ActionType::Url,
                target: target.clone(),
                bundle_id: None,
                match_type: *match_type,
                browser: *browser,
                field: ActionEditorField::Type,
                edit_mode: false,
            },
            Action::Shell { command } => ActionEditor {
                action_type: ActionType::Shell,
                target: command.clone(),
                bundle_id: None,
                match_type: UrlMatchType::Domain,
                browser: None,
                field: ActionEditorField::Type,
                edit_mode: false,
            },
        }
    }

    /// The action that the editor describes.
    pub fn to_action(&self) -> (r: Action)
        ensures
            r@ == self@.action(),
    {
        match self.action_type {
            ActionType::App => Action::App {
                target: self.target.clone(),
                bundle_id: clone_optional_text(&self.bundle_id),
            },
            ActionType::Url => Action::Url {
                target: self.target.clone(),
                match_type: self.match_type,
                browser: self.browser,
            },
            ActionType::Shell => Action::Shell { command: self.target.clone() },
        }
    }

    /// Moves the focus to the next field.
    pub fn next_field(&mut self)
        ensures
            final(self)@ == (ActionEditorView { field: old(self)@.field_after(), ..old(self)@ }),
    {
        self.field =
        match self.field {
            ActionEditorField::Type => ActionEditorField::Target,
            ActionEditorField::Target => match self.action_type {
                ActionType::Url => ActionEditorField::MatchType,
                _ => ActionEditorField::Type,
            },
            ActionEditorField::MatchType => match self.action_type {
                ActionType::Url => ActionEditorField::Browser,
                _ => ActionEditorField::Type,
            },
            ActionEditorField::Browser => ActionEditorField::Type,
        };
    }

    /// Moves the focus to the field before.
    pub fn prev_field(&mut self)
        ensures
            final(self)@ == (ActionEditorView { field: old(self)@.field_before(), ..old(self)@ }),
    {
        self.field =
        match self.field {
            ActionEditorField::Type => match self.action_type {
                ActionType::Url => ActionEditorField::Browser,
                _ => ActionEditorField::Target,
            },
            ActionEditorField::Target => ActionEditorField::Type,
            ActionEditorField::MatchType => ActionEditorField::Target,
            ActionEditorField::Browser => ActionEditorField::MatchType,
        };
    }

    /// Steps the browser selector one to the right.
    pub fn next_browser_choice(&mut self)
        ensures
            final(self)@ == (ActionEditorView {
                browser: browser_choice_after(old(self)@.browser),
                ..old(self)@
            }),
    {
        let browsers = Browser::all();
        self.browser =
        match self.browser {
            None => Some(browsers[0]),
            Some(b) => {
                let idx = b.index();
                if idx == browsers.len() - 1 {
                    None
                } else {
                    Some(browsers[idx + 1])
                }
            },
        };
    }

    /// Steps the browser selector one to the left.
    pub fn prev_browser_choice(&mut self)
        ensures
            final(self)@ == (ActionEditorView {
                browser: browser_choice_before(old(self)@.browser),
                ..old(self)@
            }),
    {
        let browsers = Browser::all();
        self.browser =
        match self.browser {
            None => Some(browsers[browsers.len() - 1]),
            Some(b) => {
                let idx = b.index();
                if idx == 0 {
                    None
                } else {
                    Some(browsers[idx - 1])
                }
            },
        };
    }

    /// Steps the match type selector one to the right.
    pub fn next_match_type(&mut self)
        ensures
            final(self)@ == (ActionEditorView {
                match_type: match_type_after(old(self)@.match_type),
                ..old(self)@
            }),
    {
        let types = UrlMatchType::all();
        let idx = self.match_type.index();
        self.match_type = types[(idx + 1) % types.len()];
    }

    /// Steps the match type selector one to the left.
    pub fn prev_match_type(&mut self)
        ensures
            final(self)@ == (ActionEditorView {
                match_type: match_type_before(old(self)@.match_type),
                ..old(self)@
            }),
    {
        let types = UrlMatchType::all();
        let idx = self.match_type.index();
        let prev_idx = if idx == 0 {
            types.len() - 1
        } else {
            idx - 1
        };
        self.match_type = types[prev_idx];
    }
}

/// A copy of an optional action editor.
pub fn clone_optional_editor(o: &Option<ActionEditor>) -> (r: Option<ActionEditor>)
    ensures
        r.deep_view() == o.deep_view(),
{
    match o {
        Some(e) => Some(e.clone()),
        None => None,
    }
}

/// The working copy of one binding.
#[derive(Debug, PartialEq, Eq)]
pub struct BindingEditor {
    pub key: String,
    pub description: String,
    pub actions: Vec<Action>,
    /// The action that the list of actions highlights.
    pub selected_action: usize,
    pub field: EditorField,
    /// The editor of one action, while one is open.
    pub action_editor: Option<ActionEditor>,
    /// The place of the action that `action_editor` edits; `None` for a new one.
    pub editing_action_index: Option<usize>,
    /// Set while keys are typed into the key or the description.
    pub edit_mode: bool,
}

/// What a `BindingEditor` holds.
pub struct BindingEditorView {
    pub key: Seq<char>,
    pub description: Seq<char>,
    pub actions: Seq<ActionView>,
    pub selected_action: usize,
    pub field: EditorField,
    pub action_editor: Option<ActionEditorView>,
    pub editing_action_index: Option<usize>,
    pub edit_mode: bool,
}

impl BindingEditorView {
    /// The editor for a new binding.
    pub open spec fn blank() -> BindingEditorView {
        BindingEditorView {
            key: Seq::empty(),
            description: Seq::empty(),
            actions: Seq::empty(),
            selected_action: 0,
            field: EditorField::Key,
            action_editor: None,
            editing_action_index: None,
            edit_mode: false,
        }
    }

    /// The editor filled from a binding.
    pub open spec fn of(binding: BindingView) -> BindingEditorView {
        BindingEditorView {
            key: binding.key,
            description: binding.description,
            actions: binding.actions,
            ..BindingEditorView::blank()
        }
    }

    /// The binding that the editor describes.
    pub open spec fn binding(self) -> BindingView {
        BindingView { key: self.key, description: self.description, actions: self.actions }
    }

    /// The field after this one: key, description, actions, then key again.
    pub open spec fn field_after(self) -> EditorField {
        match self.field {
            EditorField::Key => EditorField::Description,
            EditorField::Description => EditorField::Actions,
            EditorField::Actions => EditorField::Key,
        }
    }

    /// The field before this one.
    pub open spec fn field_before(self) -> EditorField {
        match self.field {
            EditorField::Key => EditorField::Actions,
            EditorField::Description => EditorField::Key,
            EditorField::Actions => EditorField::Description,
        }
    }

    /// The highlighted action exists; with no actions the highlight is at 0.
    pub open spec fn selection_ok(self) -> bool {
        self.selected_action < self.actions.len() || (self.actions.len() == 0
            && self.selected_action == 0)
    }

    /// While an action is edited in place, its place exists.
    pub open spec fn edit_target_ok(self) -> bool {
        self.action_editor is Some ==> (self.editing_action_index matches Some(i) ==> i
            < self.actions.len())
    }

    /// With a blank action editor open for a new action.
    pub open spec fn adding_action(self) -> BindingEditorView {
        BindingEditorView {
            action_editor: Some(ActionEditorView::blank()),
            editing_action_index: None,
            ..self
        }
    }

    /// With the action editor open on the highlighted action, where there is one.
    pub open spec fn editing_action(self) -> BindingEditorView {
        if self.selected_action < self.actions.len() {
            BindingEditorView {
                action_editor: Some(ActionEditorView::of(self.actions[self.selected_action as int])),
                editing_action_index: Some(self.selected_action),
                ..self
            }
        } else {
            self
        }
    }

    /// With the action editor closed and its action stored: in place of the
    /// action it was opened on, or at the end of the list, where the
    /// highlight then goes.
    pub open spec fn finished_action(self) -> BindingEditorView {
        match self.action_editor {
            None => self,
            Some(editor) => match self.editing_action_index {
                Some(idx) => BindingEditorView {
                    actions: self.actions.update(idx as int, editor.action()),
                    action_editor: None,
                    editing_action_index: None,
                    ..self
                },
                None => BindingEditorView {
                    actions: self.actions.push(editor.action()),
                    selected_action: self.actions.len() as usize,
                    action_editor: None,
                    editing_action_index: None,
                    ..self
                },
            },
        }
    }

    /// With the action editor closed and its content dropped.
    pub open spec fn cancelled_action(self) -> BindingEditorView {
        BindingEditorView { action_editor: None, editing_action_index: None, ..self }
    }

    /// Without the highlighted action; the highlight stays on the list.
    pub open spec fn deleted_action(self) -> BindingEditorView {
        if self.actions.len() == 0 {
            self
        } else {
            let rest = self.actions.remove(self.selected_action as int);
            BindingEditorView {
                actions: rest,
                selected_action: if self.selected_action >= rest.len() && rest.len() > 0 {
                    (rest.len() - 1) as usize
                } else {
                    self.selected_action
                },
                ..self
            }
        }
    }

    /// `actions` with the actions at `i` and `j` exchanged.
    pub open spec fn exchanged(actions: Seq<ActionView>, i: int, j: int) -> Seq<ActionView> {
        actions.update(i, actions[j]).update(j, actions[i])
    }

    /// With the highlighted action one place earlier; unchanged at the top.
    pub open spec fn moved_up(self) -> BindingEditorView {
        if self.selected_action > 0 {
            BindingEditorView {
                actions: Self::exchanged(
                    self.actions,
                    self.selected_action as int,
                    self.selected_action - 1,
                ),
                selected_action: (self.selected_action - 1) as usize,
                ..self
            }
        } else {
            self
        }
    }

    /// With the highlighted action one place later; unchanged at the bottom.
    pub open spec fn moved_down(self) -> BindingEditorView {
        if self.selected_action + 1 < self.actions.len() {
            BindingEditorView {
                actions: Self::exchanged(
                    self.actions,
                    self.selected_action as int,
                    self.selected_action + 1,
                ),
                selected_action: (self.selected_action + 1) as usize,
                ..self
            }
        } else {
            self
        }
    }

    /// With the highlight one action earlier; unchanged at the top.
    pub open spec fn highlight_up(self) -> BindingEditorView {
        if self.selected_action > 0 {
            BindingEditorView { selected_action: (self.selected_action - 1) as usize, ..self }
        } else {
            self
        }
    }

    /// With the highlight one action later; unchanged at the bottom.
    pub open spec fn highlight_down(self) -> BindingEditorView {
        if self.selected_action + 1 < self.actions.len() {
            BindingEditorView { selected_action: (self.selected_action + 1) as usize, ..self }
        } else {
            self
        }
    }
}

impl View for BindingEditor {
    type V = BindingEditorView;

    open spec fn view(&self) -> BindingEditorView {
        BindingEditorView {
            key: self.key@,
            description: self.description@,
            actions: self.actions.deep_view(),
            selected_action: self.selected_action,
            field: self.field,
            action_editor: self.action_editor.deep_view(),
            editing_action_index: self.editing_action_index,
            edit_mode: self.edit_mode,
        }
    }
}

impl DeepView for BindingEditor {
    type V = BindingEditorView;

    open spec fn deep_view(&self) -> BindingEditorView {
        self@
    }
}

impl Clone for BindingEditor {
    fn clone(&self) -> (r: Self)
        ensures
            r@ == self@,
    {
        BindingEditor {
            key: self.key.clone(),
            description: self.description.clone(),
            actions: clone_actions(&self.actions),
            selected_action: self.selected_action,
            field: self.field,
            action_editor: clone_optional_editor(&self.action_editor),
            editing_action_index: self.editing_action_index,
            edit_mode: self.edit_mode,
        }
    }
}

impl BindingEditor {
    /// The editor for a new binding.
    pub fn new() -> (r: Self)
        ensures
            r@ == BindingEditorView::blank(),
    {
        let r = BindingEditor {
            key: String::new(),
            description: String::new(),
            actions: Vec::new(),
            selected_action: 0,
            field: EditorField::Key,
            action_editor: None,
            editing_action_index: None,
            edit_mode: false,
        };
        assert(r.actions.deep_view() =~= Seq::empty());
        r
    }

    /// The editor filled from a binding.
    pub fn from_binding(binding: &Binding) -> (r: Self)
        ensures
            r@ == BindingEditorView::of(binding@),
    {
        BindingEditor {
            key: binding.key.clone(),
            description: binding.description.clone(),
            actions: clone_actions(&binding.actions),
            selected_action: 0,
            field: EditorField::Key,
            action_editor: None,
            editing_action_index: None,
            edit_mode: false,
        }
    }

    /// The binding that the editor describes.
    pub fn to_binding(&self) -> (r: Binding)
        ensures
            r@ == self@.binding(),
    {
        Binding {
            key: self.key.clone(),
            description: self.description.clone(),
            actions: clone_actions(&self.actions),
        }
    }

    /// Moves the focus to the next field.
    pub fn next_field(&mut self)
        ensures
            final(self)@ == (BindingEditorView { field: old(self)@.field_after(), ..old(self)@ }),
    {
        self.field =
        match self.field {
            EditorField::Key => EditorField::Description,
            EditorField::Description => EditorField::Actions,
            EditorField::Actions => EditorField::Key,
        };
    }

    /// Moves the focus to the field before.
    pub fn prev_field(&mut self)
        ensures
            final(self)@ == (BindingEditorView { field: old(self)@.field_before(), ..old(self)@ }),
    {
        self.field =
        match self.field {
            EditorField::Key => EditorField::Actions,
            EditorField::Description => EditorField::Key,
            EditorField::Actions => EditorField::Description,
        };
    }

    /// Opens a blank action editor for a new action.
    pub fn start_adding_action(&mut self)
        ensures
            final(self)@ == old(self)@.adding_action(),
    {
        self.action_editor = Some(ActionEditor::new());
        self.editing_action_index = None;
    }

    /// Opens the action editor on the highlighted action, where there is one.
    pub fn start_editing_action(&mut self)
        ensures
            final(self)@ == old(self)@.editing_action(),
    {
        if self.selected_action < self.actions.len() {
            self.action_editor = Some(ActionEditor::from_action(&self.actions[self.selected_action]));
            self.editing_action_index = Some(self.selected_action);
        }
    }

    /// Closes the action editor and stores its action: in place of the action
    /// it was opened on, or at the end of the list.
    pub fn finish_action_edit(&mut self)
        requires
            old(self)@.edit_target_ok(),
        ensures
            final(self)@ == old(self)@.finished_action(),
            old(self)@.selection_ok() ==> final(self)@.selection_ok(),
    {
        if let Some(editor) = self.action_editor.take() {
            let action = editor.to_action();
            let ghost before = self.actions.deep_view();
            if let Some(idx) = self.editing_action_index.take() {
                self.actions[idx] = action;
                assert(self.actions.deep_view() =~= before.update(idx as int, editor@.action()));
            } else {
                self.actions.push(action);
                self.selected_action = self.actions.len() - 1;
                assert(self.actions.deep_view() =~= before.push(editor@.action()));
            }
        }
    }

    /// Closes the action editor and drops its content.
    pub fn cancel_action_edit(&mut self)
        ensures
            final(self)@ == old(self)@.cancelled_action(),
    {
        self.action_editor = None;
        self.editing_action_index = None;
    }

    /// Deletes the highlighted action and keeps the highlight on the list.
    pub fn delete_selected_action(&mut self)
        requires
            old(self).actions.len() > 0 ==> old(self).selected_action < old(self).actions.len(),
        ensures
            final(self)@ == old(self)@.deleted_action(),
            old(self)@.selection_ok() ==> final(self)@.selection_ok(),
    {
        if self.actions.len() > 0 {
            let ghost before = self.actions.deep_view();
            self.actions.remove(self.selected_action);
            assert(self.actions.deep_view() =~= before.remove(self.selected_action as int));
            if self.selected_action >= self.actions.len() && self.actions.len() > 0 {
                self.selected_action = self.actions.len() - 1;
            }
        }
    }

    /// Moves the highlighted action one place earlier; at the top it stays.
    pub fn move_action_up(&mut self)
        requires
            old(self).selected_action > 0 ==> old(self).selected_action < old(self).actions.len(),
        ensures
            final(self)@ == old(self)@.moved_up(),
            old(self)@.selection_ok() ==> final(self)@.selection_ok(),
    {
        if self.selected_action > 0 {
            let ghost before = self.actions.deep_view();
            let i = self.selected_action;
            let moved = self.actions.remove(i);
            self.actions.insert(i - 1, moved);
            assert(self.actions.deep_view() =~= BindingEditorView::exchanged(
                before,
                i as int,
                i - 1,
            ));
            self.selected_action -= 1;
        }
    }

    /// Moves the highlighted action one place later; at the bottom it stays.
    pub fn move_action_down(&mut self)
        ensures
            final(self)@ == old(self)@.moved_down(),
            old(self)@.selection_ok() ==> final(self)@.selection_ok(),
    {
        if self.actions.len() > 0 && self.selected_action < self.actions.len() - 1 {
            let ghost before = self.actions.deep_view();
            let i = self.selected_action;
            let moved = self.actions.remove(i);
            self.actions.insert(i + 1, moved);
            assert(self.actions.deep_view() =~= BindingEditorView::exchanged(
                before,
                i as int,
                i + 1,
            ));
            self.selected_action += 1;
        }
    }

    /// Moves the highlight one action up; it stays at the top.
    pub fn select_previous_action(&mut self)
        ensures
            final(self)@ == old(self)@.highlight_up(),
            old(self)@.selection_ok() ==> final(self)@.selection_ok(),
    {
        if self.selected_action > 0 {
            self.selected_action -= 1;
        }
    }

    /// Moves the highlight one action down; it stays at the bottom.
    pub fn select_next_action(&mut self)
        ensures
            final(self)@ == old(self)@.highlight_down(),
            old(self)@.selection_ok() ==> final(self)@.selection_ok(),
    {
        if self.actions.len() > 0 && self.selected_action < self.actions.len() - 1 {
            self.selected_action += 1;
        }
    }
}

} // verus!
