//! Bindings, their actions and the settings.

use crate::app_discovery::{DiscoveredApp, DiscoveredAppView};
use crate::text::{chars_of, joined, text_of};
use vstd::prelude::*;
use vstd::string::StringExecFns;

verus! {

/// A browser that a URL action can open its target in.
#[derive(Clone, Copy, Debug, PartialEq, Eq, Structural)]
pub enum Browser {
    Firefox,
    Chrome,
    Safari,
    Arc,
    Edge,
}

impl Default for Browser {
    fn default() -> (r: Self)
        ensures
            r == Browser::Firefox,
    {
        Browser::Firefox
    }
}

impl Browser {
    /// The browsers, in the order in which a selector steps through them.
    pub open spec fn listed() -> Seq<Browser> {
        seq![Browser::Firefox, Browser::Chrome, Browser::Safari, Browser::Arc, Browser::Edge]
    }

    /// The place of this browser in `listed`.
    pub open spec fn position(self) -> int {
        match self {
            Browser::Firefox => 0,
            Browser::Chrome => 1,
            Browser::Safari => 2,
            Browser::Arc => 3,
            Browser::Edge => 4,
        }
    }

    /// The word that names this browser in files and commands.
    pub open spec fn keyword(self) -> Seq<char> {
        match self {
            Browser::Firefox => "firefox"@,
            Browser::Chrome => "chrome"@,
            Browser::Safari => "safari"@,
            Browser::Arc => "arc"@,
            Browser::Edge => "edge"@,
        }
    }

    /// The name shown to the user.
    pub open spec fn label(self) -> Seq<char> {
        match self {
            Browser::Firefox => "Firefox"@,
            Browser::Chrome => "Chrome"@,
            Browser::Safari => "Safari"@,
            Browser::Arc => "Arc"@,
            Browser::Edge => "Edge"@,
        }
    }

    /// The browsers, in the order in which a selector steps through them.
    pub fn all() -> (r: &'static [Browser])
        ensures
            r@ == Browser::listed(),
    {
        &[Browser::Firefox, Browser::Chrome, Browser::Safari, Browser::Arc, Browser::Edge]
    }

    /// The word that names this browser in files and commands.
    pub fn as_str(&self) -> (r: &'static str)
        ensures
            r@ == self.keyword(),
    {
        match self {
            Browser::Firefox => "firefox",
            Browser::Chrome => "chrome",
            Browser::Safari => "safari",
            Browser::Arc => "arc",
            Browser::Edge => "edge",
        }
    }

    /// The name shown to the user.
    pub fn display_name(&self) -> (r: &'static str)
        ensures
            r@ == self.label(),
    {
        match self {
            Browser::Firefox => "Firefox",
            Browser::Chrome => "Chrome",
            Browser::Safari => "Safari",
            Browser::Arc => "Arc",
            Browser::Edge => "Edge",
        }
    }

    /// The place of this browser in `all()`.
    pub fn index(&self) -> (r: usize)
        ensures
            r == self.position(),
            0 <= r < 5,
            Browser::listed()[r as int] == *self,
    {
        match self {
            Browser::Firefox => 0,
            Browser::Chrome => 1,
            Browser::Safari => 2,
            Browser::Arc => 3,
            Browser::Edge => 4,
        }
    }
}

/// The modifier key that anchors every combination.
#[derive(Clone, Copy, Debug, PartialEq, Eq, Structural)]
pub enum AnchorKey {
    RightCommand,
    RightOption,
}

impl Default for AnchorKey {
    fn default() -> (r: Self)
        ensures
            r == AnchorKey::RightCommand,
    {
        AnchorKey::RightCommand
    }
}

impl AnchorKey {
    /// The anchor keys, in the order in which a selector steps through them.
    pub open spec fn listed() -> Seq<AnchorKey> {
        seq![AnchorKey::RightCommand, AnchorKey::RightOption]
    }

    /// The place of this key in `listed`.
    pub open spec fn position(self) -> int {
        match self {
            AnchorKey::RightCommand => 0,
            AnchorKey::RightOption => 1,
        }
    }

    /// The engine's name of the modifier.
    pub open spec fn modifier(self) -> Seq<char> {
        match self {
            AnchorKey::RightCommand => "right_command"@,
            AnchorKey::RightOption => "right_option"@,
        }
    }

    /// The short form that stands before a key in a combination.
    pub open spec fn prefix(self) -> Seq<char> {
        match self {
            AnchorKey::RightCommand => "rcmd"@,
            AnchorKey::RightOption => "ropt"@,
        }
    }

    /// The name shown to the user.
    pub open spec fn label(self) -> Seq<char> {
        match self {
            AnchorKey::RightCommand => "Right Command"@,
            AnchorKey::RightOption => "Right Option"@,
        }
    }

    /// The anchor keys, in the order in which a selector steps through them.
    pub fn all() -> (r: &'static [AnchorKey])
        ensures
            r@ == AnchorKey::listed(),
    {
        &[AnchorKey::RightCommand, AnchorKey::RightOption]
    }

    /// The engine's name of the modifier.
    pub fn as_karabiner_modifier(&self) -> (r: &'static str)
        ensures
            r@ == self.modifier(),
    {
        match self {
            AnchorKey::RightCommand => "right_command",
            AnchorKey::RightOption => "right_option",
        }
    }

    /// The short form that stands before a key in a combination.
    pub fn display_prefix(&self) -> (r: &'static str)
        ensures
            r@ == self.prefix(),
    {
        match self {
            AnchorKey::RightCommand => "rcmd",
            AnchorKey::RightOption => "ropt",
        }
    }

    /// The name shown to the user.
    pub fn display_name(&self) -> (r: &'static str)
        ensures
            r@ == self.label(),
    {
        match self {
            AnchorKey::RightCommand => "Right Command",
            AnchorKey::RightOption => "Right Option",
        }
    }

    /// The place of this key in `all()`.
    pub fn index(&self) -> (r: usize)
        ensures
            r == self.position(),
            0 <= r < 2,
            AnchorKey::listed()[r as int] == *self,
    {
        match self {
            AnchorKey::RightCommand => 0,
            AnchorKey::RightOption => 1,
        }
    }
}

/// How a URL action decides that an open tab already shows its target.
#[derive(Clone, Copy, Debug, PartialEq, Eq, Structural)]
pub enum UrlMatchType {
    Exact,
    Domain,
    Path,
    Glob,
}

impl Default for UrlMatchType {
    fn default() -> (r: Self)
        ensures
            r == UrlMatchType::Domain,
    {
        UrlMatchType::Domain
    }
}

impl UrlMatchType {
    /// The match types, in the order in which a selector steps through them.
    pub open spec fn listed() -> Seq<UrlMatchType> {
        seq![UrlMatchType::Exact, UrlMatchType::Domain, UrlMatchType::Path, UrlMatchType::Glob]
    }

    /// The place of this match type in `listed`.
    pub open spec fn position(self) -> int {
        match self {
            UrlMatchType::Exact => 0,
            UrlMatchType::Domain => 1,
            UrlMatchType::Path => 2,
            UrlMatchType::Glob => 3,
        }
    }

    /// The word that names this match type in files and commands.
    pub open spec fn keyword(self) -> Seq<char> {
        match self {
            UrlMatchType::Exact => "exact"@,
            UrlMatchType::Domain => "domain"@,
            UrlMatchType::Path => "path"@,
            UrlMatchType::Glob => "glob"@,
        }
    }

    /// The match types, in the order in which a selector steps through them.
    pub fn all() -> (r: &'static [UrlMatchType])
        ensures
            r@ == UrlMatchType::listed(),
    {
        &[UrlMatchType::Exact, UrlMatchType::Domain, UrlMatchType::Path, UrlMatchType::Glob]
    }

    /// The word that names this match type in files and commands.
    pub fn as_str(&self) -> (r: &'static str)
        ensures
            r@ == self.keyword(),
    {
        match self {
            UrlMatchType::Exact => "exact",
            UrlMatchType::Domain => "domain",
            UrlMatchType::Path => "path",
            UrlMatchType::Glob => "glob",
        }
    }

    /// The place of this match type in `all()`.
    pub fn index(&self) -> (r: usize)
        ensures
            r == self.position(),
            0 <= r < 4,
            UrlMatchType::listed()[r as int] == *self,
    {
        match self {
            UrlMatchType::Exact => 0,
            UrlMatchType::Domain => 1,
            UrlMatchType::Path => 2,
            UrlMatchType::Glob => 3,
        }
    }
}

/// A copy of an optional string.
pub fn clone_optional_text(o: &Option<String>) -> (r: Option<String>)
    ensures
        r.deep_view() == o.deep_view(),
{
    match o {
        Some(s) => Some(s.clone()),
        None => None,
    }
}

/// One effect of a binding: launch an application, focus or open a URL, or
/// run a shell command.
#[derive(Debug, PartialEq, Eq)]
pub enum Action {
    App { target: String, bundle_id: Option<String> },
    Url { target: String, match_type: UrlMatchType, browser: Option<Browser> },
    Shell { command: String },
}

/// What an `Action` holds.
pub enum ActionView {
    App { target: Seq<char>, bundle_id: Option<Seq<char>> },
    Url { target: Seq<char>, match_type: UrlMatchType, browser: Option<Browser> },
    Shell { command: Seq<char> },
}

/// The mark that follows the name of an application whose bundle id is known.
pub open spec fn resolved_mark() -> Seq<char> {
    " \u{e2}\u{153}\u{201c}"@
}

/// The longest shell command that a summary shows in full.
pub const SHELL_SUMMARY_LIMIT: usize = 30;

/// How many characters of a longer shell command a summary keeps.
pub const SHELL_SUMMARY_KEPT: usize = 27;

impl ActionView {
    /// The one-line summary of an action: an application's name, marked where
    /// its bundle id is known; a URL with its match type in brackets; a shell
    /// command behind a dollar sign, cut to 27 characters and an ellipsis
    /// where it has more than 30.
    pub open spec fn summary(self) -> Seq<char> {
        match self {
            ActionView::App { target, bundle_id } => if bundle_id is Some {
                target + resolved_mark()
            } else {
                target
            },
            ActionView::Url { target, match_type, browser } => target + " ("@
                + match_type.keyword() + ")"@,
            ActionView::Shell { command } => if command.len() > SHELL_SUMMARY_LIMIT {
                "$ "@ + command.take(SHELL_SUMMARY_KEPT as int) + "..."@
            } else {
                "$ "@ + command
            },
        }
    }

    /// The name of the action's kind.
    pub open spec fn kind_text(self) -> Seq<char> {
        match self {
            ActionView::App { .. } => "App"@,
            ActionView::Url { .. } => "URL"@,
            ActionView::Shell { .. } => "Shell"@,
        }
    }
}

impl View for Action {
    type V = ActionView;

    open spec fn view(&self) -> ActionView {
        match self {
            Action::App { target, bundle_id } => ActionView::App {
                target: target@,
                bundle_id: bundle_id.deep_view(),
            },
            Action::Url { target, match_type, browser } => ActionView::Url {
                target: target@,
                match_type: *match_type,
                browser: *browser,
            },
            Action::Shell { command } => ActionView::Shell { command: command@ },
        }
    }
}

impl DeepView for Action {
    type V = ActionView;

    open spec fn deep_view(&self) -> ActionView {
        self@
    }
}

impl Clone for Action {
    fn clone(&self) -> (r: Self)
        ensures
            r@ == self@,
    {
        match self {
            Action::App { target, bundle_id } => Action::App {
                target: target.clone(),
                bundle_id: clone_optional_text(bundle_id),
            },
            Action::Url { target, match_type, browser } => Action::Url {
                target: target.clone(),
                match_type: *match_type,
                browser: *browser,
            },
            Action::Shell { command } => Action::Shell { command: command.clone() },
        }
    }
}

impl Action {
    /// The one-line summary of the action.
    pub fn display_summary(&self) -> (r: String)
        ensures
            r@ == self@.summary(),
    {
        match self {
            Action::App { target, bundle_id } => {
                let mut out = target.clone();
                if bundle_id.is_some() {
                    out.append(" \u{e2}\u{153}\u{201c}");
                }
                out
            },
            Action::Url { target, match_type, browser } => {
                let mut out = target.clone();
                out.append(" (");
                out.append(match_type.as_str());
                out.append(")");
                out
            },
            Action::Shell { command } => {
                let chars = chars_of(command.as_str());
                let mut out = String::from_str("$ ");
                if chars.len() > SHELL_SUMMARY_LIMIT {
                    let head = text_of(&chars, 0, SHELL_SUMMARY_KEPT);
                    out.append(head.as_str());
                    out.append("...");
                } else {
                    out.append(command.as_str());
                }
                out
            },
        }
    }

    /// The name of the action's kind, as the editor shows it.
    pub fn kind_name(&self) -> (r: &'static str)
        ensures
            r@ == self@.kind_text(),
    {
        match self {
            Action::App { .. } => "App",
            Action::Url { .. } => "URL",
            Action::Shell { .. } => "Shell",
        }
    }
}

/// A copy of a list of actions.
pub fn clone_actions(actions: &Vec<Action>) -> (r: Vec<Action>)
    ensures
        r.deep_view() == actions.deep_view(),
{
    let mut out: Vec<Action> = Vec::new();
    let mut i: usize = 0;
    while i < actions.len()
        invariant
            i <= actions.len(),
            out.len() == i,
            forall|j: int| 0 <= j < i ==> out[j]@ == actions[j]@,
        decreases actions.len() - i,
    {
        out.push(actions[i].clone());
        i += 1;
    }
    assert(out.deep_view() =~= actions.deep_view());
    out
}

/// A trigger key with the actions it cycles through, in cycling order.
#[derive(Debug, PartialEq, Eq)]
pub struct Binding {
    pub key: String,
    pub description: String,
    pub actions: Vec<Action>,
}

/// What a `Binding` holds.
pub struct BindingView {
    pub key: Seq<char>,
    pub description: Seq<char>,
    pub actions: Seq<ActionView>,
}

/// The summaries of `actions`, one for each, in order.
pub open spec fn summaries(actions: Seq<ActionView>) -> Seq<Seq<char>> {
    actions.map_values(|a: ActionView| a.summary())
}

impl BindingView {
    /// The summary of the binding's actions: a note where it has none, else
    /// the summaries of its actions joined by arrows.
    pub open spec fn actions_summary(self) -> Seq<char> {
        if self.actions.len() == 0 {
            "(no actions)"@
        } else {
            joined(summaries(self.actions), " -> "@)
        }
    }

    /// The combination as shown to the user: the anchor's prefix, a plus
    /// sign, the key.
    pub open spec fn display_key(self, anchor_key: AnchorKey) -> Seq<char> {
        anchor_key.prefix() + "+"@ + self.key
    }
}

impl View for Binding {
    type V = BindingView;

    open spec fn view(&self) -> BindingView {
        BindingView {
            key: self.key@,
            description: self.description@,
            actions: self.actions.deep_view(),
        }
    }
}

impl DeepView for Binding {
    type V = BindingView;

    open spec fn deep_view(&self) -> BindingView {
        self@
    }
}

impl Clone for Binding {
    fn clone(&self) -> (r: Self)
        ensures
            r@ == self@,
    {
        Binding {
            key: self.key.clone(),
            description: self.description.clone(),
            actions: clone_actions(&self.actions),
        }
    }
}

impl Binding {
    /// The summary of the binding's actions.
    pub fn actions_summary(&self) -> (r: String)
        ensures
            r@ == self@.actions_summary(),
    {
        if self.actions.len() == 0 {
            return String::from_str("(no actions)");
        }
        let ghost all = summaries(self@.actions);
        let mut out = self.actions[0].display_summary();
        assert(all.take(1) =~= seq![all[0]]);
        let mut i: usize = 1;
        while i < self.actions.len()
            invariant
                1 <= i <= self.actions.len(),
                all == summaries(self@.actions),
                out@ == joined(all.take(i as int), " -> "@),
            decreases self.actions.len() - i,
        {
            let next = self.actions[i].display_summary();
            out.append(" -> ");
            out.append(next.as_str());
            proof {
                assert(all.take(i + 1).drop_last() =~= all.take(i as int));
                assert(all.take(i + 1).last() == next@);
            }
            i += 1;
        }
        assert(all.take(self.actions.len() as int) =~= all);
        out
    }

    /// The combination as shown to the user.
    pub fn display_key(&self, anchor_key: &AnchorKey) -> (r: String)
        ensures
            r@ == self@.display_key(*anchor_key),
    {
        let mut out = String::from_str(anchor_key.display_prefix());
        out.append("+");
        out.append(self.key.as_str());
        out
    }
}

/// A copy of a list of bindings.
pub fn clone_bindings(bindings: &Vec<Binding>) -> (r: Vec<Binding>)
    ensures
        r.deep_view() == bindings.deep_view(),
{
    let mut out: Vec<Binding> = Vec::new();
    let mut i: usize = 0;
    while i < bindings.len()
        invariant
            i <= bindings.len(),
            out.len() == i,
            forall|j: int| 0 <= j < i ==> out[j]@ == bindings[j]@,
        decreases bindings.len() - i,
    {
        out.push(bindings[i].clone());
        i += 1;
    }
    assert(out.deep_view() =~= bindings.deep_view());
    out
}

/// The two global choices.
#[derive(Clone, Copy, Debug, PartialEq, Eq, Structural)]
pub struct Settings {
    pub anchor_key: AnchorKey,
    pub default_browser: Browser,
}

impl Default for Settings {
    fn default() -> (r: Self)
        ensures
            r == (Settings {
                anchor_key: AnchorKey::RightCommand,
                default_browser: Browser::Firefox,
            }),
    {
        Settings { anchor_key: AnchorKey::RightCommand, default_browser: Browser::Firefox }
    }
}

/// Everything that is kept between runs.
#[derive(Debug, PartialEq, Eq)]
pub struct Config {
    pub settings: Settings,
    pub bindings: Vec<Binding>,
    pub cached_apps: Vec<DiscoveredApp>,
}

/// What a `Config` holds.
pub struct ConfigView {
    pub settings: Settings,
    pub bindings: Seq<BindingView>,
    pub cached_apps: Seq<DiscoveredAppView>,
}

impl View for Config {
    type V = ConfigView;

    open spec fn view(&self) -> ConfigView {
        ConfigView {
            settings: self.settings,
            bindings: self.bindings.deep_view(),
            cached_apps: self.cached_apps.deep_view(),
        }
    }
}

impl Default for Config {
    fn default() -> (r: Self)
        ensures
            r@ == (ConfigView {
                settings: Settings {
                    anchor_key: AnchorKey::RightCommand,
                    default_browser: Browser::Firefox,
                },
                bindings: Seq::empty(),
                cached_apps: Seq::empty(),
            }),
    {
        let r = Config {
            settings: Settings::default(),
            bindings: Vec::new(),
            cached_apps: Vec::new(),
        };
        assert(r.bindings.deep_view() =~= Seq::empty());
        assert(r.cached_apps.deep_view() =~= Seq::empty());
        r
    }
}

} // verus!
