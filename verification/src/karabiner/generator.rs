//! The compiler from bindings to the engine's rules.
//!
//! A binding with at most one action becomes one manipulator. A binding with
//! more actions cycles through them: it becomes one manipulator for each
//! action, guarded by a variable of the engine that counts the presses. The
//! manipulator of action `i` fires while the variable is `i`, runs the action
//! and sets the variable to the next index, the last one back to 0.

use crate::config::model::{Action, ActionView, Binding, BindingView, Browser, Config, ConfigView};
use vstd::prelude::*;
use vstd::string::StringExecFns;

verus! {

/// The mark at the start of the description of every rule made here.
pub const RULE_PREFIX: &'static str = "[rcmdb]";

/// The start of the name of every variable made here.
pub const VAR_PREFIX: &'static str = "rcmdb_";

/// The key combination that fires a manipulator.
#[derive(Debug, PartialEq, Eq)]
pub struct FromEvent {
    pub key_code: String,
    /// The modifiers that must be held.
    pub mandatory: Vec<String>,
    /// The modifiers that may be held.
    pub optional: Vec<String>,
}

/// What a `FromEvent` holds.
pub struct FromEventView {
    pub key_code: Seq<char>,
    pub mandatory: Seq<Seq<char>>,
    pub optional: Seq<Seq<char>>,
}

impl View for FromEvent {
    type V = FromEventView;

    open spec fn view(&self) -> FromEventView {
        FromEventView {
            key_code: self.key_code@,
            mandatory: self.mandatory.deep_view(),
            optional: self.optional.deep_view(),
        }
    }
}

/// One thing that a manipulator does when it fires.
#[derive(Debug, PartialEq, Eq)]
pub enum ToEvent {
    /// Run a shell command.
    ShellCommand { command: String },
    /// Set a variable of the engine.
    SetVariable { name: String, value: usize },
}

/// What a `ToEvent` holds.
pub enum ToEventView {
    ShellCommand { command: Seq<char> },
    SetVariable { name: Seq<char>, value: usize },
}

impl View for ToEvent {
    type V = ToEventView;

    open spec fn view(&self) -> ToEventView {
        match self {
            ToEvent::ShellCommand { command } => ToEventView::ShellCommand { command: command@ },
            ToEvent::SetVariable { name, value } => ToEventView::SetVariable {
                name: name@,
                value: *value,
            },
        }
    }
}

impl DeepView for ToEvent {
    type V = ToEventView;

    open spec fn deep_view(&self) -> ToEventView {
        self@
    }
}

/// The guard of a manipulator: it fires only while the variable has the value.
#[derive(Debug, PartialEq, Eq)]
pub struct Condition {
    pub name: String,
    pub value: usize,
}

/// What a `Condition` holds.
pub struct ConditionView {
    pub name: Seq<char>,
    pub value: usize,
}

impl View for Condition {
    type V = ConditionView;

    open spec fn view(&self) -> ConditionView {
        ConditionView { name: self.name@, value: self.value }
    }
}

impl DeepView for Condition {
    type V = ConditionView;

    open spec fn deep_view(&self) -> ConditionView {
        self@
    }
}

/// One mapping of the engine, of its basic type: a key combination, what it
/// does, and the conditions under which it fires.
#[derive(Debug, PartialEq, Eq)]
pub struct Manipulator {
    pub from: FromEvent,
    pub to: Vec<ToEvent>,
    pub conditions: Vec<Condition>,
}

/// What a `Manipulator` holds.
pub struct ManipulatorView {
    pub from: FromEventView,
    pub to: Seq<ToEventView>,
    pub conditions: Seq<ConditionView>,
}

impl View for Manipulator {
    type V = ManipulatorView;

    open spec fn view(&self) -> ManipulatorView {
        ManipulatorView {
            from: self.from@,
            to: self.to.deep_view(),
            conditions: self.conditions.deep_view(),
        }
    }
}

impl DeepView for Manipulator {
    type V = ManipulatorView;

    open spec fn deep_view(&self) -> ManipulatorView {
        self@
    }
}

/// A rule of the engine: a description and its manipulators.
#[derive(Debug, PartialEq, Eq)]
pub struct Rule {
    pub description: String,
    pub manipulators: Vec<Manipulator>,
}

/// What a `Rule` holds.
pub struct RuleView {
    pub description: Seq<char>,
    pub manipulators: Seq<ManipulatorView>,
}

impl View for Rule {
    type V = RuleView;

    open spec fn view(&self) -> RuleView {
        RuleView { description: self.description@, manipulators: self.manipulators.deep_view() }
    }
}

impl DeepView for Rule {
    type V = RuleView;

    open spec fn deep_view(&self) -> RuleView {
        self@
    }
}

/// The description of a binding's rule: the mark, the combination, and the
/// binding's own description where it has one.
pub open spec fn rule_description(binding: BindingView) -> Seq<char> {
    if binding.description.len() == 0 {
        RULE_PREFIX@ + " rcmd+"@ + binding.key
    } else {
        RULE_PREFIX@ + " rcmd+"@ + binding.key + ": "@ + binding.description
    }
}

/// The shell command that carries out an action. An application is launched
/// by its bundle id where it has one, else by its name. A URL goes to the
/// helper script under `scripts_dir` with its match type and the browser:
/// the action's own, else the default. A shell command is passed as it is.
pub open spec fn command_of(
    action: ActionView,
    default_browser: Browser,
    scripts_dir: Seq<char>,
) -> Seq<char> {
    match action {
        ActionView::App { target, bundle_id } => if bundle_id is Some && bundle_id->0.len() > 0 {
            "open -b "@ + bundle_id->0
        } else {
            "open -a '"@ + target + "'"@
        },
        ActionView::Url { target, match_type, browser } => "'"@ + scripts_dir + "/url-focus.sh"@
            + "' '"@ + target + "' '"@ + match_type.keyword() + "' '"@ + (match browser {
            Some(b) => b,
            None => default_browser,
        }).keyword() + "'"@,
        ActionView::Shell { command } => command,
    }
}

/// The name of the variable that counts the presses of a key.
pub open spec fn cycle_variable(key: Seq<char>) -> Seq<char> {
    VAR_PREFIX@ + key + "_cycle"@
}

/// The combination that fires the manipulators of a key: the key with the
/// right command key held, and caps lock held or not.
pub open spec fn trigger(key: Seq<char>) -> FromEventView {
    FromEventView {
        key_code: key,
        mandatory: seq!["right_command"@],
        optional: seq!["caps_lock"@],
    }
}

/// The manipulator of a binding with at most one action: it runs the action,
/// or does nothing, and has no condition.
pub open spec fn plain_manipulator(
    binding: BindingView,
    default_browser: Browser,
    scripts_dir: Seq<char>,
) -> ManipulatorView {
    ManipulatorView {
        from: trigger(binding.key),
        to: if binding.actions.len() == 0 {
            Seq::empty()
        } else {
            seq![
                ToEventView::ShellCommand {
                    command: command_of(binding.actions[0], default_browser, scripts_dir),
                },
            ]
        },
        conditions: Seq::empty(),
    }
}

/// The manipulator of action `i` of a cycling binding: it fires while the
/// binding's variable is `i`, runs the action and sets the variable to the
/// index of the next action, the last one to 0.
pub open spec fn cycling_manipulator(
    binding: BindingView,
    i: int,
    default_browser: Browser,
    scripts_dir: Seq<char>,
) -> ManipulatorView {
    ManipulatorView {
        from: trigger(binding.key),
        to: seq![
            ToEventView::ShellCommand {
                command: command_of(binding.actions[i], default_browser, scripts_dir),
            },
            ToEventView::SetVariable {
                name: cycle_variable(binding.key),
                value: ((i + 1) % (binding.actions.len() as int)) as usize,
            },
        ],
        conditions: seq![ConditionView { name: cycle_variable(binding.key), value: i as usize }],
    }
}

/// The cycling manipulators of a binding, one for each action.
pub open spec fn cycling_manipulators(
    binding: BindingView,
    default_browser: Browser,
    scripts_dir: Seq<char>,
) -> Seq<ManipulatorView> {
    Seq::new(
        binding.actions.len(),
        |i: int| cycling_manipulator(binding, i, default_browser, scripts_dir),
    )
}

/// The rule compiled from a binding.
pub open spec fn compiled(
    binding: BindingView,
    default_browser: Browser,
    scripts_dir: Seq<char>,
) -> RuleView {
    RuleView {
        description: rule_description(binding),
        manipulators: if binding.actions.len() <= 1 {
            seq![plain_manipulator(binding, default_browser, scripts_dir)]
        } else {
            cycling_manipulators(binding, default_browser, scripts_dir)
        },
    }
}

/// The rules compiled from the bindings of a configuration, one for each
/// binding, in the table's order.
pub open spec fn compiled_rules(config: ConfigView, scripts_dir: Seq<char>) -> Seq<RuleView> {
    config.bindings.map_values(
        |b: BindingView| compiled(b, config.settings.default_browser, scripts_dir),
    )
}

/// A binding with at most one action compiles to one manipulator that sets
/// no variable and has no condition.
pub proof fn lemma_plain_rule(binding: BindingView, default_browser: Browser, scripts_dir: Seq<char>)
    requires
        binding.actions.len() <= 1,
    ensures
        compiled(binding, default_browser, scripts_dir).manipulators.len() == 1,
        compiled(binding, default_browser, scripts_dir).manipulators[0].conditions.len() == 0,
        compiled(binding, default_browser, scripts_dir).manipulators[0].to.len()
            == binding.actions.len(),
        forall|k: int|
            0 <= k < binding.actions.len() ==> compiled(
                binding,
                default_browser,
                scripts_dir,
            ).manipulators[0].to[k] is ShellCommand,
{
}

/// A binding with two or more actions compiles to one manipulator for each
/// action. The manipulator of action `i` fires while the binding's variable
/// is `i`, runs the action, and sets the variable to `i + 1`, the last one
/// to 0.
pub proof fn lemma_cycling_rule(
    binding: BindingView,
    default_browser: Browser,
    scripts_dir: Seq<char>,
    i: int,
)
    requires
        2 <= binding.actions.len() <= usize::MAX,
        0 <= i < binding.actions.len(),
    ensures
        compiled(binding, default_browser, scripts_dir).manipulators.len()
            == binding.actions.len(),
        compiled(binding, default_browser, scripts_dir).manipulators[i].conditions == seq![
            ConditionView { name: cycle_variable(binding.key), value: i as usize },
        ],
        compiled(binding, default_browser, scripts_dir).manipulators[i].to == seq![
            ToEventView::ShellCommand {
                command: command_of(binding.actions[i], default_browser, scripts_dir),
            },
            ToEventView::SetVariable {
                name: cycle_variable(binding.key),
                value: (if i + 1 == binding.actions.len() {
                    0
                } else {
                    i + 1
                }) as usize,
            },
        ],
{
    if i + 1 < binding.actions.len() {
        vstd::arithmetic::div_mod::lemma_small_mod((i + 1) as nat, binding.actions.len());
    } else {
        vstd::arithmetic::div_mod::lemma_mod_self_0(binding.actions.len() as int);
    }
}

/// The combination that fires the manipulators of `key`.
pub fn trigger_for(key: &str) -> (r: FromEvent)
    ensures
        r@ == trigger(key@),
{
    let mut mandatory: Vec<String> = Vec::new();
    mandatory.push(String::from_str("right_command"));
    let mut optional: Vec<String> = Vec::new();
    optional.push(String::from_str("caps_lock"));
    let r = FromEvent { key_code: String::from_str(key), mandatory, optional };
    assert(r.mandatory.deep_view() =~= seq!["right_command"@]);
    assert(r.optional.deep_view() =~= seq!["caps_lock"@]);
    r
}

/// The shell command that carries out an action.
pub fn action_to_karabiner(action: &Action, default_browser: &Browser, scripts_dir: &str) -> (r:
    ToEvent)
    ensures
        r@ == (ToEventView::ShellCommand {
            command: command_of(action@, *default_browser, scripts_dir@),
        }),
{
    let command = match action {
        Action::App { target, bundle_id } => {
            let by_id = match bundle_id {
                Some(id) => if id.as_str().is_empty() {
                    None
                } else {
                    Some(id)
                },
                None => None,
            };
            match by_id {
                Some(id) => {
                    let mut cmd = String::from_str("open -b ");
                    cmd.append(id.as_str());
                    cmd
                },
                None => {
                    let mut cmd = String::from_str("open -a '");
                    cmd.append(target.as_str());
                    cmd.append("'");
                    cmd
                },
            }
        },
        Action::Url { target, match_type, browser } => {
            let browser = match browser {
                Some(b) => *b,
                None => *default_browser,
            };
            let mut cmd = String::from_str("'");
            cmd.append(scripts_dir);
            cmd.append("/url-focus.sh");
            cmd.append("' '");
            cmd.append(target.as_str());
            cmd.append("' '");
            cmd.append(match_type.as_str());
            cmd.append("' '");
            cmd.append(browser.as_str());
            cmd.append("'");
            cmd
        },
        Action::Shell { command } => command.clone(),
    };
    ToEvent::ShellCommand { command }
}

/// The manipulator of a binding with at most one action.
pub fn generate_single_action_manipulators(
    binding: &Binding,
    default_browser: &Browser,
    scripts_dir: &str,
) -> (r: Vec<Manipulator>)
    ensures
        r.deep_view() == seq![plain_manipulator(binding@, *default_browser, scripts_dir@)],
{
    let mut to: Vec<ToEvent> = Vec::new();
    if binding.actions.len() > 0 {
        to.push(action_to_karabiner(&binding.actions[0], default_browser, scripts_dir));
    }
    let manipulator = Manipulator {
        from: trigger_for(binding.key.as_str()),
        to,
        conditions: Vec::new(),
    };
    proof {
        let wanted = plain_manipulator(binding@, *default_browser, scripts_dir@);
        assert(manipulator.to.deep_view() =~= wanted.to);
        assert(manipulator.conditions.deep_view() =~= wanted.conditions);
    }
    let mut out: Vec<Manipulator> = Vec::new();
    out.push(manipulator);
    assert(out.deep_view() =~= seq![plain_manipulator(binding@, *default_browser, scripts_dir@)]);
    out
}

/// The name of the variable that counts the presses of `key`.
pub fn cycle_variable_name(key: &str) -> (r: String)
    ensures
        r@ == cycle_variable(key@),
{
    let mut name = String::from_str(VAR_PREFIX);
    name.append(key);
    name.append("_cycle");
    name
}

/// The manipulators of a binding that cycles through its actions.
pub fn generate_cycling_manipulators(
    binding: &Binding,
    default_browser: &Browser,
    scripts_dir: &str,
) -> (r: Vec<Manipulator>)
    ensures
        r.deep_view() == cycling_manipulators(binding@, *default_browser, scripts_dir@),
{
    let num_actions = binding.actions.len();
    let mut out: Vec<Manipulator> = Vec::new();
    let mut i: usize = 0;
    while i < num_actions
        invariant
            i <= num_actions,
            num_actions == binding.actions.len(),
            out.len() == i,
            forall|j: int|
                0 <= j < i ==> (#[trigger] out[j])@ == cycling_manipulator(
                    binding@,
                    j,
                    *default_browser,
                    scripts_dir@,
                ),
        decreases num_actions - i,
    {
        let next_value = if i + 1 < num_actions {
            i + 1
        } else {
            0
        };
        let mut to: Vec<ToEvent> = Vec::new();
        to.push(action_to_karabiner(&binding.actions[i], default_browser, scripts_dir));
        to.push(
            ToEvent::SetVariable {
                name: cycle_variable_name(binding.key.as_str()),
                value: next_value,
            },
        );
        let mut conditions: Vec<Condition> = Vec::new();
        conditions.push(Condition { name: cycle_variable_name(binding.key.as_str()), value: i });
        let manipulator = Manipulator { from: trigger_for(binding.key.as_str()), to, conditions };
        proof {
            let wanted = cycling_manipulator(binding@, i as int, *default_browser, scripts_dir@);
            assert(next_value == (i + 1) % (num_actions as int)) by {
                if i + 1 < num_actions {
                    vstd::arithmetic::div_mod::lemma_small_mod((i + 1) as nat, num_actions as nat);
                } else {
                    vstd::arithmetic::div_mod::lemma_mod_self_0(num_actions as int);
                }
            }
            assert(binding@.actions[i as int] == binding.actions[i as int]@);
            assert(manipulator.to.deep_view() =~= wanted.to);
            assert(manipulator.conditions.deep_view() =~= wanted.conditions);
        }
        out.push(manipulator);
        i += 1;
    }
    assert(out.deep_view() =~= cycling_manipulators(binding@, *default_browser, scripts_dir@));
    out
}

/// The description of a binding's rule.
pub fn describe_rule(binding: &Binding) -> (r: String)
    ensures
        r@ == rule_description(binding@),
{
    let mut description = String::from_str(RULE_PREFIX);
    description.append(" rcmd+");
    description.append(binding.key.as_str());
    if !binding.description.as_str().is_empty() {
        description.append(": ");
        description.append(binding.description.as_str());
    }
    description
}

/// Compiles one binding into its rule.
pub fn generate_binding_rule(binding: &Binding, default_browser: &Browser, scripts_dir: &str) -> (r:
    Rule)
    ensures
        r@ == compiled(binding@, *default_browser, scripts_dir@),
{
    let manipulators = if binding.actions.len() <= 1 {
        generate_single_action_manipulators(binding, default_browser, scripts_dir)
    } else {
        generate_cycling_manipulators(binding, default_browser, scripts_dir)
    };
    Rule { description: describe_rule(binding), manipulators }
}

/// Compiles the bindings of a configuration into rules, one for each binding.
pub fn generate_rules(config: &Config, scripts_dir: &str) -> (r: Vec<Rule>)
    ensures
        r.deep_view() == compiled_rules(config@, scripts_dir@),
{
    let mut out: Vec<Rule> = Vec::new();
    let mut i: usize = 0;
    while i < config.bindings.len()
        invariant
            i <= config.bindings.len(),
            out.len() == i,
            forall|j: int|
                0 <= j < i ==> (#[trigger] out[j])@ == compiled(
                    config.bindings[j]@,
                    config.settings.default_browser,
                    scripts_dir@,
                ),
        decreases config.bindings.len() - i,
    {
        out.push(
            generate_binding_rule(
                &config.bindings[i],
                &config.settings.default_browser,
                scripts_dir,
            ),
        );
        i += 1;
    }
    assert(out.deep_view() =~= compiled_rules(config@, scripts_dir@));
    out
}

} // verus!
