//! Bundle ids for application actions that have none.
//!
//! An application is launched most reliably by its bundle id. Before the
//! bindings are written out, the actions without one are listed, the caller
//! asks the system for the id of each, and the answers are put into the
//! actions. An action whose id could not be found stays as it is and is
//! launched by name.

use crate::config::model::{
    clone_optional_text, Action, ActionView, Binding, BindingView, Config, ConfigView,
};
use vstd::prelude::*;
use vstd::string::StringExecFns;

verus! {

/// The action launches an application and has no bundle id, or an empty one.
pub open spec fn needs_bundle_id(action: ActionView) -> bool {
    action matches ActionView::App { bundle_id, .. } && !(bundle_id is Some && bundle_id->0.len()
        > 0)
}

/// The target of an application action.
pub open spec fn app_target(action: ActionView) -> Seq<char> {
    match action {
        ActionView::App { target, .. } => target,
        _ => Seq::empty(),
    }
}

/// The targets of those of the first `n` actions that need a bundle id.
pub open spec fn pending_in(actions: Seq<ActionView>, n: nat) -> Seq<Seq<char>>
    decreases n,
{
    if n == 0 {
        Seq::empty()
    } else if needs_bundle_id(actions[n - 1]) {
        pending_in(actions, (n - 1) as nat).push(app_target(actions[n - 1]))
    } else {
        pending_in(actions, (n - 1) as nat)
    }
}

/// The targets of the actions of the first `n` bindings that need a bundle
/// id, binding by binding, action by action.
pub open spec fn pending(bindings: Seq<BindingView>, n: nat) -> Seq<Seq<char>>
    decreases n,
{
    if n == 0 {
        Seq::empty()
    } else {
        pending(bindings, (n - 1) as nat) + pending_in(
            bindings[n - 1].actions,
            bindings[n - 1].actions.len(),
        )
    }
}

/// The answer for the pending action `i`; a missing answer counts as "not found".
pub open spec fn outcome_at(outcomes: Seq<Option<Seq<char>>>, i: int) -> Option<Seq<char>> {
    if 0 <= i < outcomes.len() {
        outcomes[i]
    } else {
        None
    }
}

/// The note about one answer.
pub open spec fn note_for(target: Seq<char>, outcome: Option<Seq<char>>) -> Seq<char> {
    match outcome {
        Some(id) => "Updated '"@ + target + "' with bundle ID: "@ + id,
        None => "Warning: Could not resolve bundle ID for '"@ + target
            + "'. App may not launch correctly."@,
    }
}

/// The action with the bundle id that was found for it.
pub open spec fn resolved_action(action: ActionView, outcome: Option<Seq<char>>) -> ActionView {
    match outcome {
        Some(id) => ActionView::App { target: app_target(action), bundle_id: Some(id) },
        None => action,
    }
}

/// The notes about the first `n` actions. The answers for these actions
/// begin at `base`.
pub open spec fn notes_in(
    actions: Seq<ActionView>,
    outcomes: Seq<Option<Seq<char>>>,
    base: int,
    n: nat,
) -> Seq<Seq<char>>
    decreases n,
{
    if n == 0 {
        Seq::empty()
    } else if needs_bundle_id(actions[n - 1]) {
        notes_in(actions, outcomes, base, (n - 1) as nat).push(
            note_for(
                app_target(actions[n - 1]),
                outcome_at(outcomes, base + pending_in(actions, (n - 1) as nat).len()),
            ),
        )
    } else {
        notes_in(actions, outcomes, base, (n - 1) as nat)
    }
}

/// The notes about the first `n` bindings: one for each action that needed
/// a bundle id, in the order of `pending`.
pub open spec fn notes(
    bindings: Seq<BindingView>,
    outcomes: Seq<Option<Seq<char>>>,
    n: nat,
) -> Seq<Seq<char>>
    decreases n,
{
    if n == 0 {
        Seq::empty()
    } else {
        notes(bindings, outcomes, (n - 1) as nat) + notes_in(
            bindings[n - 1].actions,
            outcomes,
            pending(bindings, (n - 1) as nat).len() as int,
            bindings[n - 1].actions.len(),
        )
    }
}

/// The actions with the answers put in. The answers for these actions begin
/// at `base`.
pub open spec fn resolved_actions(
    actions: Seq<ActionView>,
    outcomes: Seq<Option<Seq<char>>>,
    base: int,
) -> Seq<ActionView> {
    Seq::new(
        actions.len(),
        |k: int|
            if needs_bundle_id(actions[k]) {
                resolved_action(
                    actions[k],
                    outcome_at(outcomes, base + pending_in(actions, k as nat).len()),
                )
            } else {
                actions[k]
            },
    )
}

/// The bindings with the answers put in: the pending action `i` gets the
/// bundle id of answer `i`, where one was found; nothing else changes.
pub open spec fn resolved_bindings(
    bindings: Seq<BindingView>,
    outcomes: Seq<Option<Seq<char>>>,
) -> Seq<BindingView> {
    Seq::new(
        bindings.len(),
        |b: int|
            BindingView {
                actions: resolved_actions(
                    bindings[b].actions,
                    outcomes,
                    pending(bindings, b as nat).len() as int,
                ),
                ..bindings[b]
            },
    )
}

/// There is one note for each pending action.
pub proof fn lemma_notes_in_len(
    actions: Seq<ActionView>,
    outcomes: Seq<Option<Seq<char>>>,
    base: int,
    n: nat,
)
    ensures
        notes_in(actions, outcomes, base, n).len() == pending_in(actions, n).len(),
    decreases n,
{
    if n > 0 {
        lemma_notes_in_len(actions, outcomes, base, (n - 1) as nat);
    }
}

/// There is one note for each pending action.
pub proof fn lemma_notes_len(
    bindings: Seq<BindingView>,
    outcomes: Seq<Option<Seq<char>>>,
    n: nat,
)
    ensures
        notes(bindings, outcomes, n).len() == pending(bindings, n).len(),
    decreases n,
{
    if n > 0 {
        lemma_notes_len(bindings, outcomes, (n - 1) as nat);
        lemma_notes_in_len(
            bindings[n - 1].actions,
            outcomes,
            pending(bindings, (n - 1) as nat).len() as int,
            bindings[n - 1].actions.len(),
        );
    }
}

/// Whether the action launches an application and has no bundle id.
pub fn needs_resolution(action: &Action) -> (r: bool)
    ensures
        r == needs_bundle_id(action@),
{
    match action {
        Action::App { target, bundle_id } => match bundle_id {
            Some(id) => id.as_str().is_empty(),
            None => true,
        },
        _ => false,
    }
}

/// The target of an application action; empty for another action.
pub fn target_of(action: &Action) -> (r: String)
    ensures
        r@ == app_target(action@),
{
    match action {
        Action::App { target, bundle_id } => target.clone(),
        _ => String::new(),
    }
}

/// The names of the applications whose bundle id has to be asked for, in
/// the order in which `validate_and_update_config` takes the answers.
pub fn unresolved_targets(config: &Config) -> (r: Vec<String>)
    ensures
        r.deep_view() == pending(config@.bindings, config@.bindings.len()),
{
    let mut out: Vec<String> = Vec::new();
    let mut b: usize = 0;
    assert(out.deep_view() =~= Seq::empty());
    while b < config.bindings.len()
        invariant
            b <= config.bindings.len(),
            out.deep_view() == pending(config@.bindings, b as nat),
        decreases config.bindings.len() - b,
    {
        let binding = &config.bindings[b];
        let ghost before = out.deep_view();
        let mut k: usize = 0;
        while k < binding.actions.len()
            invariant
                k <= binding.actions.len(),
                out.deep_view() == before + pending_in(binding@.actions, k as nat),
            decreases binding.actions.len() - k,
        {
            let ghost prev = out.deep_view();
            if needs_resolution(&binding.actions[k]) {
                out.push(target_of(&binding.actions[k]));
                assert(out.deep_view() =~= prev.push(app_target(binding@.actions[k as int])));
            }
            assert(out.deep_view() =~= before + pending_in(binding@.actions, (k + 1) as nat));
            k += 1;
        }
        b += 1;
    }
    out
}

/// The note about one answer.
pub fn note(target: &str, outcome: &Option<String>) -> (r: String)
    ensures
        r@ == note_for(target@, outcome.deep_view()),
{
    match outcome {
        Some(id) => {
            let mut text = String::from_str("Updated '");
            text.append(target);
            text.append("' with bundle ID: ");
            text.append(id.as_str());
            text
        },
        None => {
            let mut text = String::from_str("Warning: Could not resolve bundle ID for '");
            text.append(target);
            text.append("'. App may not launch correctly.");
            text
        },
    }
}

/// The answer for the pending action `i`.
pub fn outcome(outcomes: &Vec<Option<String>>, i: usize) -> (r: Option<String>)
    ensures
        r.deep_view() == outcome_at(outcomes.deep_view(), i as int),
{
    if i < outcomes.len() {
        clone_optional_text(&outcomes[i])
    } else {
        None
    }
}

/// Puts the bundle ids that were found into the application actions that
/// had none. `outcomes` holds the answers in the order of
/// `unresolved_targets`: the id that was found, or `None`; a missing answer
/// counts as `None`. The result holds one note for each such action: that it
/// was updated, or a warning that it could not be.
pub fn validate_and_update_config(config: &mut Config, outcomes: &Vec<Option<String>>) -> (r: Vec<
    String,
>)
    ensures
        final(config)@ == (ConfigView {
            bindings: resolved_bindings(old(config)@.bindings, outcomes.deep_view()),
            ..old(config)@
        }),
        r.deep_view() == notes(
            old(config)@.bindings,
            outcomes.deep_view(),
            old(config)@.bindings.len(),
        ),
        r.len() == pending(old(config)@.bindings, old(config)@.bindings.len()).len(),
{
    let ghost bindings = config@.bindings;
    let ghost answers = outcomes.deep_view();
    let mut warnings: Vec<String> = Vec::new();
    let mut updated: Vec<Binding> = Vec::new();
    let mut b: usize = 0;
    assert(warnings.deep_view() =~= Seq::empty());
    while b < config.bindings.len()
        invariant
            b <= config.bindings.len(),
            bindings == config@.bindings,
            answers == outcomes.deep_view(),
            config@ == old(config)@,
            updated.len() == b,
            forall|j: int|
                0 <= j < b ==> (#[trigger] updated[j])@ == resolved_bindings(bindings, answers)[j],
            warnings.deep_view() == notes(bindings, answers, b as nat),
        decreases config.bindings.len() - b,
    {
        let binding = &config.bindings[b];
        let ghost before = warnings.deep_view();
        let ghost base = pending(bindings, b as nat).len() as int;
        let ghost actions_before = binding@.actions;
        let mut actions: Vec<Action> = Vec::new();
        let mut k: usize = 0;
        proof {
            lemma_notes_len(bindings, answers, b as nat);
        }
        while k < binding.actions.len()
            invariant
                k <= binding.actions.len(),
                actions_before == binding@.actions,
                answers == outcomes.deep_view(),
                before.len() == base,
                actions.len() == k,
                forall|j: int|
                    0 <= j < k ==> (#[trigger] actions[j])@ == resolved_actions(
                        actions_before,
                        answers,
                        base,
                    )[j],
                warnings.deep_view() == before + notes_in(actions_before, answers, base, k as nat),
            decreases binding.actions.len() - k,
        {
            let action = &binding.actions[k];
            let ghost prev = warnings.deep_view();
            proof {
                lemma_notes_in_len(actions_before, answers, base, k as nat);
                assert(actions_before[k as int] == action@);
            }
            if needs_resolution(action) {
                let answer = outcome(outcomes, warnings.len());
                let target = target_of(action);
                warnings.push(note(target.as_str(), &answer));
                assert(warnings.deep_view() =~= prev.push(
                    note_for(app_target(action@), answer.deep_view()),
                ));
                match answer {
                    Some(id) => {
                        actions.push(Action::App { target, bundle_id: Some(id) });
                    },
                    None => {
                        actions.push(action.clone());
                    },
                }
            } else {
                actions.push(action.clone());
            }
            assert(warnings.deep_view() =~= before + notes_in(
                actions_before,
                answers,
                base,
                (k + 1) as nat,
            ));
            k += 1;
        }
        assert(actions.deep_view() =~= resolved_actions(actions_before, answers, base));
        updated.push(
            Binding {
                key: binding.key.clone(),
                description: binding.description.clone(),
                actions,
            },
        );
        b += 1;
    }
    assert(updated.deep_view() =~= resolved_bindings(bindings, answers));
    proof {
        lemma_notes_len(bindings, answers, bindings.len());
    }
    config.bindings = updated;
    warnings
}

} // verus!
