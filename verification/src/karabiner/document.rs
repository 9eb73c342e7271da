//! The engine's document, as far as the binder reads and changes it.
//!
//! The document is JSON. The binder looks at the first profile, at its
//! complex modifications and at their rules; everything else passes through
//! untouched. Of the rules it replaces those that carry its mark in their
//! description and leaves the others where they are.

use crate::config::model::{Config, ConfigView};
use crate::karabiner::generator::{
    compiled_rules, generate_rules, Condition, ConditionView, FromEvent, FromEventView,
    Manipulator, ManipulatorView, Rule, RuleView, ToEvent, ToEventView, RULE_PREFIX,
};
use crate::text::{chars_of, chars_start_with, str_eq};
use vstd::prelude::*;
use vstd::string::StringExecFns;

verus! {

/// A JSON value. A number that is no integer is held by its text; an object
/// holds its members in order.
#[derive(Debug, PartialEq, Eq)]
pub enum Json {
    Null,
    Bool(bool),
    Unsigned(u64),
    Negative(i64),
    Real(String),
    Text(String),
    Array(Vec<Json>),
    Object(Vec<(String, Json)>),
}

/// What a `Json` holds.
pub enum JsonView {
    Null,
    Bool(bool),
    Unsigned(u64),
    Negative(i64),
    Real(Seq<char>),
    Text(Seq<char>),
    Array(Seq<JsonView>),
    Object(Seq<(Seq<char>, JsonView)>),
}

impl Json {
    /// What the value holds, through all its levels.
    pub open spec fn model(&self) -> JsonView
        decreases self,
    {
        match self {
            Json::Null => JsonView::Null,
            Json::Bool(b) => JsonView::Bool(*b),
            Json::Unsigned(n) => JsonView::Unsigned(*n),
            Json::Negative(n) => JsonView::Negative(*n),
            Json::Real(s) => JsonView::Real(s@),
            Json::Text(s) => JsonView::Text(s@),
            Json::Array(items) => JsonView::Array(
                Seq::new(
                    items.len() as nat,
                    |i: int|
                        if 0 <= i < items.len() {
                            items[i].model()
                        } else {
                            JsonView::Null
                        },
                ),
            ),
            Json::Object(members) => JsonView::Object(
                Seq::new(
                    members.len() as nat,
                    |i: int|
                        if 0 <= i < members.len() {
                            (members[i].0@, members[i].1.model())
                        } else {
                            (Seq::empty(), JsonView::Null)
                        },
                ),
            ),
        }
    }
}

impl View for Json {
    type V = JsonView;

    open spec fn view(&self) -> JsonView {
        self.model()
    }
}

impl DeepView for Json {
    type V = JsonView;

    open spec fn deep_view(&self) -> JsonView {
        self.model()
    }
}

/// Why the rules could not be put into a document.
#[derive(Clone, Copy, Debug, PartialEq, Eq, Structural)]
pub enum MergeError {
    /// The document has no array of profiles.
    MissingProfiles,
    /// The first profile is not an object.
    ProfileNotObject,
    /// The complex modifications of the first profile are not an object.
    ModificationsNotObject,
    /// The rules of the complex modifications are not an array.
    RulesNotArray,
}

impl MergeError {
    /// The error in words.
    pub open spec fn text(self) -> Seq<char> {
        match self {
            MergeError::MissingProfiles => "karabiner.json missing profiles array"@,
            MergeError::ProfileNotObject => "profile is not an object"@,
            MergeError::ModificationsNotObject => "complex_modifications is not an object"@,
            MergeError::RulesNotArray => "rules is not an array"@,
        }
    }

    /// The error in words.
    pub fn message(&self) -> (r: String)
        ensures
            r@ == self.text(),
    {
        match self {
            MergeError::MissingProfiles => String::from_str("karabiner.json missing profiles array"),
            MergeError::ProfileNotObject => String::from_str("profile is not an object"),
            MergeError::ModificationsNotObject => String::from_str(
                "complex_modifications is not an object",
            ),
            MergeError::RulesNotArray => String::from_str("rules is not an array"),
        }
    }
}

/// The place of the first member called `name` from `from` on; -1 where
/// there is none.
pub open spec fn member_index(
    members: Seq<(Seq<char>, JsonView)>,
    name: Seq<char>,
    from: int,
) -> int
    decreases members.len() - from,
{
    if from < 0 || from >= members.len() {
        -1
    } else if members[from].0 == name {
        from
    } else {
        member_index(members, name, from + 1)
    }
}

/// The value of the first member called `name`.
pub open spec fn member_value(members: Seq<(Seq<char>, JsonView)>, name: Seq<char>) -> Option<
    JsonView,
> {
    if member_index(members, name, 0) >= 0 {
        Some(members[member_index(members, name, 0)].1)
    } else {
        None
    }
}

/// The rule was made by the binder: it is an object whose description is a
/// text that begins with the binder's mark.
pub open spec fn is_generated(rule: JsonView) -> bool {
    match rule {
        JsonView::Object(members) => match member_value(members, "description"@) {
            Some(JsonView::Text(d)) => RULE_PREFIX@.is_prefix_of(d),
            _ => false,
        },
        _ => false,
    }
}

/// The rules after a merge: the rules that others wrote, in their order,
/// followed by the fresh rules.
pub open spec fn merged_rules(existing: Seq<JsonView>, fresh: Seq<JsonView>) -> Seq<JsonView> {
    existing.filter(|r: JsonView| !is_generated(r)) + fresh
}

/// An object that holds nothing but an empty array of rules.
pub open spec fn no_modifications() -> JsonView {
    JsonView::Object(seq![("rules"@, JsonView::Array(Seq::empty()))])
}

/// The profile that a document without profiles gets.
pub open spec fn default_profile() -> JsonView {
    JsonView::Object(
        seq![
            ("name"@, JsonView::Text("Default"@)),
            ("complex_modifications"@, no_modifications()),
            ("simple_modifications"@, JsonView::Array(Seq::empty())),
        ],
    )
}

/// The document that stands for a missing file: no global settings and the
/// default profile.
pub open spec fn empty_document() -> JsonView {
    JsonView::Object(
        seq![
            ("global"@, JsonView::Object(Seq::empty())),
            ("profiles"@, JsonView::Array(seq![default_profile()])),
        ],
    )
}

/// The members with `value` for the first member called `name`, which must
/// be there.
pub open spec fn with_member(
    members: Seq<(Seq<char>, JsonView)>,
    name: Seq<char>,
    value: JsonView,
) -> Seq<(Seq<char>, JsonView)> {
    members.update(member_index(members, name, 0), (name, value))
}

/// The members, with a member `name` of value `value` added at the end
/// where none is called so.
pub open spec fn ensuring_member(
    members: Seq<(Seq<char>, JsonView)>,
    name: Seq<char>,
    value: JsonView,
) -> Seq<(Seq<char>, JsonView)> {
    if member_index(members, name, 0) >= 0 {
        members
    } else {
        members.push((name, value))
    }
}

/// The complex modifications with the fresh rules merged into their rules.
/// Missing rules count as none.
pub open spec fn merged_modifications(
    members: Seq<(Seq<char>, JsonView)>,
    fresh: Seq<JsonView>,
) -> Result<Seq<(Seq<char>, JsonView)>, MergeError> {
    let present = ensuring_member(members, "rules"@, JsonView::Array(Seq::empty()));
    match member_value(present, "rules"@) {
        Some(JsonView::Array(rules)) => Ok(
            with_member(present, "rules"@, JsonView::Array(merged_rules(rules, fresh))),
        ),
        _ => Err(MergeError::RulesNotArray),
    }
}

/// The profile with the fresh rules merged into its complex modifications.
/// Missing complex modifications count as empty.
pub open spec fn merged_profile(profile: JsonView, fresh: Seq<JsonView>) -> Result<
    JsonView,
    MergeError,
> {
    match profile {
        JsonView::Object(members) => {
            let present = ensuring_member(members, "complex_modifications"@, no_modifications());
            match member_value(present, "complex_modifications"@) {
                Some(JsonView::Object(modifications)) => match merged_modifications(
                    modifications,
                    fresh,
                ) {
                    Ok(merged) => Ok(
                        JsonView::Object(
                            with_member(
                                present,
                                "complex_modifications"@,
                                JsonView::Object(merged),
                            ),
                        ),
                    ),
                    Err(e) => Err(e),
                },
                _ => Err(MergeError::ModificationsNotObject),
            }
        },
        _ => Err(MergeError::ProfileNotObject),
    }
}

/// The document with the fresh rules merged into its first profile. A
/// document without profiles gets the default profile first.
pub open spec fn merged_document(doc: JsonView, fresh: Seq<JsonView>) -> Result<
    JsonView,
    MergeError,
> {
    match doc {
        JsonView::Object(members) => match member_value(members, "profiles"@) {
            Some(JsonView::Array(found)) => {
                let profiles = if found.len() == 0 {
                    seq![default_profile()]
                } else {
                    found
                };
                match merged_profile(profiles[0], fresh) {
                    Ok(merged) => Ok(
                        JsonView::Object(
                            with_member(
                                members,
                                "profiles"@,
                                JsonView::Array(profiles.update(0, merged)),
                            ),
                        ),
                    ),
                    Err(e) => Err(e),
                }
            },
            _ => Err(MergeError::MissingProfiles),
        },
        _ => Err(MergeError::MissingProfiles),
    }
}

/// An array of texts.
pub open spec fn text_list(items: Seq<Seq<char>>) -> JsonView {
    JsonView::Array(items.map_values(|t: Seq<char>| JsonView::Text(t)))
}

/// A key combination as the engine reads it.
pub open spec fn from_event_json(from: FromEventView) -> JsonView {
    JsonView::Object(
        seq![
            ("key_code"@, JsonView::Text(from.key_code)),
            (
                "modifiers"@,
                JsonView::Object(
                    seq![
                        ("mandatory"@, text_list(from.mandatory)),
                        ("optional"@, text_list(from.optional)),
                    ],
                ),
            ),
        ],
    )
}

/// An effect as the engine reads it.
pub open spec fn to_event_json(event: ToEventView) -> JsonView {
    match event {
        ToEventView::ShellCommand { command } => JsonView::Object(
            seq![("shell_command"@, JsonView::Text(command))],
        ),
        ToEventView::SetVariable { name, value } => JsonView::Object(
            seq![
                (
                    "set_variable"@,
                    JsonView::Object(
                        seq![
                            ("name"@, JsonView::Text(name)),
                            ("value"@, JsonView::Unsigned(value as u64)),
                        ],
                    ),
                ),
            ],
        ),
    }
}

/// A condition as the engine reads it.
pub open spec fn condition_json(condition: ConditionView) -> JsonView {
    JsonView::Object(
        seq![
            ("type"@, JsonView::Text("variable_if"@)),
            ("name"@, JsonView::Text(condition.name)),
            ("value"@, JsonView::Unsigned(condition.value as u64)),
        ],
    )
}

/// A manipulator as the engine reads it. One without conditions has no
/// member for them.
pub open spec fn manipulator_json(m: ManipulatorView) -> JsonView {
    let always = seq![
        ("type"@, JsonView::Text("basic"@)),
        ("from"@, from_event_json(m.from)),
        ("to"@, JsonView::Array(m.to.map_values(|e: ToEventView| to_event_json(e)))),
    ];
    if m.conditions.len() > 0 {
        JsonView::Object(
            always.push(
                (
                    "conditions"@,
                    JsonView::Array(m.conditions.map_values(|c: ConditionView| condition_json(c))),
                ),
            ),
        )
    } else {
        JsonView::Object(always)
    }
}

/// A rule as the engine reads it.
pub open spec fn rule_json(rule: RuleView) -> JsonView {
    JsonView::Object(
        seq![
            ("description"@, JsonView::Text(rule.description)),
            (
                "manipulators"@,
                JsonView::Array(
                    rule.manipulators.map_values(|m: ManipulatorView| manipulator_json(m)),
                ),
            ),
        ],
    )
}

/// A text.
pub fn text(s: &str) -> (r: Json)
    ensures
        r@ == JsonView::Text(s@),
{
    Json::Text(String::from_str(s))
}

/// An array of the items.
pub fn array(items: Vec<Json>) -> (r: Json)
    ensures
        r@ == JsonView::Array(items.deep_view()),
{
    let r = Json::Array(items);
    assert(r.model()->Array_0 =~= items.deep_view());
    r
}

/// An object of the members.
pub fn object(members: Vec<(String, Json)>) -> (r: Json)
    ensures
        r@ == JsonView::Object(members.deep_view()),
{
    let r = Json::Object(members);
    assert(r.model()->Object_0 =~= members.deep_view());
    r
}

/// Adds a member to the members of an object.
pub fn put(members: &mut Vec<(String, Json)>, name: &str, value: Json)
    ensures
        final(members).deep_view() == old(members).deep_view().push((name@, value@)),
{
    let ghost before = members.deep_view();
    members.push((String::from_str(name), value));
    assert(members.deep_view() =~= before.push((name@, value@)));
}

/// An array of texts.
pub fn texts_to_json(items: &Vec<String>) -> (r: Json)
    ensures
        r@ == text_list(items.deep_view()),
{
    let mut out: Vec<Json> = Vec::new();
    let mut i: usize = 0;
    while i < items.len()
        invariant
            i <= items.len(),
            out.len() == i,
            forall|j: int| 0 <= j < i ==> (#[trigger] out[j])@ == JsonView::Text(items[j]@),
        decreases items.len() - i,
    {
        out.push(text(items[i].as_str()));
        i += 1;
    }
    assert(out.deep_view() =~= items.deep_view().map_values(|t: Seq<char>| JsonView::Text(t)));
    array(out)
}

impl FromEvent {
    /// The key combination as the engine reads it.
    pub fn to_json(&self) -> (r: Json)
        ensures
            r@ == from_event_json(self@),
    {
        let mut modifiers: Vec<(String, Json)> = Vec::new();
        assert(modifiers.deep_view() =~= Seq::empty());
        put(&mut modifiers, "mandatory", texts_to_json(&self.mandatory));
        put(&mut modifiers, "optional", texts_to_json(&self.optional));
        assert(modifiers.deep_view() =~= seq![
            ("mandatory"@, text_list(self@.mandatory)),
            ("optional"@, text_list(self@.optional)),
        ]);
        let mut members: Vec<(String, Json)> = Vec::new();
        assert(members.deep_view() =~= Seq::empty());
        put(&mut members, "key_code", text(self.key_code.as_str()));
        put(&mut members, "modifiers", object(modifiers));
        assert(members.deep_view() =~= from_event_json(self@)->Object_0);
        object(members)
    }
}

impl ToEvent {
    /// The effect as the engine reads it.
    pub fn to_json(&self) -> (r: Json)
        ensures
            r@ == to_event_json(self@),
    {
        let mut members: Vec<(String, Json)> = Vec::new();
        assert(members.deep_view() =~= Seq::empty());
        match self {
            ToEvent::ShellCommand { command } => {
                put(&mut members, "shell_command", text(command.as_str()));
                let r = object(members);
                assert(r@->Object_0 =~= to_event_json(self@)->Object_0);
                r
            },
            ToEvent::SetVariable { name, value } => {
                let mut inner: Vec<(String, Json)> = Vec::new();
                assert(inner.deep_view() =~= Seq::empty());
                put(&mut inner, "name", text(name.as_str()));
                put(&mut inner, "value", Json::Unsigned(*value as u64));
                assert(inner.deep_view() =~= seq![
                    ("name"@, JsonView::Text(name@)),
                    ("value"@, JsonView::Unsigned(*value as u64)),
                ]);
                put(&mut members, "set_variable", object(inner));
                assert(members.deep_view() =~= to_event_json(self@)->Object_0);
                object(members)
            },
        }
    }
}

impl Condition {
    /// The condition as the engine reads it.
    pub fn to_json(&self) -> (r: Json)
        ensures
            r@ == condition_json(self@),
    {
        let mut members: Vec<(String, Json)> = Vec::new();
        assert(members.deep_view() =~= Seq::empty());
        put(&mut members, "type", text("variable_if"));
        put(&mut members, "name", text(self.name.as_str()));
        put(&mut members, "value", Json::Unsigned(self.value as u64));
        let r = object(members);
        assert(r@->Object_0 =~= condition_json(self@)->Object_0);
        r
    }
}

impl Manipulator {
    /// The manipulator as the engine reads it.
    pub fn to_json(&self) -> (r: Json)
        ensures
            r@ == manipulator_json(self@),
    {
        let mut to: Vec<Json> = Vec::new();
        let mut i: usize = 0;
        while i < self.to.len()
            invariant
                i <= self.to.len(),
                to.len() == i,
                forall|j: int| 0 <= j < i ==> (#[trigger] to[j])@ == to_event_json(self.to[j]@),
            decreases self.to.len() - i,
        {
            to.push(self.to[i].to_json());
            i += 1;
        }
        assert(to.deep_view() =~= self@.to.map_values(|e: ToEventView| to_event_json(e)));
        let mut conditions: Vec<Json> = Vec::new();
        let mut k: usize = 0;
        while k < self.conditions.len()
            invariant
                k <= self.conditions.len(),
                conditions.len() == k,
                forall|j: int|
                    0 <= j < k ==> (#[trigger] conditions[j])@ == condition_json(
                        self.conditions[j]@,
                    ),
            decreases self.conditions.len() - k,
        {
            conditions.push(self.conditions[k].to_json());
            k += 1;
        }
        assert(conditions.deep_view() =~= self@.conditions.map_values(
            |c: ConditionView| condition_json(c),
        ));
        let mut members: Vec<(String, Json)> = Vec::new();
        assert(members.deep_view() =~= Seq::empty());
        put(&mut members, "type", text("basic"));
        put(&mut members, "from", self.from.to_json());
        put(&mut members, "to", array(to));
        if self.conditions.len() > 0 {
            put(&mut members, "conditions", array(conditions));
        }
        let r = object(members);
        assert(r@->Object_0 =~= manipulator_json(self@)->Object_0);
        r
    }
}

impl Rule {
    /// The rule as the engine reads it.
    pub fn to_json(&self) -> (r: Json)
        ensures
            r@ == rule_json(self@),
    {
        let mut manipulators: Vec<Json> = Vec::new();
        let mut i: usize = 0;
        while i < self.manipulators.len()
            invariant
                i <= self.manipulators.len(),
                manipulators.len() == i,
                forall|j: int|
                    0 <= j < i ==> (#[trigger] manipulators[j])@ == manipulator_json(
                        self.manipulators[j]@,
                    ),
            decreases self.manipulators.len() - i,
        {
            manipulators.push(self.manipulators[i].to_json());
            i += 1;
        }
        assert(manipulators.deep_view() =~= self@.manipulators.map_values(
            |m: ManipulatorView| manipulator_json(m),
        ));
        let mut members: Vec<(String, Json)> = Vec::new();
        assert(members.deep_view() =~= Seq::empty());
        put(&mut members, "description", text(self.description.as_str()));
        put(&mut members, "manipulators", array(manipulators));
        let r = object(members);
        assert(r@->Object_0 =~= rule_json(self@)->Object_0);
        r
    }
}

/// The rules as the engine reads them, one for each, in order.
pub fn rules_to_json(rules: &Vec<Rule>) -> (r: Vec<Json>)
    ensures
        r.deep_view() == rules.deep_view().map_values(|rule: RuleView| rule_json(rule)),
{
    let mut out: Vec<Json> = Vec::new();
    let mut i: usize = 0;
    while i < rules.len()
        invariant
            i <= rules.len(),
            out.len() == i,
            forall|j: int| 0 <= j < i ==> (#[trigger] out[j])@ == rule_json(rules[j]@),
        decreases rules.len() - i,
    {
        out.push(rules[i].to_json());
        i += 1;
    }
    assert(out.deep_view() =~= rules.deep_view().map_values(|rule: RuleView| rule_json(rule)));
    out
}

/// An object that holds nothing but an empty array of rules.
pub fn empty_modifications() -> (r: Json)
    ensures
        r@ == no_modifications(),
{
    let rules: Vec<Json> = Vec::new();
    assert(rules.deep_view() =~= Seq::empty());
    let mut members: Vec<(String, Json)> = Vec::new();
    assert(members.deep_view() =~= Seq::empty());
    put(&mut members, "rules", array(rules));
    let r = object(members);
    assert(r@->Object_0 =~= no_modifications()->Object_0);
    r
}

/// The profile that a document without profiles gets.
pub fn new_default_profile() -> (r: Json)
    ensures
        r@ == default_profile(),
{
    let simple: Vec<Json> = Vec::new();
    assert(simple.deep_view() =~= Seq::empty());
    let mut members: Vec<(String, Json)> = Vec::new();
    assert(members.deep_view() =~= Seq::empty());
    put(&mut members, "name", text("Default"));
    put(&mut members, "complex_modifications", empty_modifications());
    put(&mut members, "simple_modifications", array(simple));
    let r = object(members);
    assert(r@->Object_0 =~= default_profile()->Object_0);
    r
}

/// The document that stands for a missing file.
pub fn new_empty_document() -> (r: Json)
    ensures
        r@ == empty_document(),
{
    let global: Vec<(String, Json)> = Vec::new();
    assert(global.deep_view() =~= Seq::empty());
    let mut profiles: Vec<Json> = Vec::new();
    profiles.push(new_default_profile());
    assert(profiles.deep_view() =~= seq![default_profile()]);
    let mut members: Vec<(String, Json)> = Vec::new();
    assert(members.deep_view() =~= Seq::empty());
    put(&mut members, "global", object(global));
    put(&mut members, "profiles", array(profiles));
    let r = object(members);
    assert(r@->Object_0 =~= empty_document()->Object_0);
    r
}

/// The place of the first member called `name`.
pub fn find_member(members: &Vec<(String, Json)>, name: &str) -> (r: Option<usize>)
    ensures
        match r {
            Some(i) => i < members.len() && i == member_index(members.deep_view(), name@, 0)
                && members[i as int].0@ == name@,
            None => member_index(members.deep_view(), name@, 0) == -1,
        },
{
    let mut i: usize = 0;
    while i < members.len()
        invariant
            i <= members.len(),
            member_index(members.deep_view(), name@, 0) == member_index(
                members.deep_view(),
                name@,
                i as int,
            ),
        decreases members.len() - i,
    {
        if str_eq(members[i].0.as_str(), name) {
            return Some(i);
        }
        i += 1;
    }
    None
}

/// Whether the rule was made by the binder.
pub fn rule_is_generated(rule: &Json) -> (r: bool)
    ensures
        r == is_generated(rule@),
{
    match rule {
        Json::Object(members) => {
            assert(rule.model()->Object_0 =~= members.deep_view());
            match find_member(members, "description") {
                Some(i) => match &members[i].1 {
                    Json::Text(d) => {
                        let text = chars_of(d.as_str());
                        let mark = chars_of(RULE_PREFIX);
                        chars_start_with(&text, &mark)
                    },
                    _ => false,
                },
                None => false,
            }
        },
        _ => false,
    }
}

/// The rules that others wrote, in their order, followed by the fresh rules.
pub fn merge_rule_lists(existing: Vec<Json>, fresh: Vec<Json>) -> (r: Vec<Json>)
    ensures
        r.deep_view() == merged_rules(existing.deep_view(), fresh.deep_view()),
{
    let ghost all = existing.deep_view();
    let ghost foreign = |r: JsonView| !is_generated(r);
    let mut rest = existing;
    let mut kept: Vec<Json> = Vec::new();
    let mut done: usize = 0;
    proof {
        reveal(Seq::filter);
        assert(all.take(0) =~= Seq::empty());
        assert(kept.deep_view() =~= all.take(0).filter(foreign));
        assert(all.skip(0) =~= all);
        assert(all.len() == rest.len());
    }
    while rest.len() > 0
        invariant
            all.len() <= usize::MAX,
            done + rest.len() == all.len(),
            rest.deep_view() == all.skip(done as int),
            foreign == (|r: JsonView| !is_generated(r)),
            kept.deep_view() == all.take(done as int).filter(foreign),
        decreases rest.len(),
    {
        let ghost before = kept.deep_view();
        let ghost remaining = rest.deep_view();
        let rule = rest.remove(0);
        proof {
            reveal(Seq::filter);
            assert(rule@ == all[done as int]) by {
                assert(remaining[0] == all.skip(done as int)[0]);
            }
            assert(rest.deep_view() =~= all.skip(done + 1)) by {
                assert(rest.deep_view() =~= remaining.remove(0));
            }
            assert(all.take(done + 1).drop_last() =~= all.take(done as int));
            assert(all.take(done + 1).last() == rule@);
        }
        if !rule_is_generated(&rule) {
            kept.push(rule);
            assert(kept.deep_view() =~= before.push(rule@));
        }
        done += 1;
    }
    assert(all.take(done as int) =~= all);
    let mut added = fresh;
    let ghost kept_before = kept.deep_view();
    let ghost fresh_view = added.deep_view();
    kept.append(&mut added);
    assert(kept.deep_view() =~= kept_before + fresh_view);
    kept
}

/// Merges the fresh rules into the members of the complex modifications.
pub fn merge_into_modifications(members: Vec<(String, Json)>, fresh: Vec<Json>) -> (r: Result<
    Vec<(String, Json)>,
    MergeError,
>)
    ensures
        match r {
            Ok(merged) => merged_modifications(members.deep_view(), fresh.deep_view()) == Ok::<
                Seq<(Seq<char>, JsonView)>,
                MergeError,
            >(merged.deep_view()),
            Err(e) => merged_modifications(members.deep_view(), fresh.deep_view()) == Err::<
                Seq<(Seq<char>, JsonView)>,
                MergeError,
            >(e),
        },
{
    let mut members = members;
    let at = match find_member(&members, "rules") {
        Some(i) => i,
        None => {
            let none: Vec<Json> = Vec::new();
            assert(none.deep_view() =~= Seq::empty());
            let ghost before = members.deep_view();
            put(&mut members, "rules", array(none));
            proof {
                lemma_index_after_push(before, "rules"@, JsonView::Array(Seq::empty()), 0);
            }
            members.len() - 1
        },
    };
    let ghost present = members.deep_view();
    let (name, value) = members.remove(at);
    match value {
        Json::Array(rules) => {
            proof {
                assert(value.model()->Array_0 =~= rules.deep_view());
            }
            let merged = merge_rule_lists(rules, fresh);
            members.insert(at, (name, array(merged)));
            assert(members.deep_view() =~= with_member(
                present,
                "rules"@,
                JsonView::Array(merged_rules(rules.deep_view(), fresh.deep_view())),
            ));
            Ok(members)
        },
        _ => Err(MergeError::RulesNotArray),
    }
}

/// Where no member is called `name`, one pushed by that name is found at
/// the end.
pub proof fn lemma_index_after_push(
    members: Seq<(Seq<char>, JsonView)>,
    name: Seq<char>,
    value: JsonView,
    from: int,
)
    requires
        0 <= from <= members.len(),
        member_index(members, name, from) == -1,
    ensures
        member_index(members.push((name, value)), name, from) == members.len(),
    decreases members.len() - from,
{
    if from < members.len() {
        lemma_index_after_push(members, name, value, from + 1);
    }
}

/// Merges the fresh rules into the complex modifications of a profile.
pub fn merge_into_profile(profile: Json, fresh: Vec<Json>) -> (r: Result<Json, MergeError>)
    ensures
        match r {
            Ok(merged) => merged_profile(profile@, fresh.deep_view()) == Ok::<
                JsonView,
                MergeError,
            >(merged@),
            Err(e) => merged_profile(profile@, fresh.deep_view()) == Err::<JsonView, MergeError>(e),
        },
{
    let mut members = match profile {
        Json::Object(members) => {
            assert(profile.model()->Object_0 =~= members.deep_view());
            members
        },
        _ => {
            return Err(MergeError::ProfileNotObject);
        },
    };
    let at = match find_member(&members, "complex_modifications") {
        Some(i) => i,
        None => {
            let ghost before = members.deep_view();
            put(&mut members, "complex_modifications", empty_modifications());
            proof {
                lemma_index_after_push(before, "complex_modifications"@, no_modifications(), 0);
            }
            members.len() - 1
        },
    };
    let ghost present = members.deep_view();
    let (name, value) = members.remove(at);
    match value {
        Json::Object(modifications) => {
            proof {
                assert(value.model()->Object_0 =~= modifications.deep_view());
            }
            match merge_into_modifications(modifications, fresh) {
                Ok(merged) => {
                    members.insert(at, (name, object(merged)));
                    assert(members.deep_view() =~= with_member(
                        present,
                        "complex_modifications"@,
                        JsonView::Object(merged.deep_view()),
                    ));
                    Ok(object(members))
                },
                Err(e) => Err(e),
            }
        },
        _ => Err(MergeError::ModificationsNotObject),
    }
}

/// Puts freshly compiled rules into the engine's document: in the first
/// profile, the rules that carry the binder's mark leave, the rules of
/// others stay where they are, and the fresh rules follow them. The rest
/// of the document stays as it is.
pub fn merge_rules(doc: Json, fresh: Vec<Json>) -> (r: Result<Json, MergeError>)
    ensures
        match r {
            Ok(merged) => merged_document(doc@, fresh.deep_view()) == Ok::<JsonView, MergeError>(
                merged@,
            ),
            Err(e) => merged_document(doc@, fresh.deep_view()) == Err::<JsonView, MergeError>(e),
        },
{
    let mut members = match doc {
        Json::Object(members) => {
            assert(doc.model()->Object_0 =~= members.deep_view());
            members
        },
        _ => {
            return Err(MergeError::MissingProfiles);
        },
    };
    let at = match find_member(&members, "profiles") {
        Some(i) => i,
        None => {
            return Err(MergeError::MissingProfiles);
        },
    };
    let ghost present = members.deep_view();
    let (name, value) = members.remove(at);
    match value {
        Json::Array(found) => {
            proof {
                assert(value.model()->Array_0 =~= found.deep_view());
            }
            let mut profiles = found;
            if profiles.len() == 0 {
                profiles.push(new_default_profile());
                assert(profiles.deep_view() =~= seq![default_profile()]);
            }
            let ghost listed = profiles.deep_view();
            let first = profiles.remove(0);
            match merge_into_profile(first, fresh) {
                Ok(merged) => {
                    profiles.insert(0, merged);
                    assert(profiles.deep_view() =~= listed.update(0, merged@));
                    members.insert(at, (name, array(profiles)));
                    assert(members.deep_view() =~= with_member(
                        present,
                        "profiles"@,
                        JsonView::Array(listed.update(0, merged@)),
                    ));
                    Ok(object(members))
                },
                Err(e) => Err(e),
            }
        },
        _ => Err(MergeError::MissingProfiles),
    }
}

/// The engine's document after the bindings of a configuration were
/// applied to it: the rules compiled from the bindings, merged into the
/// document that was there, or into the empty document where none was.
pub open spec fn applied(
    existing: Option<JsonView>,
    config: ConfigView,
    scripts_dir: Seq<char>,
) -> Result<JsonView, MergeError> {
    merged_document(
        match existing {
            Some(document) => document,
            None => empty_document(),
        },
        compiled_rules(config, scripts_dir).map_values(|rule: RuleView| rule_json(rule)),
    )
}

/// Applies the bindings of a configuration to the engine's document:
/// compiles them into rules and merges the rules into the document, or into
/// the empty document where there is none yet. The rules of others stay,
/// the binder's earlier rules leave.
pub fn apply_to_karabiner(existing: Option<Json>, config: &Config, scripts_dir: &str) -> (r: Result<
    Json,
    MergeError,
>)
    ensures
        match r {
            Ok(document) => applied(existing.deep_view(), config@, scripts_dir@) == Ok::<
                JsonView,
                MergeError,
            >(document@),
            Err(e) => applied(existing.deep_view(), config@, scripts_dir@) == Err::<
                JsonView,
                MergeError,
            >(e),
        },
{
    let document = match existing {
        Some(document) => document,
        None => new_empty_document(),
    };
    let rules = generate_rules(config, scripts_dir);
    merge_rules(document, rules_to_json(&rules))
}

} // verus!
