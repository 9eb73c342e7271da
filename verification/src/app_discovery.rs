//! Applications found on the machine, and what is derived from their bundle
//! identifiers.

use crate::sorting::{
    key_le, lemma_key_le_antisym, lemma_stable_order_sorts, permuted, places, stable_order,
    stable_order_of, SortKey, SortKeyView,
};
use crate::text::{
    chars_of, ends_with, fields, find_first, find_last, first_index_from, last_index_of,
    lowercase_of, rows, split_fields, strip_suffix, text_of, to_lowercase, trim, trimmed,
    without_suffix,
};
use vstd::prelude::*;

verus! {

/// An application that discovery has seen. Its bundle id is its identity.
#[derive(Debug, PartialEq, Eq)]
pub struct DiscoveredApp {
    /// The name shown to the user.
    pub name: String,
    /// The full bundle id.
    pub bundle_id: String,
    /// The last dot-separated part of the bundle id.
    pub last_component: String,
    /// When discovery last saw it, in seconds since the Unix epoch.
    pub last_seen: i64,
}

/// What a `DiscoveredApp` holds.
pub struct DiscoveredAppView {
    pub name: Seq<char>,
    pub bundle_id: Seq<char>,
    pub last_component: Seq<char>,
    pub last_seen: int,
}

impl View for DiscoveredApp {
    type V = DiscoveredAppView;

    open spec fn view(&self) -> DiscoveredAppView {
        DiscoveredAppView {
            name: self.name@,
            bundle_id: self.bundle_id@,
            last_component: self.last_component@,
            last_seen: self.last_seen as int,
        }
    }
}

impl DeepView for DiscoveredApp {
    type V = DiscoveredAppView;

    open spec fn deep_view(&self) -> DiscoveredAppView {
        self@
    }
}

impl Clone for DiscoveredApp {
    fn clone(&self) -> (r: Self)
        ensures
            r@ == self@,
    {
        DiscoveredApp {
            name: self.name.clone(),
            bundle_id: self.bundle_id.clone(),
            last_component: self.last_component.clone(),
            last_seen: self.last_seen,
        }
    }
}

/// What follows the last dot of a bundle id; the whole of one without a dot.
pub open spec fn last_component_of(bundle_id: Seq<char>) -> Seq<char> {
    bundle_id.subrange(last_index_of(bundle_id, '.') + 1, bundle_id.len() as int)
}

/// The last two dot-separated parts of a bundle id, with their dot; the whole
/// of one that has fewer than two dots.
pub open spec fn parent_component_of(bundle_id: Seq<char>) -> Seq<char> {
    let last_dot = last_index_of(bundle_id, '.');
    if last_dot < 0 {
        bundle_id
    } else {
        bundle_id.subrange(
            last_index_of(bundle_id.take(last_dot), '.') + 1,
            bundle_id.len() as int,
        )
    }
}

impl DiscoveredApp {
    /// An application seen at `last_seen`, with the last component taken from
    /// its bundle id.
    pub fn new(name: String, bundle_id: String, last_seen: i64) -> (r: Self)
        ensures
            r@ == (DiscoveredAppView {
                name: name@,
                bundle_id: bundle_id@,
                last_component: last_component_of(bundle_id@),
                last_seen: last_seen as int,
            }),
    {
        let last_component = extract_last_component(bundle_id.as_str());
        DiscoveredApp { name, bundle_id, last_component, last_seen }
    }
}

/// The last component of a bundle id: `"com.apple.Safari"` gives `"Safari"`.
pub fn extract_last_component(bundle_id: &str) -> (r: String)
    ensures
        r@ == last_component_of(bundle_id@),
{
    let chars = chars_of(bundle_id);
    assert(chars@.take(chars.len() as int) =~= chars@);
    match find_last(&chars, chars.len(), '.') {
        Some(dot) => text_of(&chars, dot + 1, chars.len()),
        None => text_of(&chars, 0, chars.len()),
    }
}

/// The parent part of a bundle id, which tells apart applications of one
/// name: `"com.apple.Safari"` gives `"apple.Safari"`.
pub fn extract_parent_component(bundle_id: &str) -> (r: String)
    ensures
        r@ == parent_component_of(bundle_id@),
{
    let chars = chars_of(bundle_id);
    assert(chars@.take(chars.len() as int) =~= chars@);
    assert(chars@.subrange(0, chars.len() as int) =~= chars@);
    match find_last(&chars, chars.len(), '.') {
        Some(last_dot) => match find_last(&chars, last_dot, '.') {
            Some(dot) => text_of(&chars, dot + 1, chars.len()),
            None => text_of(&chars, 0, chars.len()),
        },
        None => text_of(&chars, 0, chars.len()),
    }
}

/// A copy of a list of applications.
pub fn clone_apps(apps: &Vec<DiscoveredApp>) -> (r: Vec<DiscoveredApp>)
    ensures
        r.deep_view() == apps.deep_view(),
{
    let mut out: Vec<DiscoveredApp> = Vec::new();
    let mut i: usize = 0;
    while i < apps.len()
        invariant
            i <= apps.len(),
            out.len() == i,
            forall|j: int| 0 <= j < i ==> out[j]@ == apps[j]@,
        decreases apps.len() - i,
    {
        out.push(apps[i].clone());
        i += 1;
    }
    assert(out.deep_view() =~= apps.deep_view());
    out
}

/// How long an application stays cached after it was last seen: 30 days, in
/// seconds.
pub const CACHE_TTL_SECONDS: i64 = 2_592_000;

/// Seen less than 30 days before `now`.
pub open spec fn is_fresh(app: DiscoveredAppView, now: int) -> bool {
    now - app.last_seen < CACHE_TTL_SECONDS
}

/// The entry at `i` is fresh, and no later entry has its bundle id.
pub open spec fn is_survivor(all: Seq<DiscoveredAppView>, i: int, now: int) -> bool {
    &&& 0 <= i < all.len()
    &&& is_fresh(all[i], now)
    &&& forall|j: int| i < j < all.len() ==> (#[trigger] all[j]).bundle_id != all[i].bundle_id
}

/// Of the first `n` entries, those that survive a merge, in their order: for
/// each bundle id its last entry in `all`, where that entry is fresh.
pub open spec fn survivors(all: Seq<DiscoveredAppView>, now: int, n: nat) -> Seq<DiscoveredAppView>
    decreases n,
{
    if n == 0 {
        Seq::empty()
    } else if is_survivor(all, n - 1, now) {
        survivors(all, now, (n - 1) as nat).push(all[n - 1])
    } else {
        survivors(all, now, (n - 1) as nat)
    }
}

/// No earlier entry has the bundle id of the entry at `i`.
pub open spec fn is_first_of_id(all: Seq<DiscoveredAppView>, i: int) -> bool {
    &&& 0 <= i < all.len()
    &&& forall|j: int| 0 <= j < i ==> (#[trigger] all[j]).bundle_id != all[i].bundle_id
}

/// Of the first `n` entries, for each bundle id the first entry, in order.
pub open spec fn first_of_each_id(all: Seq<DiscoveredAppView>, n: nat) -> Seq<DiscoveredAppView>
    decreases n,
{
    if n == 0 {
        Seq::empty()
    } else if is_first_of_id(all, n - 1) {
        first_of_each_id(all, (n - 1) as nat).push(all[n - 1])
    } else {
        first_of_each_id(all, (n - 1) as nat)
    }
}

/// The lowercase forms of the applications' names.
pub open spec fn lowered_names_of(apps: Seq<DiscoveredAppView>) -> Seq<Seq<char>> {
    apps.map_values(|a: DiscoveredAppView| lowercase_of(a.name))
}

/// The lowercase forms of the applications' last components.
pub open spec fn lowered_components_of(apps: Seq<DiscoveredAppView>) -> Seq<Seq<char>> {
    apps.map_values(|a: DiscoveredAppView| lowercase_of(a.last_component))
}

/// Keys that order applications by `names` alone.
pub open spec fn name_keys(names: Seq<Seq<char>>) -> Seq<SortKeyView> {
    names.map_values(|n: Seq<char>| SortKeyView { primary: n, secondary: Seq::empty() })
}

/// Keys that order applications by `names`, and those of one name by bundle id.
pub open spec fn name_and_id_keys(
    apps: Seq<DiscoveredAppView>,
    names: Seq<Seq<char>>,
) -> Seq<SortKeyView> {
    Seq::new(
        apps.len(),
        |i: int| SortKeyView { primary: names[i], secondary: apps[i].bundle_id },
    )
}

/// The applications in ascending order of `keys`.
pub open spec fn sorted_by(
    apps: Seq<DiscoveredAppView>,
    keys: Seq<SortKeyView>,
) -> Seq<DiscoveredAppView> {
    permuted(apps, stable_order_of(keys, apps.len()))
}

/// No later entry has the bundle id of the entry at `i`.
pub open spec fn is_last_of_id(all: Seq<DiscoveredAppView>, i: int) -> bool {
    &&& 0 <= i < all.len()
    &&& forall|j: int| i < j < all.len() ==> (#[trigger] all[j]).bundle_id != all[i].bundle_id
}

/// The batch as a merge at the time `now` takes it in: every entry of it
/// was seen at `now`.
pub open spec fn refreshed(batch: Seq<DiscoveredAppView>, now: int) -> Seq<DiscoveredAppView> {
    batch.map_values(|a: DiscoveredAppView| DiscoveredAppView { last_seen: now, ..a })
}

/// The cache after a merge at the time `now`: the survivors of the old cache
/// followed by the batch, whose entries are taken as seen at `now`, ordered
/// by lowercase name and then by bundle id.
pub open spec fn merged_cache(
    cached: Seq<DiscoveredAppView>,
    batch: Seq<DiscoveredAppView>,
    now: int,
) -> Seq<DiscoveredAppView> {
    let all = cached + refreshed(batch, now);
    let kept = survivors(all, now, all.len());
    sorted_by(kept, name_and_id_keys(kept, lowered_names_of(kept)))
}

/// What discovery reports: each bundle id once, a running application before
/// an installed one of the same id, ordered by lowercase name.
pub open spec fn all_discovered(
    running: Seq<DiscoveredAppView>,
    installed: Seq<DiscoveredAppView>,
) -> Seq<DiscoveredAppView> {
    let distinct = first_of_each_id(running + installed, (running + installed).len());
    sorted_by(distinct, name_keys(lowered_names_of(distinct)))
}

/// The lowercase forms of the applications' names, one for each, in order.
pub fn lowered_names(apps: &Vec<DiscoveredApp>) -> (r: Vec<Vec<char>>)
    ensures
        r.len() == apps.len(),
        rows(r@) == lowered_names_of(apps.deep_view()),
{
    let mut out: Vec<Vec<char>> = Vec::new();
    let mut i: usize = 0;
    while i < apps.len()
        invariant
            i <= apps.len(),
            out.len() == i,
            forall|j: int| 0 <= j < i ==> out[j]@ == lowercase_of(apps[j]@.name),
        decreases apps.len() - i,
    {
        let lower = to_lowercase(apps[i].name.as_str());
        out.push(chars_of(lower.as_str()));
        i += 1;
    }
    assert(rows(out@) =~= lowered_names_of(apps.deep_view()));
    out
}

/// The lowercase forms of the applications' last components, in order.
pub fn lowered_components(apps: &Vec<DiscoveredApp>) -> (r: Vec<Vec<char>>)
    ensures
        r.len() == apps.len(),
        rows(r@) == lowered_components_of(apps.deep_view()),
{
    let mut out: Vec<Vec<char>> = Vec::new();
    let mut i: usize = 0;
    while i < apps.len()
        invariant
            i <= apps.len(),
            out.len() == i,
            forall|j: int| 0 <= j < i ==> out[j]@ == lowercase_of(apps[j]@.last_component),
        decreases apps.len() - i,
    {
        let lower = to_lowercase(apps[i].last_component.as_str());
        out.push(chars_of(lower.as_str()));
        i += 1;
    }
    assert(rows(out@) =~= lowered_components_of(apps.deep_view()));
    out
}

/// The applications in the order that `order` gives.
pub fn permute_apps(apps: &Vec<DiscoveredApp>, order: &Vec<usize>) -> (r: Vec<DiscoveredApp>)
    requires
        forall|i: int| 0 <= i < order.len() ==> (#[trigger] order[i]) < apps.len(),
    ensures
        r.deep_view() == permuted(apps.deep_view(), places(order@)),
{
    let mut out: Vec<DiscoveredApp> = Vec::new();
    let mut i: usize = 0;
    while i < order.len()
        invariant
            i <= order.len(),
            out.len() == i,
            forall|k: int| 0 <= k < order.len() ==> (#[trigger] order[k]) < apps.len(),
            forall|j: int| 0 <= j < i ==> out[j]@ == apps[order[j] as int]@,
        decreases order.len() - i,
    {
        out.push(apps[order[i]].clone());
        i += 1;
    }
    assert(out.deep_view() =~= permuted(apps.deep_view(), places(order@)));
    out
}

/// The applications ordered by the given names, and by bundle id where
/// `by_id` is set; else those of one name stay in their order.
pub fn sort_apps(apps: &Vec<DiscoveredApp>, names: &Vec<Vec<char>>, by_id: bool) -> (r: Vec<
    DiscoveredApp,
>)
    requires
        names.len() == apps.len(),
    ensures
        by_id ==> r.deep_view() == sorted_by(
            apps.deep_view(),
            name_and_id_keys(apps.deep_view(), rows(names@)),
        ),
        !by_id ==> r.deep_view() == sorted_by(apps.deep_view(), name_keys(rows(names@))),
{
    let mut keys: Vec<SortKey> = Vec::new();
    let mut i: usize = 0;
    while i < apps.len()
        invariant
            i <= apps.len(),
            names.len() == apps.len(),
            keys.len() == i,
            forall|j: int|
                0 <= j < i ==> (#[trigger] keys[j])@ == (SortKeyView {
                    primary: names[j]@,
                    secondary: if by_id {
                        apps[j]@.bundle_id
                    } else {
                        Seq::empty()
                    },
                }),
        decreases apps.len() - i,
    {
        let secondary = if by_id {
            chars_of(apps[i].bundle_id.as_str())
        } else {
            Vec::new()
        };
        keys.push(SortKey { primary: names[i].clone(), secondary });
        i += 1;
    }
    proof {
        if by_id {
            assert(keys.deep_view() =~= name_and_id_keys(apps.deep_view(), rows(names@)));
        } else {
            assert(keys.deep_view() =~= name_keys(rows(names@)));
        }
    }
    let order = stable_order(&keys);
    permute_apps(apps, &order)
}

/// Whether a later entry of `all` has the bundle id of the entry at `i`.
fn has_later_of_id(all: &Vec<DiscoveredApp>, i: usize) -> (r: bool)
    requires
        i < all.len(),
    ensures
        r == !(forall|j: int|
            i < j < all.len() ==> (#[trigger] all.deep_view()[j]).bundle_id
                != all.deep_view()[i as int].bundle_id),
{
    let mut j: usize = i + 1;
    while j < all.len()
        invariant
            i < j <= all.len(),
            forall|k: int|
                i < k < j ==> (#[trigger] all.deep_view()[k]).bundle_id
                    != all.deep_view()[i as int].bundle_id,
        decreases all.len() - j,
    {
        if all[j].bundle_id == all[i].bundle_id {
            assert(all.deep_view()[j as int].bundle_id == all.deep_view()[i as int].bundle_id);
            return true;
        }
        j += 1;
    }
    false
}

/// Whether an earlier entry of `all` has the bundle id of the entry at `i`.
fn has_earlier_of_id(all: &Vec<DiscoveredApp>, i: usize) -> (r: bool)
    requires
        i < all.len(),
    ensures
        r == !(forall|j: int|
            0 <= j < i ==> (#[trigger] all.deep_view()[j]).bundle_id
                != all.deep_view()[i as int].bundle_id),
{
    let mut j: usize = 0;
    while j < i
        invariant
            j <= i < all.len(),
            forall|k: int|
                0 <= k < j ==> (#[trigger] all.deep_view()[k]).bundle_id
                    != all.deep_view()[i as int].bundle_id,
        decreases i - j,
    {
        if all[j].bundle_id == all[i].bundle_id {
            assert(all.deep_view()[j as int].bundle_id == all.deep_view()[i as int].bundle_id);
            return true;
        }
        j += 1;
    }
    false
}

/// The two lists, one behind the other.
pub fn concat_apps(first: &Vec<DiscoveredApp>, second: &Vec<DiscoveredApp>) -> (r: Vec<
    DiscoveredApp,
>)
    ensures
        r.deep_view() == first.deep_view() + second.deep_view(),
{
    let mut all = clone_apps(first);
    let mut i: usize = 0;
    while i < second.len()
        invariant
            i <= second.len(),
            all.deep_view() == first.deep_view() + second.deep_view().take(i as int),
        decreases second.len() - i,
    {
        let ghost before = all.deep_view();
        all.push(second[i].clone());
        assert(all.deep_view() =~= before.push(second[i as int]@));
        assert(second.deep_view().take(i + 1) =~= second.deep_view().take(i as int).push(
            second[i as int]@,
        ));
        i += 1;
    }
    assert(second.deep_view().take(second.len() as int) =~= second.deep_view());
    all
}

/// Whether the application was seen less than 30 days before `now`.
pub fn seen_recently(app: &DiscoveredApp, now: i64) -> (r: bool)
    ensures
        r == is_fresh(app@, now as int),
{
    (now as i128) - (app.last_seen as i128) < (CACHE_TTL_SECONDS as i128)
}

/// The applications, each taken as seen at `now`.
pub fn refresh_apps(batch: &Vec<DiscoveredApp>, now: i64) -> (r: Vec<DiscoveredApp>)
    ensures
        r.deep_view() == refreshed(batch.deep_view(), now as int),
{
    let mut out: Vec<DiscoveredApp> = Vec::new();
    let mut i: usize = 0;
    while i < batch.len()
        invariant
            i <= batch.len(),
            out.len() == i,
            forall|j: int|
                0 <= j < i ==> (#[trigger] out[j])@ == (DiscoveredAppView {
                    last_seen: now as int,
                    ..batch[j]@
                }),
        decreases batch.len() - i,
    {
        out.push(
            DiscoveredApp {
                name: batch[i].name.clone(),
                bundle_id: batch[i].bundle_id.clone(),
                last_component: batch[i].last_component.clone(),
                last_seen: now,
            },
        );
        i += 1;
    }
    assert(out.deep_view() =~= refreshed(batch.deep_view(), now as int));
    out
}

/// Merges a batch of freshly discovered applications into the cache at the
/// time `now`: every entry of the batch is taken as seen at `now` and
/// replaces the cached one of its bundle id, cached entries seen 30 days ago
/// or longer are dropped, and what is left is ordered by lowercase name.
pub fn merge_discovered(cached: &Vec<DiscoveredApp>, batch: &Vec<DiscoveredApp>, now: i64) -> (r:
    Vec<DiscoveredApp>)
    ensures
        r.deep_view() == merged_cache(cached.deep_view(), batch.deep_view(), now as int),
        forall|i: int| #[trigger]
            is_last_of_id(batch.deep_view(), i) ==> r.deep_view().contains(
                DiscoveredAppView { last_seen: now as int, ..batch.deep_view()[i] },
            ),
        forall|e: DiscoveredAppView| r.deep_view().contains(e) ==> is_fresh(e, now as int),
{
    proof {
        lemma_merged_cache(cached.deep_view(), batch.deep_view(), now as int);
        assert forall|i: int| #[trigger]
            is_last_of_id(batch.deep_view(), i) implies merged_cache(
            cached.deep_view(),
            batch.deep_view(),
            now as int,
        ).contains(DiscoveredAppView { last_seen: now as int, ..batch.deep_view()[i] }) by {
            lemma_batch_is_refreshed(cached.deep_view(), batch.deep_view(), now as int, i);
        }
    }
    let stamped = refresh_apps(batch, now);
    let all = concat_apps(cached, &stamped);
    let mut kept: Vec<DiscoveredApp> = Vec::new();
    let mut i: usize = 0;
    while i < all.len()
        invariant
            i <= all.len(),
            kept.deep_view() == survivors(all.deep_view(), now as int, i as nat),
        decreases all.len() - i,
    {
        let ghost before = kept.deep_view();
        if seen_recently(&all[i], now) && !has_later_of_id(&all, i) {
            kept.push(all[i].clone());
            assert(kept.deep_view() =~= before.push(all[i as int]@));
        }
        i += 1;
    }
    let names = lowered_names(&kept);
    sort_apps(&kept, &names, true)
}

/// Puts together what discovery found: running applications first, then the
/// installed ones whose bundle id is not yet there, ordered by lowercase name.
pub fn discover_all_apps(running: &Vec<DiscoveredApp>, installed: &Vec<DiscoveredApp>) -> (r: Vec<
    DiscoveredApp,
>)
    ensures
        r.deep_view() == all_discovered(running.deep_view(), installed.deep_view()),
{
    let all = concat_apps(running, installed);
    let mut distinct: Vec<DiscoveredApp> = Vec::new();
    let mut i: usize = 0;
    while i < all.len()
        invariant
            i <= all.len(),
            distinct.deep_view() == first_of_each_id(all.deep_view(), i as nat),
        decreases all.len() - i,
    {
        let ghost before = distinct.deep_view();
        if !has_earlier_of_id(&all, i) {
            distinct.push(all[i].clone());
            assert(distinct.deep_view() =~= before.push(all[i as int]@));
        }
        i += 1;
    }
    let names = lowered_names(&distinct);
    sort_apps(&distinct, &names, false)
}

/// What a line of output names: the text without the white space at its
/// ends, where the command succeeded and printed more than white space.
pub open spec fn printed_id(success: bool, output: Seq<char>) -> Option<Seq<char>> {
    if success && trimmed(output).len() > 0 {
        Some(trimmed(output))
    } else {
        None
    }
}

/// The name and the bundle id that one entry of the list of running
/// applications gives: what stands before and behind its first bar, without
/// the white space around either; nothing where the bar or one of the two
/// is missing.
pub open spec fn parsed_entry(entry: Seq<char>) -> Option<(Seq<char>, Seq<char>)> {
    let e = trimmed(entry);
    let bar = first_index_from(e, '|', 0);
    if bar >= e.len() {
        None
    } else if trimmed(e.take(bar)).len() > 0 && trimmed(e.skip(bar + 1)).len() > 0 {
        Some((trimmed(e.take(bar)), trimmed(e.skip(bar + 1))))
    } else {
        None
    }
}

/// The applications that the first `n` entries give, each seen at `now`.
pub open spec fn apps_of_entries(entries: Seq<Seq<char>>, now: int, n: nat) -> Seq<
    DiscoveredAppView,
>
    decreases n,
{
    if n == 0 {
        Seq::empty()
    } else {
        let prev = apps_of_entries(entries, now, (n - 1) as nat);
        match parsed_entry(entries[n - 1]) {
            Some((name, bundle_id)) => prev.push(
                DiscoveredAppView {
                    name,
                    bundle_id,
                    last_component: last_component_of(bundle_id),
                    last_seen: now,
                },
            ),
            None => prev,
        }
    }
}

/// The applications that a list of running applications names: its entries
/// stand between commas, each a name, a bar and a bundle id.
pub open spec fn running_apps_in(output: Seq<char>, now: int) -> Seq<DiscoveredAppView> {
    apps_of_entries(fields(output, ','), now, fields(output, ',').len())
}

/// The name of the application in a directory entry: the entry's name
/// without `.app` at its end; nothing for an entry that does not end so.
pub open spec fn app_name_in(file_name: Seq<char>) -> Option<Seq<char>> {
    if ".app"@.is_suffix_of(file_name) {
        Some(without_suffix(file_name, ".app"@))
    } else {
        None
    }
}

/// The most installed applications that one scan takes.
pub const INSTALLED_LIMIT: usize = 150;

/// Reads the bundle id that a command printed: what it printed, without the
/// white space at the ends; nothing where it failed or printed only white
/// space.
pub fn parse_bundle_id(success: bool, output: &str) -> (r: Option<String>)
    ensures
        r.deep_view() == printed_id(success, output@),
{
    if !success {
        return None;
    }
    let id = trim(output);
    if id.as_str().is_empty() {
        None
    } else {
        Some(id)
    }
}

/// Reads one entry of the list of running applications.
pub fn parse_entry(entry: &str) -> (r: Option<(String, String)>)
    ensures
        r.deep_view() == parsed_entry(entry@),
{
    let e = trim(entry);
    let chars = chars_of(e.as_str());
    let bar = find_first(&chars, 0, '|');
    if bar >= chars.len() {
        return None;
    }
    let before = text_of(&chars, 0, bar);
    let behind = text_of(&chars, bar + 1, chars.len());
    proof {
        assert(chars@.subrange(0, bar as int) =~= chars@.take(bar as int));
        assert(chars@.subrange(bar + 1, chars.len() as int) =~= chars@.skip(bar + 1));
    }
    let name = trim(before.as_str());
    let bundle_id = trim(behind.as_str());
    if !name.as_str().is_empty() && !bundle_id.as_str().is_empty() {
        Some((name, bundle_id))
    } else {
        None
    }
}

/// Reads the list of running applications that the system printed. Each
/// application found is taken as seen at `now`.
pub fn parse_running_apps(output: &str, now: i64) -> (r: Vec<DiscoveredApp>)
    ensures
        r.deep_view() == running_apps_in(output@, now as int),
{
    let entries = split_fields(output, ',');
    let mut apps: Vec<DiscoveredApp> = Vec::new();
    let mut i: usize = 0;
    assert(apps.deep_view() =~= Seq::empty());
    while i < entries.len()
        invariant
            i <= entries.len(),
            entries.deep_view() == fields(output@, ','),
            apps.deep_view() == apps_of_entries(entries.deep_view(), now as int, i as nat),
        decreases entries.len() - i,
    {
        let ghost before = apps.deep_view();
        assert(entries.deep_view()[i as int] == entries[i as int]@);
        match parse_entry(entries[i].as_str()) {
            Some((name, bundle_id)) => {
                let app = DiscoveredApp::new(name, bundle_id, now);
                apps.push(app);
                assert(apps.deep_view() =~= before.push(app@));
            },
            None => {},
        }
        i += 1;
    }
    assert(entries.deep_view().len() == entries.len());
    apps
}

/// The name of the application in a directory entry of an applications
/// folder.
pub fn installed_app_name(file_name: &str) -> (r: Option<String>)
    ensures
        r.deep_view() == app_name_in(file_name@),
{
    if ends_with(file_name, ".app") {
        Some(strip_suffix(file_name, ".app"))
    } else {
        None
    }
}

/// The key by which the cache orders an application: its lowercase name,
/// then its bundle id.
pub open spec fn cache_key(app: DiscoveredAppView) -> SortKeyView {
    SortKeyView { primary: lowercase_of(app.name), secondary: app.bundle_id }
}

/// The applications stand in ascending order of their cache keys, and no two
/// have one bundle id.
pub open spec fn strictly_ordered(apps: Seq<DiscoveredAppView>) -> bool {
    forall|i: int, j: int|
        0 <= i < j < apps.len() ==> key_le(
            cache_key(#[trigger] apps[i]),
            cache_key(#[trigger] apps[j]),
        ) && apps[i].bundle_id != apps[j].bundle_id
}

/// No two of the applications have one bundle id.
pub open spec fn distinct_ids(apps: Seq<DiscoveredAppView>) -> bool {
    forall|i: int, j: int|
        0 <= i < j < apps.len() ==> (#[trigger] apps[i]).bundle_id != (#[trigger] apps[j]).bundle_id
}

/// `e` is the last entry of its bundle id in `all`, and fresh.
pub open spec fn survives(all: Seq<DiscoveredAppView>, e: DiscoveredAppView, now: int) -> bool {
    exists|i: int| #[trigger] is_survivor(all, i, now) && all[i] == e
}

/// What survives among the first `n` entries: exactly the entries that are
/// fresh and the last of their bundle id, each bundle id once.
pub proof fn lemma_survivors(all: Seq<DiscoveredAppView>, now: int, n: nat)
    requires
        n <= all.len(),
    ensures
        survivors(all, now, n).len() <= n,
        forall|e: DiscoveredAppView|
            survivors(all, now, n).contains(e) <==> exists|i: int|
                0 <= i < n && #[trigger] is_survivor(all, i, now) && all[i] == e,
        distinct_ids(survivors(all, now, n)),
    decreases n,
{
    if n > 0 {
        let prev = survivors(all, now, (n - 1) as nat);
        let cur = survivors(all, now, n);
        lemma_survivors(all, now, (n - 1) as nat);
        assert forall|e: DiscoveredAppView| cur.contains(e) <==> exists|i: int|
            0 <= i < n && #[trigger] is_survivor(all, i, now) && all[i] == e by {
            if cur.contains(e) {
                let k = choose|k: int| 0 <= k < cur.len() && cur[k] == e;
                if k < prev.len() {
                    assert(prev[k] == e);
                    assert(prev.contains(e));
                } else {
                    assert(is_survivor(all, n - 1, now) && all[n - 1] == e);
                }
            }
            if exists|i: int| 0 <= i < n && #[trigger] is_survivor(all, i, now) && all[i] == e {
                let i = choose|i: int| 0 <= i < n && #[trigger] is_survivor(all, i, now) && all[i] == e;
                if i < n - 1 {
                    assert(prev.contains(e));
                    let k = choose|k: int| 0 <= k < prev.len() && prev[k] == e;
                    assert(cur[k] == e);
                } else {
                    assert(cur[cur.len() - 1] == e);
                }
            }
        }
        assert forall|i: int, j: int| 0 <= i < j < cur.len() implies (#[trigger] cur[i]).bundle_id
            != (#[trigger] cur[j]).bundle_id by {
            if j == prev.len() {
                assert(prev.contains(cur[i]));
                let k = choose|k: int|
                    0 <= k < n - 1 && #[trigger] is_survivor(all, k, now) && all[k] == cur[i];
                assert(all[n - 1].bundle_id != all[k].bundle_id);
            } else {
                assert(cur[i] == prev[i] && cur[j] == prev[j]);
            }
        }
    }
}

/// Sorting by name and bundle id keeps the applications and puts them in
/// strict order, where no two have one bundle id.
pub proof fn lemma_sorted_cache(apps: Seq<DiscoveredAppView>)
    requires
        distinct_ids(apps),
    ensures
        strictly_ordered(sorted_by(apps, name_and_id_keys(apps, lowered_names_of(apps)))),
        sorted_by(apps, name_and_id_keys(apps, lowered_names_of(apps))).len() == apps.len(),
        forall|e: DiscoveredAppView|
            sorted_by(apps, name_and_id_keys(apps, lowered_names_of(apps))).contains(e)
                <==> apps.contains(e),
{
    let keys = name_and_id_keys(apps, lowered_names_of(apps));
    let order = stable_order_of(keys, apps.len());
    let sorted = sorted_by(apps, keys);
    lemma_stable_order_sorts(keys, apps.len());
    assert forall|i: int, j: int| 0 <= i < j < sorted.len() implies key_le(
        cache_key(#[trigger] sorted[i]),
        cache_key(#[trigger] sorted[j]),
    ) && sorted[i].bundle_id != sorted[j].bundle_id by {
        assert(keys[order[i]] == cache_key(apps[order[i]]));
        assert(keys[order[j]] == cache_key(apps[order[j]]));
        assert(order[i] != order[j]);
        if order[i] < order[j] {
            assert(apps[order[i]].bundle_id != apps[order[j]].bundle_id);
        } else {
            assert(apps[order[j]].bundle_id != apps[order[i]].bundle_id);
        }
    }
    assert forall|e: DiscoveredAppView| sorted.contains(e) <==> apps.contains(e) by {
        if sorted.contains(e) {
            let i = choose|i: int| 0 <= i < sorted.len() && sorted[i] == e;
            assert(apps[order[i]] == e);
        }
        if apps.contains(e) {
            let k = choose|k: int| 0 <= k < apps.len() && apps[k] == e;
            assert(order.contains(k));
            let i = choose|i: int| 0 <= i < order.len() && order[i] == k;
            assert(sorted[i] == e);
        }
    }
}

/// Two lists in strict order that hold the same applications are the same list.
pub proof fn lemma_strict_order_unique(a: Seq<DiscoveredAppView>, b: Seq<DiscoveredAppView>)
    requires
        strictly_ordered(a),
        strictly_ordered(b),
        forall|e: DiscoveredAppView| a.contains(e) <==> b.contains(e),
    ensures
        a == b,
    decreases a.len(),
{
    if a.len() == 0 {
        if b.len() > 0 {
            assert(b.contains(b[0]));
        }
        assert(a =~= b);
    } else {
        let la = a.last();
        assert(a.contains(la));
        assert(b.contains(la));
        let lb = b.last();
        assert(b.contains(lb));
        assert(a.contains(lb));
        let j = choose|j: int| 0 <= j < b.len() && b[j] == la;
        let k = choose|k: int| 0 <= k < a.len() && a[k] == lb;
        if j < b.len() - 1 && k < a.len() - 1 {
            assert(key_le(cache_key(b[j]), cache_key(b[b.len() - 1])));
            assert(key_le(cache_key(a[k]), cache_key(a[a.len() - 1])));
            lemma_key_le_antisym(cache_key(la), cache_key(lb));
            assert(false);
        }
        assert(la == lb);
        let a0 = a.drop_last();
        let b0 = b.drop_last();
        assert forall|e: DiscoveredAppView| a0.contains(e) <==> b0.contains(e) by {
            if a0.contains(e) {
                let i = choose|i: int| 0 <= i < a0.len() && a0[i] == e;
                assert(a[i] == e);
                assert(a[i].bundle_id != a[a.len() - 1].bundle_id);
                assert(b.contains(e));
                let m = choose|m: int| 0 <= m < b.len() && b[m] == e;
                assert(b0[m] == e);
            }
            if b0.contains(e) {
                let i = choose|i: int| 0 <= i < b0.len() && b0[i] == e;
                assert(b[i] == e);
                assert(b[i].bundle_id != b[b.len() - 1].bundle_id);
                assert(a.contains(e));
                let m = choose|m: int| 0 <= m < a.len() && a[m] == e;
                assert(a0[m] == e);
            }
        }
        assert(strictly_ordered(a0)) by {
            assert forall|i: int, j: int| 0 <= i < j < a0.len() implies key_le(
                cache_key(#[trigger] a0[i]),
                cache_key(#[trigger] a0[j]),
            ) && a0[i].bundle_id != a0[j].bundle_id by {
                assert(a0[i] == a[i] && a0[j] == a[j]);
            }
        }
        assert(strictly_ordered(b0)) by {
            assert forall|i: int, j: int| 0 <= i < j < b0.len() implies key_le(
                cache_key(#[trigger] b0[i]),
                cache_key(#[trigger] b0[j]),
            ) && b0[i].bundle_id != b0[j].bundle_id by {
                assert(b0[i] == b[i] && b0[j] == b[j]);
            }
        }
        lemma_strict_order_unique(a0, b0);
        assert(a =~= a0.push(la));
        assert(b =~= b0.push(lb));
    }
}

/// Some entry of the batch has the bundle id.
pub open spec fn in_batch(batch: Seq<DiscoveredAppView>, bundle_id: Seq<char>) -> bool {
    exists|i: int| 0 <= i < batch.len() && (#[trigger] batch[i]).bundle_id == bundle_id
}

/// The cache with the entries whose bundle id is in the batch taken as seen
/// at `now`; the others as they are.
pub open spec fn advanced(
    apps: Seq<DiscoveredAppView>,
    batch: Seq<DiscoveredAppView>,
    now: int,
) -> Seq<DiscoveredAppView> {
    apps.map_values(
        |a: DiscoveredAppView|
            if in_batch(batch, a.bundle_id) {
                DiscoveredAppView { last_seen: now, ..a }
            } else {
                a
            },
    )
}

/// What tells one application from another and names it: all of it but the
/// time it was last seen at.
pub open spec fn identity(app: DiscoveredAppView) -> (Seq<char>, Seq<char>, Seq<char>) {
    (app.name, app.bundle_id, app.last_component)
}

/// The identities of the applications, in order.
pub open spec fn identities(apps: Seq<DiscoveredAppView>) -> Seq<
    (Seq<char>, Seq<char>, Seq<char>),
> {
    apps.map_values(|a: DiscoveredAppView| identity(a))
}

/// What a merge leaves in the cache: exactly the entries of the old cache
/// and of the batch, taken as seen at `now`, that are the last of their
/// bundle id and were seen less than 30 days ago; in strict order.
pub proof fn lemma_merged_cache(
    cached: Seq<DiscoveredAppView>,
    batch: Seq<DiscoveredAppView>,
    now: int,
)
    ensures
        strictly_ordered(merged_cache(cached, batch, now)),
        forall|e: DiscoveredAppView|
            merged_cache(cached, batch, now).contains(e) <==> survives(
                cached + refreshed(batch, now),
                e,
                now,
            ),
        forall|e: DiscoveredAppView|
            merged_cache(cached, batch, now).contains(e) ==> is_fresh(e, now),
{
    let all = cached + refreshed(batch, now);
    let kept = survivors(all, now, all.len());
    lemma_survivors(all, now, all.len());
    lemma_sorted_cache(kept);
    let merged = merged_cache(cached, batch, now);
    assert(merged == sorted_by(kept, name_and_id_keys(kept, lowered_names_of(kept))));
    assert forall|e: DiscoveredAppView| merged.contains(e) <==> survives(all, e, now) by {
        if survives(all, e, now) {
            let i = choose|i: int| #[trigger] is_survivor(all, i, now) && all[i] == e;
            assert(0 <= i < all.len() && is_survivor(all, i, now) && all[i] == e);
            assert(kept.contains(e));
        }
        if merged.contains(e) {
            assert(kept.contains(e));
            let i = choose|i: int|
                0 <= i < all.len() && #[trigger] is_survivor(all, i, now) && all[i] == e;
            assert(is_survivor(all, i, now) && all[i] == e);
        }
    }
    assert forall|e: DiscoveredAppView| merged.contains(e) implies is_fresh(e, now) by {
        let i = choose|i: int| #[trigger] is_survivor(all, i, now) && all[i] == e;
    }
}

/// A freshly discovered application is in the cache after the merge, seen
/// at the time of the merge, however old the batch made it: the merge holds
/// the last entry that the batch has of a bundle id, with `now` for the time
/// it was last seen at.
pub proof fn lemma_batch_is_refreshed(
    cached: Seq<DiscoveredAppView>,
    batch: Seq<DiscoveredAppView>,
    now: int,
    i: int,
)
    requires
        is_last_of_id(batch, i),
    ensures
        merged_cache(cached, batch, now).contains(
            DiscoveredAppView { last_seen: now, ..batch[i] },
        ),
{
    let all = cached + refreshed(batch, now);
    let k = cached.len() + i;
    lemma_merged_cache(cached, batch, now);
    assert(all[k] == refreshed(batch, now)[i]);
    assert forall|j: int| k < j < all.len() implies (#[trigger] all[j]).bundle_id
        != all[k].bundle_id by {
        assert(all[j] == refreshed(batch, now)[j - cached.len()]);
        assert(batch[j - cached.len()].bundle_id != batch[i].bundle_id);
    }
    assert(is_survivor(all, k, now));
    assert(survives(all, all[k], now));
}

/// An entry of the merged cache whose bundle id is in the batch comes from
/// the batch: it is the batch's last entry of that bundle id, seen at `now`.
pub proof fn lemma_batch_entries_stamped(
    cached: Seq<DiscoveredAppView>,
    batch: Seq<DiscoveredAppView>,
    now: int,
    e: DiscoveredAppView,
) -> (j: int)
    requires
        merged_cache(cached, batch, now).contains(e),
        in_batch(batch, e.bundle_id),
    ensures
        0 <= j < batch.len(),
        e == (DiscoveredAppView { last_seen: now, ..batch[j] }),
        forall|k: int| j < k < batch.len() ==> (#[trigger] batch[k]).bundle_id != batch[j].bundle_id,
{
    let all = cached + refreshed(batch, now);
    lemma_merged_cache(cached, batch, now);
    let i = choose|i: int| #[trigger] is_survivor(all, i, now) && all[i] == e;
    let w = choose|w: int| 0 <= w < batch.len() && (#[trigger] batch[w]).bundle_id == e.bundle_id;
    assert(all[cached.len() + w] == refreshed(batch, now)[w]);
    if i < cached.len() {
        assert(all[cached.len() + w].bundle_id != all[i].bundle_id);
        assert(false);
    }
    let j = i - cached.len();
    assert(all[i] == refreshed(batch, now)[j]);
    assert forall|k: int| j < k < batch.len() implies (#[trigger] batch[k]).bundle_id
        != batch[j].bundle_id by {
        assert(all[cached.len() + k] == refreshed(batch, now)[k]);
        assert(all[cached.len() + k].bundle_id != all[i].bundle_id);
    }
    j
}

/// Merging the same batch again, at a later time, leaves the same
/// applications in the same order; only the times they were last seen at
/// advance. The entries whose bundle id is in the batch are then seen at the
/// later time, the others are as the first merge left them. This holds where
/// no entry that the batch does not renew turns 30 days old in between.
pub proof fn lemma_merge_again(
    cached: Seq<DiscoveredAppView>,
    batch: Seq<DiscoveredAppView>,
    now1: int,
    now2: int,
)
    requires
        now1 <= now2,
        forall|e: DiscoveredAppView|
            #[trigger] merged_cache(cached, batch, now1).contains(e) && !in_batch(
                batch,
                e.bundle_id,
            ) ==> is_fresh(e, now2),
    ensures
        merged_cache(merged_cache(cached, batch, now1), batch, now2) == advanced(
            merged_cache(cached, batch, now1),
            batch,
            now2,
        ),
        identities(merged_cache(merged_cache(cached, batch, now1), batch, now2)) == identities(
            merged_cache(cached, batch, now1),
        ),
        forall|i: int|
            0 <= i < merged_cache(cached, batch, now1).len() ==> merged_cache(
                cached,
                batch,
                now1,
            )[i].last_seen <= (#[trigger] merged_cache(
                merged_cache(cached, batch, now1),
                batch,
                now2,
            )[i]).last_seen,
{
    let first = merged_cache(cached, batch, now1);
    let second = merged_cache(first, batch, now2);
    let adv = advanced(first, batch, now2);
    let again = first + refreshed(batch, now2);
    lemma_merged_cache(cached, batch, now1);
    lemma_merged_cache(first, batch, now2);
    assert forall|i: int, j: int| 0 <= i < j < adv.len() implies key_le(
        cache_key(#[trigger] adv[i]),
        cache_key(#[trigger] adv[j]),
    ) && adv[i].bundle_id != adv[j].bundle_id by {
        assert(cache_key(adv[i]) == cache_key(first[i]));
        assert(cache_key(adv[j]) == cache_key(first[j]));
    }
    assert forall|e: DiscoveredAppView| second.contains(e) <==> adv.contains(e) by {
        if second.contains(e) {
            let k = choose|k: int| #[trigger] is_survivor(again, k, now2) && again[k] == e;
            if k >= first.len() {
                let j = k - first.len();
                assert(again[k] == refreshed(batch, now2)[j]);
                assert forall|m: int| j < m < batch.len() implies (#[trigger] batch[m]).bundle_id
                    != batch[j].bundle_id by {
                    assert(again[first.len() + m] == refreshed(batch, now2)[m]);
                    assert(again[first.len() + m].bundle_id != again[k].bundle_id);
                }
                assert(is_last_of_id(batch, j));
                lemma_batch_is_refreshed(cached, batch, now1, j);
                let f = DiscoveredAppView { last_seen: now1, ..batch[j] };
                let m = choose|m: int| 0 <= m < first.len() && first[m] == f;
                assert(in_batch(batch, f.bundle_id));
                assert(adv[m] == e);
            } else {
                assert(again[k] == first[k]);
                if in_batch(batch, e.bundle_id) {
                    let w = choose|w: int|
                        0 <= w < batch.len() && (#[trigger] batch[w]).bundle_id == e.bundle_id;
                    assert(again[first.len() + w] == refreshed(batch, now2)[w]);
                    assert(again[first.len() + w].bundle_id != again[k].bundle_id);
                    assert(false);
                }
                assert(adv[k] == e);
            }
        }
        if adv.contains(e) {
            let m = choose|m: int| 0 <= m < adv.len() && adv[m] == e;
            let f = first[m];
            assert(first.contains(f));
            if in_batch(batch, f.bundle_id) {
                let j = lemma_batch_entries_stamped(cached, batch, now1, f);
                let k = first.len() + j;
                assert(again[k] == refreshed(batch, now2)[j]);
                assert(again[k] == e);
                assert forall|n: int| k < n < again.len() implies (#[trigger] again[n]).bundle_id
                    != again[k].bundle_id by {
                    assert(again[n] == refreshed(batch, now2)[n - first.len()]);
                    assert(batch[n - first.len()].bundle_id != batch[j].bundle_id);
                }
                assert(is_survivor(again, k, now2));
            } else {
                assert(e == f);
                assert(again[m] == f);
                assert forall|n: int| m < n < again.len() implies (#[trigger] again[n]).bundle_id
                    != again[m].bundle_id by {
                    if n < first.len() {
                        assert(again[n] == first[n]);
                        assert(first[m].bundle_id != first[n].bundle_id);
                    } else {
                        assert(again[n] == refreshed(batch, now2)[n - first.len()]);
                        assert(batch[n - first.len()].bundle_id == again[n].bundle_id);
                    }
                }
                assert(is_survivor(again, m, now2));
            }
            assert(survives(again, e, now2));
        }
    }
    lemma_strict_order_unique(second, adv);
    assert(identities(adv) =~= identities(first));
    assert forall|i: int| 0 <= i < first.len() implies first[i].last_seen <= (
    #[trigger] second[i]).last_seen by {
        assert(first.contains(first[i]));
        if in_batch(batch, first[i].bundle_id) {
            let j = lemma_batch_entries_stamped(cached, batch, now1, first[i]);
        }
    }
}

/// Merging is idempotent: a batch merged a second time, at the same time,
/// leaves the cache as the first merge left it.
pub proof fn lemma_merge_idempotent(
    cached: Seq<DiscoveredAppView>,
    batch: Seq<DiscoveredAppView>,
    now: int,
)
    ensures
        merged_cache(merged_cache(cached, batch, now), batch, now) == merged_cache(
            cached,
            batch,
            now,
        ),
{
    let first = merged_cache(cached, batch, now);
    lemma_merged_cache(cached, batch, now);
    lemma_merge_again(cached, batch, now, now);
    assert forall|i: int| 0 <= i < first.len() implies advanced(first, batch, now)[i]
        == first[i] by {
        assert(first.contains(first[i]));
        if in_batch(batch, first[i].bundle_id) {
            let j = lemma_batch_entries_stamped(cached, batch, now, first[i]);
        }
    }
    assert(advanced(first, batch, now) =~= first);
}

} // verus!
