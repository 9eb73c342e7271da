//! Backups of the engine's document: how they are named and which of them
//! are kept.

use crate::config::persistence::{for_home, home_dir, join_path, joined_path};
use crate::sorting::{permuted, places, stable_order, stable_order_of, SortKey, SortKeyView};
use crate::text::{chars_of, starts_with};
use vstd::prelude::*;
use vstd::string::StringExecFns;

verus! {

/// The start of the name of every backup.
pub const BACKUP_PREFIX: &'static str = "karabiner.json.switchkey-backup-";

/// How many backups are kept.
pub const MAX_BACKUPS: usize = 3;

/// The name is that of a backup.
pub open spec fn is_backup(name: Seq<char>) -> bool {
    BACKUP_PREFIX@.is_prefix_of(name)
}

/// The keys that order names as strings.
pub open spec fn name_order_keys(names: Seq<Seq<char>>) -> Seq<SortKeyView> {
    names.map_values(|n: Seq<char>| SortKeyView { primary: n, secondary: Seq::empty() })
}

/// The backups among the names, oldest first: their names end in the time
/// they were made at, so the order of the names is the order of their ages.
pub open spec fn backups_by_age(names: Seq<Seq<char>>) -> Seq<Seq<char>> {
    let backups = names.filter(|n: Seq<char>| is_backup(n));
    permuted(backups, stable_order_of(name_order_keys(backups), backups.len()))
}

/// The backups that have to go so that `MAX_BACKUPS` are left: the oldest.
pub open spec fn surplus_backups(names: Seq<Seq<char>>) -> Seq<Seq<char>> {
    let backups = backups_by_age(names);
    if backups.len() > MAX_BACKUPS {
        backups.take(backups.len() - MAX_BACKUPS)
    } else {
        Seq::empty()
    }
}

/// The engine's document under the home directory `home`.
pub fn karabiner_config_path_in(home: &str) -> (r: String)
    ensures
        r@ == joined_path(home@, ".config/karabiner/karabiner.json"@),
{
    join_path(home, ".config/karabiner/karabiner.json")
}

/// The engine's document of the current user; nothing where the system
/// knows no home directory.
pub fn karabiner_config_path() -> (r: Option<String>)
    ensures
        r matches Some(path) ==> exists|home: Seq<char>|
            path@ == joined_path(home, ".config/karabiner/karabiner.json"@),
{
    let home = home_dir();
    let path = karabiner_config_path_from(&home);
    assert(path matches Some(p) ==> p@ == joined_path(
        home->0@,
        ".config/karabiner/karabiner.json"@,
    ));
    path
}

/// The engine's document, given what the lookup of the home directory gave:
/// the document under the home directory that was found, nothing where none
/// was found.
pub fn karabiner_config_path_from(home: &Option<String>) -> (r: Option<String>)
    ensures
        r.deep_view() == for_home(
            home.deep_view(),
            |h: Seq<char>| joined_path(h, ".config/karabiner/karabiner.json"@),
        ),
{
    match home {
        Some(found) => Some(karabiner_config_path_in(found.as_str())),
        None => None,
    }
}

/// The name of the backup made at the time that `timestamp` writes.
pub fn backup_name(timestamp: &str) -> (r: String)
    ensures
        r@ == BACKUP_PREFIX@ + timestamp@,
{
    let mut name = String::from_str(BACKUP_PREFIX);
    name.append(timestamp);
    name
}

/// Whether the name is that of a backup.
pub fn is_backup_name(name: &str) -> (r: bool)
    ensures
        r == is_backup(name@),
{
    starts_with(name, BACKUP_PREFIX)
}

/// The backups among the names of a directory, oldest first.
pub fn sorted_backups(names: &Vec<String>) -> (r: Vec<String>)
    ensures
        r.deep_view() == backups_by_age(names.deep_view()),
{
    let ghost all = names.deep_view();
    let ghost wanted = |n: Seq<char>| is_backup(n);
    let mut backups: Vec<String> = Vec::new();
    let mut keys: Vec<SortKey> = Vec::new();
    let mut i: usize = 0;
    proof {
        reveal(Seq::filter);
        assert(all.take(0) =~= Seq::empty());
        assert(backups.deep_view() =~= all.take(0).filter(wanted));
    }
    while i < names.len()
        invariant
            i <= names.len(),
            all == names.deep_view(),
            wanted == (|n: Seq<char>| is_backup(n)),
            backups.deep_view() == all.take(i as int).filter(wanted),
            keys.len() == backups.len(),
            forall|j: int|
                0 <= j < keys.len() ==> (#[trigger] keys[j])@ == (SortKeyView {
                    primary: backups[j]@,
                    secondary: Seq::empty(),
                }),
        decreases names.len() - i,
    {
        let ghost before = backups.deep_view();
        proof {
            reveal(Seq::filter);
            assert(all.take(i + 1).drop_last() =~= all.take(i as int));
            assert(all.take(i + 1).last() == names[i as int]@);
        }
        if is_backup_name(names[i].as_str()) {
            keys.push(SortKey { primary: chars_of(names[i].as_str()), secondary: Vec::new() });
            backups.push(names[i].clone());
            assert(backups.deep_view() =~= before.push(names[i as int]@));
        }
        i += 1;
    }
    assert(all.take(names.len() as int) =~= all);
    assert(keys.deep_view() =~= name_order_keys(backups.deep_view()));
    let order = stable_order(&keys);
    let mut out: Vec<String> = Vec::new();
    let mut k: usize = 0;
    while k < order.len()
        invariant
            k <= order.len(),
            out.len() == k,
            order.len() == backups.len(),
            forall|j: int| 0 <= j < order.len() ==> (#[trigger] order[j]) < backups.len(),
            forall|j: int| 0 <= j < k ==> out[j]@ == backups[order[j] as int]@,
        decreases order.len() - k,
    {
        out.push(backups[order[k]].clone());
        k += 1;
    }
    assert(out.deep_view() =~= permuted(backups.deep_view(), places(order@)));
    out
}

/// The backups to delete after a new one was made, given the names in the
/// directory: the oldest, as many as there are beyond `MAX_BACKUPS`.
pub fn backups_to_remove(names: &Vec<String>) -> (r: Vec<String>)
    ensures
        r.deep_view() == surplus_backups(names.deep_view()),
{
    let mut backups = sorted_backups(names);
    if backups.len() > MAX_BACKUPS {
        let ghost before = backups.deep_view();
        let kept = backups.len() - MAX_BACKUPS;
        backups.truncate(kept);
        assert(backups.deep_view() =~= before.take(kept as int));
        backups
    } else {
        let none: Vec<String> = Vec::new();
        assert(none.deep_view() =~= Seq::empty());
        none
    }
}

/// The backups among the names of a directory, newest first.
pub fn list_backups(names: &Vec<String>) -> (r: Vec<String>)
    ensures
        r.deep_view() == backups_by_age(names.deep_view()).reverse(),
{
    let backups = sorted_backups(names);
    let mut out: Vec<String> = Vec::new();
    let mut i: usize = backups.len();
    while i > 0
        invariant
            i <= backups.len(),
            out.len() == backups.len() - i,
            forall|j: int| 0 <= j < out.len() ==> out[j]@ == backups[backups.len() - 1 - j]@,
        decreases i,
    {
        i -= 1;
        out.push(backups[i].clone());
    }
    assert(out.deep_view() =~= backups.deep_view().reverse());
    out
}

} // verus!
