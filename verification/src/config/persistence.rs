//! Where the binder keeps its files, relative to the user's home directory.

use crate::text::chars_of;
use vstd::prelude::*;
use vstd::string::StringExecFns;

verus! {

/// The name of the binder's directory under `.config`.
pub const APP_NAME: &'static str = "karabiner-rcmd-binder";

/// The name of the file that holds the configuration.
pub const CONFIG_FILE: &'static str = "config.toml";

/// The path of `segment` under `base`: the two joined by one slash. An
/// empty base gives the segment alone.
pub open spec fn joined_path(base: Seq<char>, segment: Seq<char>) -> Seq<char> {
    if base.len() == 0 {
        segment
    } else if base.last() == '/' {
        base + segment
    } else {
        base + "/"@ + segment
    }
}

/// The binder's directory under the home directory `home`.
pub open spec fn config_dir_under(home: Seq<char>) -> Seq<char> {
    joined_path(joined_path(home, ".config"@), APP_NAME@)
}

/// The path of `segment` under `base`.
pub fn join_path(base: &str, segment: &str) -> (r: String)
    ensures
        r@ == joined_path(base@, segment@),
{
    let chars = chars_of(base);
    if chars.len() == 0 {
        return String::from_str(segment);
    }
    let mut path = String::from_str(base);
    if chars[chars.len() - 1] != '/' {
        path.append("/");
    }
    path.append(segment);
    path
}

/// `dirs::home_dir`: the home directory of the current user, where the
/// system knows one. The path is handed on as text.
#[verifier::external_body]
pub(crate) fn home_dir() -> (r: Option<String>) {
    match dirs::home_dir() {
        Some(path) => Some(path.to_string_lossy().into_owned()),
        None => None,
    }
}

/// The binder's directory under the home directory `home`.
pub fn config_dir_in(home: &str) -> (r: String)
    ensures
        r@ == config_dir_under(home@),
{
    let dot_config = join_path(home, ".config");
    join_path(dot_config.as_str(), APP_NAME)
}

/// The file under the home directory `home` that holds the configuration.
pub fn config_path_in(home: &str) -> (r: String)
    ensures
        r@ == joined_path(config_dir_under(home@), CONFIG_FILE@),
{
    let dir = config_dir_in(home);
    join_path(dir.as_str(), CONFIG_FILE)
}

/// The directory under the home directory `home` that holds the helper
/// scripts.
pub fn scripts_dir_in(home: &str) -> (r: String)
    ensures
        r@ == joined_path(config_dir_under(home@), "scripts"@),
{
    let dir = config_dir_in(home);
    join_path(dir.as_str(), "scripts")
}

/// The binder's directory under the home directory of the current user;
/// nothing where the system knows no home directory.
pub fn config_dir() -> (r: Option<String>)
    ensures
        r matches Some(path) ==> exists|home: Seq<char>| path@ == config_dir_under(home),
{
    let home = home_dir();
    let path = config_dir_from(&home);
    assert(path matches Some(p) ==> p@ == config_dir_under(home->0@));
    path
}

/// The file that holds the configuration of the current user.
pub fn config_path() -> (r: Option<String>)
    ensures
        r matches Some(path) ==> exists|home: Seq<char>|
            path@ == joined_path(config_dir_under(home), CONFIG_FILE@),
{
    let home = home_dir();
    let path = config_path_from(&home);
    assert(path matches Some(p) ==> p@ == joined_path(config_dir_under(home->0@), CONFIG_FILE@));
    path
}

/// The directory that holds the helper scripts of the current user.
pub fn scripts_dir() -> (r: Option<String>)
    ensures
        r matches Some(path) ==> exists|home: Seq<char>|
            path@ == joined_path(config_dir_under(home), "scripts"@),
{
    let home = home_dir();
    let path = scripts_dir_from(&home);
    assert(path matches Some(p) ==> p@ == joined_path(config_dir_under(home->0@), "scripts"@));
    path
}

/// What the lookup of the home directory leads to: the path that `under`
/// gives for the home directory that was found, nothing where none was found.
pub open spec fn for_home(
    home: Option<Seq<char>>,
    under: spec_fn(Seq<char>) -> Seq<char>,
) -> Option<Seq<char>> {
    match home {
        Some(found) => Some(under(found)),
        None => None,
    }
}

/// The binder's directory, given what the lookup of the home directory
/// gave: the directory under the home directory that was found, nothing
/// where none was found.
pub fn config_dir_from(home: &Option<String>) -> (r: Option<String>)
    ensures
        r.deep_view() == for_home(home.deep_view(), |h: Seq<char>| config_dir_under(h)),
{
    match home {
        Some(found) => Some(config_dir_in(found.as_str())),
        None => None,
    }
}

/// The file that holds the configuration, given what the lookup of the home
/// directory gave.
pub fn config_path_from(home: &Option<String>) -> (r: Option<String>)
    ensures
        r.deep_view() == for_home(
            home.deep_view(),
            |h: Seq<char>| joined_path(config_dir_under(h), CONFIG_FILE@),
        ),
{
    match home {
        Some(found) => Some(config_path_in(found.as_str())),
        None => None,
    }
}

/// The directory that holds the helper scripts, given what the lookup of
/// the home directory gave.
pub fn scripts_dir_from(home: &Option<String>) -> (r: Option<String>)
    ensures
        r.deep_view() == for_home(
            home.deep_view(),
            |h: Seq<char>| joined_path(config_dir_under(h), "scripts"@),
        ),
{
    match home {
        Some(found) => Some(scripts_dir_in(found.as_str())),
        None => None,
    }
}

} // verus!
