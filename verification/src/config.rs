//! Persistence of the front-end's configuration blob.
//!
//! The blob is opaque JSON text owned by the front-end; this module
//! only decides where the file lives, what a read outcome means, and
//! what the default contents are when no file exists yet.

use vstd::prelude::*;

verus! {

/// Path of the configuration file inside the user's configuration
/// directory: a fixed subdirectory and file name.
pub open spec fn config_suffix() -> Seq<char> {
    "/nono-app/app_config.json"@
}

/// A path is a config file path when it is some directory followed by
/// the fixed suffix.
pub open spec fn is_config_path(p: Seq<char>) -> bool {
    exists|d: Seq<char>| p == d + config_suffix()
}

/// Appends the fixed subdirectory and file name to a configuration
/// directory.
pub fn config_file_path_in(dir: &String) -> (r: String)
    ensures
        r@ == dir@ + config_suffix(),
{
    dir.clone().concat("/nono-app/app_config.json")
}

/// Resolves the configuration file path from the user's configuration
/// directory, if one was found.
pub fn config_file_path_from(dir: Option<String>) -> (r: Result<String, String>)
    ensures
        dir matches Some(d) ==> (r matches Ok(p) && p@ == d@ + config_suffix()),
        dir is None ==> (r matches Err(e) && e@ == "couldn't find user config directory"@),
{
    match dir {
        Some(d) => Ok(config_file_path_in(&d)),
        None => Err(String::from_str("couldn't find user config directory")),
    }
}

/// Relies on dirs::config_dir: the platform's per-user configuration
/// directory, when the platform reports one.  The result depends on
/// the environment, so nothing is promised of the value.
#[verifier::external_body]
fn user_config_dir() -> (r: Option<String>) {
    dirs::config_dir().map(|p| p.to_string_lossy().into_owned())
}

/// Resolves the configuration file path under the user's
/// configuration directory; fails when the platform reports none.
pub fn config_file_path() -> (r: Result<String, String>)
    ensures
        r matches Ok(p) ==> is_config_path(p@),
        r matches Err(e) ==> e@ == "couldn't find user config directory"@,
{
    let dir = user_config_dir();
    let ghost gdir = dir;
    let r = config_file_path_from(dir);
    proof {
        match gdir {
            Some(d) => {
                assert(r matches Ok(p) && p@ == d@ + config_suffix());
            },
            None => {},
        }
    }
    r
}

/// What a read of the configuration file found: no file yet, the
/// file's text, or a filesystem failure message.
pub enum ConfigRead {
    Missing,
    Contents(String),
    Failure(String),
}

/// The text a load yields from a file state: the file's text when one
/// exists, and the empty-list default otherwise.
pub open spec fn loaded_text(file: Option<Seq<char>>) -> Seq<char> {
    match file {
        Some(s) => s,
        None => "[]"@,
    }
}

/// The file state after a save: the saved text verbatim, whatever was
/// there before.  Overwrites are whole-file and last-write-wins; no
/// atomicity or backup is modelled because none is provided.
pub open spec fn file_after_save(prev: Option<Seq<char>>, cfg: Seq<char>) -> Option<Seq<char>> {
    Some(cfg)
}

/// Turns a read outcome into the load result: a missing file means the
/// empty-list default, contents come back verbatim, and any other
/// filesystem failure is surfaced as the error message.
pub fn load_app_config_from(read: ConfigRead) -> (r: Result<String, String>)
    ensures
        read matches ConfigRead::Missing ==> (r matches Ok(s) && s@ == loaded_text(None)),
        read matches ConfigRead::Contents(c) ==> (r matches Ok(s) && s@ == loaded_text(Some(c@))),
        read matches ConfigRead::Failure(e) ==> (r matches Err(m) && m == e),
{
    match read {
        ConfigRead::Missing => Ok(String::from_str("[]")),
        ConfigRead::Contents(c) => Ok(c),
        ConfigRead::Failure(e) => Err(e),
    }
}

/// Round trip: saving a configuration and then loading it yields the
/// saved text verbatim, whatever the file held before.
pub proof fn lemma_config_round_trip(prev: Option<Seq<char>>, cfg: Seq<char>)
    ensures
        loaded_text(file_after_save(prev, cfg)) == cfg,
{
}

} // verus!
