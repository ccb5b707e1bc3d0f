//! Fixed values, and where the daemon keeps its files.

use vstd::prelude::*;
use vstd::string::StringExecFns;
use crate::paths::{join, join_paths, with_extension, with_extension_of};
use crate::text::{opt_text, texts_of};

verus! {

/// First hour of the default day window.
pub open spec fn spec_day_start() -> u32 {
    8
}

/// First hour after the default day window.
pub open spec fn spec_day_end() -> u32 {
    19
}

/// First hour of the default day window.
#[verifier::when_used_as_spec(spec_day_start)]
pub fn day_start() -> (hour: u32)
    ensures
        hour == spec_day_start(),
{
    8
}

/// First hour after the default day window.
#[verifier::when_used_as_spec(spec_day_end)]
pub fn day_end() -> (hour: u32)
    ensures
        hour == spec_day_end(),
{
    19
}

/// The base that stands in for the user's configuration directory where the
/// platform names none.
pub open spec fn fallback_config_base() -> Seq<char> {
    "/home/"@
}

/// The daemon's configuration folder under the user's configuration
/// directory `base`.
pub open spec fn config_folder_under(base: Option<Seq<char>>) -> Seq<char> {
    join_paths(
        match base {
            Some(dir) => dir,
            None => fallback_config_base(),
        },
        "wallman/"@,
    )
}

/// The places where a configuration file is looked for, most preferred
/// first, given the user's configuration directory `base`.
pub open spec fn config_candidates_under(base: Option<Seq<char>>) -> Seq<Seq<char>> {
    seq![
        join_paths(
            match base {
                Some(dir) => dir,
                None => fallback_config_base(),
            },
            "wallman/config"@,
        ),
        "/etc/wallman/config"@,
        "/etc/wallman.conf"@,
    ]
}

/// The daemon's data folder under the user's local data directory `base`.
pub open spec fn data_folder_under(base: Seq<char>) -> Seq<char> {
    join_paths(base, "wallman/"@)
}

/// The folder into which theme packs are unpacked, under the user's local
/// data directory `base`.
pub open spec fn packs_folder_under(base: Seq<char>) -> Seq<char> {
    join_paths(data_folder_under(base), "packs/themes"@)
}

/// `dirs::config_dir`: the user's configuration directory, where the
/// platform and the environment name one. The answer depends on the
/// environment, so nothing is claimed of it.
#[verifier::external_body]
fn user_config_dir() -> Option<String> {
    match dirs::config_dir() {
        Some(path) => Some(path.to_string_lossy().into_owned()),
        None => None,
    }
}

/// `dirs::data_local_dir`: the user's local data directory, where the
/// platform and the environment name one. The answer depends on the
/// environment, so nothing is claimed of it.
#[verifier::external_body]
fn user_data_local_dir() -> Option<String> {
    match dirs::data_local_dir() {
        Some(path) => Some(path.to_string_lossy().into_owned()),
        None => None,
    }
}

/// The places where a configuration file is looked for, given the user's
/// configuration directory.
pub fn config_vec_under(base: Option<String>) -> (candidates: Vec<String>)
    ensures
        texts_of(candidates@) == config_candidates_under(opt_text(base)),
{
    let first = match &base {
        Some(dir) => join(dir.as_str(), "wallman/config"),
        None => join("/home/", "wallman/config"),
    };
    let mut candidates: Vec<String> = Vec::new();
    candidates.push(first);
    candidates.push(String::from_str("/etc/wallman/config"));
    candidates.push(String::from_str("/etc/wallman.conf"));
    assert(texts_of(candidates@) =~= config_candidates_under(opt_text(base)));
    candidates
}

/// The places where a configuration file is looked for, most preferred
/// first.
pub fn config_vec() -> (candidates: Vec<String>)
    ensures
        exists|base: Option<Seq<char>>| texts_of(candidates@) == config_candidates_under(base),
{
    let base = user_config_dir();
    config_vec_under(base)
}

/// The daemon's configuration folder, given the user's configuration
/// directory.
pub fn config_folder_in(base: Option<String>) -> (folder: String)
    ensures
        folder@ == config_folder_under(opt_text(base)),
{
    match &base {
        Some(dir) => join(dir.as_str(), "wallman/"),
        None => join("/home/", "wallman/"),
    }
}

/// The daemon's configuration folder.
pub fn config_folder() -> (folder: String)
    ensures
        exists|base: Option<Seq<char>>| folder@ == config_folder_under(base),
{
    let base = user_config_dir();
    config_folder_in(base)
}

/// The daemon's data folder, given the user's local data directory.
pub fn data_folder_in(base: &str) -> (folder: String)
    ensures
        folder@ == data_folder_under(base@),
{
    join(base, "wallman/")
}

/// The daemon's data folder, or `None` where the user has no local data
/// directory.
pub fn data_folder() -> (folder: Option<String>)
    ensures
        folder matches Some(f) ==> exists|base: Seq<char>| f@ == data_folder_under(base),
{
    let base = user_data_local_dir();
    let folder = data_folder_from(&base);
    assert(folder matches Some(f) ==> f@ == data_folder_under(base->0@));
    folder
}

/// The folder into which theme packs are unpacked, given the user's local
/// data directory.
pub fn decompresion_folder_in(base: &str) -> (folder: String)
    ensures
        folder@ == packs_folder_under(base@),
{
    let data = data_folder_in(base);
    join(data.as_str(), "packs/themes")
}

/// The folder into which theme packs are unpacked, or `None` where the user
/// has no local data directory.
pub fn decompresion_folder() -> (folder: Option<String>)
    ensures
        folder matches Some(f) ==> exists|base: Seq<char>| f@ == packs_folder_under(base),
{
    let base = user_data_local_dir();
    let folder = decompresion_folder_from(&base);
    assert(folder matches Some(f) ==> f@ == packs_folder_under(base->0@));
    folder
}

/// The daemon's data folder for what the user's local data directory is:
/// the folder under it, and none where there is none.
pub open spec fn data_folder_for(base: Option<Seq<char>>) -> Option<Seq<char>> {
    match base {
        Some(dir) => Some(data_folder_under(dir)),
        None => None,
    }
}

/// The daemon's data folder, given the user's local data directory or that
/// there is none.
pub fn data_folder_from(base: &Option<String>) -> (folder: Option<String>)
    ensures
        opt_text(folder) == data_folder_for(opt_text(*base)),
{
    match base {
        Some(dir) => Some(data_folder_in(dir.as_str())),
        None => None,
    }
}

/// The folder into which theme packs are unpacked for what the user's
/// local data directory is: the folder under it, and none where there is
/// none.
pub open spec fn packs_folder_for(base: Option<Seq<char>>) -> Option<Seq<char>> {
    match base {
        Some(dir) => Some(packs_folder_under(dir)),
        None => None,
    }
}

/// The folder into which theme packs are unpacked, given the user's local
/// data directory or that there is none.
pub fn decompresion_folder_from(base: &Option<String>) -> (folder: Option<String>)
    ensures
        opt_text(folder) == packs_folder_for(opt_text(*base)),
{
    match base {
        Some(dir) => Some(decompresion_folder_in(dir.as_str())),
        None => None,
    }
}

/// The configuration files that `candidates` stand for: each with the
/// configuration extension.
pub open spec fn config_files_of(candidates: Seq<Seq<char>>) -> Seq<Seq<char>> {
    Seq::new(candidates.len(), |i: int| with_extension_of(candidates[i], "toml"@))
}

/// The configuration files that the given candidates stand for.
pub fn config_files(candidates: &Vec<String>) -> (files: Vec<String>)
    ensures
        texts_of(files@) == config_files_of(texts_of(candidates@)),
{
    let mut files: Vec<String> = Vec::new();
    let mut i: usize = 0;
    while i < candidates.len()
        invariant
            i <= candidates.len(),
            files@.len() == i,
            forall|j: int|
                0 <= j < i ==> (#[trigger] files@[j])@ == with_extension_of(
                    candidates@[j]@,
                    "toml"@,
                ),
        decreases candidates.len() - i,
    {
        proof {
            reveal_strlit("toml");
        }
        files.push(with_extension(candidates[i].as_str(), "toml"));
        i = i + 1;
    }
    assert(texts_of(files@) =~= config_files_of(texts_of(candidates@)));
    files
}

/// The index of the first candidate that exists, if one does.
pub fn first_existing(exists: &Vec<bool>) -> (found: Option<usize>)
    ensures
        match found {
            Some(i) => i < exists@.len() && exists@[i as int] && forall|j: int|
                0 <= j < i ==> !exists@[j],
            None => forall|j: int| 0 <= j < exists@.len() ==> !exists@[j],
        },
{
    let mut i: usize = 0;
    while i < exists.len()
        invariant
            i <= exists.len(),
            forall|j: int| 0 <= j < i ==> !exists@[j],
        decreases exists.len() - i,
    {
        if exists[i] {
            return Some(i);
        }
        i = i + 1;
    }
    None
}

} // verus!
