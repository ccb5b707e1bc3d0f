//! Installing a theme pack: its name, where it goes, and whether its
//! entries may be unpacked.

use vstd::prelude::*;
use vstd::string::StringExecFns;
use crate::constants::{decompresion_folder, packs_folder_under};
use crate::paths::{
    escapes_folder, file_name, file_name_of, file_stem, file_stem_of, join, join_paths,
    names_parent,
};
use crate::text::{
    chars_of, is_alphanumeric, is_alphanumeric_char, lowercase_of, str_eq, string_from_chars,
    to_lowercase,
};

verus! {

/// `c` as it goes into a pack name: `-` for a space, else itself.
pub open spec fn dash_for_space(c: char) -> char {
    if c == ' ' {
        '-'
    } else {
        c
    }
}

/// Whether a character stays in a pack name: letters, numbers, `-` and `_`.
pub open spec fn keeps_in_name(c: char) -> bool {
    is_alphanumeric_char(c) || c == '-' || c == '_'
}

/// The characters of `text` that stay, in their order, where `stays` says
/// of each whether it does. None stays where `stays` does not speak of
/// each character.
pub open spec fn kept(text: Seq<char>, stays: Seq<bool>) -> Seq<char>
    decreases text.len(),
{
    if text.len() == 0 || stays.len() != text.len() {
        Seq::empty()
    } else if stays.last() {
        kept(text.drop_last(), stays.drop_last()).push(text.last())
    } else {
        kept(text.drop_last(), stays.drop_last())
    }
}

/// `text` with `-` for every space.
pub open spec fn with_dashes(text: Seq<char>) -> Seq<char> {
    Seq::new(text.len(), |i: int| dash_for_space(text[i]))
}

/// `text` with `-` for every space, and without the characters that do not
/// stay in a pack name.
pub open spec fn name_characters(text: Seq<char>) -> Seq<char> {
    kept(
        with_dashes(text),
        Seq::new(text.len(), |i: int| keeps_in_name(dash_for_space(text[i]))),
    )
}

/// The name under which a pack named `name` is installed.
pub open spec fn sanitized_name(name: Seq<char>) -> Seq<char> {
    lowercase_of(name_characters(name))
}

/// The name that a pack has until its manifest names it: that of its file
/// without the extension.
pub open spec fn default_pack_name(file_path: Seq<char>) -> Seq<char> {
    match file_stem_of(file_path) {
        Some(stem) => stem,
        None => "unknown"@,
    }
}

/// What the manifest of a pack says of its name.
pub enum ManifestReading {
    /// The pack has no manifest.
    Missing,
    /// The manifest could not be read. Holds the parser's message.
    Invalid(String),
    /// The manifest was read, and names the pack so.
    Read(Option<String>),
}

/// Why a pack could not be installed.
#[derive(Debug)]
pub enum InstallError {
    /// The manifest could not be read. Holds the parser's message.
    InvalidManifest(String),
    /// An entry of the pack leads out of the folder it is unpacked into.
    UnsafePath(String),
}

impl InstallError {
    /// The failure in words.
    pub open spec fn spec_message(self) -> Seq<char> {
        match self {
            InstallError::InvalidManifest(message) => "Failed to parse manifest.toml: "@
                + message@,
            InstallError::UnsafePath(path) => "Unsafe path detected: "@ + path@,
        }
    }

    /// The failure in words.
    pub fn message(&self) -> (text: String)
        ensures
            text@ == self.spec_message(),
    {
        match self {
            InstallError::InvalidManifest(message) => String::from_str(
                "Failed to parse manifest.toml: ",
            ).concat(message.as_str()),
            InstallError::UnsafePath(path) => String::from_str("Unsafe path detected: ").concat(
                path.as_str(),
            ),
        }
    }
}

/// The name under which a pack is installed, given what its manifest says.
pub open spec fn pack_name_for(file_path: Seq<char>, manifest: ManifestReading) -> Seq<char> {
    match manifest {
        ManifestReading::Read(Some(name)) => sanitized_name(name@),
        _ => default_pack_name(file_path),
    }
}

/// The characters of `text` that stay, in their order, where `stays` says
/// of each whether it does.
pub fn keep_chars(text: &Vec<char>, stays: &Vec<bool>) -> (out: Vec<char>)
    ensures
        out@ == kept(text@, stays@),
{
    let mut out: Vec<char> = Vec::new();
    if text.len() != stays.len() {
        return out;
    }
    let mut i: usize = 0;
    assert(text@.take(0) =~= Seq::<char>::empty());
    while i < text.len()
        invariant
            i <= text.len(),
            text@.len() == stays@.len(),
            out@ == kept(text@.take(i as int), stays@.take(i as int)),
        decreases text.len() - i,
    {
        proof {
            assert(text@.take(i as int + 1).drop_last() =~= text@.take(i as int));
            assert(stays@.take(i as int + 1).drop_last() =~= stays@.take(i as int));
        }
        if stays[i] {
            out.push(text[i]);
        }
        i = i + 1;
    }
    assert(text@.take(i as int) =~= text@);
    assert(stays@.take(i as int) =~= stays@);
    out
}

/// The name under which a pack named `name` is installed: spaces become
/// `-`, what is neither letter, number, `-` nor `_` is left out, and the
/// rest is put in lower case.
pub fn sanitize_name(name: &str) -> (clean: String)
    ensures
        clean@ == sanitized_name(name@),
{
    let chars = chars_of(name);
    let mut dashed: Vec<char> = Vec::new();
    let mut stays: Vec<bool> = Vec::new();
    let mut i: usize = 0;
    while i < chars.len()
        invariant
            i <= chars.len(),
            dashed@.len() == i,
            stays@.len() == i,
            forall|j: int| 0 <= j < i ==> dashed@[j] == dash_for_space(chars@[j]),
            forall|j: int| 0 <= j < i ==> stays@[j] == keeps_in_name(dash_for_space(chars@[j])),
        decreases chars.len() - i,
    {
        let c = if chars[i] == ' ' {
            '-'
        } else {
            chars[i]
        };
        dashed.push(c);
        stays.push(is_alphanumeric(c) || c == '-' || c == '_');
        i = i + 1;
    }
    proof {
        assert(dashed@ =~= with_dashes(chars@));
        assert(stays@ =~= Seq::new(
            chars@.len(),
            |i: int| keeps_in_name(dash_for_space(chars@[i])),
        ));
    }
    let filtered = string_from_chars(&keep_chars(&dashed, &stays));
    to_lowercase(filtered.as_str())
}

/// Whether an entry of a pack is its manifest.
pub fn is_manifest_entry(entry_path: &str) -> (is_manifest: bool)
    ensures
        is_manifest == (file_name_of(entry_path@) == Some("manifest.toml"@)),
{
    match file_name(entry_path) {
        Some(name) => str_eq(name.as_str(), "manifest.toml"),
        None => false,
    }
}

/// What installing a pack comes to: the folder to create, and then either
/// the go-ahead to unpack into it or the reason not to.
pub struct InstallPlan {
    pub dest_dir: String,
    pub unpack: Result<(), InstallError>,
}

/// Installs one theme pack.
pub struct PackInstaller {
    file_path: String,
    pack_name: String,
    dest_dir: String,
}

impl PackInstaller {
    /// The path of the pack's file.
    pub closed spec fn file(&self) -> Seq<char> {
        self.file_path@
    }

    /// The name under which the pack is installed.
    pub closed spec fn name(&self) -> Seq<char> {
        self.pack_name@
    }

    /// The folder that the pack is unpacked into, or under.
    pub closed spec fn dest(&self) -> Seq<char> {
        self.dest_dir@
    }

    /// An installer for the pack in `file` that installs under the daemon's
    /// themes folder, or `None` where the user has no local data directory.
    pub fn new(file: &str) -> (installer: Option<Self>)
        ensures
            match installer {
                Some(i) => i.file() == file@ && i.name() == "unknown"@ && exists|base: Seq<char>|
                    i.dest() == packs_folder_under(base),
                None => true,
            },
    {
        let folder = decompresion_folder();
        let installer = PackInstaller::for_themes_folder(file, &folder);
        assert(installer matches Some(i) ==> i.dest() == folder->0@);
        installer
    }

    /// An installer for the pack in `file` that installs under
    /// `themes_folder`.
    pub fn into_folder(file: &str, themes_folder: &str) -> (installer: Self)
        ensures
            installer.file() == file@,
            installer.name() == "unknown"@,
            installer.dest() == themes_folder@,
    {
        PackInstaller {
            file_path: String::from_str(file),
            pack_name: String::from_str("unknown"),
            dest_dir: String::from_str(themes_folder),
        }
    }

    /// An installer for the pack in `file` that installs under the themes
    /// folder `themes_folder`, or `None` where there is no themes folder.
    pub fn for_themes_folder(file: &str, themes_folder: &Option<String>) -> (installer: Option<
        Self,
    >)
        ensures
            match *themes_folder {
                Some(folder) => installer matches Some(i) && i.file() == file@ && i.name()
                    == "unknown"@ && i.dest() == folder@,
                None => installer is None,
            },
    {
        match themes_folder {
            Some(folder) => Some(PackInstaller::into_folder(file, folder.as_str())),
            None => None,
        }
    }

    /// The path of the pack's file.
    pub fn file_path(&self) -> (path: &str)
        ensures
            path@ == self.file(),
    {
        self.file_path.as_str()
    }

    /// The name under which the pack is installed.
    pub fn pack_name(&self) -> (name: &str)
        ensures
            name@ == self.name(),
    {
        self.pack_name.as_str()
    }

    /// Takes the pack's name from what its manifest says: the manifest's
    /// name, sanitized, or else the name of the pack's file. A manifest
    /// that could not be read is an error, and the file's name stands.
    pub fn read_manifest(&mut self, manifest: &ManifestReading) -> (outcome: Result<
        (),
        InstallError,
    >)
        ensures
            final(self).file() == old(self).file(),
            final(self).dest() == old(self).dest(),
            final(self).name() == pack_name_for(old(self).file(), *manifest),
            match outcome {
                Ok(_) => !(manifest is Invalid),
                Err(InstallError::InvalidManifest(message)) => manifest matches ManifestReading::Invalid(
                    m,
                ) && message@ == m@,
                Err(_) => false,
            },
    {
        self.pack_name = match file_stem(self.file_path.as_str()) {
            Some(stem) => stem,
            None => String::from_str("unknown"),
        };
        match manifest {
            ManifestReading::Missing => Ok(()),
            ManifestReading::Invalid(message) => Err(
                InstallError::InvalidManifest(message.clone()),
            ),
            ManifestReading::Read(None) => Ok(()),
            ManifestReading::Read(Some(name)) => {
                self.pack_name = sanitize_name(name.as_str());
                Ok(())
            },
        }
    }

    /// Settles the folder that the pack is unpacked into: the folder of
    /// its name under the themes folder.
    pub fn create_dest_dir(&mut self) -> (dest_dir: &str)
        ensures
            final(self).file() == old(self).file(),
            final(self).name() == old(self).name(),
            final(self).dest() == join_paths(old(self).dest(), old(self).name()),
            dest_dir@ == final(self).dest(),
    {
        self.dest_dir = join(self.dest_dir.as_str(), self.pack_name.as_str());
        self.dest_dir.as_str()
    }

    /// Whether the entries of the pack may be unpacked: none of them may
    /// lead out of the folder. The first that does is the error.
    pub fn unpack_archive(&self, entries: &Vec<String>) -> (outcome: Result<(), InstallError>)
        ensures
            match outcome {
                Ok(_) => forall|i: int|
                    0 <= i < entries@.len() ==> !names_parent(#[trigger] entries@[i]@),
                Err(InstallError::UnsafePath(path)) => exists|i: int|
                    0 <= i < entries@.len() && names_parent(#[trigger] entries@[i]@) && path@
                        == entries@[i]@ && forall|j: int|
                        0 <= j < i ==> !names_parent(#[trigger] entries@[j]@),
                Err(_) => false,
            },
    {
        let mut i: usize = 0;
        while i < entries.len()
            invariant
                i <= entries.len(),
                forall|j: int| 0 <= j < i ==> !names_parent(#[trigger] entries@[j]@),
            decreases entries.len() - i,
        {
            if escapes_folder(entries[i].as_str()) {
                return Err(InstallError::UnsafePath(entries[i].clone()));
            }
            i = i + 1;
        }
        Ok(())
    }

    /// Installs the pack, given what its manifest says and which entries
    /// it holds: names the pack, settles its folder, and checks the
    /// entries. A manifest that could not be read ends the installation
    /// before any folder is settled.
    pub fn install(&mut self, manifest: &ManifestReading, entries: &Vec<String>) -> (outcome: Result<
        InstallPlan,
        InstallError,
    >)
        ensures
            final(self).file() == old(self).file(),
            final(self).name() == pack_name_for(old(self).file(), *manifest),
            match outcome {
                Ok(plan) => {
                    &&& !(manifest is Invalid)
                    &&& final(self).dest() == join_paths(old(self).dest(), final(self).name())
                    &&& plan.dest_dir@ == final(self).dest()
                    &&& match plan.unpack {
                        Ok(_) => forall|i: int|
                            0 <= i < entries@.len() ==> !names_parent(#[trigger] entries@[i]@),
                        Err(InstallError::UnsafePath(path)) => exists|i: int|
                            0 <= i < entries@.len() && names_parent(#[trigger] entries@[i]@)
                                && path@ == entries@[i]@ && forall|j: int|
                                0 <= j < i ==> !names_parent(#[trigger] entries@[j]@),
                        Err(_) => false,
                    }
                },
                Err(InstallError::InvalidManifest(message)) => {
                    &&& manifest matches ManifestReading::Invalid(m) && message@ == m@
                    &&& final(self).dest() == old(self).dest()
                },
                Err(_) => false,
            },
    {
        match self.read_manifest(manifest) {
            Ok(_) => {},
            Err(e) => {
                return Err(e);
            },
        }
        let dest_dir = String::from_str(self.create_dest_dir());
        let unpack = self.unpack_archive(entries);
        Ok(InstallPlan { dest_dir, unpack })
    }
}

/// Installs the pack in `file` under `themes_folder`, given what its
/// manifest says and which entries it holds.
pub fn install_pack(
    file: &str,
    themes_folder: &str,
    manifest: &ManifestReading,
    entries: &Vec<String>,
) -> (outcome: Result<InstallPlan, InstallError>)
    ensures
        match outcome {
            Ok(plan) => {
                &&& !(manifest is Invalid)
                &&& plan.dest_dir@ == join_paths(themes_folder@, pack_name_for(file@, *manifest))
                &&& plan.unpack is Ok <==> forall|i: int|
                    0 <= i < entries@.len() ==> !names_parent(#[trigger] entries@[i]@)
            },
            Err(InstallError::InvalidManifest(message)) => manifest matches ManifestReading::Invalid(
                m,
            ) && message@ == m@,
            Err(_) => false,
        },
{
    let mut installer = PackInstaller::into_folder(file, themes_folder);
    installer.install(manifest, entries)
}

} // verus!
