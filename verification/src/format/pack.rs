//! Building a theme pack: whether the source folder is fit, and how the
//! pack's entries are named.

use vstd::prelude::*;
use vstd::string::StringExecFns;
use crate::config::Config;
use crate::paths::{file_name, file_name_of, join, join_paths};
use crate::text::{chars_of, string_from_chars};

verus! {

/// The name of the manifest entry of a pack.
pub const MANIFEST_ENTRY: &'static str = "manifest.toml";

/// The permission bits of the manifest entry.
pub const MANIFEST_MODE: u32 = 0o644;

/// The level at which a pack is compressed.
pub const COMPRESSION_LEVEL: i32 = 3;

/// What the file system says of a theme folder.
pub struct SourceFacts {
    pub path_exists: bool,
    pub path_is_dir: bool,
    pub images_exists: bool,
    pub images_is_dir: bool,
}

/// Why a theme folder cannot be packed.
#[derive(Debug, Clone, Copy, PartialEq, Eq, Structural)]
pub enum SourceFault {
    PathMissing,
    PathNotDir,
    ImagesMissing,
    ImagesNotDir,
}

/// The first fault of a theme folder, if it has one.
pub open spec fn source_fault(facts: SourceFacts) -> Option<SourceFault> {
    if !facts.path_exists {
        Some(SourceFault::PathMissing)
    } else if !facts.path_is_dir {
        Some(SourceFault::PathNotDir)
    } else if !facts.images_exists {
        Some(SourceFault::ImagesMissing)
    } else if !facts.images_is_dir {
        Some(SourceFault::ImagesNotDir)
    } else {
        None
    }
}

/// `name` with `-` for every space.
pub open spec fn dashed(name: Seq<char>) -> Seq<char> {
    Seq::new(
        name.len(),
        |i: int|
            if name[i] == ' ' {
                '-'
            } else {
                name[i]
            },
    )
}

/// The pack file that a theme is packed into where none is given: the
/// theme's name with `-` for every space, or `theme` where it has no name,
/// and the pack extension.
pub open spec fn default_pack_path(name: Option<Seq<char>>) -> Seq<char> {
    dashed(
        match name {
            Some(n) => n,
            None => "theme"@,
        },
    ) + ".wallman"@
}

/// The name that a new theme in the folder `path` has where none is given:
/// that of the folder.
pub open spec fn default_theme_name(path: Seq<char>) -> Seq<char> {
    match file_name_of(path) {
        Some(name) => name,
        None => "my-theme"@,
    }
}

/// The pack file that a theme named `name` is packed into where none is
/// given.
pub fn default_pack_file(name: Option<&str>) -> (file: String)
    ensures
        file@ == default_pack_path(
            match name {
                Some(n) => Some(n@),
                None => None,
            },
        ),
{
    let stem = match name {
        Some(n) => n,
        None => "theme",
    };
    let chars = chars_of(stem);
    let mut out: Vec<char> = Vec::new();
    let mut i: usize = 0;
    while i < chars.len()
        invariant
            i <= chars.len(),
            out@ == dashed(chars@).take(i as int),
        decreases chars.len() - i,
    {
        let c = if chars[i] == ' ' {
            '-'
        } else {
            chars[i]
        };
        out.push(c);
        assert(out@ =~= dashed(chars@).take(i as int + 1));
        i = i + 1;
    }
    assert(out@ =~= dashed(chars@));
    string_from_chars(&out).concat(".wallman")
}

/// The name that a new theme in the folder `path` has where none is given.
pub fn theme_name_for(path: &str) -> (name: String)
    ensures
        name@ == default_theme_name(path@),
{
    match file_name(path) {
        Some(name) => name,
        None => String::from_str("my-theme"),
    }
}

/// Packs a theme folder.
pub struct Packager {
    config: Config,
    path: String,
}

impl Packager {
    /// The folder that is packed.
    pub closed spec fn source(&self) -> Seq<char> {
        self.path@
    }

    /// The manifest that goes into the pack.
    pub closed spec fn manifest(&self) -> Config {
        self.config
    }

    /// The folder that holds the images of the theme.
    pub open spec fn images_folder(&self) -> Seq<char> {
        join_paths(self.source(), "images"@)
    }

    /// What a fault of the theme folder is reported as.
    pub open spec fn fault_message(&self, fault: SourceFault) -> Seq<char> {
        match fault {
            SourceFault::PathMissing => "Path does not exist: "@ + self.source(),
            SourceFault::PathNotDir => "Path is not a directory: "@ + self.source(),
            SourceFault::ImagesMissing => "Images directory does not exist: "@
                + self.images_folder(),
            SourceFault::ImagesNotDir => "Images path is not a directory: "@
                + self.images_folder(),
        }
    }

    /// A packager for the theme in `path` with `conf` as its manifest.
    pub fn new(conf: Config, path: &str) -> (packager: Self)
        ensures
            packager.source() == path@,
            packager.manifest() == conf,
    {
        Packager { config: conf, path: String::from_str(path) }
    }

    /// The manifest that goes into the pack.
    pub fn config(&self) -> (config: &Config)
        ensures
            *config == self.manifest(),
    {
        &self.config
    }

    /// The folder that holds the images of the theme.
    pub fn images_dir(&self) -> (folder: String)
        ensures
            folder@ == self.images_folder(),
    {
        join(self.path.as_str(), "images")
    }

    /// Whether the theme folder can be packed: it and its images folder
    /// must exist and be folders. The first fault found is the error.
    pub fn check_source(&self, facts: &SourceFacts) -> (outcome: Result<(), SourceFault>)
        ensures
            match outcome {
                Ok(_) => source_fault(*facts) is None,
                Err(fault) => source_fault(*facts) == Some(fault),
            },
    {
        if !facts.path_exists {
            Err(SourceFault::PathMissing)
        } else if !facts.path_is_dir {
            Err(SourceFault::PathNotDir)
        } else if !facts.images_exists {
            Err(SourceFault::ImagesMissing)
        } else if !facts.images_is_dir {
            Err(SourceFault::ImagesNotDir)
        } else {
            Ok(())
        }
    }

    /// What a fault of the theme folder is reported as.
    pub fn fault_text(&self, fault: SourceFault) -> (text: String)
        ensures
            text@ == self.fault_message(fault),
    {
        match fault {
            SourceFault::PathMissing => String::from_str("Path does not exist: ").concat(
                self.path.as_str(),
            ),
            SourceFault::PathNotDir => String::from_str("Path is not a directory: ").concat(
                self.path.as_str(),
            ),
            SourceFault::ImagesMissing => String::from_str(
                "Images directory does not exist: ",
            ).concat(self.images_dir().as_str()),
            SourceFault::ImagesNotDir => String::from_str(
                "Images path is not a directory: ",
            ).concat(self.images_dir().as_str()),
        }
    }

    /// The name of the pack entry for the image file named `file_name`.
    pub fn image_entry(file_name: &str) -> (entry: String)
        ensures
            entry@ == "images/"@ + file_name@,
    {
        String::from_str("images/").concat(file_name)
    }
}

} // verus!
