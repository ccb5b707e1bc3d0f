//! Paths as text, with `/` as the separator.

use vstd::prelude::*;
use vstd::string::StringExecFns;
use crate::text::{str_eq, texts_of};

verus! {

/// A path is absolute when it starts at the root.
pub open spec fn is_absolute_path(path: Seq<char>) -> bool {
    path.len() > 0 && path[0] == '/'
}

/// `rel` taken relative to `base`: `rel` itself where it is absolute or
/// `base` is empty, else `base` and `rel` with exactly one separator put
/// between them unless `base` already ends in one.
pub open spec fn join_paths(base: Seq<char>, rel: Seq<char>) -> Seq<char> {
    if is_absolute_path(rel) || base.len() == 0 {
        rel
    } else if base.last() == '/' {
        base + rel
    } else {
        base + seq!['/'] + rel
    }
}

/// Whether `path` starts at the root.
pub fn is_absolute(path: &str) -> (absolute: bool)
    ensures
        absolute == is_absolute_path(path@),
{
    let mut chars = path.chars();
    match chars.next() {
        Some(c) => c == '/',
        None => false,
    }
}

/// Whether `text` is not empty and its last character is `c`.
pub fn ends_with_char(text: &str, c: char) -> (ends: bool)
    ensures
        ends == (text@.len() > 0 && text@.last() == c),
{
    let mut last: Option<char> = None;
    for ch in it: text.chars()
        invariant
            it.seq() == text@,
            last == if it.index() == 0 {
                None
            } else {
                Some(text@[it.index() - 1])
            },
    {
        last = Some(ch);
    }
    match last {
        Some(ch) => ch == c,
        None => false,
    }
}

/// Joins `rel` onto `base`.
pub fn join(base: &str, rel: &str) -> (joined: String)
    ensures
        joined@ == join_paths(base@, rel@),
{
    if is_absolute(rel) || base.is_empty() {
        String::from_str(rel)
    } else if ends_with_char(base, '/') {
        String::from_str(base).concat(rel)
    } else {
        proof {
            reveal_strlit("/");
            assert("/"@ =~= seq!['/']);
        }
        String::from_str(base).concat("/").concat(rel)
    }
}

/// The parts that `std::path::Path::components` takes `path` apart into,
/// each as text.
pub uninterp spec fn components_of(path: Seq<char>) -> Seq<Seq<char>>;

/// The final part of `path` as `std::path::Path::file_name` gives it.
pub uninterp spec fn file_name_of(path: Seq<char>) -> Option<Seq<char>>;

/// The final part of `path` without its extension, as
/// `std::path::Path::file_stem` gives it.
pub uninterp spec fn file_stem_of(path: Seq<char>) -> Option<Seq<char>>;

/// `path` with its extension replaced, as
/// `std::path::Path::with_extension` gives it.
pub uninterp spec fn with_extension_of(path: Seq<char>, extension: Seq<char>) -> Seq<char>;

/// `std::path::Path::components`: the parts of `path`, in order, each as
/// text. The parts are a function of the path alone; which they are is
/// left to the standard library.
#[verifier::external_body]
pub(crate) fn components(path: &str) -> (parts: Vec<String>)
    ensures
        texts_of(parts@) == components_of(path@),
{
    let mut parts: Vec<String> = Vec::new();
    for part in std::path::Path::new(path).components() {
        parts.push(part.as_os_str().to_string_lossy().into_owned());
    }
    parts
}

/// `std::path::Path::file_name`: the final part of `path`, if it has one.
/// It is a function of the path alone; which it is is left to the standard
/// library.
#[verifier::external_body]
pub(crate) fn file_name(path: &str) -> (name: Option<String>)
    ensures
        match name {
            Some(n) => file_name_of(path@) == Some(n@),
            None => file_name_of(path@) is None,
        },
{
    match std::path::Path::new(path).file_name() {
        Some(name) => Some(name.to_string_lossy().into_owned()),
        None => None,
    }
}

/// `std::path::Path::file_stem`: the final part of `path` without its
/// extension, if it has a final part. It is a function of the path alone;
/// which it is is left to the standard library.
#[verifier::external_body]
pub(crate) fn file_stem(path: &str) -> (stem: Option<String>)
    ensures
        match stem {
            Some(s) => file_stem_of(path@) == Some(s@),
            None => file_stem_of(path@) is None,
        },
{
    match std::path::Path::new(path).file_stem() {
        Some(stem) => Some(stem.to_string_lossy().into_owned()),
        None => None,
    }
}

/// `std::path::Path::with_extension`: `path` with `extension` in place of
/// its own. The standard library panics on an extension that holds a path
/// separator, so such an extension is left out. The result is a function of
/// the two alone; which path it is is left to the standard library.
#[verifier::external_body]
pub(crate) fn with_extension(path: &str, extension: &str) -> (changed: String)
    requires
        !extension@.contains('/'),
    ensures
        changed@ == with_extension_of(path@, extension@),
{
    std::path::Path::new(path).with_extension(extension).to_string_lossy().into_owned()
}

/// Whether one of the parts of `path` is the parent folder.
pub open spec fn names_parent(path: Seq<char>) -> bool {
    components_of(path).contains(".."@)
}

/// Whether one of the given parts is the parent folder.
pub fn any_is_parent(parts: &Vec<String>) -> (found: bool)
    ensures
        found == texts_of(parts@).contains(".."@),
{
    let mut i: usize = 0;
    while i < parts.len()
        invariant
            i <= parts.len(),
            forall|j: int| 0 <= j < i ==> texts_of(parts@)[j] != ".."@,
        decreases parts.len() - i,
    {
        if str_eq(parts[i].as_str(), "..") {
            assert(texts_of(parts@)[i as int] == ".."@);
            return true;
        }
        i = i + 1;
    }
    false
}

/// Whether `path` leads out of the folder it is taken relative to.
pub fn escapes_folder(path: &str) -> (escapes: bool)
    ensures
        escapes == names_parent(path@),
{
    let parts = components(path);
    any_is_parent(&parts)
}

} // verus!
