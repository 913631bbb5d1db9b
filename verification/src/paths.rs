//! Paths, as far as the bot decides about them.
use std::path::Path;
use vstd::prelude::*;

use crate::text::texts;

verus! {

/// A path, given by the parts that are joined, from left to right, to make it.
pub struct FilePath {
    pub parts: Vec<String>,
}

impl View for FilePath {
    type V = Seq<Seq<char>>;

    open spec fn view(&self) -> Seq<Seq<char>> {
        texts(self.parts@)
    }
}

impl FilePath {
    /// The path that a text denotes.
    pub fn new(base: String) -> (r: FilePath)
        ensures
            r@ == seq![base@],
    {
        let mut parts: Vec<String> = Vec::new();
        parts.push(base);
        assert(texts(parts@) == seq![base@]);
        FilePath { parts }
    }

    /// The same path.
    pub fn copy(&self) -> (r: FilePath)
        ensures
            r@ == self@,
    {
        let mut parts: Vec<String> = Vec::new();
        let mut i: usize = 0;
        while i < self.parts.len()
            invariant
                i <= self.parts.len(),
                texts(parts@) == self@.take(i as int),
            decreases self.parts.len() - i,
        {
            let ghost before = texts(parts@);
            parts.push(self.parts[i].clone());
            assert(texts(parts@) == before.push(self.parts[i as int]@));
            i += 1;
            assert(self@.take(i as int) == self@.take(i - 1).push(self@[i - 1]));
        }
        assert(self@.take(i as int) == self@);
        FilePath { parts }
    }

    /// The path with one more part joined to it.
    pub fn join(&self, part: &str) -> (r: FilePath)
        ensures
            r@ == self@.push(part@),
    {
        let mut joined = self.copy();
        joined.parts.push(part.to_owned());
        assert(joined@ == self@.push(part@));
        joined
    }
}

/// What follows the last slash of a path.
pub open spec fn last_segment(path: Seq<char>) -> Seq<char>
    decreases path.len(),
{
    if path.len() == 0 || path.last() == '/' {
        Seq::empty()
    } else {
        last_segment(path.drop_last()).push(path.last())
    }
}

/// A path without the slashes at its end and the dots that stand alone behind a
/// slash there: they denote nothing.
pub open spec fn without_endings(path: Seq<char>) -> Seq<char>
    decreases path.len(),
{
    if path.len() > 0 && path.last() == '/' {
        without_endings(path.drop_last())
    } else if path.len() > 1 && path.last() == '.' && path[path.len() - 2] == '/' {
        without_endings(path.drop_last())
    } else {
        path
    }
}

/// The name of the file that a path leads to.
pub open spec fn file_name(path: Seq<char>) -> Seq<char> {
    last_segment(without_endings(path))
}

/// Where the last dot of a name stands, or -1.
pub open spec fn last_dot(name: Seq<char>) -> int
    decreases name.len(),
{
    if name.len() == 0 {
        -1
    } else if name.last() == '.' {
        name.len() - 1
    } else {
        last_dot(name.drop_last())
    }
}

/// A file name without its extension. A dot at the start begins no extension.
pub open spec fn stem(name: Seq<char>) -> Seq<char> {
    if last_dot(name) > 0 {
        name.take(last_dot(name))
    } else {
        name
    }
}

/// The extension of a file name, if it has one.
pub open spec fn extension(name: Seq<char>) -> Option<Seq<char>> {
    if last_dot(name) > 0 {
        Some(name.skip(last_dot(name) + 1))
    } else {
        None
    }
}

/// Whether the path holds nothing that only some platforms treat as a separator
/// or a prefix.
pub open spec fn is_plain(path: Seq<char>) -> bool {
    &&& !path.contains('\\')
    &&& !(path.len() >= 2 && path[1] == ':')
    &&& !(path.len() >= 2 && path[0] == '/' && path[1] == '/')
}

/// Whether every platform finds the same file name at the end of the path.
pub open spec fn is_portable(path: Seq<char>) -> bool {
    &&& is_plain(path)
    &&& file_name(path).len() > 0
    &&& file_name(path) != seq!['.']
    &&& file_name(path) != seq!['.', '.']
}

/// Whether every platform finds no file name at the end of the path.
pub open spec fn names_no_file(path: Seq<char>) -> bool {
    &&& is_plain(path)
    &&& without_endings(path).len() == 0 || file_name(path) == seq!['.', '.']
}

/// Whether a plugin in the file at `path` may go by `name`: by the stem of the
/// file name, or by `unknown` where there is none. Only one name will do where
/// the platforms agree about the path.
pub open spec fn is_name_of(name: Seq<char>, path: Seq<char>) -> bool {
    &&& is_portable(path) ==> name == stem(file_name(path))
    &&& names_no_file(path) ==> name == "unknown"@
}

/// Calls `Path::file_stem`. Where every platform finds the same file name at the
/// end of the path it is the part of that before its extension, and where every
/// platform finds none there is no stem. Elsewhere nothing is claimed, since the
/// platform decides.
#[verifier::external_body]
fn file_stem(path: &str) -> (r: Option<String>)
    ensures
        is_portable(path@) ==> match r {
            Some(s) => s@ == stem(file_name(path@)),
            None => false,
        },
        names_no_file(path@) ==> r is None,
{
    Path::new(path).file_stem().and_then(|s| s.to_str()).map(|s| s.to_string())
}

/// Calls `Path::extension`. Where every platform finds the same file name at the
/// end of the path it is what follows the last dot of that, unless that dot
/// begins the name, and where every platform finds none there is no extension.
/// Elsewhere nothing is claimed, since the platform decides.
#[verifier::external_body]
fn file_extension(path: &str) -> (r: Option<String>)
    ensures
        is_portable(path@) ==> match r {
            Some(s) => extension(file_name(path@)) == Some(s@),
            None => extension(file_name(path@)) is None,
        },
        names_no_file(path@) ==> r is None,
{
    Path::new(path).extension().and_then(|s| s.to_str()).map(|s| s.to_string())
}

/// The extension of the files that hold the settings of plugins.
pub const CONFIG_EXTENSION: &'static str = "json";

/// A path that ends in a file name, with another extension.
pub open spec fn with_extension(path: Seq<char>, extension: Seq<char>) -> Seq<char> {
    path.take(path.len() - file_name(path).len()) + stem(file_name(path)) + "."@ + extension
}

/// Calls `Path::with_extension` with an extension that is not empty and holds no
/// separators. On a path at whose end every platform finds the same file name,
/// with nothing behind it, it puts the extension in the place of the old one.
/// Elsewhere nothing is claimed, since the platform decides.
#[verifier::external_body]
fn set_extension(path: &str, extension: &str) -> (r: String)
    requires
        extension@.len() > 0,
        !extension@.contains('/'),
        !extension@.contains('\\'),
    ensures
        is_portable(path@) && without_endings(path@) == path@ ==> r@ == with_extension(
            path@,
            extension@,
        ),
{
    Path::new(path).with_extension(extension).to_string_lossy().into_owned()
}

/// Where the settings of the plugin in a file are kept: beside it.
pub fn config_path(path: &str) -> (r: String)
    ensures
        is_portable(path@) && without_endings(path@) == path@ ==> r@ == with_extension(
            path@,
            CONFIG_EXTENSION@,
        ),
{
    proof {
        reveal_strlit("json");
    }
    set_extension(path, CONFIG_EXTENSION)
}

/// The name of a plugin, from the stem of its file name, if that is text.
pub fn name_from_stem(stem: Option<String>) -> (r: String)
    ensures
        r@ == match stem {
            Some(s) => s@,
            None => "unknown"@,
        },
{
    match stem {
        Some(s) => s,
        None => "unknown".to_owned(),
    }
}

/// The name of the plugin in a file.
pub fn plugin_name(path: &str) -> (r: String)
    ensures
        is_name_of(r@, path@),
{
    name_from_stem(file_stem(path))
}

/// Whether files with this extension hold plugins.
pub fn is_plugin_extension(extension: Option<String>) -> (r: bool)
    ensures
        r == match extension {
            Some(e) => e@ == "wasm"@,
            None => false,
        },
{
    match extension {
        Some(e) => crate::text::same(e.as_str(), "wasm"),
        None => false,
    }
}

/// Whether a file holds a plugin.
pub fn is_plugin_file(path: &str) -> (r: bool)
    ensures
        is_portable(path@) ==> r == (extension(file_name(path@)) == Some("wasm"@)),
        names_no_file(path@) ==> !r,
{
    is_plugin_extension(file_extension(path))
}

} // verus!
