//! Where a shared library lies: a directory and a logical name.

use vstd::prelude::*;

use vstd::utf8::{decode_utf8, valid_utf8};

use crate::error::SharedLibError;
use crate::native::{lossy_text, lossy_utf8, utf8_text};
use crate::platform::{text, Platform};

verus! {

/// Reads the bytes of a path as the text that the library works on.
///
/// Bytes that are UTF-8 give the text that they encode. Any others are
/// refused with [`SharedLibError::PathConversion`], which carries the path
/// with each offending part replaced by U+FFFD, and `String`, the name of
/// what the path could not be turned into.
pub fn path_text(path: &[u8]) -> (r: Result<String, SharedLibError>)
    ensures
        valid_utf8(path@) ==> text(r) == Ok::<Seq<char>, SharedLibError>(decode_utf8(path@)),
        !valid_utf8(path@) ==> (r matches Err(SharedLibError::PathConversion(shown, target))
            && shown@ == lossy_utf8(path@) && target@ == "String"@),
{
    match utf8_text(path) {
        Some(read) => Ok(String::from_str(read)),
        None => Err(SharedLibError::PathConversion(lossy_text(path), String::from_str("String"))),
    }
}

/// The place of a shared library.
///
/// `dir_path` is the directory that holds the library; the empty directory
/// stands for the current one. `lib_name` is the library's name without the
/// prefix and the extension that a platform adds. A value with an empty name
/// can be built, and every function that resolves it reports
/// [`SharedLibError::PathEmpty`].
#[derive(Clone, Debug)]
pub struct LibPath {
    pub dir_path: String,
    pub lib_name: String,
}

impl LibPath {
    /// Whether `path` is the library's path on one of the platforms.
    pub open spec fn resolves_to(self, path: Seq<char>) -> bool {
        exists|p: Platform| path == #[trigger] p.path_of(self.dir_path@, self.lib_name@)
    }

    /// The library `lib_name` in the directory `dir_path`.
    pub fn new(dir_path: String, lib_name: String) -> (r: LibPath)
        ensures
            r == (LibPath { dir_path, lib_name }),
    {
        LibPath { dir_path, lib_name }
    }

    /// The library `lib_name` in the current directory.
    pub fn new_no_path(lib_name: String) -> (r: LibPath)
        ensures
            r.dir_path@ == Seq::<char>::empty(),
            r.lib_name == lib_name,
    {
        LibPath { dir_path: String::new(), lib_name }
    }

    /// The library's file name on this machine's platform.
    ///
    /// An empty name is refused. Which platform this machine has is found out
    /// at the call, see [`Platform::host`]; the result is what
    /// [`Platform::library_filename`] gives on that platform.
    pub fn filename(&self) -> (r: Result<String, SharedLibError>)
        ensures
            exists|p: Platform| text(r) == #[trigger] p.filename_outcome(self.lib_name@),
    {
        let platform = Platform::host();
        let file = platform.library_filename(self.lib_name.as_str());
        assert(text(file) == platform.filename_outcome(self.lib_name@));
        file
    }

    /// The library's path on this machine's platform: its file name, placed in
    /// its directory.
    ///
    /// An empty name is refused. Which platform this machine has is found out
    /// at the call; the result is what [`Platform::library_path`] gives on
    /// that platform. No file system is consulted, so the path may lead
    /// nowhere.
    pub fn path(&self) -> (r: Result<String, SharedLibError>)
        ensures
            exists|p: Platform|
                text(r) == #[trigger] p.path_outcome(self.dir_path@, self.lib_name@),
    {
        let platform = Platform::host();
        let path = platform.library_path(self.dir_path.as_str(), self.lib_name.as_str());
        assert(text(path) == platform.path_outcome(self.dir_path@, self.lib_name@));
        path
    }

    /// The path as the text that a loader is handed, see [`LibPath::path`].
    pub fn try_into(self) -> (r: Result<String, SharedLibError>)
        ensures
            exists|p: Platform|
                text(r) == #[trigger] p.path_outcome(self.dir_path@, self.lib_name@),
    {
        self.path()
    }

    /// The path as text, for a library that has a name.
    pub fn to_string(&self) -> (r: String)
        requires
            self.lib_name@.len() > 0,
        ensures
            self.resolves_to(r@),
    {
        let platform = Platform::host();
        let file = platform.decorate(self.lib_name.as_str());
        let path = platform.join(self.dir_path.as_str(), file.as_str());
        assert(path@ == platform.path_of(self.dir_path@, self.lib_name@));
        path
    }
}

} // verus!
