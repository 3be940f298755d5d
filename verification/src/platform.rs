//! The naming conventions of the platform families, and the file names and
//! paths that follow from them.

use vstd::prelude::*;

use crate::error::SharedLibError;
use crate::native::native_library_filename;

verus! {

/// A family of operating systems that share a convention for naming shared
/// libraries and for separating the components of a path.
#[derive(Clone, Copy, Debug, PartialEq, Eq, Structural)]
pub enum Platform {
    /// `{name}.dll`, components separated by `\`.
    Windows,
    /// `lib{name}.dylib`, components separated by `/`.
    MacOs,
    /// `lib{name}.so`, components separated by `/`. Stands for every other
    /// Unix-like system too.
    Linux,
}

/// What a resolving function returned, with the text of the string in place
/// of the string.
pub open spec fn text(r: Result<String, SharedLibError>) -> Result<Seq<char>, SharedLibError> {
    match r {
        Ok(s) => Ok(s@),
        Err(e) => Err(e),
    }
}

impl Platform {
    /// What the platform puts in front of a logical library name.
    pub open spec fn prefix(self) -> Seq<char> {
        match self {
            Platform::Windows => ""@,
            Platform::MacOs => "lib"@,
            Platform::Linux => "lib"@,
        }
    }

    /// What the platform puts behind a logical library name.
    pub open spec fn suffix(self) -> Seq<char> {
        match self {
            Platform::Windows => ".dll"@,
            Platform::MacOs => ".dylib"@,
            Platform::Linux => ".so"@,
        }
    }

    /// The character that the platform writes between the components of a path.
    pub open spec fn separator(self) -> char {
        match self {
            Platform::Windows => '\\',
            Platform::MacOs => '/',
            Platform::Linux => '/',
        }
    }

    /// Whether the platform reads `c` as the end of a path component. Windows
    /// reads `/` so, beside its own `\`.
    pub open spec fn is_separator(self, c: char) -> bool {
        c == '/' || (self == Platform::Windows && c == '\\')
    }

    /// The file name of the library with the logical name `name`.
    pub open spec fn filename_of(self, name: Seq<char>) -> Seq<char> {
        self.prefix() + name + self.suffix()
    }

    /// `file` placed in the directory `dir`.
    ///
    /// An empty directory stands for the current one and adds nothing. A
    /// separator is written only where the directory does not end in one.
    pub open spec fn joined(self, dir: Seq<char>, file: Seq<char>) -> Seq<char> {
        if dir.len() == 0 {
            file
        } else if self.is_separator(dir.last()) {
            dir + file
        } else {
            dir + seq![self.separator()] + file
        }
    }

    /// The path of the library with the logical name `name` in `dir`.
    pub open spec fn path_of(self, dir: Seq<char>, name: Seq<char>) -> Seq<char> {
        self.joined(dir, self.filename_of(name))
    }

    /// What asking for the file name of `name` gives: the file name, or the
    /// refusal of an empty name.
    pub open spec fn filename_outcome(self, name: Seq<char>) -> Result<Seq<char>, SharedLibError> {
        if name.len() == 0 {
            Err(SharedLibError::PathEmpty)
        } else {
            Ok(self.filename_of(name))
        }
    }

    /// What asking for the path of `name` in `dir` gives: the path, or the
    /// refusal of an empty name.
    pub open spec fn path_outcome(self, dir: Seq<char>, name: Seq<char>) -> Result<
        Seq<char>,
        SharedLibError,
    > {
        if name.len() == 0 {
            Err(SharedLibError::PathEmpty)
        } else {
            Ok(self.path_of(dir, name))
        }
    }

    /// `name` between the platform's prefix and suffix, the empty name too.
    pub(crate) fn decorate(self, name: &str) -> (r: String)
        ensures
            r@ == self.filename_of(name@),
    {
        let mut file = match self {
            Platform::Windows => String::from_str(""),
            Platform::MacOs => String::from_str("lib"),
            Platform::Linux => String::from_str("lib"),
        };
        file.append(name);
        match self {
            Platform::Windows => file.append(".dll"),
            Platform::MacOs => file.append(".dylib"),
            Platform::Linux => file.append(".so"),
        }
        file
    }

    /// The platform's file name for the library `name`.
    ///
    /// An empty name is refused with [`SharedLibError::PathEmpty`]. Every
    /// other name is put between the platform's prefix and suffix and is
    /// otherwise left as it is.
    pub fn library_filename(self, name: &str) -> (r: Result<String, SharedLibError>)
        ensures
            text(r) == self.filename_outcome(name@),
    {
        if name.is_empty() {
            Err(SharedLibError::PathEmpty)
        } else {
            Ok(self.decorate(name))
        }
    }

    /// Places the relative file name `file` in the directory `dir`.
    ///
    /// Neither part is normalised, and no file system is consulted.
    pub fn join(self, dir: &str, file: &str) -> (r: String)
        ensures
            r@ == self.joined(dir@, file@),
    {
        let mut path = String::from_str(dir);
        let n: usize = dir.unicode_len();
        if n > 0 {
            let last = dir.get_char(n - 1);
            let ends_component = last == '/' || (self == Platform::Windows && last == '\\');
            if !ends_component {
                proof {
                    reveal_strlit("/");
                    reveal_strlit("\\");
                }
                match self {
                    Platform::Windows => path.append("\\"),
                    Platform::MacOs => path.append("/"),
                    Platform::Linux => path.append("/"),
                }
                assert(path@ == dir@ + seq![self.separator()]);
            }
        }
        path.append(file);
        path
    }

    /// The platform's path for the library `name` in the directory `dir`.
    ///
    /// An empty name is refused with [`SharedLibError::PathEmpty`]. Whether
    /// anything exists at the path is not looked at.
    pub fn library_path(self, dir: &str, name: &str) -> (r: Result<String, SharedLibError>)
        ensures
            text(r) == self.path_outcome(dir@, name@),
    {
        if name.is_empty() {
            Err(SharedLibError::PathEmpty)
        } else {
            let file = self.decorate(name);
            Ok(self.join(dir, file.as_str()))
        }
    }

    /// The platform whose convention turns `name` into `filename`, if one does.
    ///
    /// At most one platform does, see [`lemma_filename_tells_platform`].
    pub fn recognize(name: &str, filename: &str) -> (r: Option<Platform>)
        ensures
            forall|p: Platform| r == Some(p) <==> filename@ == #[trigger] p.filename_of(name@),
    {
        proof {
            lemma_filename_tells_platform(Platform::Windows, Platform::MacOs, name@);
            lemma_filename_tells_platform(Platform::Windows, Platform::Linux, name@);
            lemma_filename_tells_platform(Platform::MacOs, Platform::Linux, name@);
        }
        let given = String::from_str(filename);
        if Platform::Windows.decorate(name) == given {
            Some(Platform::Windows)
        } else if Platform::MacOs.decorate(name) == given {
            Some(Platform::MacOs)
        } else if Platform::Linux.decorate(name) == given {
            Some(Platform::Linux)
        } else {
            None
        }
    }

    /// The platform whose convention the loader crate follows on this machine,
    /// or `None` where it follows another one.
    ///
    /// The loader crate is asked for the file name of the empty logical name,
    /// and [`Platform::recognize`] reads the answer. Nothing is known of the
    /// result before the call.
    pub fn detect() -> (r: Option<Platform>) {
        let probe = native_library_filename("");
        Platform::recognize("", probe.as_str())
    }

    /// The platform of this machine. A machine whose convention is none of the
    /// known ones counts as [`Platform::Linux`], as every Unix-like system
    /// does. Nothing is known of the result before the call.
    pub fn host() -> (r: Platform) {
        Platform::or_linux(Platform::detect())
    }

    /// The platform that a machine counts as when its detection gave
    /// `detected`: the detected one, and [`Platform::Linux`] where none was
    /// recognised.
    pub fn or_linux(detected: Option<Platform>) -> (r: Platform)
        ensures
            r == (match detected {
                Some(platform) => platform,
                None => Platform::Linux,
            }),
    {
        match detected {
            Some(platform) => platform,
            None => Platform::Linux,
        }
    }
}

/// The file name of a named library is the name in the platform's pattern:
/// `{name}.dll`, `lib{name}.dylib` or `lib{name}.so`.
pub proof fn lemma_filename_follows_pattern(p: Platform, name: Seq<char>)
    requires
        name.len() > 0,
    ensures
        p.filename_outcome(name) == Ok::<Seq<char>, SharedLibError>(
            match p {
                Platform::Windows => name + ".dll"@,
                Platform::MacOs => "lib"@ + name + ".dylib"@,
                Platform::Linux => "lib"@ + name + ".so"@,
            },
        ),
{
    reveal_strlit("");
    assert(""@ + name =~= name);
}

/// Asking twice gives the same: whatever two calls of
/// [`Platform::library_filename`] return for one name on one platform, the
/// two results hold the same text or the same refusal.
pub proof fn lemma_filename_is_stable(
    p: Platform,
    name: Seq<char>,
    first: Result<String, SharedLibError>,
    second: Result<String, SharedLibError>,
)
    requires
        text(first) == p.filename_outcome(name),
        text(second) == p.filename_outcome(name),
    ensures
        text(first) == text(second),
{
}

/// A library without a name has neither a file name nor a path, on any
/// platform and in any directory.
pub proof fn lemma_empty_name_is_refused(p: Platform, dir: Seq<char>)
    ensures
        p.filename_outcome(Seq::empty()) == Err::<Seq<char>, SharedLibError>(
            SharedLibError::PathEmpty,
        ),
        p.path_outcome(dir, Seq::empty()) == Err::<Seq<char>, SharedLibError>(
            SharedLibError::PathEmpty,
        ),
{
}

/// The path of a named library in a named directory is the directory joined
/// with the library's file name: the separator stands between the two,
/// unless the directory brings one at its end.
pub proof fn lemma_path_joins_dir_and_filename(p: Platform, dir: Seq<char>, name: Seq<char>)
    requires
        dir.len() > 0,
        name.len() > 0,
    ensures
        p.path_outcome(dir, name) == Ok::<Seq<char>, SharedLibError>(
            p.joined(dir, p.filename_of(name)),
        ),
        p.filename_outcome(name) == Ok::<Seq<char>, SharedLibError>(p.filename_of(name)),
        !p.is_separator(dir.last()) ==> p.path_of(dir, name) == dir + seq![p.separator()]
            + p.filename_of(name),
        p.is_separator(dir.last()) ==> p.path_of(dir, name) == dir + p.filename_of(name),
{
}

/// In the current directory, named by the empty text, a library's path is
/// its file name.
pub proof fn lemma_path_in_current_dir(p: Platform, name: Seq<char>)
    ensures
        p.path_of(Seq::empty(), name) == p.filename_of(name),
{
}

/// No two platforms give a library the same file name: a file name tells its
/// platform.
pub proof fn lemma_filename_tells_platform(p: Platform, q: Platform, name: Seq<char>)
    ensures
        p.filename_of(name) == q.filename_of(name) ==> p == q,
{
    reveal_strlit(".dll");
    reveal_strlit(".dylib");
    reveal_strlit(".so");
    assert(p.filename_of(name).last() == p.suffix().last());
    assert(q.filename_of(name).last() == q.suffix().last());
}

} // verus!
