//! The failures that resolving, loading and symbol lookup can report.

use vstd::prelude::*;

verus! {

/// What can go wrong between naming a shared library and calling into it.
///
/// Every failure is returned to the caller; none ends the process.
#[derive(Debug, Clone, PartialEq, Eq)]
pub enum SharedLibError {
    /// The logical library name was empty.
    PathEmpty,
    /// A path could not be brought into the representation that a call needs.
    /// The fields are the offending path and the name of that representation.
    PathConversion(String, String),
    /// The loader rejected the library at `path`; `msg` is its diagnostic.
    LoadFailure { path: String, msg: String },
    /// The library `lib_name` has no export called `symbol_name`; `msg` is the
    /// loader's diagnostic.
    SymbolNotFound { symbol_name: String, lib_name: String, msg: String },
}

impl SharedLibError {
    /// The sentence that describes the failure to a reader.
    pub open spec fn message(self) -> Seq<char> {
        match self {
            SharedLibError::PathEmpty => "Path is empty."@,
            SharedLibError::PathConversion(path, target) => {
                "Failed to convert path '"@ + path@ + "' to "@ + target@ + "."@
            },
            SharedLibError::LoadFailure { path, msg } => {
                "Failed to load library from path '"@ + path@ + "'. "@ + msg@
            },
            SharedLibError::SymbolNotFound { symbol_name, lib_name, msg } => {
                "Failed to find symbol '"@ + symbol_name@ + "' in library '"@ + lib_name@ + "'. "@
                    + msg@
            },
        }
    }

    /// Writes the failure out as a sentence, the loader's diagnostic last.
    pub fn to_string(&self) -> (r: String)
        ensures
            r@ == self.message(),
    {
        match self {
            SharedLibError::PathEmpty => String::from_str("Path is empty."),
            SharedLibError::PathConversion(path, target) => {
                let mut text = String::from_str("Failed to convert path '");
                text.append(path.as_str());
                text.append("' to ");
                text.append(target.as_str());
                text.append(".");
                text
            },
            SharedLibError::LoadFailure { path, msg } => {
                let mut text = String::from_str("Failed to load library from path '");
                text.append(path.as_str());
                text.append("'. ");
                text.append(msg.as_str());
                text
            },
            SharedLibError::SymbolNotFound { symbol_name, lib_name, msg } => {
                let mut text = String::from_str("Failed to find symbol '");
                text.append(symbol_name.as_str());
                text.append("' in library '");
                text.append(lib_name.as_str());
                text.append("'. ");
                text.append(msg.as_str());
                text
            },
        }
    }
}

} // verus!
