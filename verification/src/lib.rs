//! Platform-aware naming of shared libraries, and the bookkeeping around
//! loading one and looking up its exports.
//!
//! From a directory and a logical library name the crate computes the file
//! name and the path that a platform's loader expects, and it turns the
//! answer of a load or of a symbol lookup into a handle or into a structured
//! error. The calls that run foreign code are left to the caller.
//!
//! Every function is verified against a contract over the text of the names
//! and paths involved.
//!
//! ```
//! use shared_lib::{LibPath, Platform};
//!
//! let path = Platform::Linux.library_path("path/to/dir", "calculator");
//! assert_eq!(path.unwrap(), "path/to/dir/libcalculator.so");
//!
//! // On this machine's platform:
//! let lib_path = LibPath::new("path/to/dir".into(), "calculator".into());
//! let path = lib_path.path().unwrap();
//! ```

pub mod error;
pub mod lib_path;
pub mod library;
pub mod native;
pub mod platform;

pub use error::SharedLibError;
pub use lib_path::{path_text, LibPath};
pub use library::{SharedLib, SharedLibFn};
pub use platform::Platform;
