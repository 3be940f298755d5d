//! A loaded library and the exports taken from it.
//!
//! Loading a library and looking up a symbol run foreign code and are the
//! caller's to do. This module holds what is decided around the two calls:
//! which path the loader is handed, and what its answer becomes.

use libloading::{Error, Library, Symbol};
use vstd::prelude::*;

use crate::error::SharedLibError;
use crate::lib_path::LibPath;
use crate::native::error_message;

verus! {

impl LibPath {
    /// What to report when the loader rejected the library with the
    /// diagnostic `msg`: the path that was tried, and the diagnostic as it
    /// came. A library without a name was never tried.
    pub fn load_failure(&self, msg: String) -> (r: SharedLibError)
        ensures
            self.lib_name@.len() == 0 ==> r == SharedLibError::PathEmpty,
            self.lib_name@.len() > 0 ==> (r matches SharedLibError::LoadFailure { path, msg: m }
                && self.resolves_to(path@) && m == msg),
    {
        match self.path() {
            Ok(path) => SharedLibError::LoadFailure { path, msg },
            Err(e) => e,
        }
    }

    /// What to report when the library has no export `symbol_name` and the
    /// loader said `msg`: the symbol, the library's path, and the diagnostic
    /// as it came.
    pub fn symbol_not_found(&self, symbol_name: &str, msg: String) -> (r: SharedLibError)
        ensures
            self.lib_name@.len() == 0 ==> r == SharedLibError::PathEmpty,
            self.lib_name@.len() > 0 ==> (r matches SharedLibError::SymbolNotFound {
                symbol_name: s,
                lib_name,
                msg: m,
            } && s@ == symbol_name@ && self.resolves_to(lib_name@) && m == msg),
    {
        match self.path() {
            Ok(lib_name) => SharedLibError::SymbolNotFound {
                symbol_name: String::from_str(symbol_name),
                lib_name,
                msg,
            },
            Err(e) => e,
        }
    }
}

/// A loaded shared library, together with the place it was loaded from.
///
/// The library stays loaded for as long as the value lives. Every export
/// taken from it borrows the value, so none outlives it.
pub struct SharedLib {
    lib: Library,
    lib_path: LibPath,
}

impl SharedLib {
    /// A loaded library has a name.
    #[verifier::type_invariant]
    spec fn named(&self) -> bool {
        self.lib_path.lib_name@.len() > 0
    }

    /// The loader's handle.
    pub closed spec fn handle(&self) -> Library {
        self.lib
    }

    /// The place the library was loaded from.
    pub closed spec fn place(&self) -> LibPath {
        self.lib_path
    }

    /// Turns the loader's answer to an attempt on `lib_path` into a loaded
    /// library or into the failure to report.
    ///
    /// A library without a name is refused whatever the loader said. A
    /// rejected load is reported with the path that was tried and with the
    /// loader's own message.
    pub fn new(lib_path: LibPath, loaded: Result<Library, Error>) -> (r: Result<
        SharedLib,
        SharedLibError,
    >)
        ensures
            lib_path.lib_name@.len() == 0 ==> (r matches Err(SharedLibError::PathEmpty)),
            lib_path.lib_name@.len() > 0 ==> (match loaded {
                Ok(lib) => r matches Ok(shared) && shared.handle() == lib && shared.place()
                    == lib_path,
                Err(_) => r matches Err(SharedLibError::LoadFailure { path, msg })
                    && lib_path.resolves_to(path@),
            }),
    {
        if lib_path.lib_name.as_str().is_empty() {
            return Err(SharedLibError::PathEmpty);
        }
        match loaded {
            Ok(lib) => Ok(SharedLib { lib, lib_path }),
            Err(error) => Err(lib_path.load_failure(error_message(&error))),
        }
    }

    /// The place the library was loaded from. Its name is not empty.
    pub fn lib_path(&self) -> (r: &LibPath)
        ensures
            *r == self.place(),
            r.lib_name@.len() > 0,
    {
        proof {
            use_type_invariant(self);
        }
        &self.lib_path
    }

    /// The loader's handle, for the lookup of a symbol.
    pub fn library(&self) -> (r: &Library)
        ensures
            *r == self.handle(),
    {
        &self.lib
    }

    /// Turns the loader's answer to the lookup of `fn_name` into a typed
    /// function or into the failure to report.
    ///
    /// A symbol that was found is handed on as it is. A failed lookup is
    /// always reported as [`SharedLibError::SymbolNotFound`], with the name
    /// that was asked for, the library's path, and the loader's own message.
    pub fn get_fn<'a, T>(&'a self, fn_name: &str, found: Result<Symbol<'a, T>, Error>) -> (r:
        Result<SharedLibFn<'a, T>, SharedLibError>)
        ensures
            (match found {
                Ok(symbol) => r matches Ok(function) && function.target() == symbol,
                Err(_) => r matches Err(
                    SharedLibError::SymbolNotFound { symbol_name, lib_name, msg },
                ) && symbol_name@ == fn_name@ && self.place().resolves_to(lib_name@),
            }),
    {
        proof {
            use_type_invariant(self);
        }
        match found {
            Ok(symbol) => Ok(SharedLibFn::new(symbol)),
            Err(error) => Err(self.lib_path.symbol_not_found(fn_name, error_message(&error))),
        }
    }
}

/// An export of a loaded library, read as a function of type `F`.
///
/// Nothing checks that the export has this type: whoever calls it vouches for
/// that.
#[verifier::reject_recursive_types(F)]
pub struct SharedLibFn<'a, F> {
    symbol: Symbol<'a, F>,
}

impl<'a, F> SharedLibFn<'a, F> {
    /// The symbol behind the function.
    pub closed spec fn target(&self) -> Symbol<'a, F> {
        self.symbol
    }

    /// Reads `symbol` as a function of type `F`.
    pub fn new(symbol: Symbol<'a, F>) -> (r: SharedLibFn<'a, F>)
        ensures
            r.target() == symbol,
    {
        SharedLibFn { symbol }
    }

    /// The symbol behind the function, for the call.
    pub fn symbol(&self) -> (r: &Symbol<'a, F>)
        ensures
            *r == self.target(),
    {
        &self.symbol
    }
}

impl<'a, F> Clone for SharedLibFn<'a, F> {
    /// A second handle on the same export.
    fn clone(&self) -> (r: Self)
        ensures
            r.target() == self.target(),
    {
        SharedLibFn { symbol: self.symbol.clone() }
    }
}

} // verus!
