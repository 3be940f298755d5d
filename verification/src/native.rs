//! What the library relies on without proof: items of the loader crate, and
//! two conversions of the standard library.

use vstd::prelude::*;
use vstd::utf8::{decode_utf8, valid_utf8};

verus! {

/// `libloading::Library`, a loaded dynamic library. The library carries such a
/// value and never looks inside.
#[verifier::external_type_specification]
#[verifier::external_body]
pub struct ExLibrary(libloading::Library);

/// `libloading::Error`, what the loader crate reports when a load or a lookup
/// fails. Only its message is read, through [`error_message`].
#[verifier::external_type_specification]
#[verifier::external_body]
pub struct ExError(libloading::Error);

/// `libloading::Symbol`, an export of a loaded library, borrowed from it.
#[verifier::external_type_specification]
#[verifier::external_body]
#[verifier::reject_recursive_types(T)]
pub struct ExSymbol<'lib, T: 'lib>(libloading::Symbol<'lib, T>);

/// `Clone` for `libloading::Symbol`: the copy stands for the same export of
/// the same library as the symbol it was made from.
pub assume_specification<'lib, T>[ <libloading::Symbol<'lib, T> as Clone>::clone ](
    symbol: &libloading::Symbol<'lib, T>,
) -> (r: libloading::Symbol<'lib, T>)
    ensures
        r == *symbol,
;

/// A logical name between a prefix and a suffix.
pub open spec fn decorated(prefix: Seq<char>, name: Seq<char>, suffix: Seq<char>) -> Seq<char> {
    prefix + name + suffix
}

/// `libloading::library_filename`: the file name that the loader crate gives
/// the library `name` on this machine. The crate puts the machine's prefix in
/// front of the name and its suffix behind it; which two these are is not
/// stated here.
#[verifier::external_body]
pub(crate) fn native_library_filename(name: &str) -> (r: String)
    ensures
        exists|prefix: Seq<char>, suffix: Seq<char>| r@ == #[trigger] decorated(prefix, name@, suffix),
{
    libloading::library_filename(name).to_string_lossy().into_owned()
}

/// The `Display` text of a `libloading::Error`: the diagnostic of the system's
/// loader where it gave one, else a fixed sentence of the loader crate.
/// Nothing is claimed of the text.
#[verifier::external_body]
pub(crate) fn error_message(error: &libloading::Error) -> (r: String)
{
    error.to_string()
}

/// `std::str::from_utf8`: the bytes read as text. They are text exactly where
/// they are valid UTF-8, and the text is the one that they encode.
#[verifier::external_body]
pub(crate) fn utf8_text(bytes: &[u8]) -> (r: Option<&str>)
    ensures
        r is Some <==> valid_utf8(bytes@),
        r matches Some(s) ==> s@ == decode_utf8(bytes@),
{
    std::str::from_utf8(bytes).ok()
}

/// The text that `String::from_utf8_lossy` makes of bytes: what they encode,
/// with the replacement character U+FFFD in place of each part that is no
/// UTF-8.
pub uninterp spec fn lossy_utf8(bytes: Seq<u8>) -> Seq<char>;

/// `String::from_utf8_lossy`: the bytes read as text with every part that is
/// no UTF-8 replaced, see [`lossy_utf8`].
#[verifier::external_body]
pub(crate) fn lossy_text(bytes: &[u8]) -> (r: String)
    ensures
        r@ == lossy_utf8(bytes@),
{
    String::from_utf8_lossy(bytes).into_owned()
}

} // verus!
