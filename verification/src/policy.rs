use vstd::prelude::*;

use crate::text::str_eq;

verus! {

/// The closed allow-list of loadable extensions: exactly `"toml"`.
pub open spec fn spec_extension_supported(ext: Seq<char>) -> bool {
    ext == "toml"@
}

/// Decide whether a file extension may be loaded. Only `"toml"` is
/// accepted; every other string, including case variants and the empty
/// string, is rejected.
pub fn is_file_extension_supported(file_extension: &str) -> (r: bool)
    ensures
        r == spec_extension_supported(file_extension@),
{
    str_eq(file_extension, "toml")
}

} // verus!
