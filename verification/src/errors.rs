use vstd::prelude::*;

verus! {

/// The ways loading or back-filling a configuration can fail.
#[derive(Clone, Copy, Debug, PartialEq, Eq)]
pub enum ConfigError {
    /// The requested file extension is not on the allow-list.
    UnsupportedExtension,
    /// The folder could not be opened or iterated.
    DirectoryUnreadable,
    /// A matched file could not be read as text.
    FileUnreadable,
    /// Back-filling needed a nested record that the source does not carry.
    MissingDefault,
}

} // verus!
