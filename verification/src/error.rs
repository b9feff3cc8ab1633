//! The error taxonomy shared by the preference store and the theme toggle.

use vstd::prelude::*;

verus! {

/// Why a store or registry operation failed.
///
/// The verified core itself only ever produces `ConfigParse` (a preference
/// file whose text is not a boolean literal); the surrounding application
/// maps file-system failures to `ConfigIo` and registry failures to
/// `RegistryAccess` before handing control back to the library's callers.
#[derive(Clone, Copy, Debug, PartialEq, Eq, Structural)]
pub enum AppError {
    /// The preference directory or file could not be created, read or written.
    ConfigIo,
    /// The preference file exists but its text is not `true` or `false`.
    ConfigParse,
    /// The personalization key could not be opened, or a value not read or written.
    RegistryAccess,
}

} // verus!
