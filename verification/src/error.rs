//! The error type shared by every fallible operation of the library.

use vstd::prelude::*;
use crate::module::Module;

verus! {

/// Every failure a host can observe from this layer.
///
/// Resolution and permission failures surface synchronously from resolution;
/// evaluation failures surface as a task outcome; decode failures surface at
/// the point of value extraction. Nothing is retried automatically.
#[derive(Debug)]
pub enum Error {
    /// The named value was not declared, or was bound to `null` or
    /// `undefined`, in both the global scope and the module's exports.
    ValueNotFound(String),
    /// The named value exists but is not callable.
    ValueNotCallable(String),
    /// The module provides no entrypoint: none was registered during
    /// evaluation and no configured default name resolved to a function.
    MissingEntrypoint(Module),
    /// A task did not complete within the configured deadline.
    Timeout(String),
    /// An uncaught script exception, or another engine-reported failure,
    /// formatted with file and line where available.
    Runtime(String),
    /// A relative import specifier did not start with `/`, `./` or `../`.
    ImportPrefixMissing(String),
    /// A relative specifier was resolved against a referrer that is not an
    /// absolute locator.
    InvalidBase(String),
    /// An `http:`/`https:` import was requested while the remote-import
    /// capability is disabled.
    WebImportsDisabled(String),
    /// A `file:` import that was never reached from a load root was requested
    /// while the dynamic-filesystem-import capability is disabled.
    ModuleNotLoaded(String),
    /// The resolved locator's scheme is not one this layer recognizes.
    UnrecognizedScheme(String),
    /// The locator's scheme has no fetch strategy.
    UnsupportedSchemeLoad(String),
    /// A stored function handle was presented to a runtime other than the one
    /// that produced it, or never came from a runtime at all.
    InvalidFunctionHandle,
    /// A value could not be encoded into, or decoded from, the engine's
    /// value representation.
    Serialization(String),
}

} // verus!
