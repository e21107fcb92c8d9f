//! The error kinds that attribute processing can report.
//!
//! Every error is a compile-time diagnostic at the offending site; only the
//! kind is modeled here, the rendered message belongs to the surrounding
//! tooling.

use vstd::prelude::*;

verus! {

/// The shared error taxonomy of path resolution, attribute scanning, state
/// accumulation and orchestration.
#[derive(Clone, Copy, Debug, PartialEq, Eq, Structural)]
pub enum MacroError {
    /// The same canonical path was inserted twice into one kind's set.
    Duplicate,
    /// The session was already finalized when an insertion or a second
    /// finalization arrived.
    PluginAlreadyRegistered,
    /// An explicit path argument's generic-argument count differs from the
    /// declaration's declared type-parameter count.
    ArityMismatch,
    /// An explicit path argument's base identifier differs from the
    /// annotated declaration's identifier.
    IdentifierMismatch,
    /// A parenthesized argument list held no path at all.
    MissingPathArgument,
    /// An attribute's argument list held more than a single path.
    MultiplePathArguments,
    /// An initializer attribute carried an argument key it does not know.
    UnsupportedAttributeArgument,
    /// The designated host parameter is not a mutable reference.
    HostParameterNotMutableReference,
    /// The designated host parameter does not occur in the signature.
    HostParameterNotFound,
    /// A marker attribute sat on an item that is not a struct or enum.
    NotAStructOrEnum,
}

} // verus!
