//! The errors that the connection, adapter and device entry points can return.

use vstd::prelude::*;

verus! {

/// A flat enumeration of every failure a fallible entry point can report.
///
/// Every cross-backend or cross-variant mismatch is converted to the
/// corresponding `Incompatible*` value at the first point of detection, so
/// that no native call is ever reached with a mismatched handle.
#[derive(Clone, Copy, Debug, PartialEq, Eq, Structural)]
pub enum Error {
    /// The native display could not be opened, or the graphics display bound
    /// to it could not be initialized.
    ConnectionFailed,
    /// An adapter's backend tag does not match the connection's active
    /// backend.
    IncompatibleAdapter,
    /// A foreign device handle's backend tag does not match the connection's
    /// active backend.
    IncompatibleNativeDevice,
    /// A foreign window handle's platform tag does not match the backend, or
    /// the backend does not build widgets from that handle shape.
    IncompatibleNativeWidget,
    /// A foreign display handle's platform tag does not match the backend.
    IncompatibleRawDisplayHandle,
    /// The handle shape is recognized but intentionally unsupported by the
    /// backend.
    Unimplemented,
}

} // verus!
