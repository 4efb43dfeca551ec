//! Plain-value carriers for the native handles that cross this crate's
//! boundary.
//!
//! The native libraries deal in pointers; this crate never dereferences one.
//! Each handle is therefore carried as a plain address value, together with
//! the sentinel convention the native library documents for it (a null
//! display, the "no display" graphics handle).  The embedder converts between
//! these values and the real foreign types at the boundary.

use vstd::prelude::*;

verus! {

/// The address of a native Xlib `Display`, carried as a plain value.
///
/// An address of zero stands for the null display, the sentinel that the
/// native open-display call returns on failure.
#[derive(Clone, Copy, Debug, PartialEq, Eq, Structural)]
pub struct XlibDisplayPtr {
    /// The pointer value, as an address.
    pub addr: usize,
}

impl XlibDisplayPtr {
    /// Whether this is the null display.
    pub open spec fn spec_is_null(&self) -> bool {
        self.addr == 0
    }

    /// The null display value.
    pub fn null() -> (d: XlibDisplayPtr)
        ensures
            d.spec_is_null(),
    {
        XlibDisplayPtr { addr: 0 }
    }

    /// Whether this is the null display.
    pub fn is_null(&self) -> (r: bool)
        ensures
            r == self.spec_is_null(),
    {
        self.addr == 0
    }
}

/// The address of a graphics (EGL) display object, carried as a plain value.
///
/// An address of zero stands for the "no display" sentinel with which the
/// graphics library signals that it could not provide a display.
#[derive(Clone, Copy, Debug, PartialEq, Eq, Structural)]
pub struct EglDisplay {
    /// The handle value, as an address.
    pub addr: usize,
}

impl EglDisplay {
    /// Whether this is the "no display" sentinel.
    pub open spec fn spec_is_no_display(&self) -> bool {
        self.addr == 0
    }

    /// The "no display" sentinel.
    pub fn no_display() -> (d: EglDisplay)
        ensures
            d.spec_is_no_display(),
    {
        EglDisplay { addr: 0 }
    }

    /// Whether this is the "no display" sentinel.
    pub fn is_no_display(&self) -> (r: bool)
        ensures
            r == self.spec_is_no_display(),
    {
        self.addr == 0
    }
}

/// A foreign display handle in the value-passing shape of the older
/// handle-interchange standard: the display pointer is carried raw and may be
/// null.
///
/// Only what the backends read is carried: the platform tag and, for X11, the
/// display address and screen number.
#[derive(Clone, Copy, Debug, PartialEq, Eq, Structural)]
pub enum RawDisplayHandle {
    /// An Xlib display handle.  The address may be zero (a null display).
    Xlib {
        /// The address of the Xlib `Display`.
        display: usize,
        /// The X11 screen number.
        screen: i32,
    },
    /// An Xcb connection handle.
    Xcb {
        /// The address of the Xcb connection.
        connection: usize,
        /// The X11 screen number.
        screen: i32,
    },
    /// A handle of any other windowing system.
    Other,
}

/// A foreign display handle in the checked shape of the newer
/// handle-interchange standard: the display pointer, when present, has been
/// wrapped as non-null, so absence is expressed with `None`.
#[derive(Clone, Copy, Debug, PartialEq, Eq, Structural)]
pub enum DisplayHandle {
    /// An Xlib display handle; `display` is `None` when the producer had no
    /// concrete display to offer.
    Xlib {
        /// The address of the Xlib `Display`, if one was supplied.
        display: Option<usize>,
        /// The X11 screen number.
        screen: i32,
    },
    /// An Xcb connection handle.
    Xcb {
        /// The address of the Xcb connection, if one was supplied.
        connection: Option<usize>,
        /// The X11 screen number.
        screen: i32,
    },
    /// A handle of any other windowing system.
    Other,
}

/// Declaration of euclid's two-dimensional size type, so that the
/// native-widget constructors can accept the requested widget size in the
/// caller's own units.  The backends here pass the size through without
/// reading it, so the type stays opaque.
#[verifier::external_type_specification]
#[verifier::external_body]
#[verifier::reject_recursive_types(T)]
#[verifier::reject_recursive_types(U)]
pub struct ExSize2D<T, U>(euclid::Size2D<T, U>);

/// Declaration of euclid's anonymous unit, the default unit parameter of its
/// size type.
#[verifier::external_type_specification]
#[verifier::external_body]
pub struct ExUnknownUnit(euclid::UnknownUnit);

/// A foreign window handle.  Both handle-interchange standards carry the same
/// fields for what the backends read: the platform tag and the X11 window id.
#[derive(Clone, Copy, Debug, PartialEq, Eq, Structural)]
pub enum RawWindowHandle {
    /// An Xlib window handle.
    Xlib {
        /// The Xlib `Window` id.
        window: u64,
    },
    /// A window handle of any other windowing system.
    Other,
}

} // verus!
