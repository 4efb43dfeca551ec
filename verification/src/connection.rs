//! The abstract interface that all connections conform to.
//!
//! Each backend — and the multi-backend dispatcher above them — implements
//! these traits, so callers can be written against one contract: what each
//! operation returns is fixed by the implementation's own specification
//! hooks, and the two window-handle shapes are guaranteed to decide alike.

use vstd::prelude::*;

use crate::adapter;
use crate::error::Error;
use crate::handles::EglDisplay;
use crate::handles::RawWindowHandle;
use crate::info::GLApi;

verus! {

/// Methods relating to the value-type view of a display server connection.
pub trait NativeConnection: Sized {
    /// The graphics display this native connection describes.
    spec fn spec_egl_display(&self) -> EglDisplay;

    /// Gets the graphics display that was created from the connection.
    fn egl_display(&self) -> (d: EglDisplay)
        ensures
            d == self.spec_egl_display(),
    ;
}

/// Methods relating to display server connections.
///
/// Construction is not part of this contract: what it takes to open a
/// connection differs per backend (each consumes the results of its own
/// native calls), so the constructors live on the concrete types.
pub trait Connection: Sized {
    /// The adapter type associated with this connection.
    type Adapter;

    /// The device type associated with this connection.
    type Device;

    /// The native connection type associated with this connection.
    type NativeConnection: NativeConnection;

    /// The native device type associated with this connection.
    type NativeDevice;

    /// The native widget type associated with this connection.
    type NativeWidget;

    /// Well-formedness of this connection.
    spec fn wf(&self) -> bool;

    /// The native connection view this connection hands out.
    spec fn spec_native_connection(&self) -> Self::NativeConnection;

    /// Returns the native connection corresponding to this connection.  It
    /// carries no ownership: its lifetime guarantees do not extend beyond
    /// the source connection's.
    fn native_connection(&self) -> (n: Self::NativeConnection)
        requires
            self.wf(),
        ensures
            n == self.spec_native_connection(),
    ;

    /// The OpenGL API flavor this connection supports.
    spec fn spec_gl_api(&self) -> GLApi;

    /// Returns the OpenGL API flavor this connection supports (OpenGL or
    /// OpenGL ES).  A pure query: it has no failure mode.
    fn gl_api(&self) -> (r: GLApi)
        requires
            self.wf(),
        ensures
            r == self.spec_gl_api(),
    ;

    /// The adapter this connection returns for a given preference.
    spec fn spec_adapter_for(&self, preference: adapter::Adapter) -> Result<Self::Adapter, Error>;

    /// Returns the "best" adapter on this system, preferring
    /// high-performance hardware adapters.
    ///
    /// This is an alias for `create_hardware_adapter`: the contract pins it
    /// to the same result.
    fn create_adapter(&self) -> (r: Result<Self::Adapter, Error>)
        requires
            self.wf(),
        ensures
            r == self.spec_adapter_for(adapter::Adapter::Hardware),
    ;

    /// Returns the "best" adapter on this system, preferring
    /// high-performance hardware adapters.
    fn create_hardware_adapter(&self) -> (r: Result<Self::Adapter, Error>)
        requires
            self.wf(),
        ensures
            r == self.spec_adapter_for(adapter::Adapter::Hardware),
    ;

    /// Returns the "best" adapter on this system, preferring low-power
    /// hardware adapters.
    fn create_low_power_adapter(&self) -> (r: Result<Self::Adapter, Error>)
        requires
            self.wf(),
        ensures
            r == self.spec_adapter_for(adapter::Adapter::LowPower),
    ;

    /// Returns the "best" adapter on this system, preferring software
    /// adapters.
    fn create_software_adapter(&self) -> (r: Result<Self::Adapter, Error>)
        requires
            self.wf(),
        ensures
            r == self.spec_adapter_for(adapter::Adapter::Software),
    ;

    /// What opening a device for a given adapter returns.
    spec fn spec_create_device(&self, adapter: Self::Adapter) -> Result<Self::Device, Error>;

    /// Opens the device corresponding to the given adapter.  Fails if the
    /// adapter is not recognized by this backend.
    ///
    /// A device is usable only from the thread that opened it.
    fn create_device(&self, adapter: &Self::Adapter) -> (r: Result<Self::Device, Error>)
        requires
            self.wf(),
        ensures
            r == self.spec_create_device(*adapter),
    ;

    /// What wrapping a foreign device handle returns.
    spec fn spec_create_device_from_native_device(&self, native_device: Self::NativeDevice) -> Result<
        Self::Device,
        Error,
    >;

    /// Wraps an existing foreign device handle in a device.  The caller
    /// vouches for the handle's validity; what can still be checked (its
    /// variant tag) is checked before anything reaches a native call.
    fn create_device_from_native_device(&self, native_device: Self::NativeDevice) -> (r: Result<
        Self::Device,
        Error,
    >)
        requires
            self.wf(),
        ensures
            r == self.spec_create_device_from_native_device(native_device),
    ;

    /// The widget a raw, untyped window pointer becomes.
    spec fn spec_widget_from_ptr(&self, raw: usize) -> Self::NativeWidget;

    /// Builds a native widget from a raw, untyped window pointer.  This is
    /// inherently unchecked: the caller vouches that the pointer denotes a
    /// real, live window of this backend's native type, and keeps the
    /// window alive while anything derived from the widget exists.
    fn create_native_widget_from_ptr(&self, raw: usize, size: euclid::default::Size2D<i32>) -> (w:
        Self::NativeWidget)
        requires
            self.wf(),
        ensures
            w == self.spec_widget_from_ptr(raw),
    ;

    /// What building a widget from a typed window handle decides.
    spec fn spec_widget_from_handle(&self, window: RawWindowHandle) -> Result<
        Self::NativeWidget,
        Error,
    >;

    /// Builds a native widget from a typed window handle, value-passing
    /// shape.  A handle whose platform tag does not match this backend is
    /// rejected with `IncompatibleNativeWidget`, never dereferenced.
    fn create_native_widget_from_raw_window_handle(
        &self,
        window: RawWindowHandle,
        size: euclid::default::Size2D<i32>,
    ) -> (r: Result<Self::NativeWidget, Error>)
        requires
            self.wf(),
        ensures
            r == self.spec_widget_from_handle(window),
    ;

    /// Builds a native widget from a typed window handle, checked shape.
    /// The contract pins it to the same decision as the value-passing
    /// shape.
    fn create_native_widget_from_window_handle(
        &self,
        window: RawWindowHandle,
        size: euclid::default::Size2D<i32>,
    ) -> (r: Result<Self::NativeWidget, Error>)
        requires
            self.wf(),
        ensures
            r == self.spec_widget_from_handle(window),
    ;
}

} // verus!
