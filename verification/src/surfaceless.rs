//! The surfaceless backend: a connection to an off-screen graphics display
//! that needs no windowing system at all.
//!
//! Opening this backend asks the graphics library for its surfaceless
//! platform display and initializes it; both steps fail recoverably.  There
//! is no native window handle to own, so the connection carries only the
//! graphics-display handle and no closing obligation.

use vstd::prelude::*;

use crate::adapter::Adapter;
use crate::connection::Connection as ConnectionInterface;
use crate::connection::NativeConnection as NativeConnectionInterface;
use crate::error::Error;
use crate::handles::EglDisplay;
use crate::handles::DisplayHandle;
use crate::handles::RawDisplayHandle;
use crate::handles::RawWindowHandle;
use crate::info::GLApi;

verus! {

/// The handles behind a surfaceless connection.  There is no native display
/// to own off-screen, so the wrapper carries only the graphics display and
/// no closing obligation.
#[derive(Clone, Copy, Debug, PartialEq, Eq, Structural)]
pub struct NativeConnectionWrapper {
    /// The graphics display, already initialized.
    pub egl_display: EglDisplay,
}

/// A connection to the surfaceless graphics display.
#[derive(Clone, Copy, Debug, PartialEq, Eq, Structural)]
pub struct Connection {
    /// The wrapper behind this connection.
    pub native_connection: NativeConnectionWrapper,
}

/// The value-type view of a surfaceless connection's handles.
#[derive(Clone, Copy, Debug, PartialEq, Eq, Structural)]
pub struct NativeConnection {
    /// The graphics display, already initialized.
    pub egl_display: EglDisplay,
}

impl NativeConnection {
    /// The graphics display this native connection describes.
    pub fn egl_display(&self) -> (d: EglDisplay)
        ensures
            d == self.egl_display,
    {
        self.egl_display
    }
}

/// An opened device on the surfaceless backend.
#[derive(Clone, Copy, Debug, PartialEq, Eq, Structural)]
pub struct Device {
    /// The adapter tag this device was opened for.
    pub adapter: Adapter,
    /// The graphics display the device lives on.
    pub egl_display: EglDisplay,
}

/// A foreign device handle for the surfaceless backend.  This backend cannot
/// read anything out of an imported device, so the handle carries nothing.
#[derive(Clone, Copy, Debug, PartialEq, Eq, Structural)]
pub struct NativeDevice;

/// A native widget for the surfaceless backend.  There are no windows
/// off-screen, so the widget carries nothing.
#[derive(Clone, Copy, Debug, PartialEq, Eq, Structural)]
pub struct NativeWidget;

impl Connection {
    /// What connecting decides, given what the graphics library returned:
    /// either sentinel (no display, or a failed initialization) is reported
    /// as `ConnectionFailed`; otherwise the connection is complete.
    pub open spec fn spec_new(egl_display: EglDisplay, egl_initialized: bool) -> Result<
        Connection,
        Error,
    > {
        if egl_display.spec_is_no_display() {
            Err(Error::ConnectionFailed)
        } else if !egl_initialized {
            Err(Error::ConnectionFailed)
        } else {
            Ok(Connection { native_connection: NativeConnectionWrapper { egl_display } })
        }
    }

    /// Opens a surfaceless connection from what the graphics library
    /// returned: `egl_display` is the surfaceless platform display it handed
    /// out (possibly the "no display" sentinel) and `egl_initialized` is
    /// whether initializing that display succeeded.
    pub fn new(egl_display: EglDisplay, egl_initialized: bool) -> (r: Result<Connection, Error>)
        ensures
            r == Self::spec_new(egl_display, egl_initialized),
    {
        if egl_display.is_no_display() {
            return Err(Error::ConnectionFailed);
        }
        if !egl_initialized {
            return Err(Error::ConnectionFailed);
        }
        Ok(Connection { native_connection: NativeConnectionWrapper { egl_display } })
    }

    /// Wraps an existing native connection.  This backend owns nothing, so
    /// wrapping always succeeds and never takes on a closing obligation.
    pub fn from_native_connection(native_connection: NativeConnection) -> (r: Result<
        Connection,
        Error,
    >)
        ensures
            r == Ok::<Connection, Error>(
                Connection { native_connection: NativeConnectionWrapper { egl_display: native_connection.egl_display } },
            ),
    {
        Ok(Connection { native_connection: NativeConnectionWrapper { egl_display: native_connection.egl_display } })
    }

    /// Returns the value-type view of this connection's handles.
    pub fn native_connection(&self) -> (n: NativeConnection)
        ensures
            n.egl_display == self.native_connection.egl_display,
    {
        NativeConnection { egl_display: self.native_connection.egl_display }
    }

    /// The OpenGL API flavor this connection supports.
    pub fn gl_api(&self) -> (r: GLApi)
        ensures
            r == GLApi::GL,
    {
        GLApi::GL
    }

    /// Returns the "best" adapter, preferring high-performance hardware.
    ///
    /// This is an alias for `create_hardware_adapter`.
    pub fn create_adapter(&self) -> (r: Result<Adapter, Error>)
        ensures
            r == Ok::<Adapter, Error>(Adapter::Hardware),
    {
        self.create_hardware_adapter()
    }

    /// Returns the "best" adapter, preferring high-performance hardware.
    pub fn create_hardware_adapter(&self) -> (r: Result<Adapter, Error>)
        ensures
            r == Ok::<Adapter, Error>(Adapter::Hardware),
    {
        Ok(Adapter::hardware())
    }

    /// Returns the "best" adapter, preferring low-power hardware.
    pub fn create_low_power_adapter(&self) -> (r: Result<Adapter, Error>)
        ensures
            r == Ok::<Adapter, Error>(Adapter::LowPower),
    {
        Ok(Adapter::low_power())
    }

    /// Returns the "best" adapter, preferring software.
    pub fn create_software_adapter(&self) -> (r: Result<Adapter, Error>)
        ensures
            r == Ok::<Adapter, Error>(Adapter::Software),
    {
        Ok(Adapter::software())
    }

    /// What opening a device returns: this backend recognizes every adapter
    /// tag, so a device on this connection's display always opens.
    pub open spec fn spec_create_device(&self, adapter: Adapter) -> Result<Device, Error> {
        Ok(Device { adapter, egl_display: self.native_connection.egl_display })
    }

    /// Opens the device corresponding to the given adapter.
    ///
    /// A device is usable only from the thread that opened it.
    pub fn create_device(&self, adapter: &Adapter) -> (r: Result<Device, Error>)
        ensures
            r == self.spec_create_device(*adapter),
    {
        Ok(Device { adapter: *adapter, egl_display: self.native_connection.egl_display })
    }

    /// Wraps a foreign device handle.  This backend cannot validate an
    /// imported handle, so it opens a fresh device with the default adapter
    /// instead.
    pub fn create_device_from_native_device(&self, _native_device: NativeDevice) -> (r: Result<
        Device,
        Error,
    >)
        ensures
            r == self.spec_create_device(Adapter::Hardware),
    {
        let adapter = match self.create_adapter() {
            Ok(adapter) => adapter,
            Err(e) => { return Err(e) },
        };
        self.create_device(&adapter)
    }

    /// Opens a connection from a foreign display handle in the value-passing
    /// shape.  No foreign display matches this backend.
    pub fn from_raw_display_handle(_raw_handle: RawDisplayHandle) -> (r: Result<Connection, Error>)
        ensures
            r == Err::<Connection, Error>(Error::IncompatibleRawDisplayHandle),
    {
        Err(Error::IncompatibleRawDisplayHandle)
    }

    /// Opens a connection from a foreign display handle in the checked
    /// shape.  No foreign display matches this backend.
    pub fn from_display_handle(_handle: DisplayHandle) -> (r: Result<Connection, Error>)
        ensures
            r == Err::<Connection, Error>(Error::IncompatibleRawDisplayHandle),
    {
        Err(Error::IncompatibleRawDisplayHandle)
    }

    /// Builds a native widget from a raw, untyped window pointer.  The caller
    /// vouches that the pointer denotes a real, live window; this backend has
    /// no windows and reads nothing from it.
    pub fn create_native_widget_from_ptr(
        &self,
        _raw: usize,
        _size: euclid::default::Size2D<i32>,
    ) -> (w: NativeWidget)
        ensures
            w == NativeWidget,
    {
        NativeWidget
    }

    /// Builds a native widget from a typed window handle, value-passing
    /// shape.  No window handle matches this backend.
    pub fn create_native_widget_from_raw_window_handle(
        &self,
        _window: RawWindowHandle,
        _size: euclid::default::Size2D<i32>,
    ) -> (r: Result<NativeWidget, Error>)
        ensures
            r == Err::<NativeWidget, Error>(Error::IncompatibleNativeWidget),
    {
        Err(Error::IncompatibleNativeWidget)
    }

    /// Builds a native widget from a typed window handle, checked shape.  No
    /// window handle matches this backend.
    pub fn create_native_widget_from_window_handle(
        &self,
        _window: RawWindowHandle,
        _size: euclid::default::Size2D<i32>,
    ) -> (r: Result<NativeWidget, Error>)
        ensures
            r == Err::<NativeWidget, Error>(Error::IncompatibleNativeWidget),
    {
        Err(Error::IncompatibleNativeWidget)
    }
}

/// Connecting is all-or-nothing: it either fails with `ConnectionFailed`,
/// or returns a connection whose graphics display is real (never the "no
/// display" sentinel) and initialized, on which every adapter preference
/// and device opening succeeds — never a half-initialized connection.
pub proof fn lemma_new_all_or_nothing(egl_display: EglDisplay, egl_initialized: bool)
    ensures
        Connection::spec_new(egl_display, egl_initialized) matches Err(e) ==> e
            == Error::ConnectionFailed,
        Connection::spec_new(egl_display, egl_initialized) matches Ok(c)
            ==> !c.native_connection.egl_display.spec_is_no_display() && egl_initialized
            && c.spec_create_device(Adapter::Hardware) is Ok,
{
}

impl NativeConnectionInterface for NativeConnection {
    open spec fn spec_egl_display(&self) -> EglDisplay {
        self.egl_display
    }

    fn egl_display(&self) -> (d: EglDisplay) {
        self.egl_display
    }
}

impl ConnectionInterface for Connection {
    type Adapter = Adapter;

    type Device = Device;

    type NativeConnection = NativeConnection;

    type NativeDevice = NativeDevice;

    type NativeWidget = NativeWidget;

    open spec fn wf(&self) -> bool {
        true
    }

    open spec fn spec_native_connection(&self) -> NativeConnection {
        NativeConnection { egl_display: self.native_connection.egl_display }
    }

    fn native_connection(&self) -> (n: NativeConnection) {
        NativeConnection { egl_display: self.native_connection.egl_display }
    }

    open spec fn spec_gl_api(&self) -> GLApi {
        GLApi::GL
    }

    fn gl_api(&self) -> (r: GLApi) {
        GLApi::GL
    }

    open spec fn spec_adapter_for(&self, preference: Adapter) -> Result<Adapter, Error> {
        Ok(preference)
    }

    fn create_adapter(&self) -> (r: Result<Adapter, Error>) {
        Ok(Adapter::hardware())
    }

    fn create_hardware_adapter(&self) -> (r: Result<Adapter, Error>) {
        Ok(Adapter::hardware())
    }

    fn create_low_power_adapter(&self) -> (r: Result<Adapter, Error>) {
        Ok(Adapter::low_power())
    }

    fn create_software_adapter(&self) -> (r: Result<Adapter, Error>) {
        Ok(Adapter::software())
    }

    open spec fn spec_create_device(&self, adapter: Adapter) -> Result<Device, Error> {
        Ok(Device { adapter, egl_display: self.native_connection.egl_display })
    }

    fn create_device(&self, adapter: &Adapter) -> (r: Result<Device, Error>) {
        Ok(Device { adapter: *adapter, egl_display: self.native_connection.egl_display })
    }

    open spec fn spec_create_device_from_native_device(&self, native_device: NativeDevice) -> Result<
        Device,
        Error,
    > {
        Ok(Device { adapter: Adapter::Hardware, egl_display: self.native_connection.egl_display })
    }

    fn create_device_from_native_device(&self, _native_device: NativeDevice) -> (r: Result<
        Device,
        Error,
    >) {
        Ok(Device { adapter: Adapter::hardware(), egl_display: self.native_connection.egl_display })
    }

    open spec fn spec_widget_from_ptr(&self, raw: usize) -> NativeWidget {
        NativeWidget
    }

    fn create_native_widget_from_ptr(
        &self,
        _raw: usize,
        _size: euclid::default::Size2D<i32>,
    ) -> (w: NativeWidget) {
        NativeWidget
    }

    open spec fn spec_widget_from_handle(&self, window: RawWindowHandle) -> Result<
        NativeWidget,
        Error,
    > {
        Err(Error::IncompatibleNativeWidget)
    }

    fn create_native_widget_from_raw_window_handle(
        &self,
        _window: RawWindowHandle,
        _size: euclid::default::Size2D<i32>,
    ) -> (r: Result<NativeWidget, Error>) {
        Err(Error::IncompatibleNativeWidget)
    }

    fn create_native_widget_from_window_handle(
        &self,
        _window: RawWindowHandle,
        _size: euclid::default::Size2D<i32>,
    ) -> (r: Result<NativeWidget, Error>) {
        Err(Error::IncompatibleNativeWidget)
    }
}

} // verus!
