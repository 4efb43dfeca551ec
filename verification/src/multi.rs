//! The multi-backend dispatcher: a connection that chooses between two
//! backends at runtime.
//!
//! Construction tries the default backend (X11) first and falls back to the
//! alternate (surfaceless) on failure; the first success fixes the variant
//! for the connection's whole life.  Every object derived through the
//! connection — adapter, device, native handles, widgets — carries the same
//! variant tag, and every operation that combines two tagged values checks
//! the tags first: a mismatch is rejected with the corresponding
//! `Incompatible*` error before anything reaches a backend.

use vstd::prelude::*;

use crate::adapter;
use crate::connection::Connection as ConnectionInterface;
use crate::connection::NativeConnection as NativeConnectionInterface;
use crate::error::Error;
use crate::handles::DisplayHandle;
use crate::handles::EglDisplay;
use crate::handles::RawDisplayHandle;
use crate::handles::RawWindowHandle;
use crate::handles::XlibDisplayPtr;
use crate::info::GLApi;
use crate::surfaceless;
use crate::x11;

verus! {

/// A connection to the display server, on whichever backend construction
/// settled.
#[derive(Debug, PartialEq, Eq, Structural)]
pub enum Connection {
    /// The default backend's connection (X11).
    Default(x11::Connection),
    /// The alternate backend's connection (surfaceless).
    Alternate(surfaceless::Connection),
}

/// The native connection type, tagged with the variant it came from.
#[derive(Clone, Copy, Debug, PartialEq, Eq, Structural)]
pub enum NativeConnection {
    /// The default backend's native connection.
    Default(x11::NativeConnection),
    /// The alternate backend's native connection.
    Alternate(surfaceless::NativeConnection),
}

impl NativeConnection {
    /// The graphics display this native connection describes, whichever
    /// variant it is on.
    pub fn egl_display(&self) -> (d: EglDisplay)
        ensures
            d == (match *self {
                NativeConnection::Default(n) => n.egl_display,
                NativeConnection::Alternate(n) => n.egl_display,
            }),
    {
        match self {
            NativeConnection::Default(n) => n.egl_display(),
            NativeConnection::Alternate(n) => n.egl_display(),
        }
    }
}

/// An adapter tag, tagged with the variant it came from.
#[derive(Clone, Copy, Debug, PartialEq, Eq, Structural)]
pub enum Adapter {
    /// An adapter for the default backend.
    Default(adapter::Adapter),
    /// An adapter for the alternate backend.
    Alternate(adapter::Adapter),
}

/// An opened device, tagged with the variant it came from.
#[derive(Debug, PartialEq, Eq, Structural)]
pub enum Device {
    /// A device opened on the default backend.
    Default(x11::Device),
    /// A device opened on the alternate backend.
    Alternate(surfaceless::Device),
}

/// A foreign device handle, tagged with the variant it belongs to.
#[derive(Clone, Copy, Debug, PartialEq, Eq, Structural)]
pub enum NativeDevice {
    /// A foreign device handle of the default backend.
    Default(x11::NativeDevice),
    /// A foreign device handle of the alternate backend.
    Alternate(surfaceless::NativeDevice),
}

/// A native widget, tagged with the variant it came from.
#[derive(Clone, Copy, Debug, PartialEq, Eq, Structural)]
pub enum NativeWidget {
    /// A native widget of the default backend.
    Default(x11::NativeWidget),
    /// A native widget of the alternate backend.
    Alternate(surfaceless::NativeWidget),
}

impl Connection {
    /// Well-formedness of whichever backend connection is active.
    pub open spec fn wf(&self) -> bool {
        match *self {
            Connection::Default(c) => c.wf(),
            Connection::Alternate(_) => true,
        }
    }

    /// The construction policy: the default backend's success is taken as it
    /// stands; on its failure the alternate backend's outcome decides, and
    /// the alternate's error — not the default's — is the one surfaced when
    /// both fail.
    pub open spec fn spec_select(
        default_outcome: Result<x11::Connection, Error>,
        alternate_outcome: Option<Result<surfaceless::Connection, Error>>,
    ) -> Result<Connection, Error> {
        match default_outcome {
            Ok(c) => Ok(Connection::Default(c)),
            Err(_) => match alternate_outcome {
                Some(Ok(c)) => Ok(Connection::Alternate(c)),
                Some(Err(e)) => Err(e),
                None => Err(Error::ConnectionFailed),
            },
        }
    }

    /// Connects to the default display, deciding between the two backends'
    /// construction outcomes.  The embedder attempts the default backend
    /// first and attempts the alternate exactly when the default failed —
    /// the `requires` clause pins that protocol — so the first success fixes
    /// the variant.
    pub fn new(
        default_outcome: Result<x11::Connection, Error>,
        alternate_outcome: Option<Result<surfaceless::Connection, Error>>,
    ) -> (r: Result<Connection, Error>)
        requires
            (default_outcome is Err) <==> (alternate_outcome is Some),
        ensures
            r == Self::spec_select(default_outcome, alternate_outcome),
    {
        match default_outcome {
            Ok(connection) => Ok(Connection::Default(connection)),
            Err(_) => match alternate_outcome {
                Some(Ok(connection)) => Ok(Connection::Alternate(connection)),
                Some(Err(e)) => Err(e),
                None => Err(Error::ConnectionFailed),
            },
        }
    }

    /// The native connection corresponding to this connection, on the same
    /// variant.
    pub open spec fn spec_native_connection(&self) -> NativeConnection {
        match *self {
            Connection::Default(c) => NativeConnection::Default(
                x11::NativeConnection {
                    egl_display: c.native_connection.egl_display,
                    x11_display: c.native_connection.x11_display,
                },
            ),
            Connection::Alternate(c) => NativeConnection::Alternate(
                surfaceless::NativeConnection { egl_display: c.native_connection.egl_display },
            ),
        }
    }

    /// Returns the native connection corresponding to this connection.
    pub fn native_connection(&self) -> (n: NativeConnection)
        ensures
            n == self.spec_native_connection(),
    {
        match self {
            Connection::Default(connection) => NativeConnection::Default(
                connection.native_connection(),
            ),
            Connection::Alternate(connection) => NativeConnection::Alternate(
                connection.native_connection(),
            ),
        }
    }

    /// The OpenGL API flavor the active backend supports.
    pub open spec fn spec_gl_api(&self) -> GLApi {
        match *self {
            Connection::Default(_) => GLApi::GL,
            Connection::Alternate(_) => GLApi::GL,
        }
    }

    /// Returns the OpenGL API flavor this connection supports.
    pub fn gl_api(&self) -> (r: GLApi)
        ensures
            r == self.spec_gl_api(),
    {
        match self {
            Connection::Default(connection) => connection.gl_api(),
            Connection::Alternate(connection) => connection.gl_api(),
        }
    }

    /// The adapter the active backend returns for a given preference,
    /// wrapped in this connection's variant.
    pub open spec fn spec_adapter_for(&self, preference: adapter::Adapter) -> Result<
        Adapter,
        Error,
    > {
        match *self {
            Connection::Default(_) => Ok(Adapter::Default(preference)),
            Connection::Alternate(_) => Ok(Adapter::Alternate(preference)),
        }
    }

    /// Returns the "best" adapter, preferring high-performance hardware.
    ///
    /// This is an alias for `create_hardware_adapter`.
    pub fn create_adapter(&self) -> (r: Result<Adapter, Error>)
        ensures
            r == self.spec_adapter_for(adapter::Adapter::Hardware),
    {
        self.create_hardware_adapter()
    }

    /// Returns the "best" adapter, preferring high-performance hardware.
    pub fn create_hardware_adapter(&self) -> (r: Result<Adapter, Error>)
        ensures
            r == self.spec_adapter_for(adapter::Adapter::Hardware),
    {
        match self {
            Connection::Default(connection) => match connection.create_hardware_adapter() {
                Ok(a) => Ok(Adapter::Default(a)),
                Err(e) => Err(e),
            },
            Connection::Alternate(connection) => match connection.create_hardware_adapter() {
                Ok(a) => Ok(Adapter::Alternate(a)),
                Err(e) => Err(e),
            },
        }
    }

    /// Returns the "best" adapter, preferring low-power hardware.
    pub fn create_low_power_adapter(&self) -> (r: Result<Adapter, Error>)
        ensures
            r == self.spec_adapter_for(adapter::Adapter::LowPower),
    {
        match self {
            Connection::Default(connection) => match connection.create_low_power_adapter() {
                Ok(a) => Ok(Adapter::Default(a)),
                Err(e) => Err(e),
            },
            Connection::Alternate(connection) => match connection.create_low_power_adapter() {
                Ok(a) => Ok(Adapter::Alternate(a)),
                Err(e) => Err(e),
            },
        }
    }

    /// Returns the "best" adapter, preferring software.
    pub fn create_software_adapter(&self) -> (r: Result<Adapter, Error>)
        ensures
            r == self.spec_adapter_for(adapter::Adapter::Software),
    {
        match self {
            Connection::Default(connection) => match connection.create_software_adapter() {
                Ok(a) => Ok(Adapter::Default(a)),
                Err(e) => Err(e),
            },
            Connection::Alternate(connection) => match connection.create_software_adapter() {
                Ok(a) => Ok(Adapter::Alternate(a)),
                Err(e) => Err(e),
            },
        }
    }

    /// What opening a device decides: the adapter must carry this
    /// connection's own variant tag; a mismatched adapter is rejected with
    /// `IncompatibleAdapter` before anything reaches a backend.
    pub open spec fn spec_create_device(&self, adapter: Adapter) -> Result<Device, Error> {
        match (*self, adapter) {
            (Connection::Default(c), Adapter::Default(a)) => match c.spec_create_device(a) {
                Ok(d) => Ok(Device::Default(d)),
                Err(e) => Err(e),
            },
            (Connection::Alternate(c), Adapter::Alternate(a)) => match c.spec_create_device(a) {
                Ok(d) => Ok(Device::Alternate(d)),
                Err(e) => Err(e),
            },
            _ => Err(Error::IncompatibleAdapter),
        }
    }

    /// Opens the device corresponding to the given adapter.
    ///
    /// A device is usable only from the thread that opened it.
    pub fn create_device(&self, adapter: &Adapter) -> (r: Result<Device, Error>)
        ensures
            r == self.spec_create_device(*adapter),
    {
        match (self, adapter) {
            (Connection::Default(connection), Adapter::Default(adapter)) => {
                match connection.create_device(adapter) {
                    Ok(d) => Ok(Device::Default(d)),
                    Err(e) => Err(e),
                }
            },
            (Connection::Alternate(connection), Adapter::Alternate(adapter)) => {
                match connection.create_device(adapter) {
                    Ok(d) => Ok(Device::Alternate(d)),
                    Err(e) => Err(e),
                }
            },
            _ => Err(Error::IncompatibleAdapter),
        }
    }

    /// What wrapping a foreign device decides: the handle must carry this
    /// connection's own variant tag; a mismatched handle is rejected with
    /// `IncompatibleNativeDevice` before anything reaches a backend.
    pub open spec fn spec_create_device_from_native_device(
        &self,
        native_device: NativeDevice,
    ) -> Result<Device, Error> {
        match (*self, native_device) {
            (Connection::Default(c), NativeDevice::Default(n)) => match c.spec_create_device(
                n.adapter,
            ) {
                Ok(d) => Ok(Device::Default(d)),
                Err(e) => Err(e),
            },
            (Connection::Alternate(c), NativeDevice::Alternate(_)) => match c.spec_create_device(
                adapter::Adapter::Hardware,
            ) {
                Ok(d) => Ok(Device::Alternate(d)),
                Err(e) => Err(e),
            },
            _ => Err(Error::IncompatibleNativeDevice),
        }
    }

    /// Wraps a foreign device handle in a device.  The caller vouches for
    /// the handle's validity; its variant tag is still checked first.
    pub fn create_device_from_native_device(&self, native_device: NativeDevice) -> (r: Result<
        Device,
        Error,
    >)
        ensures
            r == self.spec_create_device_from_native_device(native_device),
    {
        match self {
            Connection::Default(connection) => match native_device {
                NativeDevice::Default(native_device) => {
                    match connection.create_device_from_native_device(native_device) {
                        Ok(d) => Ok(Device::Default(d)),
                        Err(e) => Err(e),
                    }
                },
                _ => Err(Error::IncompatibleNativeDevice),
            },
            Connection::Alternate(connection) => match native_device {
                NativeDevice::Alternate(native_device) => {
                    match connection.create_device_from_native_device(native_device) {
                        Ok(d) => Ok(Device::Alternate(d)),
                        Err(e) => Err(e),
                    }
                },
                _ => Err(Error::IncompatibleNativeDevice),
            },
        }
    }

    /// What opening from a foreign display handle in the value-passing
    /// shape decides, under the same default-then-alternate policy as
    /// construction: an Xlib handle settles on the default backend; any
    /// other handle fails on the default backend and then on the alternate,
    /// whose error is the one surfaced.
    pub open spec fn spec_from_raw_display_handle(
        raw_handle: RawDisplayHandle,
        egl_display: EglDisplay,
    ) -> Result<Connection, Error> {
        match x11::Connection::spec_from_raw_display_handle(raw_handle, egl_display) {
            Ok(c) => Ok(Connection::Default(c)),
            Err(_) => Err(Error::IncompatibleRawDisplayHandle),
        }
    }

    /// Opens the display connection corresponding to a foreign display
    /// handle in the value-passing shape, trying the default backend first
    /// and falling back to the alternate.  For an Xlib handle the embedder
    /// first derives the graphics display from the handle's display pointer
    /// and passes the results in; for any other handle both are ignored.
    pub fn from_raw_display_handle(
        raw_handle: RawDisplayHandle,
        egl_display: EglDisplay,
        egl_initialized: bool,
    ) -> (r: Result<Connection, Error>)
        requires
            raw_handle is Xlib ==> egl_initialized,
        ensures
            r == Self::spec_from_raw_display_handle(raw_handle, egl_display),
            r matches Ok(c) ==> c.wf(),
    {
        match x11::Connection::from_raw_display_handle(raw_handle, egl_display, egl_initialized) {
            Ok(connection) => Ok(Connection::Default(connection)),
            Err(_) => match surfaceless::Connection::from_raw_display_handle(raw_handle) {
                Ok(connection) => Ok(Connection::Alternate(connection)),
                Err(e) => Err(e),
            },
        }
    }

    /// What opening from a foreign display handle in the checked shape
    /// decides, under the same default-then-alternate policy.
    pub open spec fn spec_from_display_handle(
        handle: DisplayHandle,
        egl_display: EglDisplay,
    ) -> Result<Connection, Error> {
        match x11::Connection::spec_from_display_handle(handle, egl_display) {
            Ok(c) => Ok(Connection::Default(c)),
            Err(_) => Err(Error::IncompatibleRawDisplayHandle),
        }
    }

    /// Opens the display connection corresponding to a foreign display
    /// handle in the checked shape, trying the default backend first and
    /// falling back to the alternate.
    pub fn from_display_handle(
        handle: DisplayHandle,
        egl_display: EglDisplay,
        egl_initialized: bool,
    ) -> (r: Result<Connection, Error>)
        requires
            x11::Connection::spec_selects_display(handle) ==> egl_initialized,
        ensures
            r == Self::spec_from_display_handle(handle, egl_display),
            r matches Ok(c) ==> c.wf(),
    {
        match x11::Connection::from_display_handle(handle, egl_display, egl_initialized) {
            Ok(connection) => Ok(Connection::Default(connection)),
            Err(_) => match surfaceless::Connection::from_display_handle(handle) {
                Ok(connection) => Ok(Connection::Alternate(connection)),
                Err(e) => Err(e),
            },
        }
    }

    /// Builds a native widget from a raw, untyped window pointer on the
    /// active backend.  The caller vouches that the pointer denotes a real,
    /// live window of that backend's native type.
    pub fn create_native_widget_from_ptr(
        &self,
        raw: usize,
        size: euclid::default::Size2D<i32>,
    ) -> (w: NativeWidget)
        ensures
            w == (match *self {
                Connection::Default(_) => NativeWidget::Default(
                    x11::NativeWidget { window: raw as u64 },
                ),
                Connection::Alternate(_) => NativeWidget::Alternate(surfaceless::NativeWidget),
            }),
    {
        match self {
            Connection::Default(connection) => NativeWidget::Default(
                connection.create_native_widget_from_ptr(raw, size),
            ),
            Connection::Alternate(connection) => NativeWidget::Alternate(
                connection.create_native_widget_from_ptr(raw, size),
            ),
        }
    }

    /// What building a widget from a typed window handle decides on the
    /// active backend: on the default variant an Xlib handle yields its
    /// window id and anything else is incompatible; the alternate variant
    /// accepts no window handle at all.
    pub open spec fn spec_widget_from_handle(&self, window: RawWindowHandle) -> Result<
        NativeWidget,
        Error,
    > {
        match *self {
            Connection::Default(_) => match x11::Connection::spec_widget_from_handle(window) {
                Ok(w) => Ok(NativeWidget::Default(w)),
                Err(e) => Err(e),
            },
            Connection::Alternate(_) => Err(Error::IncompatibleNativeWidget),
        }
    }

    /// Builds a native widget from a typed window handle, value-passing
    /// shape.
    pub fn create_native_widget_from_raw_window_handle(
        &self,
        window: RawWindowHandle,
        size: euclid::default::Size2D<i32>,
    ) -> (r: Result<NativeWidget, Error>)
        ensures
            r == self.spec_widget_from_handle(window),
    {
        match self {
            Connection::Default(connection) => {
                match connection.create_native_widget_from_raw_window_handle(window, size) {
                    Ok(w) => Ok(NativeWidget::Default(w)),
                    Err(e) => Err(e),
                }
            },
            Connection::Alternate(connection) => {
                match connection.create_native_widget_from_raw_window_handle(window, size) {
                    Ok(w) => Ok(NativeWidget::Alternate(w)),
                    Err(e) => Err(e),
                }
            },
        }
    }

    /// Builds a native widget from a typed window handle, checked shape.
    pub fn create_native_widget_from_window_handle(
        &self,
        window: RawWindowHandle,
        size: euclid::default::Size2D<i32>,
    ) -> (r: Result<NativeWidget, Error>)
        ensures
            r == self.spec_widget_from_handle(window),
    {
        match self {
            Connection::Default(connection) => {
                match connection.create_native_widget_from_window_handle(window, size) {
                    Ok(w) => Ok(NativeWidget::Default(w)),
                    Err(e) => Err(e),
                }
            },
            Connection::Alternate(connection) => {
                match connection.create_native_widget_from_window_handle(window, size) {
                    Ok(w) => Ok(NativeWidget::Alternate(w)),
                    Err(e) => Err(e),
                }
            },
        }
    }
}

impl NativeConnectionInterface for NativeConnection {
    open spec fn spec_egl_display(&self) -> EglDisplay {
        match *self {
            NativeConnection::Default(n) => n.egl_display,
            NativeConnection::Alternate(n) => n.egl_display,
        }
    }

    fn egl_display(&self) -> (d: EglDisplay) {
        match self {
            NativeConnection::Default(n) => n.egl_display,
            NativeConnection::Alternate(n) => n.egl_display,
        }
    }
}

impl ConnectionInterface for Connection {
    type Adapter = Adapter;

    type Device = Device;

    type NativeConnection = NativeConnection;

    type NativeDevice = NativeDevice;

    type NativeWidget = NativeWidget;

    open spec fn wf(&self) -> bool {
        Connection::wf(self)
    }

    open spec fn spec_native_connection(&self) -> NativeConnection {
        Connection::spec_native_connection(self)
    }

    fn native_connection(&self) -> (n: NativeConnection) {
        Connection::native_connection(self)
    }

    open spec fn spec_gl_api(&self) -> GLApi {
        Connection::spec_gl_api(self)
    }

    fn gl_api(&self) -> (r: GLApi) {
        Connection::gl_api(self)
    }

    open spec fn spec_adapter_for(&self, preference: adapter::Adapter) -> Result<Adapter, Error> {
        Connection::spec_adapter_for(self, preference)
    }

    fn create_adapter(&self) -> (r: Result<Adapter, Error>) {
        Connection::create_adapter(self)
    }

    fn create_hardware_adapter(&self) -> (r: Result<Adapter, Error>) {
        Connection::create_hardware_adapter(self)
    }

    fn create_low_power_adapter(&self) -> (r: Result<Adapter, Error>) {
        Connection::create_low_power_adapter(self)
    }

    fn create_software_adapter(&self) -> (r: Result<Adapter, Error>) {
        Connection::create_software_adapter(self)
    }

    open spec fn spec_create_device(&self, adapter: Adapter) -> Result<Device, Error> {
        Connection::spec_create_device(self, adapter)
    }

    fn create_device(&self, adapter: &Adapter) -> (r: Result<Device, Error>) {
        Connection::create_device(self, adapter)
    }

    open spec fn spec_create_device_from_native_device(&self, native_device: NativeDevice) -> Result<
        Device,
        Error,
    > {
        Connection::spec_create_device_from_native_device(self, native_device)
    }

    fn create_device_from_native_device(&self, native_device: NativeDevice) -> (r: Result<
        Device,
        Error,
    >) {
        Connection::create_device_from_native_device(self, native_device)
    }

    open spec fn spec_widget_from_ptr(&self, raw: usize) -> NativeWidget {
        match *self {
            Connection::Default(_) => NativeWidget::Default(x11::NativeWidget { window: raw as u64 }),
            Connection::Alternate(_) => NativeWidget::Alternate(surfaceless::NativeWidget),
        }
    }

    fn create_native_widget_from_ptr(
        &self,
        raw: usize,
        size: euclid::default::Size2D<i32>,
    ) -> (w: NativeWidget) {
        Connection::create_native_widget_from_ptr(self, raw, size)
    }

    open spec fn spec_widget_from_handle(&self, window: RawWindowHandle) -> Result<
        NativeWidget,
        Error,
    > {
        Connection::spec_widget_from_handle(self, window)
    }

    fn create_native_widget_from_raw_window_handle(
        &self,
        window: RawWindowHandle,
        size: euclid::default::Size2D<i32>,
    ) -> (r: Result<NativeWidget, Error>) {
        Connection::create_native_widget_from_raw_window_handle(self, window, size)
    }

    fn create_native_widget_from_window_handle(
        &self,
        window: RawWindowHandle,
        size: euclid::default::Size2D<i32>,
    ) -> (r: Result<NativeWidget, Error>) {
        Connection::create_native_widget_from_window_handle(self, window, size)
    }
}

// ---------------------------------------------------------------------------
// Laws of the dispatcher
// ---------------------------------------------------------------------------
/// Dispatcher ordering.  The default backend is attempted strictly first:
/// when it succeeds the alternate is never attempted and the connection is
/// on the default variant, whatever the alternate would have done; when it
/// fails, the alternate's outcome decides, so a failing default with a
/// succeeding alternate always yields the alternate variant; and when both
/// fail, the alternate's error is the one surfaced.
pub proof fn lemma_dispatcher_ordering(
    default_outcome: Result<x11::Connection, Error>,
    alternate_outcome: Option<Result<surfaceless::Connection, Error>>,
)
    requires
        (default_outcome is Err) <==> (alternate_outcome is Some),
    ensures
        default_outcome matches Ok(c) ==> alternate_outcome is None && Connection::spec_select(
            default_outcome,
            alternate_outcome,
        ) == Ok::<Connection, Error>(Connection::Default(c)),
        alternate_outcome matches Some(Ok(c)) ==> default_outcome is Err
            && Connection::spec_select(default_outcome, alternate_outcome) == Ok::<
            Connection,
            Error,
        >(Connection::Alternate(c)),
        alternate_outcome matches Some(Err(e)) ==> default_outcome is Err
            && Connection::spec_select(default_outcome, alternate_outcome) == Err::<
            Connection,
            Error,
        >(e),
{
}

/// Cross-variant rejection.  A connection refuses every adapter and every
/// foreign device handle carrying the other variant's tag — whichever pair
/// of backends produced them — with `IncompatibleAdapter` or
/// `IncompatibleNativeDevice`, before anything reaches a backend.
pub proof fn lemma_cross_variant_rejection(
    connection: Connection,
    adapter: Adapter,
    native_device: NativeDevice,
)
    ensures
        connection is Default && adapter is Alternate ==> connection.spec_create_device(adapter)
            == Err::<Device, Error>(Error::IncompatibleAdapter),
        connection is Alternate && adapter is Default ==> connection.spec_create_device(adapter)
            == Err::<Device, Error>(Error::IncompatibleAdapter),
        connection is Default && native_device is Alternate
            ==> connection.spec_create_device_from_native_device(native_device) == Err::<
            Device,
            Error,
        >(Error::IncompatibleNativeDevice),
        connection is Alternate && native_device is Default
            ==> connection.spec_create_device_from_native_device(native_device) == Err::<
            Device,
            Error,
        >(Error::IncompatibleNativeDevice),
{
}

/// All-or-nothing construction.  Whatever the native calls returned to the
/// two backends' construction attempts, the dispatcher either fails with
/// `ConnectionFailed` or returns a well-formed connection on which the GL
/// API query and every adapter preference succeed — never a
/// half-initialized connection.
pub proof fn lemma_new_all_or_nothing(
    x11_display: XlibDisplayPtr,
    x11_egl_display: EglDisplay,
    egl_display: EglDisplay,
    egl_initialized: bool,
)
    ensures
        ({
            let default_outcome = x11::Connection::spec_new(x11_display, x11_egl_display);
            let alternate_outcome = if default_outcome is Err {
                Some(surfaceless::Connection::spec_new(egl_display, egl_initialized))
            } else {
                Option::<Result<surfaceless::Connection, Error>>::None
            };
            let r = Connection::spec_select(default_outcome, alternate_outcome);
            &&& (r matches Ok(c) ==> c.wf() && c.spec_gl_api() == GLApi::GL && c.spec_adapter_for(
                adapter::Adapter::Hardware,
            ) is Ok && c.spec_adapter_for(adapter::Adapter::LowPower) is Ok && c.spec_adapter_for(
                adapter::Adapter::Software,
            ) is Ok)
            &&& (r matches Err(e) ==> e == Error::ConnectionFailed)
        }),
{
}

} // verus!
