//! The multi-backend dispatcher: construction ordering, cross-variant
//! rejection, and the end-to-end scenarios.

use surfman::adapter;
use surfman::connection::Connection as ConnectionInterface;
use surfman::error::Error;
use surfman::handles::EglDisplay;
use surfman::handles::RawDisplayHandle;
use surfman::handles::RawWindowHandle;
use surfman::handles::XlibDisplayPtr;
use surfman::info::GLApi;
use surfman::multi;
use surfman::surfaceless;
use surfman::x11;

fn size() -> euclid::default::Size2D<i32> {
    euclid::default::Size2D::new(640, 480)
}

fn x11_connection() -> x11::Connection {
    let mut threads = x11::ThreadInitFlag::new();
    threads.ensure_initialized();
    x11::Connection::new(
        &threads,
        XlibDisplayPtr { addr: 0x3000 },
        EglDisplay { addr: 0x4000 },
        true,
    )
    .unwrap()
}

fn surfaceless_connection() -> surfaceless::Connection {
    surfaceless::Connection::new(EglDisplay { addr: 0x1000 }, true).unwrap()
}

#[test]
fn dispatcher_stays_on_default_when_it_succeeds() {
    // The default backend succeeded, so the alternate was never attempted.
    let connection = multi::Connection::new(Ok(x11_connection()), None).unwrap();
    assert!(matches!(connection, multi::Connection::Default(_)));
}

#[test]
fn dispatcher_falls_back_to_alternate() {
    // A default backend that always fails, an alternate that succeeds: the
    // active variant is always the alternate.
    let connection = multi::Connection::new(
        Err(Error::ConnectionFailed),
        Some(Ok(surfaceless_connection())),
    )
    .unwrap();
    assert!(matches!(connection, multi::Connection::Alternate(_)));
}

#[test]
fn dispatcher_surfaces_the_alternate_error_when_both_fail() {
    let r = multi::Connection::new(
        Err(Error::ConnectionFailed),
        Some(Err(Error::IncompatibleRawDisplayHandle)),
    );
    assert_eq!(r, Err(Error::IncompatibleRawDisplayHandle));
}

#[test]
fn connection_from_new_is_fully_usable() {
    // Either construction fails outright, or the result answers every pure
    // query: no half-initialized connection.
    let connection = multi::Connection::new(Ok(x11_connection()), None).unwrap();
    assert_eq!(connection.gl_api(), GLApi::GL);
    assert!(connection.create_adapter().is_ok());
    assert!(connection.create_hardware_adapter().is_ok());
    assert!(connection.create_low_power_adapter().is_ok());
    assert!(connection.create_software_adapter().is_ok());
}

#[test]
fn cross_variant_adapter_is_rejected() {
    let default_connection = multi::Connection::new(Ok(x11_connection()), None).unwrap();
    let alternate_connection = multi::Connection::new(
        Err(Error::ConnectionFailed),
        Some(Ok(surfaceless_connection())),
    )
    .unwrap();

    // Adapters minted by the other variant, for every preference.
    for preference in [
        adapter::Adapter::Hardware,
        adapter::Adapter::LowPower,
        adapter::Adapter::Software,
    ] {
        let foreign = multi::Adapter::Alternate(preference);
        assert_eq!(
            default_connection.create_device(&foreign),
            Err(Error::IncompatibleAdapter)
        );
        let foreign = multi::Adapter::Default(preference);
        assert_eq!(
            alternate_connection.create_device(&foreign),
            Err(Error::IncompatibleAdapter)
        );
    }
}

#[test]
fn cross_variant_native_device_is_rejected() {
    let default_connection = multi::Connection::new(Ok(x11_connection()), None).unwrap();
    let foreign = multi::NativeDevice::Alternate(surfaceless::NativeDevice);
    assert_eq!(
        default_connection.create_device_from_native_device(foreign),
        Err(Error::IncompatibleNativeDevice)
    );

    let alternate_connection = multi::Connection::new(
        Err(Error::ConnectionFailed),
        Some(Ok(surfaceless_connection())),
    )
    .unwrap();
    let foreign = multi::NativeDevice::Default(x11::NativeDevice {
        adapter: adapter::Adapter::Hardware,
    });
    assert_eq!(
        alternate_connection.create_device_from_native_device(foreign),
        Err(Error::IncompatibleNativeDevice)
    );
}

#[test]
fn matching_variant_device_opens() {
    let connection = multi::Connection::new(Ok(x11_connection()), None).unwrap();
    let adapter = connection.create_adapter().unwrap();
    let device = connection.create_device(&adapter).unwrap();
    assert!(matches!(device, multi::Device::Default(_)));
}

#[test]
fn scenario_surfaceless_hardware_device() {
    // Construct a surfaceless connection, request a hardware adapter, open a
    // device: it succeeds and the device carries the connection's tag.
    let connection = multi::Connection::new(
        Err(Error::ConnectionFailed),
        Some(Ok(surfaceless_connection())),
    )
    .unwrap();
    let adapter = connection.create_hardware_adapter().unwrap();
    assert!(matches!(adapter, multi::Adapter::Alternate(adapter::Adapter::Hardware)));
    let device = connection.create_device(&adapter).unwrap();
    match device {
        multi::Device::Alternate(device) => {
            assert_eq!(device.adapter, adapter::Adapter::Hardware);
            assert_eq!(device.egl_display, EglDisplay { addr: 0x1000 });
        },
        multi::Device::Default(_) => panic!("device does not carry the connection's tag"),
    }
}

#[test]
fn scenario_wrapping_a_dead_foreign_display_never_closes_it() {
    // A connection wrapped around an externally supplied (possibly already
    // closed) display must never ask for the display to be closed again.
    let native = x11::NativeConnection {
        egl_display: EglDisplay { addr: 0x4000 },
        x11_display: XlibDisplayPtr { addr: 0x6000 },
    };
    let connection = x11::Connection::from_native_connection(native).unwrap();
    let mut wrapper = connection.native_connection;
    assert_eq!(wrapper.release(), x11::ReleaseAction::Disposed);
}

#[test]
fn scenario_mismatched_window_handle_is_rejected() {
    // A window handle whose platform tag does not match the active backend
    // is refused without ever dereferencing the foreign handle.
    let connection = multi::Connection::new(Ok(x11_connection()), None).unwrap();
    assert_eq!(
        connection.create_native_widget_from_raw_window_handle(RawWindowHandle::Other, size()),
        Err(Error::IncompatibleNativeWidget)
    );
    let alternate_connection = multi::Connection::new(
        Err(Error::ConnectionFailed),
        Some(Ok(surfaceless_connection())),
    )
    .unwrap();
    assert_eq!(
        alternate_connection
            .create_native_widget_from_window_handle(RawWindowHandle::Xlib { window: 4 }, size()),
        Err(Error::IncompatibleNativeWidget)
    );
}

#[test]
fn dispatcher_handle_exchange_follows_the_fallback_policy() {
    let adopted = multi::Connection::from_raw_display_handle(
        RawDisplayHandle::Xlib { display: 0x5000, screen: 0 },
        EglDisplay { addr: 0x4000 },
        true,
    )
    .unwrap();
    assert!(matches!(adopted, multi::Connection::Default(_)));
    // Neither backend takes the handle: the alternate's error is surfaced.
    assert_eq!(
        multi::Connection::from_raw_display_handle(
            RawDisplayHandle::Other,
            EglDisplay { addr: 0 },
            false,
        ),
        Err(Error::IncompatibleRawDisplayHandle)
    );
}

// A backend-agnostic caller, written once against the abstract contract.
fn widget_through_interface<C: ConnectionInterface>(
    connection: &C,
    window: RawWindowHandle,
) -> Result<C::NativeWidget, Error> {
    let _api = connection.gl_api();
    let _adapter = connection.create_adapter();
    connection.create_native_widget_from_raw_window_handle(window, size())
}

#[test]
fn abstract_interface_dispatches_to_every_backend() {
    let x = x11_connection();
    let widget = widget_through_interface(&x, RawWindowHandle::Xlib { window: 5 }).unwrap();
    assert_eq!(widget.window, 5);

    let s = surfaceless_connection();
    assert_eq!(
        widget_through_interface(&s, RawWindowHandle::Xlib { window: 5 }),
        Err(Error::IncompatibleNativeWidget)
    );

    let m = multi::Connection::new(Ok(x11_connection()), None).unwrap();
    let widget = widget_through_interface(&m, RawWindowHandle::Xlib { window: 5 }).unwrap();
    assert!(matches!(widget, multi::NativeWidget::Default(w) if w.window == 5));
}
