//! Behavior of the two concrete backends, driven with concrete handle
//! values.

use surfman::adapter::Adapter;
use surfman::error::Error;
use surfman::handles::DisplayHandle;
use surfman::handles::EglDisplay;
use surfman::handles::RawDisplayHandle;
use surfman::handles::RawWindowHandle;
use surfman::handles::XlibDisplayPtr;
use surfman::info::GLApi;
use surfman::surfaceless;
use surfman::x11;

fn size() -> euclid::default::Size2D<i32> {
    euclid::default::Size2D::new(640, 480)
}

#[test]
fn surfaceless_new_succeeds_on_initialized_display() {
    let connection = surfaceless::Connection::new(EglDisplay { addr: 0x1000 }, true).unwrap();
    assert_eq!(connection.native_connection.egl_display, EglDisplay { addr: 0x1000 });
    assert_eq!(connection.gl_api(), GLApi::GL);
    assert_eq!(connection.native_connection().egl_display(), EglDisplay { addr: 0x1000 });
}

#[test]
fn surfaceless_new_fails_without_display() {
    let r = surfaceless::Connection::new(EglDisplay::no_display(), true);
    assert_eq!(r, Err(Error::ConnectionFailed));
}

#[test]
fn surfaceless_new_fails_on_failed_initialization() {
    let r = surfaceless::Connection::new(EglDisplay { addr: 0x1000 }, false);
    assert_eq!(r, Err(Error::ConnectionFailed));
}

#[test]
fn surfaceless_adapters_are_consistent_tags() {
    let connection = surfaceless::Connection::new(EglDisplay { addr: 0x1000 }, true).unwrap();
    assert_eq!(connection.create_adapter(), Ok(Adapter::Hardware));
    assert_eq!(connection.create_hardware_adapter(), Ok(Adapter::Hardware));
    assert_eq!(connection.create_low_power_adapter(), Ok(Adapter::LowPower));
    assert_eq!(connection.create_software_adapter(), Ok(Adapter::Software));
    // Repeated queries return the same tag.
    assert_eq!(connection.create_adapter(), connection.create_hardware_adapter());
}

#[test]
fn surfaceless_rejects_every_display_handle() {
    let raw = RawDisplayHandle::Xlib { display: 0x2000, screen: 0 };
    assert_eq!(
        surfaceless::Connection::from_raw_display_handle(raw),
        Err(Error::IncompatibleRawDisplayHandle)
    );
    let checked = DisplayHandle::Xlib { display: Some(0x2000), screen: 0 };
    assert_eq!(
        surfaceless::Connection::from_display_handle(checked),
        Err(Error::IncompatibleRawDisplayHandle)
    );
}

#[test]
fn surfaceless_rejects_every_window_handle() {
    let connection = surfaceless::Connection::new(EglDisplay { addr: 0x1000 }, true).unwrap();
    let window = RawWindowHandle::Xlib { window: 99 };
    assert_eq!(
        connection.create_native_widget_from_raw_window_handle(window, size()),
        Err(Error::IncompatibleNativeWidget)
    );
    assert_eq!(
        connection.create_native_widget_from_window_handle(window, size()),
        Err(Error::IncompatibleNativeWidget)
    );
}

#[test]
fn surfaceless_device_carries_adapter_and_display() {
    let connection = surfaceless::Connection::new(EglDisplay { addr: 0x1000 }, true).unwrap();
    let adapter = connection.create_software_adapter().unwrap();
    let device = connection.create_device(&adapter).unwrap();
    assert_eq!(device.adapter, Adapter::Software);
    assert_eq!(device.egl_display, EglDisplay { addr: 0x1000 });
}

fn initialized_threads() -> x11::ThreadInitFlag {
    let mut threads = x11::ThreadInitFlag::new();
    threads.ensure_initialized();
    threads
}

#[test]
fn x11_new_owns_its_display() {
    let threads = initialized_threads();
    let connection = x11::Connection::new(
        &threads,
        XlibDisplayPtr { addr: 0x3000 },
        EglDisplay { addr: 0x4000 },
        true,
    )
    .unwrap();
    assert!(connection.native_connection.x11_display_is_owned);
    assert_eq!(connection.native_connection.ref_count, 1);
    assert_eq!(connection.native_connection.x11_display, XlibDisplayPtr { addr: 0x3000 });
    assert_eq!(connection.gl_api(), GLApi::GL);
}

#[test]
fn x11_new_fails_on_null_display() {
    let threads = initialized_threads();
    let r = x11::Connection::new(&threads, XlibDisplayPtr::null(), EglDisplay { addr: 0 }, true);
    assert_eq!(r, Err(Error::ConnectionFailed));
}

#[test]
fn x11_from_native_connection_borrows() {
    let native = x11::NativeConnection {
        egl_display: EglDisplay { addr: 0x4000 },
        x11_display: XlibDisplayPtr { addr: 0x3000 },
    };
    let connection = x11::Connection::from_native_connection(native).unwrap();
    assert!(!connection.native_connection.x11_display_is_owned);
    let round_trip = connection.native_connection();
    assert_eq!(round_trip, native);
}

#[test]
fn x11_adapters_are_consistent_tags() {
    let threads = initialized_threads();
    let connection = x11::Connection::new(
        &threads,
        XlibDisplayPtr { addr: 0x3000 },
        EglDisplay { addr: 0x4000 },
        true,
    )
    .unwrap();
    assert_eq!(connection.create_adapter(), Ok(Adapter::Hardware));
    assert_eq!(connection.create_hardware_adapter(), Ok(Adapter::Hardware));
    assert_eq!(connection.create_low_power_adapter(), Ok(Adapter::LowPower));
    assert_eq!(connection.create_software_adapter(), Ok(Adapter::Software));
}

#[test]
fn x11_device_carries_adapter_and_display() {
    let threads = initialized_threads();
    let connection = x11::Connection::new(
        &threads,
        XlibDisplayPtr { addr: 0x3000 },
        EglDisplay { addr: 0x4000 },
        true,
    )
    .unwrap();
    let adapter = connection.create_low_power_adapter().unwrap();
    let device = connection.create_device(&adapter).unwrap();
    assert_eq!(device.adapter, Adapter::LowPower);
    assert_eq!(device.egl_display, EglDisplay { addr: 0x4000 });
    let native_device = x11::NativeDevice { adapter: Adapter::Software };
    let imported = connection.create_device_from_native_device(native_device).unwrap();
    assert_eq!(imported.adapter, Adapter::Software);
}

#[test]
fn x11_adopts_xlib_display_handle_without_owning_it() {
    let raw = RawDisplayHandle::Xlib { display: 0x5000, screen: 1 };
    let connection =
        x11::Connection::from_raw_display_handle(raw, EglDisplay { addr: 0x4000 }, true).unwrap();
    assert!(!connection.native_connection.x11_display_is_owned);
    assert_eq!(connection.native_connection.x11_display, XlibDisplayPtr { addr: 0x5000 });
}

#[test]
fn x11_xcb_display_handle_is_unimplemented() {
    let raw = RawDisplayHandle::Xcb { connection: 0x5000, screen: 0 };
    let r = x11::Connection::from_raw_display_handle(raw, EglDisplay { addr: 0 }, false);
    assert_eq!(r, Err(Error::Unimplemented));
}

#[test]
fn x11_foreign_display_handle_is_incompatible() {
    let r = x11::Connection::from_raw_display_handle(
        RawDisplayHandle::Other,
        EglDisplay { addr: 0 },
        false,
    );
    assert_eq!(r, Err(Error::IncompatibleRawDisplayHandle));
}

#[test]
fn x11_checked_display_handle_paths() {
    let adopted = DisplayHandle::Xlib { display: Some(0x5000), screen: 0 };
    let connection =
        x11::Connection::from_display_handle(adopted, EglDisplay { addr: 0x4000 }, true).unwrap();
    assert_eq!(connection.native_connection.x11_display, XlibDisplayPtr { addr: 0x5000 });
    assert!(!connection.native_connection.x11_display_is_owned);

    let missing = DisplayHandle::Xlib { display: None, screen: 0 };
    assert_eq!(
        x11::Connection::from_display_handle(missing, EglDisplay { addr: 0 }, false),
        Err(Error::IncompatibleRawDisplayHandle)
    );
    let xcb = DisplayHandle::Xcb { connection: Some(0x5000), screen: 0 };
    assert_eq!(
        x11::Connection::from_display_handle(xcb, EglDisplay { addr: 0 }, false),
        Err(Error::Unimplemented)
    );
}

#[test]
fn x11_widget_from_window_handle() {
    let threads = initialized_threads();
    let connection = x11::Connection::new(
        &threads,
        XlibDisplayPtr { addr: 0x3000 },
        EglDisplay { addr: 0x4000 },
        true,
    )
    .unwrap();
    let widget = connection
        .create_native_widget_from_raw_window_handle(RawWindowHandle::Xlib { window: 77 }, size())
        .unwrap();
    assert_eq!(widget.window, 77);
    let same = connection
        .create_native_widget_from_window_handle(RawWindowHandle::Xlib { window: 77 }, size())
        .unwrap();
    assert_eq!(same, widget);
    assert_eq!(
        connection.create_native_widget_from_raw_window_handle(RawWindowHandle::Other, size()),
        Err(Error::IncompatibleNativeWidget)
    );
}

#[test]
fn x11_widget_from_ptr_keeps_the_pointer_value() {
    let threads = initialized_threads();
    let connection = x11::Connection::new(
        &threads,
        XlibDisplayPtr { addr: 0x3000 },
        EglDisplay { addr: 0x4000 },
        true,
    )
    .unwrap();
    let widget = connection.create_native_widget_from_ptr(0xabcd, size());
    assert_eq!(widget.window, 0xabcd);
}
