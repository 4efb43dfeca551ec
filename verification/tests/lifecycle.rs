//! The native-display lifecycle: process-wide initialization, shared
//! ownership with close-exactly-once, and the scoped display lock.

use surfman::error::Error;
use surfman::handles::EglDisplay;
use surfman::handles::XlibDisplayPtr;
use surfman::x11::DisplayGuard;
use surfman::x11::NativeConnectionWrapper;
use surfman::x11::ReleaseAction;
use surfman::x11::ThreadInitFlag;

#[test]
fn thread_init_runs_once_across_many_connections() {
    let mut threads = ThreadInitFlag::new();
    let mut native_calls: u32 = 0;
    for _ in 0..5 {
        if threads.ensure_initialized() {
            native_calls += 1;
        }
    }
    assert_eq!(native_calls, 1);
    assert!(threads.initialized);
}

#[test]
fn owned_display_closed_exactly_once_at_last_release() {
    let display = XlibDisplayPtr { addr: 0x3000 };
    let mut wrapper = NativeConnectionWrapper::new_owned(EglDisplay { addr: 0x4000 }, display);
    // Two clones share the wrapper.
    wrapper.retain();
    wrapper.retain();
    assert_eq!(wrapper.ref_count, 3);
    assert_eq!(wrapper.release(), ReleaseAction::Retained);
    assert_eq!(wrapper.release(), ReleaseAction::Retained);
    // Only the very last release asks for the close, and for this display.
    assert_eq!(wrapper.release(), ReleaseAction::CloseDisplay(display));
    assert_eq!(wrapper.ref_count, 0);
    // The stored pointer is invalidated so a stale reuse is detectable.
    assert!(wrapper.x11_display.is_null());
}

#[test]
fn interleaved_retains_and_releases_close_only_at_the_end() {
    let display = XlibDisplayPtr { addr: 0x3000 };
    let mut wrapper = NativeConnectionWrapper::new_owned(EglDisplay { addr: 0x4000 }, display);
    wrapper.retain();
    assert_eq!(wrapper.release(), ReleaseAction::Retained);
    wrapper.retain();
    assert_eq!(wrapper.release(), ReleaseAction::Retained);
    assert_eq!(wrapper.release(), ReleaseAction::CloseDisplay(display));
}

#[test]
fn borrowed_display_never_closed() {
    let display = XlibDisplayPtr { addr: 0x3000 };
    let mut wrapper = NativeConnectionWrapper::new_borrowed(EglDisplay { addr: 0x4000 }, display);
    for _ in 0..4 {
        wrapper.retain();
    }
    for _ in 0..4 {
        assert_eq!(wrapper.release(), ReleaseAction::Retained);
    }
    // Even the last release only invalidates; it never asks for a close.
    assert_eq!(wrapper.release(), ReleaseAction::Disposed);
    assert!(wrapper.x11_display.is_null());
}

#[test]
fn lock_guard_unlocks_once_per_lock() {
    let display = XlibDisplayPtr { addr: 0x3000 };
    let mut wrapper = NativeConnectionWrapper::new_owned(EglDisplay { addr: 0x4000 }, display);
    let guard: DisplayGuard = wrapper.lock_display();
    assert!(wrapper.locked);
    assert_eq!(guard.display(), display);
    wrapper.unlock_display(guard);
    assert!(!wrapper.locked);
    assert_eq!(wrapper.lock_count, 1);
    assert_eq!(wrapper.unlock_count, 1);

    let second = wrapper.lock_display();
    wrapper.unlock_display(second);
    assert_eq!(wrapper.lock_count, 2);
    assert_eq!(wrapper.unlock_count, 2);
}

#[test]
fn lock_released_even_when_bracketed_call_fails() {
    let display = XlibDisplayPtr { addr: 0x3000 };
    let mut wrapper = NativeConnectionWrapper::new_owned(EglDisplay { addr: 0x4000 }, display);
    let failed: Result<u64, Error> =
        wrapper.with_display_locked(|_d| Err(Error::ConnectionFailed));
    assert_eq!(failed, Err(Error::ConnectionFailed));
    assert!(!wrapper.locked);
    assert_eq!(wrapper.lock_count, 1);
    assert_eq!(wrapper.unlock_count, 1);

    let ok: Result<u64, Error> = wrapper.with_display_locked(|d| Ok(d.addr as u64));
    assert_eq!(ok, Ok(0x3000));
    assert!(!wrapper.locked);
    assert_eq!(wrapper.lock_count, 2);
    assert_eq!(wrapper.unlock_count, 2);
}
