//! The X11 backend: a connection to an Xlib display server.
//!
//! The native library imposes three protocols that this module tracks
//! explicitly, as verified state:
//!
//! - a process-wide, one-time thread-safety initialization that must run
//!   before the display is used from more than one thread
//!   ([`ThreadInitFlag`]);
//! - reference-counted sharing of the opened display, which must be closed
//!   exactly once, and only by the wrapper that owns it
//!   ([`NativeConnectionWrapper`]);
//! - a global display lock bracketing every native call that is not
//!   documented as thread-safe ([`DisplayGuard`]).
//!
//! The native calls themselves are performed by the embedder, which feeds
//! their results in as plain values and carries the returned actions (such as
//! [`ReleaseAction::CloseDisplay`]) back out to the native library.

use vstd::prelude::*;

use crate::adapter::Adapter;
use crate::connection::Connection as ConnectionInterface;
use crate::connection::NativeConnection as NativeConnectionInterface;
use crate::error::Error;
use crate::handles::DisplayHandle;
use crate::handles::EglDisplay;
use crate::handles::RawDisplayHandle;
use crate::handles::RawWindowHandle;
use crate::handles::XlibDisplayPtr;
use crate::info::GLApi;

verus! {

// ---------------------------------------------------------------------------
// Process-wide thread-safety initialization
// ---------------------------------------------------------------------------
/// The process-wide flag guarding Xlib's one-time thread-safety
/// initialization.  The embedder holds one value of this type for the whole
/// process and passes it through every connection construction.
#[derive(Clone, Copy, Debug, PartialEq, Eq, Structural)]
pub struct ThreadInitFlag {
    /// Whether the native initialization call has already been performed in
    /// this process.
    pub initialized: bool,
}

impl ThreadInitFlag {
    /// A fresh process starts uninitialized.
    pub fn new() -> (f: ThreadInitFlag)
        ensures
            !f.initialized,
    {
        ThreadInitFlag { initialized: false }
    }

    /// The idempotent guard at the top of every connection-construction
    /// path: returns whether the embedder must perform the native
    /// thread-safety initialization now.  After the first pass the flag is
    /// set and every later pass asks for nothing.
    pub fn ensure_initialized(&mut self) -> (must_call: bool)
        ensures
            final(self).initialized,
            must_call == !old(self).initialized,
            (if must_call {
                1nat
            } else {
                0nat
            }) == spec_init_calls(old(self).initialized, 1),
    {
        proof {
            reveal_with_fuel(spec_init_calls, 2);
        }
        let must_call = !self.initialized;
        self.initialized = true;
        must_call
    }
}

/// The number of native thread-safety initialization calls that `rounds`
/// passes through the guard perform, starting from a flag in state
/// `initialized`.
pub open spec fn spec_init_calls(initialized: bool, rounds: nat) -> nat
    decreases rounds,
{
    if rounds == 0 {
        0
    } else {
        (if initialized {
            0nat
        } else {
            1nat
        }) + spec_init_calls(true, (rounds - 1) as nat)
    }
}

/// Process-wide initialization is idempotent: any number of passes through
/// the guard has the same observable effect as a single pass.  The native
/// initialization call is performed exactly once in a process that had not
/// initialized yet, and never again in one that had.
pub proof fn lemma_init_idempotent(initialized: bool, rounds: nat)
    requires
        rounds >= 1,
    ensures
        spec_init_calls(initialized, rounds) == spec_init_calls(initialized, 1),
        spec_init_calls(false, rounds) == 1,
        spec_init_calls(true, rounds) == 0,
    decreases rounds,
{
    reveal_with_fuel(spec_init_calls, 3);
    if rounds > 1 {
        lemma_init_idempotent(true, (rounds - 1) as nat);
    }
}

// ---------------------------------------------------------------------------
// Shared ownership of the native display
// ---------------------------------------------------------------------------
/// What the embedder must do to the native display after dropping one shared
/// reference to the wrapper.
#[derive(Clone, Copy, Debug, PartialEq, Eq, Structural)]
pub enum ReleaseAction {
    /// Other shared references remain: no native action.
    Retained,
    /// The last reference is gone, but the display was only borrowed: it is
    /// invalidated here and must not be closed.
    Disposed,
    /// The last reference is gone and the display was owned: the embedder
    /// must close this native display now, exactly once.
    CloseDisplay(XlibDisplayPtr),
}

/// One operation on the shared owner of a native display: taking one more
/// shared reference, or dropping one.
#[derive(Clone, Copy, Debug, PartialEq, Eq, Structural)]
pub enum ShareOp {
    /// One more shared reference is taken.
    Retain,
    /// One shared reference is dropped.
    Release,
}

/// The number of live references after one share operation.
pub open spec fn spec_refs_after_op(refs: nat, op: ShareOp) -> nat {
    match op {
        ShareOp::Retain => refs + 1,
        ShareOp::Release => if refs > 0 {
            (refs - 1) as nat
        } else {
            0
        },
    }
}

/// A history of share operations is valid when every operation happens while
/// at least one reference is still live: once the count reaches zero the
/// wrapper is gone and nothing further can happen to it.
pub open spec fn spec_valid_history(refs: nat, ops: Seq<ShareOp>) -> bool
    decreases ops.len(),
{
    ops.len() == 0 || (refs >= 1 && spec_valid_history(
        spec_refs_after_op(refs, ops[0]),
        ops.subrange(1, ops.len() as int),
    ))
}

/// The number of live references after a history of share operations.
pub open spec fn spec_refs_after(refs: nat, ops: Seq<ShareOp>) -> nat
    decreases ops.len(),
{
    if ops.len() == 0 {
        refs
    } else {
        spec_refs_after(spec_refs_after_op(refs, ops[0]), ops.subrange(1, ops.len() as int))
    }
}

/// How many times a history of share operations closes the native display.
/// A close happens exactly at a release that drops the last reference of a
/// wrapper that owns its display.
pub open spec fn spec_closes(refs: nat, owned: bool, ops: Seq<ShareOp>) -> nat
    decreases ops.len(),
{
    if ops.len() == 0 {
        0
    } else {
        (if ops[0] is Release && refs == 1 && owned {
            1nat
        } else {
            0nat
        }) + spec_closes(spec_refs_after_op(refs, ops[0]), owned, ops.subrange(1, ops.len() as int))
    }
}

/// A wrapper that merely borrows its display never closes it, however often
/// it is retained and released.
pub proof fn lemma_borrowed_never_closes(refs: nat, ops: Seq<ShareOp>)
    ensures
        spec_closes(refs, false, ops) == 0,
    decreases ops.len(),
{
    if ops.len() > 0 {
        lemma_borrowed_never_closes(spec_refs_after_op(refs, ops[0]), ops.subrange(1, ops.len() as int));
    }
}

/// A wrapper that owns its display closes it exactly once, and only with the
/// release of its last reference: over any valid history the display is
/// closed once if the history ends with no reference left, and not at all
/// while any reference remains.
pub proof fn lemma_owned_closes_exactly_once(refs: nat, ops: Seq<ShareOp>)
    requires
        refs >= 1,
        spec_valid_history(refs, ops),
    ensures
        spec_closes(refs, true, ops) == (if spec_refs_after(refs, ops) == 0 {
            1nat
        } else {
            0nat
        }),
    decreases ops.len(),
{
    reveal_with_fuel(spec_closes, 2);
    reveal_with_fuel(spec_refs_after, 2);
    if ops.len() > 0 {
        let rest = ops.subrange(1, ops.len() as int);
        let refs_next = spec_refs_after_op(refs, ops[0]);
        if ops[0] is Release && refs == 1 {
            assert(refs_next == 0);
            assert(spec_valid_history(refs_next, rest));
            assert(rest.len() == 0);
            assert(spec_closes(refs_next, true, rest) == 0);
            assert(spec_refs_after(refs_next, rest) == 0);
        } else {
            assert(refs_next >= 1);
            lemma_owned_closes_exactly_once(refs_next, rest);
        }
    }
}

/// The shared owner of one opened native display and the graphics display
/// derived from it.
///
/// Several connections (and the devices opened through them) may share one
/// wrapper; the wrapper counts its live references explicitly, and its
/// `release` operation decides what the embedder must do to the native
/// display when a reference is dropped.  The "owns the display" flag is set
/// at whichever construction path opened the display, and never afterwards,
/// so a borrowed display is never closed by this crate's decisions.
#[derive(Debug, PartialEq, Eq, Structural)]
pub struct NativeConnectionWrapper {
    /// The graphics display derived from the native display, already
    /// initialized.
    pub egl_display: EglDisplay,
    /// The native display behind this wrapper.
    pub x11_display: XlibDisplayPtr,
    /// Whether this wrapper opened — and therefore must close — the native
    /// display.
    pub x11_display_is_owned: bool,
    /// The number of live shared references to this wrapper.
    pub ref_count: u64,
    /// How many times the display lock has been acquired through this
    /// wrapper.
    pub lock_count: u64,
    /// How many times the display lock has been released through this
    /// wrapper.
    pub unlock_count: u64,
    /// Whether an acquired lock guard is currently outstanding.
    pub locked: bool,
}

impl NativeConnectionWrapper {
    /// Every acquired lock is released exactly once: the counts differ only
    /// by the one guard that may currently be outstanding.
    pub open spec fn lock_balanced(&self) -> bool {
        self.unlock_count + (if self.locked {
            1int
        } else {
            0int
        }) == self.lock_count
    }

    /// Well-formedness: the lock ledger balances.
    pub open spec fn wf(&self) -> bool {
        self.lock_balanced()
    }

    /// The wrapper a construction path builds around freshly obtained
    /// handles.
    pub open spec fn spec_new(
        egl_display: EglDisplay,
        x11_display: XlibDisplayPtr,
        owned: bool,
    ) -> NativeConnectionWrapper {
        NativeConnectionWrapper {
            egl_display,
            x11_display,
            x11_display_is_owned: owned,
            ref_count: 1,
            lock_count: 0,
            unlock_count: 0,
            locked: false,
        }
    }

    /// Wraps a display that this construction path opened itself: the
    /// wrapper owns it and will ask for it to be closed with the last
    /// release.
    pub fn new_owned(egl_display: EglDisplay, x11_display: XlibDisplayPtr) -> (w:
        NativeConnectionWrapper)
        ensures
            w == Self::spec_new(egl_display, x11_display, true),
            w.wf(),
    {
        NativeConnectionWrapper {
            egl_display,
            x11_display,
            x11_display_is_owned: true,
            ref_count: 1,
            lock_count: 0,
            unlock_count: 0,
            locked: false,
        }
    }

    /// Wraps an externally supplied display: the wrapper borrows it and will
    /// never ask for it to be closed.
    pub fn new_borrowed(egl_display: EglDisplay, x11_display: XlibDisplayPtr) -> (w:
        NativeConnectionWrapper)
        ensures
            w == Self::spec_new(egl_display, x11_display, false),
            w.wf(),
    {
        NativeConnectionWrapper {
            egl_display,
            x11_display,
            x11_display_is_owned: false,
            ref_count: 1,
            lock_count: 0,
            unlock_count: 0,
            locked: false,
        }
    }

    /// Takes one more shared reference to this wrapper.
    pub fn retain(&mut self)
        requires
            old(self).wf(),
            old(self).ref_count < u64::MAX,
        ensures
            final(self).wf(),
            final(self).ref_count == old(self).ref_count + 1,
            final(self).egl_display == old(self).egl_display,
            final(self).x11_display == old(self).x11_display,
            final(self).x11_display_is_owned == old(self).x11_display_is_owned,
            final(self).lock_count == old(self).lock_count,
            final(self).unlock_count == old(self).unlock_count,
            final(self).locked == old(self).locked,
    {
        self.ref_count = self.ref_count + 1;
    }

    /// Drops one shared reference and decides the native action.  The
    /// display is closed exactly when the last reference of an owning
    /// wrapper is dropped; on the last release of a borrowed display the
    /// stored pointer is only invalidated, so that a defensive reuse is
    /// detectable and the display is never closed twice.
    pub fn release(&mut self) -> (act: ReleaseAction)
        requires
            old(self).wf(),
            old(self).ref_count >= 1,
            !old(self).locked,
        ensures
            final(self).wf(),
            final(self).ref_count == old(self).ref_count - 1,
            final(self).egl_display == old(self).egl_display,
            final(self).x11_display_is_owned == old(self).x11_display_is_owned,
            final(self).lock_count == old(self).lock_count,
            final(self).unlock_count == old(self).unlock_count,
            final(self).locked == old(self).locked,
            old(self).ref_count > 1 ==> act == ReleaseAction::Retained && final(self).x11_display
                == old(self).x11_display,
            old(self).ref_count == 1 ==> final(self).x11_display.spec_is_null(),
            old(self).ref_count == 1 && old(self).x11_display_is_owned ==> act
                == ReleaseAction::CloseDisplay(old(self).x11_display),
            old(self).ref_count == 1 && !old(self).x11_display_is_owned ==> act
                == ReleaseAction::Disposed,
            (act is CloseDisplay) == (spec_closes(
                old(self).ref_count as nat,
                old(self).x11_display_is_owned,
                seq![ShareOp::Release],
            ) == 1),
    {
        proof {
            reveal_with_fuel(spec_closes, 2);
            assert(seq![ShareOp::Release].subrange(1, 1).len() == 0);
        }
        self.ref_count = self.ref_count - 1;
        if self.ref_count == 0 {
            let display = self.x11_display;
            self.x11_display = XlibDisplayPtr::null();
            if self.x11_display_is_owned {
                ReleaseAction::CloseDisplay(display)
            } else {
                ReleaseAction::Disposed
            }
        } else {
            ReleaseAction::Retained
        }
    }

    /// Acquires the global display lock.  The embedder performs the native
    /// lock call and then brackets its non-thread-safe native calls until
    /// the guard is handed back to `unlock_display`.
    pub fn lock_display(&mut self) -> (guard: DisplayGuard)
        requires
            old(self).wf(),
            !old(self).locked,
            old(self).lock_count < u64::MAX,
        ensures
            final(self).wf(),
            final(self).locked,
            final(self).lock_count == old(self).lock_count + 1,
            final(self).unlock_count == old(self).unlock_count,
            final(self).ref_count == old(self).ref_count,
            final(self).egl_display == old(self).egl_display,
            final(self).x11_display == old(self).x11_display,
            final(self).x11_display_is_owned == old(self).x11_display_is_owned,
            guard.display == old(self).x11_display,
    {
        self.lock_count = self.lock_count + 1;
        self.locked = true;
        DisplayGuard { display: self.x11_display }
    }

    /// Releases the global display lock.  The guard is consumed, so each
    /// acquired lock is released exactly once.
    pub fn unlock_display(&mut self, guard: DisplayGuard)
        requires
            old(self).wf(),
            old(self).locked,
            guard.display == old(self).x11_display,
        ensures
            final(self).wf(),
            !final(self).locked,
            final(self).lock_count == old(self).lock_count,
            final(self).unlock_count == old(self).unlock_count + 1,
            final(self).ref_count == old(self).ref_count,
            final(self).egl_display == old(self).egl_display,
            final(self).x11_display == old(self).x11_display,
            final(self).x11_display_is_owned == old(self).x11_display_is_owned,
    {
        let _ = guard;
        self.unlock_count = self.unlock_count + 1;
        self.locked = false;
    }

    /// Brackets one native call with the display lock: the lock is acquired,
    /// the call is made on the locked display, and the lock is released on
    /// every path — whether the call succeeded or failed.
    pub fn with_display_locked<T, F: FnOnce(XlibDisplayPtr) -> Result<T, Error>>(
        &mut self,
        f: F,
    ) -> (r: Result<T, Error>)
        requires
            old(self).wf(),
            !old(self).locked,
            old(self).lock_count < u64::MAX,
            call_requires(f, (old(self).x11_display,)),
        ensures
            final(self).wf(),
            !final(self).locked,
            final(self).lock_count == old(self).lock_count + 1,
            final(self).unlock_count == old(self).unlock_count + 1,
            final(self).ref_count == old(self).ref_count,
            final(self).egl_display == old(self).egl_display,
            final(self).x11_display == old(self).x11_display,
            final(self).x11_display_is_owned == old(self).x11_display_is_owned,
            call_ensures(f, (old(self).x11_display,), r),
    {
        let guard = self.lock_display();
        let display = guard.display();
        let result = f(display);
        self.unlock_display(guard);
        result
    }
}

/// A scoped guard for the global display lock: created by
/// [`NativeConnectionWrapper::lock_display`] and consumed, exactly once, by
/// [`NativeConnectionWrapper::unlock_display`].
#[derive(Debug)]
pub struct DisplayGuard {
    /// The locked display.
    pub display: XlibDisplayPtr,
}

impl DisplayGuard {
    /// The display this guard holds locked.
    pub fn display(&self) -> (d: XlibDisplayPtr)
        ensures
            d == self.display,
    {
        self.display
    }
}

// ---------------------------------------------------------------------------
// The connection and the objects opened through it
// ---------------------------------------------------------------------------
/// The value-type view of an X11 connection's handles, for crossing a
/// foreign boundary.  It carries no ownership: whoever re-wraps it gets a
/// borrowed display.
#[derive(Clone, Copy, Debug, PartialEq, Eq, Structural)]
pub struct NativeConnection {
    /// The graphics display bound to the native display, assumed already
    /// initialized.
    pub egl_display: EglDisplay,
    /// The native Xlib display.  Must not be null.
    pub x11_display: XlibDisplayPtr,
}

impl NativeConnection {
    /// The graphics display this native connection describes.
    pub fn egl_display(&self) -> (d: EglDisplay)
        ensures
            d == self.egl_display,
    {
        self.egl_display
    }
}

/// An opened device on the X11 backend.
///
/// A device is usable only from the thread that opened it, and the caller
/// must drop it before the connection it was opened from.
#[derive(Debug, PartialEq, Eq, Structural)]
pub struct Device {
    /// The adapter tag this device was opened for.
    pub adapter: Adapter,
    /// The graphics display the device lives on.
    pub egl_display: EglDisplay,
}

/// A foreign device handle for the X11 backend: it records only the adapter
/// the device was opened for.
#[derive(Clone, Copy, Debug, PartialEq, Eq, Structural)]
pub struct NativeDevice {
    /// The adapter the foreign device was opened for.
    pub adapter: Adapter,
}

/// A native widget on the X11 backend: an Xlib window id.  The widget does
/// not own the window; the caller keeps it alive for as long as anything
/// derived from the widget exists.
#[derive(Clone, Copy, Debug, PartialEq, Eq, Structural)]
pub struct NativeWidget {
    /// The Xlib window id.
    pub window: u64,
}

/// A connection to an X11 display server.
///
/// The connection holds the shared owner of its native display.  Sharing the
/// connection means taking one more reference on the wrapper
/// ([`NativeConnectionWrapper::retain`]); dropping a share means releasing
/// one ([`NativeConnectionWrapper::release`]) and carrying out the returned
/// action.
#[derive(Debug, PartialEq, Eq, Structural)]
pub struct Connection {
    /// The shared owner of the native display handles.
    pub native_connection: NativeConnectionWrapper,
}

impl Connection {
    /// Well-formedness of the connection's wrapper.
    pub open spec fn wf(&self) -> bool {
        self.native_connection.wf()
    }

    /// What connecting to the default display decides, given the display
    /// the native open call returned: a null display is reported as
    /// `ConnectionFailed`; anything else becomes an owned, fully initialized
    /// connection.
    pub open spec fn spec_new(x11_display: XlibDisplayPtr, egl_display: EglDisplay) -> Result<
        Connection,
        Error,
    > {
        if x11_display.spec_is_null() {
            Err(Error::ConnectionFailed)
        } else {
            Ok(
                Connection {
                    native_connection: NativeConnectionWrapper::spec_new(
                        egl_display,
                        x11_display,
                        true,
                    ),
                },
            )
        }
    }

    /// Connects to the default display, given what the native calls
    /// returned: `x11_display` from the open-display call (possibly null)
    /// and, when that was not null, `egl_display` and `egl_initialized` from
    /// deriving the graphics display.
    ///
    /// The process-wide thread-safety initialization must have run first:
    /// the embedder passes its flag through
    /// [`ThreadInitFlag::ensure_initialized`] before opening the display.
    /// A failed graphics-display initialization aborts in the native layer
    /// rather than returning, so it never reaches this constructor.
    pub fn new(
        threads: &ThreadInitFlag,
        x11_display: XlibDisplayPtr,
        egl_display: EglDisplay,
        egl_initialized: bool,
    ) -> (r: Result<Connection, Error>)
        requires
            threads.initialized,
            !x11_display.spec_is_null() ==> egl_initialized,
        ensures
            r == Self::spec_new(x11_display, egl_display),
            r matches Ok(c) ==> c.wf(),
    {
        if x11_display.is_null() {
            return Err(Error::ConnectionFailed);
        }
        Ok(Connection { native_connection: NativeConnectionWrapper::new_owned(egl_display, x11_display) })
    }

    /// Wraps an existing native connection.  The display is borrowed, never
    /// closed by this wrapper; the caller keeps the underlying display open
    /// for the connection's whole life, and vouches that the graphics
    /// display was already initialized.
    pub fn from_native_connection(native_connection: NativeConnection) -> (r: Result<
        Connection,
        Error,
    >)
        ensures
            r == Ok::<Connection, Error>(
                Connection {
                    native_connection: NativeConnectionWrapper::spec_new(
                        native_connection.egl_display,
                        native_connection.x11_display,
                        false,
                    ),
                },
            ),
            r matches Ok(c) ==> c.wf(),
    {
        Ok(
            Connection {
                native_connection: NativeConnectionWrapper::new_borrowed(
                    native_connection.egl_display,
                    native_connection.x11_display,
                ),
            },
        )
    }

    /// Wraps a display selected out of a foreign handle.  The graphics
    /// display is derived from it by the embedder; a failed initialization
    /// there aborts in the native layer, so it never reaches this
    /// constructor.
    pub(crate) fn from_x11_display(
        x11_display: XlibDisplayPtr,
        is_owned: bool,
        egl_display: EglDisplay,
        egl_initialized: bool,
    ) -> (r: Result<Connection, Error>)
        requires
            egl_initialized,
        ensures
            r == Ok::<Connection, Error>(
                Connection {
                    native_connection: NativeConnectionWrapper::spec_new(
                        egl_display,
                        x11_display,
                        is_owned,
                    ),
                },
            ),
            r matches Ok(c) ==> c.wf(),
    {
        if is_owned {
            Ok(
                Connection {
                    native_connection: NativeConnectionWrapper::new_owned(egl_display, x11_display),
                },
            )
        } else {
            Ok(
                Connection {
                    native_connection: NativeConnectionWrapper::new_borrowed(
                        egl_display,
                        x11_display,
                    ),
                },
            )
        }
    }

    /// Returns the value-type view of this connection's handles.
    pub fn native_connection(&self) -> (n: NativeConnection)
        ensures
            n.egl_display == self.native_connection.egl_display,
            n.x11_display == self.native_connection.x11_display,
    {
        NativeConnection {
            egl_display: self.native_connection.egl_display,
            x11_display: self.native_connection.x11_display,
        }
    }

    /// The OpenGL API flavor this connection supports.
    pub fn gl_api(&self) -> (r: GLApi)
        ensures
            r == GLApi::GL,
    {
        GLApi::GL
    }

    /// Returns the "best" adapter, preferring high-performance hardware.
    ///
    /// This is an alias for `create_hardware_adapter`.
    pub fn create_adapter(&self) -> (r: Result<Adapter, Error>)
        ensures
            r == Ok::<Adapter, Error>(Adapter::Hardware),
    {
        self.create_hardware_adapter()
    }

    /// Returns the "best" adapter, preferring high-performance hardware.
    pub fn create_hardware_adapter(&self) -> (r: Result<Adapter, Error>)
        ensures
            r == Ok::<Adapter, Error>(Adapter::Hardware),
    {
        Ok(Adapter::hardware())
    }

    /// Returns the "best" adapter, preferring low-power hardware.
    pub fn create_low_power_adapter(&self) -> (r: Result<Adapter, Error>)
        ensures
            r == Ok::<Adapter, Error>(Adapter::LowPower),
    {
        Ok(Adapter::low_power())
    }

    /// Returns the "best" adapter, preferring software.
    pub fn create_software_adapter(&self) -> (r: Result<Adapter, Error>)
        ensures
            r == Ok::<Adapter, Error>(Adapter::Software),
    {
        Ok(Adapter::software())
    }

    /// What opening a device returns: this backend recognizes every adapter
    /// tag, so a device on this connection's display always opens.
    pub open spec fn spec_create_device(&self, adapter: Adapter) -> Result<Device, Error> {
        Ok(Device { adapter, egl_display: self.native_connection.egl_display })
    }

    /// Opens the device corresponding to the given adapter.
    ///
    /// A device is usable only from the thread that opened it.
    pub fn create_device(&self, adapter: &Adapter) -> (r: Result<Device, Error>)
        ensures
            r == self.spec_create_device(*adapter),
    {
        Ok(Device { adapter: *adapter, egl_display: self.native_connection.egl_display })
    }

    /// Opens the device corresponding to the adapter recorded in the given
    /// foreign device handle.  The caller vouches for the handle's validity.
    pub fn create_device_from_native_device(&self, native_device: NativeDevice) -> (r: Result<
        Device,
        Error,
    >)
        ensures
            r == self.spec_create_device(native_device.adapter),
    {
        self.create_device(&native_device.adapter)
    }

    /// What opening from a foreign display handle in the value-passing shape
    /// decides: an Xlib handle is adopted (borrowed, not owned), an Xcb
    /// handle is recognized but unsupported, and anything else does not
    /// match this backend.
    pub open spec fn spec_from_raw_display_handle(
        raw_handle: RawDisplayHandle,
        egl_display: EglDisplay,
    ) -> Result<Connection, Error> {
        match raw_handle {
            RawDisplayHandle::Xlib { display, .. } => Ok(
                Connection {
                    native_connection: NativeConnectionWrapper::spec_new(
                        egl_display,
                        XlibDisplayPtr { addr: display },
                        false,
                    ),
                },
            ),
            RawDisplayHandle::Xcb { .. } => Err(Error::Unimplemented),
            RawDisplayHandle::Other => Err(Error::IncompatibleRawDisplayHandle),
        }
    }

    /// Opens the display connection described by a foreign display handle in
    /// the value-passing shape.  For an Xlib handle the embedder first
    /// derives the graphics display from the handle's display pointer and
    /// passes the results in; for any other handle both are ignored.
    pub fn from_raw_display_handle(
        raw_handle: RawDisplayHandle,
        egl_display: EglDisplay,
        egl_initialized: bool,
    ) -> (r: Result<Connection, Error>)
        requires
            raw_handle is Xlib ==> egl_initialized,
        ensures
            r == Self::spec_from_raw_display_handle(raw_handle, egl_display),
            r matches Ok(c) ==> c.wf(),
    {
        let display: usize = match raw_handle {
            RawDisplayHandle::Xlib { display, .. } => display,
            RawDisplayHandle::Xcb { .. } => { return Err(Error::Unimplemented) },
            RawDisplayHandle::Other => { return Err(Error::IncompatibleRawDisplayHandle) },
        };
        Connection::from_x11_display(
            XlibDisplayPtr { addr: display },
            false,
            egl_display,
            egl_initialized,
        )
    }

    /// Whether a foreign display handle in the checked shape carries a
    /// display this backend adopts.
    pub open spec fn spec_selects_display(handle: DisplayHandle) -> bool {
        match handle {
            DisplayHandle::Xlib { display, .. } => display is Some,
            _ => false,
        }
    }

    /// What opening from a foreign display handle in the checked shape
    /// decides: an Xlib handle with a present display is adopted (borrowed),
    /// an Xcb handle is recognized but unsupported, and an Xlib handle
    /// without a display — or any other handle — does not match this
    /// backend.
    pub open spec fn spec_from_display_handle(
        handle: DisplayHandle,
        egl_display: EglDisplay,
    ) -> Result<Connection, Error> {
        match handle {
            DisplayHandle::Xlib { display: Some(display), .. } => Ok(
                Connection {
                    native_connection: NativeConnectionWrapper::spec_new(
                        egl_display,
                        XlibDisplayPtr { addr: display },
                        false,
                    ),
                },
            ),
            DisplayHandle::Xcb { .. } => Err(Error::Unimplemented),
            _ => Err(Error::IncompatibleRawDisplayHandle),
        }
    }

    /// Opens the display connection described by a foreign display handle in
    /// the checked shape.  For an adopted handle the embedder first derives
    /// the graphics display from the handle's display pointer and passes the
    /// results in; otherwise both are ignored.
    pub fn from_display_handle(
        handle: DisplayHandle,
        egl_display: EglDisplay,
        egl_initialized: bool,
    ) -> (r: Result<Connection, Error>)
        requires
            Self::spec_selects_display(handle) ==> egl_initialized,
        ensures
            r == Self::spec_from_display_handle(handle, egl_display),
            r matches Ok(c) ==> c.wf(),
    {
        let display: usize = match handle {
            DisplayHandle::Xlib { display: Some(display), .. } => display,
            DisplayHandle::Xcb { .. } => { return Err(Error::Unimplemented) },
            _ => { return Err(Error::IncompatibleRawDisplayHandle) },
        };
        Connection::from_x11_display(
            XlibDisplayPtr { addr: display },
            false,
            egl_display,
            egl_initialized,
        )
    }

    /// Builds a native widget from a raw, untyped window pointer.  This is
    /// inherently unchecked: the caller vouches that the pointer denotes a
    /// real, live Xlib window.
    pub fn create_native_widget_from_ptr(
        &self,
        raw: usize,
        _size: euclid::default::Size2D<i32>,
    ) -> (w: NativeWidget)
        ensures
            w.window == raw as u64,
    {
        NativeWidget { window: raw as u64 }
    }

    /// What building a widget from a typed window handle decides: an Xlib
    /// handle yields its window id; any other platform's handle does not
    /// match this backend and is rejected before any native call could
    /// dereference it.
    pub open spec fn spec_widget_from_handle(window: RawWindowHandle) -> Result<
        NativeWidget,
        Error,
    > {
        match window {
            RawWindowHandle::Xlib { window } => Ok(NativeWidget { window }),
            RawWindowHandle::Other => Err(Error::IncompatibleNativeWidget),
        }
    }

    /// Builds a native widget from a typed window handle, value-passing
    /// shape.
    pub fn create_native_widget_from_raw_window_handle(
        &self,
        window: RawWindowHandle,
        _size: euclid::default::Size2D<i32>,
    ) -> (r: Result<NativeWidget, Error>)
        ensures
            r == Self::spec_widget_from_handle(window),
    {
        match window {
            RawWindowHandle::Xlib { window } => Ok(NativeWidget { window }),
            RawWindowHandle::Other => Err(Error::IncompatibleNativeWidget),
        }
    }

    /// Builds a native widget from a typed window handle, checked shape.
    /// Both handle-interchange standards carry the same fields for what this
    /// backend reads, so the decision is the same as for the value-passing
    /// shape.
    pub fn create_native_widget_from_window_handle(
        &self,
        window: RawWindowHandle,
        _size: euclid::default::Size2D<i32>,
    ) -> (r: Result<NativeWidget, Error>)
        ensures
            r == Self::spec_widget_from_handle(window),
    {
        self.create_native_widget_from_raw_window_handle(window, _size)
    }
}

/// Connecting is all-or-nothing: it either fails with `ConnectionFailed`,
/// or returns a well-formed connection that owns a real (non-null) display,
/// on which every adapter preference and device opening succeeds — never a
/// half-initialized connection.
pub proof fn lemma_new_all_or_nothing(x11_display: XlibDisplayPtr, egl_display: EglDisplay)
    ensures
        Connection::spec_new(x11_display, egl_display) matches Err(e) ==> e
            == Error::ConnectionFailed,
        Connection::spec_new(x11_display, egl_display) matches Ok(c) ==> c.wf()
            && !c.native_connection.x11_display.spec_is_null()
            && c.native_connection.x11_display_is_owned && c.native_connection.ref_count == 1
            && c.spec_create_device(Adapter::Hardware) is Ok,
{
}

impl NativeConnectionInterface for NativeConnection {
    open spec fn spec_egl_display(&self) -> EglDisplay {
        self.egl_display
    }

    fn egl_display(&self) -> (d: EglDisplay) {
        self.egl_display
    }
}

impl ConnectionInterface for Connection {
    type Adapter = Adapter;

    type Device = Device;

    type NativeConnection = NativeConnection;

    type NativeDevice = NativeDevice;

    type NativeWidget = NativeWidget;

    open spec fn wf(&self) -> bool {
        self.native_connection.wf()
    }

    open spec fn spec_native_connection(&self) -> NativeConnection {
        NativeConnection {
            egl_display: self.native_connection.egl_display,
            x11_display: self.native_connection.x11_display,
        }
    }

    fn native_connection(&self) -> (n: NativeConnection) {
        NativeConnection {
            egl_display: self.native_connection.egl_display,
            x11_display: self.native_connection.x11_display,
        }
    }

    open spec fn spec_gl_api(&self) -> GLApi {
        GLApi::GL
    }

    fn gl_api(&self) -> (r: GLApi) {
        GLApi::GL
    }

    open spec fn spec_adapter_for(&self, preference: Adapter) -> Result<Adapter, Error> {
        Ok(preference)
    }

    fn create_adapter(&self) -> (r: Result<Adapter, Error>) {
        Ok(Adapter::hardware())
    }

    fn create_hardware_adapter(&self) -> (r: Result<Adapter, Error>) {
        Ok(Adapter::hardware())
    }

    fn create_low_power_adapter(&self) -> (r: Result<Adapter, Error>) {
        Ok(Adapter::low_power())
    }

    fn create_software_adapter(&self) -> (r: Result<Adapter, Error>) {
        Ok(Adapter::software())
    }

    open spec fn spec_create_device(&self, adapter: Adapter) -> Result<Device, Error> {
        Ok(Device { adapter, egl_display: self.native_connection.egl_display })
    }

    fn create_device(&self, adapter: &Adapter) -> (r: Result<Device, Error>) {
        Ok(Device { adapter: *adapter, egl_display: self.native_connection.egl_display })
    }

    open spec fn spec_create_device_from_native_device(&self, native_device: NativeDevice) -> Result<
        Device,
        Error,
    > {
        Ok(Device { adapter: native_device.adapter, egl_display: self.native_connection.egl_display })
    }

    fn create_device_from_native_device(&self, native_device: NativeDevice) -> (r: Result<
        Device,
        Error,
    >) {
        Ok(
            Device {
                adapter: native_device.adapter,
                egl_display: self.native_connection.egl_display,
            },
        )
    }

    open spec fn spec_widget_from_ptr(&self, raw: usize) -> NativeWidget {
        NativeWidget { window: raw as u64 }
    }

    fn create_native_widget_from_ptr(
        &self,
        raw: usize,
        _size: euclid::default::Size2D<i32>,
    ) -> (w: NativeWidget) {
        NativeWidget { window: raw as u64 }
    }

    open spec fn spec_widget_from_handle(&self, window: RawWindowHandle) -> Result<
        NativeWidget,
        Error,
    > {
        match window {
            RawWindowHandle::Xlib { window } => Ok(NativeWidget { window }),
            RawWindowHandle::Other => Err(Error::IncompatibleNativeWidget),
        }
    }

    fn create_native_widget_from_raw_window_handle(
        &self,
        window: RawWindowHandle,
        _size: euclid::default::Size2D<i32>,
    ) -> (r: Result<NativeWidget, Error>) {
        match window {
            RawWindowHandle::Xlib { window } => Ok(NativeWidget { window }),
            RawWindowHandle::Other => Err(Error::IncompatibleNativeWidget),
        }
    }

    fn create_native_widget_from_window_handle(
        &self,
        window: RawWindowHandle,
        _size: euclid::default::Size2D<i32>,
    ) -> (r: Result<NativeWidget, Error>) {
        match window {
            RawWindowHandle::Xlib { window } => Ok(NativeWidget { window }),
            RawWindowHandle::Other => Err(Error::IncompatibleNativeWidget),
        }
    }
}

} // verus!
