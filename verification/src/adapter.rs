//! Adapter selection tokens.

use vstd::prelude::*;

verus! {

/// A selection token for a class of GPU.
///
/// An adapter is an immutable tag, not a live resource: equality is by tag,
/// and a value may be copied freely.  A backend that cannot distinguish
/// adapter classes may map several tags to the same concrete device, as long
/// as it does so consistently.
#[derive(Clone, Copy, Debug, PartialEq, Eq, Structural)]
pub enum Adapter {
    /// Prefer a high-performance hardware adapter.
    Hardware,
    /// Prefer a low-power hardware adapter.
    LowPower,
    /// Prefer a software adapter.
    Software,
}

impl Adapter {
    /// The hardware-preferring adapter tag.
    pub fn hardware() -> (a: Adapter)
        ensures
            a == Adapter::Hardware,
    {
        Adapter::Hardware
    }

    /// The low-power-preferring adapter tag.
    pub fn low_power() -> (a: Adapter)
        ensures
            a == Adapter::LowPower,
    {
        Adapter::LowPower
    }

    /// The software adapter tag.
    pub fn software() -> (a: Adapter)
        ensures
            a == Adapter::Software,
    {
        Adapter::Software
    }
}

} // verus!
