//! The probe-once registry protocol.
//!
//! Each library has one slot. A slot starts unprobed; the first
//! install records the outcome of probing the library — `Some` binding
//! or `None` for an absent library — and every later install leaves
//! the slot exactly as it was. Absence is an ordinary stored value,
//! never an error: a caller of a probed slot always gets an answer.
//!
//! The slot itself is a sequential value; a caller that shares a
//! registry between threads guards it so that probing and reading are
//! not interleaved, and the contracts here then guarantee that exactly
//! one probe outcome is ever observed.

use vstd::prelude::*;

verus! {

/// One registry slot: unprobed, or holding the memoized outcome of
/// the single probe.
pub struct Slot<T> {
    state: Option<Option<T>>,
}

impl<T> Slot<T> {
    /// Whether the slot has been probed.
    pub closed spec fn probed(self) -> bool {
        self.state is Some
    }

    /// The memoized probe outcome, meaningful once probed: `None`
    /// stands for an absent library.
    pub closed spec fn stored(self) -> Option<T>
        recommends
            self.probed(),
    {
        self.state->Some_0
    }

    /// The slot as it stands after an install with the given probe
    /// outcome.
    pub closed spec fn installed(self, probe: Option<T>) -> Slot<T> {
        if self.probed() {
            self
        } else {
            Slot { state: Some(probe) }
        }
    }

    /// A fresh, unprobed slot.
    pub fn new() -> (s: Slot<T>)
        ensures
            !s.probed(),
    {
        Slot { state: None }
    }

    /// Whether a probe is still owed; the caller probes only when this
    /// holds.
    pub fn needs_probe(&self) -> (b: bool)
        ensures
            b <==> !self.probed(),
    {
        self.state.is_none()
    }

    /// Records a probe outcome. The first install fills the slot; any
    /// later install changes nothing, whatever outcome it brings.
    pub fn install(&mut self, probe: Option<T>)
        ensures
            *final(self) == old(self).installed(probe),
            final(self).probed(),
            old(self).probed() ==> *final(self) == *old(self),
            !old(self).probed() ==> final(self).stored() == probe,
    {
        if self.state.is_none() {
            self.state = Some(probe);
        }
    }

    /// Reads the memoized outcome of a probed slot.
    pub fn get(&self) -> (r: &Option<T>)
        requires
            self.probed(),
        ensures
            *r == self.stored(),
    {
        self.state.as_ref().unwrap()
    }
}

/// Installing over an already installed slot is a no-op: however often
/// a slot is consulted, and whatever later probes would have found,
/// the slot keeps the outcome of its first install.
pub proof fn lemma_install_memoizes<T>(s: Slot<T>, first: Option<T>, later: Option<T>)
    ensures
        s.installed(first).installed(later) == s.installed(first),
        s.probed() ==> s.installed(first) == s,
{
}

/// An absent library propagates as absence: probing an unprobed slot
/// with no binding leaves the slot probed and holding `None`, and
/// nothing else — no error arises and no other slot is touched.
pub proof fn lemma_absence_propagates<T>(s: Slot<T>)
    requires
        !s.probed(),
    ensures
        s.installed(None::<T>).probed(),
        s.installed(None::<T>).stored() is None,
{
}

/// The process-wide registry: one slot per library.
pub struct Registry<D, R, N> {
    pub driver: Slot<D>,
    pub runtime: Slot<R>,
    pub primitives: Slot<N>,
}

impl<D, R, N> Registry<D, R, N> {
    /// A fresh registry with every slot unprobed.
    pub fn new() -> (r: Registry<D, R, N>)
        ensures
            !r.driver.probed(),
            !r.runtime.probed(),
            !r.primitives.probed(),
    {
        Registry { driver: Slot::new(), runtime: Slot::new(), primitives: Slot::new() }
    }
}

} // verus!
