//! Reference model of the guard that every emitted instance module holds:
//! one flag, and the four operations that hand out the handle.

use vstd::prelude::*;

verus! {

/// The handle of an instance: the address of its register block.
#[derive(Clone, Copy, Debug, PartialEq, Eq, Structural)]
pub struct Handle {
    pub addr: u64,
}

/// Why a release was refused. The emitted code aborts the program here.
#[derive(Clone, Copy, Debug, PartialEq, Eq, Structural)]
pub enum ReleaseAbort {
    /// The instance was not taken.
    NotTaken,
    /// The handle belongs to another instance.
    ForeignHandle,
}

/// The guard of one instance.
#[derive(Clone, Copy, Debug, PartialEq, Eq, Structural)]
pub struct Guard {
    /// Address of the register block of the instance.
    pub address: u64,
    /// Whether the handle is handed out.
    pub taken: bool,
}

impl Guard {
    /// The handle of the instance that this guard protects.
    pub open spec fn handle(self) -> Handle {
        Handle { addr: self.address }
    }

    /// The guard after a `take`, and what the `take` returns.
    pub open spec fn after_take(self) -> (Guard, Option<Handle>) {
        if self.taken {
            (self, None)
        } else {
            (Guard { address: self.address, taken: true }, Some(self.handle()))
        }
    }

    /// The guard after a `release` of `handle`, and what the `release`
    /// returns.
    pub open spec fn after_release(self, handle: Handle) -> (Guard, Result<(), ReleaseAbort>) {
        if !self.taken {
            (self, Err(ReleaseAbort::NotTaken))
        } else if handle.addr != self.address {
            (self, Err(ReleaseAbort::ForeignHandle))
        } else {
            (Guard { address: self.address, taken: false }, Ok(()))
        }
    }

    /// The guard after a `steal`, and what the `steal` returns.
    pub open spec fn after_steal(self) -> (Guard, Handle) {
        (Guard { address: self.address, taken: true }, self.handle())
    }

    /// The guard of the instance at `address`, not taken.
    pub fn new(address: u64) -> (guard: Guard)
        ensures
            guard == (Guard { address, taken: false }),
    {
        Guard { address, taken: false }
    }

    /// Hands out the handle unless it is handed out already.
    pub fn take(&mut self) -> (handle: Option<Handle>)
        ensures
            (*final(self), handle) == old(self).after_take(),
    {
        if self.taken {
            None
        } else {
            self.taken = true;
            Some(Handle { addr: self.address })
        }
    }

    /// Takes the handle back. Refuses where the instance is not taken, or
    /// the handle is that of another instance; the guard then stays as it
    /// is.
    pub fn release(&mut self, handle: Handle) -> (outcome: Result<(), ReleaseAbort>)
        ensures
            (*final(self), outcome) == old(self).after_release(handle),
    {
        if !self.taken {
            Err(ReleaseAbort::NotTaken)
        } else if handle.addr != self.address {
            Err(ReleaseAbort::ForeignHandle)
        } else {
            self.taken = false;
            Ok(())
        }
    }

    /// Hands out the handle whatever the flag says, and sets the flag.
    pub fn steal(&mut self) -> (handle: Handle)
        ensures
            (*final(self), handle) == old(self).after_steal(),
    {
        self.taken = true;
        Handle { addr: self.address }
    }

    /// Hands out the handle and leaves the flag as it is.
    pub fn conjure(&self) -> (handle: Handle)
        ensures
            handle == self.handle(),
    {
        Handle { addr: self.address }
    }
}

/// While the handle is out, no second `take` succeeds: at most one handle
/// comes from `take` between two releases.
pub proof fn lemma_second_take_fails(guard: Guard)
    requires
        guard.after_take().1 is Some,
    ensures
        guard.after_take().0.taken,
        guard.after_take().0.after_take().1 is None,
        guard.after_take().0.after_take().0 == guard.after_take().0,
{
}

/// A `release` of the very handle that `take` returned succeeds, and the
/// next `take` succeeds again with the same handle.
pub proof fn lemma_release_restores_take(guard: Guard)
    requires
        guard.after_take().1 is Some,
    ensures
        guard.after_take().0.after_release(guard.after_take().1->Some_0).1 is Ok,
        guard.after_take().0.after_release(guard.after_take().1->Some_0).0.after_take().1
            == guard.after_take().1,
{
}

/// A `release` of the handle of another instance is refused, and so is one
/// of an instance that is not taken; the guard stays as it is.
pub proof fn lemma_foreign_release_is_refused(guard: Guard, handle: Handle)
    requires
        !guard.taken || handle.addr != guard.address,
    ensures
        guard.after_release(handle).1 is Err,
        guard.after_release(handle).0 == guard,
{
}

/// `steal` returns the handle of the instance and leaves the flag set,
/// whatever the flag was.
pub proof fn lemma_steal_always_succeeds(guard: Guard)
    ensures
        guard.after_steal().1 == guard.handle(),
        guard.after_steal().0.taken,
        guard.after_steal().0.address == guard.address,
{
}

} // verus!
