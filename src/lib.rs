//! A thread's native event loop (a "looper"), seen through its handle.
//!
//! A looper is the state tracking an event loop for a thread: objects attached
//! to it listen on file descriptors, and polling dispatches their callbacks
//! when data is available. A thread can have only one looper.
//!
//! The native library owns the loop and its reference count. This crate keeps
//! the decisions around it: when preparation has failed, which handle a
//! reference or a pin carries, and which native entry point each step of a
//! pin's life must call. The caller performs each `NativeCall` it is handed.
use vstd::prelude::*;

pub mod error;
pub mod refcount;

use crate::error::{Error, Result};

verus! {

/// Address of a native looper object; `0` stands for no looper.
///
/// Holding a handle implies no ownership of the object.
pub type LooperHandle = usize;

/// A call into the native looper library that the caller must perform.
#[derive(Copy, Clone, Debug, PartialEq, Eq, Structural)]
pub enum NativeCall {
    /// Increment the reference count of the looper.
    Acquire(LooperHandle),
    /// Decrement the reference count of the looper.
    Release(LooperHandle),
}

/// Copyable reference to a looper: knowledge of which looper, not ownership.
///
/// Two references are equal when their handles are equal.
#[derive(Copy, Clone, Debug, PartialEq, Eq, Structural)]
pub struct LooperRef {
    handle: LooperHandle,
}

impl View for LooperRef {
    type V = LooperHandle;

    closed spec fn view(&self) -> LooperHandle {
        self.handle
    }
}

impl LooperRef {
    /// Create a `LooperRef` from a native handle, without validating it.
    pub fn from_handle(handle: LooperHandle) -> (r: LooperRef)
        ensures
            r@ == handle,
    {
        LooperRef { handle }
    }

    /// Finish preparing the calling thread's looper, given the handle that the
    /// native prepare call returned: the thread's existing looper, a new one,
    /// or `0` when the platform could not provide one.
    pub fn prepare(prepared: LooperHandle) -> (r: Result<LooperRef>)
        ensures
            prepared == 0 <==> r == Err::<LooperRef, Error>(Error::PrepareLooperFailed),
            prepared != 0 <==> (r matches Ok(l) && l@ == prepared),
    {
        if prepared == 0 {
            return Err(Error::PrepareLooperFailed);
        }
        Ok(LooperRef { handle: prepared })
    }

    /// Pin the looper, so that it is not deleted until the returned value is
    /// dropped. The caller performs its `acquire_call` now and its
    /// `release_call` when the pin ends.
    pub fn acquire(&self) -> (r: AcquiredLooper)
        ensures
            r@ == self@,
    {
        AcquiredLooper::from_ref(*self)
    }

    /// Get the native looper handle.
    pub fn handle(&self) -> (r: LooperHandle)
        ensures
            r == self@,
    {
        self.handle
    }
}

/// A pin on a looper: one tick of its native reference count, held from
/// construction to destruction.
///
/// It is needed only to hand a looper safely from one thread to another. It is
/// not copyable, and the only way to make one is from a `LooperRef`.
#[derive(Debug)]
pub struct AcquiredLooper {
    handle: LooperHandle,
}

impl View for AcquiredLooper {
    type V = LooperHandle;

    closed spec fn view(&self) -> LooperHandle {
        self.handle
    }
}

impl AcquiredLooper {
    /// The native call that takes the pin's reference.
    pub open spec fn spec_acquire_call(&self) -> NativeCall {
        NativeCall::Acquire(self@)
    }

    /// The native call that gives the pin's reference back.
    pub open spec fn spec_release_call(&self) -> NativeCall {
        NativeCall::Release(self@)
    }

    /// Pin the looper that `looper` refers to.
    pub fn from_ref(looper: LooperRef) -> (r: AcquiredLooper)
        ensures
            r@ == looper@,
    {
        AcquiredLooper { handle: looper.handle() }
    }

    /// Get the native handle of the pinned looper.
    pub fn handle(&self) -> (r: LooperHandle)
        ensures
            r == self@,
    {
        self.handle
    }

    /// The native call to perform when the pin is made: an increment.
    pub fn acquire_call(&self) -> (r: NativeCall)
        ensures
            r == self.spec_acquire_call(),
    {
        NativeCall::Acquire(self.handle)
    }

    /// The native call to perform, exactly once, when the pin ends: the
    /// dedicated decrement, never a second increment.
    pub fn release_call(&self) -> (r: NativeCall)
        ensures
            r == self.spec_release_call(),
    {
        NativeCall::Release(self.handle)
    }
}

} // verus!
