//! The flag by which a watch is called off, and its two ends.

use std::sync::atomic::AtomicBool;
use std::sync::atomic::Ordering;
use std::sync::Arc;
use vstd::prelude::*;

verus! {

/// The holder's end of the flag. Releasing the handle, or dropping it, sets
/// the flag; the loop that watches ends at its next wake, and nobody waits
/// for that.
pub struct WatchHandle {
    dropped: Arc<AtomicBool>,
}

/// The loop's end of the flag: it can be read and not set.
pub struct WatchSignal {
    dropped: Arc<AtomicBool>,
}

/// `AtomicBool::store` of `true` with relaxed ordering. A relaxed store
/// neither panics nor touches anything but the flag itself.
#[verifier::external_body]
fn raise(flag: &AtomicBool)
    opens_invariants none
    no_unwind
{
    flag.store(true, Ordering::Relaxed);
}

/// `Arc::clone`: another pointer to the same allocation, and so to the same
/// flag.
#[verifier::external_body]
fn share(flag: &Arc<AtomicBool>) -> (shared: Arc<AtomicBool>)
    ensures
        shared == *flag,
{
    flag.clone()
}

impl WatchHandle {
    /// The flag that this handle is the holder's end of.
    pub closed spec fn flag(&self) -> Arc<AtomicBool> {
        self.dropped
    }

    /// `set` is what a relaxed load of this handle's flag gave.
    pub open spec fn reads(&self, set: bool) -> bool {
        call_ensures(AtomicBool::load, (&*self.flag(), Ordering::Relaxed), set)
    }

    /// A handle whose flag is not set: the flag is a new atomic that was made
    /// with the value `false`.
    pub fn new() -> (handle: WatchHandle)
        ensures
            call_ensures(AtomicBool::new, (false,), *handle.flag()),
    {
        WatchHandle { dropped: Arc::new(AtomicBool::new(false)) }
    }

    /// The other end of this handle's flag, for the loop that watches.
    pub fn signal(&self) -> (signal: WatchSignal)
        ensures
            signal.flag() == self.flag(),
    {
        WatchSignal { dropped: share(&self.dropped) }
    }

    /// Sets the flag: the watch is called off.
    pub fn release(&self) {
        raise(&self.dropped);
    }

    /// Whether the flag is set at this moment: what a relaxed load of this
    /// handle's flag gives.
    pub fn is_released(&self) -> (released: bool)
        ensures
            self.reads(released),
    {
        self.dropped.load(Ordering::Relaxed)
    }
}

impl WatchSignal {
    /// The flag that this signal is the loop's end of.
    pub closed spec fn flag(&self) -> Arc<AtomicBool> {
        self.dropped
    }

    /// `set` is what a relaxed load of this signal's flag gave.
    pub open spec fn reads(&self, set: bool) -> bool {
        call_ensures(AtomicBool::load, (&*self.flag(), Ordering::Relaxed), set)
    }

    /// Whether the flag is set at this moment: what a relaxed load of this
    /// signal's flag gives. Its holder may set it at any time, so nothing
    /// follows for a later moment.
    pub fn is_set(&self) -> (set: bool)
        ensures
            self.reads(set),
    {
        self.dropped.load(Ordering::Relaxed)
    }
}

impl Default for WatchHandle {
    /// A handle whose flag is not set, as `new` makes it.
    fn default() -> (handle: WatchHandle)
        ensures
            call_ensures(AtomicBool::new, (false,), *handle.flag()),
    {
        WatchHandle::new()
    }
}

impl Drop for WatchHandle {
    fn drop(&mut self)
        opens_invariants none
        no_unwind
    {
        raise(&self.dropped);
    }
}

} // verus!
