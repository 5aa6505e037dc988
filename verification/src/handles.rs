//! The scoped-ownership pattern applied uniformly to every native handle
//! kind.

use vstd::prelude::*;

use crate::native::{count_in, NativeModel};

verus! {

/// Owns one opaque native handle.
///
/// Construction takes ownership of a handle the native layer just
/// issued; the only access afterwards is a borrowed, read-only view for
/// passing the handle to native calls, never a transferable copy.  The
/// wrapper is neither clonable nor copyable, and `close` consumes it, so
/// the native close primitive cannot run twice for one owner; its
/// contract shows that a close of a live handle lands in the closed set
/// exactly once.
pub struct ScopedHandle {
    raw: u64,
}

impl ScopedHandle {
    /// The identity of the owned handle.
    pub closed spec fn raw_id(self) -> u64 {
        self.raw
    }

    /// Takes ownership of a handle the native layer just issued.
    pub(crate) fn adopt(raw: u64) -> (r: ScopedHandle)
        ensures
            r.raw_id() == raw,
    {
        ScopedHandle { raw }
    }

    /// A borrowed, read-only view of the handle for native calls.
    pub(crate) fn raw(&self) -> (r: u64)
        ensures
            r == self.raw_id(),
    {
        self.raw
    }

    /// Releases the handle through the native close primitive, exactly
    /// once; whatever failure the close reports is discarded, so
    /// teardown can never mask or replace an operation's real outcome.
    pub fn close(self, native: &mut NativeModel)
        requires
            old(native).wf(),
        ensures
            final(native).wf(),
            old(native).is_open(self.raw_id()) ==> {
                &&& !final(native).is_open(self.raw_id())
                &&& final(native).is_closed(self.raw_id())
                &&& final(native).closed@ == old(native).closed@.push(self.raw_id())
                &&& count_in(final(native).closed@, self.raw_id()) == 1
            },
            !old(native).is_open(self.raw_id()) ==> final(native).open@ == old(native).open@
                && final(native).closed@ == old(native).closed@,
            forall|h: u64|
                h != self.raw_id() ==> (#[trigger] final(native).is_open(h) <==> old(
                    native,
                ).is_open(h)),
            forall|h: u64|
                h != self.raw_id() ==> (#[trigger] final(native).is_closed(h) <==> old(
                    native,
                ).is_closed(h)),
            final(native).next_raw == old(native).next_raw,
            final(native).call_statuses@ == old(native).call_statuses@,
            final(native).advance_statuses@ == old(native).advance_statuses@,
            final(native).int_replies@ == old(native).int_replies@,
            final(native).text_replies@ == old(native).text_replies@,
            final(native).connect_log@ == old(native).connect_log@,
            final(native).find_log@ == old(native).find_log@,
            final(native).image_log@ == old(native).image_log@,
    {
        let _ = native.close_handle(self.raw);
    }
}

} // verus!
