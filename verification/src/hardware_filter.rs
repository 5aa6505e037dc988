//! Hardware filters: session-scoped match criteria used to narrow a
//! resource search.

use vstd::prelude::*;

use crate::error::{status_of_code, NiSystemConfigurationError};
use crate::handles::ScopedHandle;
use crate::native::{count_in, head_or, tail_or_same, NativeModel};
use crate::session::Session;

verus! {

/// Gives the way that the filter properties are used to match against
/// items.
#[derive(Clone, Copy, Debug, PartialEq, Eq, Structural)]
pub enum FilterMode {
    /// A resource must satisfy all of the properties specified in the
    /// input filter.
    MatchValuesAll,
    /// A resource must satisfy at least one of the properties specified
    /// in the input filter.
    MatchValuesAny,
    /// A resource must satisfy none of the properties in the input
    /// filter.
    MatchValuesNone,
    /// Every specified property key must be present, regardless of its
    /// value.
    AllPropertiesExist,
}

impl FilterMode {
    /// The numeric value this mode stands for at the native boundary.
    pub open spec fn code_spec(self) -> i32 {
        match self {
            FilterMode::MatchValuesAll => 1,
            FilterMode::MatchValuesAny => 2,
            FilterMode::MatchValuesNone => 3,
            FilterMode::AllPropertiesExist => 4,
        }
    }

    pub fn code(self) -> (r: i32)
        ensures
            r == self.code_spec(),
    {
        match self {
            FilterMode::MatchValuesAll => 1,
            FilterMode::MatchValuesAny => 2,
            FilterMode::MatchValuesNone => 3,
            FilterMode::AllPropertiesExist => 4,
        }
    }
}

/// Used with a session's find operation to specify which pieces of
/// hardware are of interest.  Owns one native filter handle; the match
/// mode is held in memory and read back when the find call is made.
pub struct HardwareFilter {
    handle: ScopedHandle,
    mode: FilterMode,
}

impl HardwareFilter {
    /// The identity of the owned filter handle.
    pub closed spec fn handle_id(self) -> u64 {
        self.handle.raw_id()
    }

    /// The match mode the filter currently holds.
    pub closed spec fn mode_spec(self) -> FilterMode {
        self.mode
    }

    /// Allocates a new filter bound to the given live session, with the
    /// default mode of matching every supplied criterion.
    pub fn new(session: &Session, native: &mut NativeModel) -> (r: Result<
        HardwareFilter,
        NiSystemConfigurationError,
    >)
        requires
            old(native).wf(),
            old(native).can_issue(),
            old(native).is_open(session.handle_id()),
        ensures
            final(native).wf(),
            ({
                let status = head_or(old(native).call_statuses@, 0i32);
                &&& (status >= 0 ==> {
                    &&& r is Ok
                    &&& r->Ok_0.handle_id() == old(native).next_raw
                    &&& r->Ok_0.mode_spec() == FilterMode::MatchValuesAll
                    &&& old(native).is_fresh(r->Ok_0.handle_id())
                    &&& final(native).is_open(r->Ok_0.handle_id())
                    &&& final(native).open@ == old(native).open@.push(old(native).next_raw)
                    &&& final(native).next_raw == old(native).next_raw + 1
                })
                &&& (status < 0 ==> {
                    &&& r == Err::<HardwareFilter, _>(
                        NiSystemConfigurationError::ApiError(status_of_code(status)),
                    )
                    &&& final(native).open@ == old(native).open@
                    &&& final(native).next_raw == old(native).next_raw
                })
            }),
            final(native).call_statuses@ == tail_or_same(old(native).call_statuses@),
            final(native).closed@ == old(native).closed@,
            final(native).advance_statuses@ == old(native).advance_statuses@,
            final(native).int_replies@ == old(native).int_replies@,
            final(native).text_replies@ == old(native).text_replies@,
            final(native).connect_log@ == old(native).connect_log@,
            final(native).find_log@ == old(native).find_log@,
            final(native).image_log@ == old(native).image_log@,
    {
        let (status, raw) = native.create_filter(session.handle());
        match crate::error::api_status(status) {
            Ok(_) => Ok(HardwareFilter {
                handle: ScopedHandle::adopt(raw),
                mode: FilterMode::MatchValuesAll,
            }),
            Err(e) => Err(e),
        }
    }

    /// Sets the mode for the filter, determining how the filter match is
    /// applied.  Only the in-memory mode value changes; it is read back
    /// when the find call is made.
    pub fn set_mode(self, mode: FilterMode) -> (r: Self)
        ensures
            r.mode_spec() == mode,
            r.handle_id() == self.handle_id(),
    {
        HardwareFilter { handle: self.handle, mode }
    }

    pub fn mode(&self) -> (r: FilterMode)
        ensures
            r == self.mode_spec(),
    {
        self.mode
    }

    /// A borrowed view of the filter handle for the find call.
    pub(crate) fn handle(&self) -> (r: u64)
        ensures
            r == self.handle_id(),
    {
        self.handle.raw()
    }

    /// Releases the filter handle, exactly once; any failure the close
    /// reports is discarded.
    pub fn close(self, native: &mut NativeModel)
        requires
            old(native).wf(),
        ensures
            final(native).wf(),
            old(native).is_open(self.handle_id()) ==> {
                &&& !final(native).is_open(self.handle_id())
                &&& final(native).is_closed(self.handle_id())
                &&& final(native).closed@ == old(native).closed@.push(self.handle_id())
                &&& count_in(final(native).closed@, self.handle_id()) == 1
            },
            forall|h: u64|
                h != self.handle_id() ==> (#[trigger] final(native).is_open(h) <==> old(
                    native,
                ).is_open(h)),
            forall|h: u64|
                h != self.handle_id() ==> (#[trigger] final(native).is_closed(h) <==> old(
                    native,
                ).is_closed(h)),
            final(native).next_raw == old(native).next_raw,
            final(native).call_statuses@ == old(native).call_statuses@,
            final(native).advance_statuses@ == old(native).advance_statuses@,
            final(native).int_replies@ == old(native).int_replies@,
            final(native).text_replies@ == old(native).text_replies@,
            final(native).connect_log@ == old(native).connect_log@,
            final(native).find_log@ == old(native).find_log@,
            final(native).image_log@ == old(native).image_log@,
    {
        self.handle.close(native);
    }
}

} // verus!
