//! The system interface specific to real-time targets.

use vstd::prelude::*;

use crate::native::{head_or, tail_or_same, NativeModel, SystemProperty};
use crate::parameters::ReadableParameter;
use crate::session::Session;
use crate::error::NiSystemConfigurationError;

verus! {

/// A non-owning, real-time view of a session: it borrows the session's
/// handle identity and must not be used after the session closes.
pub struct RealTimeSession {
    raw: u64,
}

impl RealTimeSession {
    /// The identity of the session handle this view reads through.
    pub closed spec fn handle_id(self) -> u64 {
        self.raw
    }

    pub fn from_session(session: &Session) -> (r: RealTimeSession)
        ensures
            r.handle_id() == session.handle_id(),
    {
        RealTimeSession { raw: session.handle() }
    }

    /// The running state the real-time target reports.
    pub fn status(&self, native: &mut NativeModel) -> (r: Result<
        String,
        NiSystemConfigurationError,
    >)
        requires
            old(native).wf(),
            old(native).is_open(self.handle_id()),
        ensures
            final(native).wf(),
            ({
                let reply = head_or(old(native).text_script(), (0i32, Seq::<u8>::empty()));
                String::decodes(reply.0, 0, reply.1, r)
            }),
            final(native).text_script() == tail_or_same(old(native).text_script()),
            final(native).int_replies@ == old(native).int_replies@,
            final(native).next_raw == old(native).next_raw,
            final(native).open@ == old(native).open@,
            final(native).closed@ == old(native).closed@,
            final(native).call_statuses@ == old(native).call_statuses@,
            final(native).advance_statuses@ == old(native).advance_statuses@,
            final(native).connect_log@ == old(native).connect_log@,
            final(native).find_log@ == old(native).find_log@,
            final(native).image_log@ == old(native).image_log@,
    {
        String::read_system_parameter(native, self.raw, SystemProperty::SystemState)
    }
}

} // verus!
