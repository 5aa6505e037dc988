//! Session-scoped system properties: identity, locking, and the
//! descriptive values every target reports.

mod network;
mod real_time;

pub use network::NetworkAddressMode;
pub use real_time::RealTimeSession;

use vstd::prelude::*;

use crate::error::{status_of_code, NiSystemConfigurationError};
use crate::native::{head_or, tail_or_same, IntReply, NativeModel, SystemProperty};
use crate::parameters::{ApiBool, ReadableParameter};
use crate::session::Session;

verus! {

impl Session {
    /// Whether the target is locked against configuration changes.
    pub fn locked(&self, native: &mut NativeModel) -> (r: Result<
        bool,
        NiSystemConfigurationError,
    >)
        requires
            old(native).wf(),
            old(native).is_open(self.handle_id()),
        ensures
            final(native).wf(),
            ({
                let reply = head_or(old(native).int_replies@, IntReply { status: 0, value: 0 });
                if reply.status < 0 {
                    r == Err::<bool, _>(
                        NiSystemConfigurationError::ApiError(status_of_code(reply.status)),
                    )
                } else {
                    r == Ok::<bool, NiSystemConfigurationError>(reply.value != 0)
                }
            }),
            final(native).int_replies@ == tail_or_same(old(native).int_replies@),
            final(native).text_replies@ == old(native).text_replies@,
            final(native).next_raw == old(native).next_raw,
            final(native).open@ == old(native).open@,
            final(native).closed@ == old(native).closed@,
            final(native).call_statuses@ == old(native).call_statuses@,
            final(native).advance_statuses@ == old(native).advance_statuses@,
            final(native).connect_log@ == old(native).connect_log@,
            final(native).find_log@ == old(native).find_log@,
            final(native).image_log@ == old(native).image_log@,
    {
        match ApiBool::read_system_parameter(native, self.handle(), SystemProperty::IsLocked) {
            Ok(value) => Ok(value.code() != 0),
            Err(e) => Err(e),
        }
    }

    /// Whether the target supports locking at all.
    pub fn locking_supported(&self, native: &mut NativeModel) -> (r: Result<
        bool,
        NiSystemConfigurationError,
    >)
        requires
            old(native).wf(),
            old(native).is_open(self.handle_id()),
        ensures
            final(native).wf(),
            ({
                let reply = head_or(old(native).int_replies@, IntReply { status: 0, value: 0 });
                if reply.status < 0 {
                    r == Err::<bool, _>(
                        NiSystemConfigurationError::ApiError(status_of_code(reply.status)),
                    )
                } else {
                    r == Ok::<bool, NiSystemConfigurationError>(reply.value != 0)
                }
            }),
            final(native).int_replies@ == tail_or_same(old(native).int_replies@),
            final(native).text_replies@ == old(native).text_replies@,
            final(native).next_raw == old(native).next_raw,
            final(native).open@ == old(native).open@,
            final(native).closed@ == old(native).closed@,
            final(native).call_statuses@ == old(native).call_statuses@,
            final(native).advance_statuses@ == old(native).advance_statuses@,
            final(native).connect_log@ == old(native).connect_log@,
            final(native).find_log@ == old(native).find_log@,
            final(native).image_log@ == old(native).image_log@,
    {
        match ApiBool::read_system_parameter(native, self.handle(), SystemProperty::IsLockingSupported) {
            Ok(value) => Ok(value.code() != 0),
            Err(e) => Err(e),
        }
    }

    /// The hostname of the target.
    pub fn hostname(&self, native: &mut NativeModel) -> (r: Result<
        String,
        NiSystemConfigurationError,
    >)
        requires
            old(native).wf(),
            old(native).is_open(self.handle_id()),
        ensures
            final(native).wf(),
            ({
                let reply = head_or(old(native).text_script(), (0i32, Seq::<u8>::empty()));
                String::decodes(reply.0, 0, reply.1, r)
            }),
            final(native).text_script() == tail_or_same(old(native).text_script()),
            final(native).int_replies@ == old(native).int_replies@,
            final(native).next_raw == old(native).next_raw,
            final(native).open@ == old(native).open@,
            final(native).closed@ == old(native).closed@,
            final(native).call_statuses@ == old(native).call_statuses@,
            final(native).advance_statuses@ == old(native).advance_statuses@,
            final(native).connect_log@ == old(native).connect_log@,
            final(native).find_log@ == old(native).find_log@,
            final(native).image_log@ == old(native).image_log@,
    {
        String::read_system_parameter(native, self.handle(), SystemProperty::Hostname)
    }

    /// The serial number of the target.
    pub fn serial_number(&self, native: &mut NativeModel) -> (r: Result<
        String,
        NiSystemConfigurationError,
    >)
        requires
            old(native).wf(),
            old(native).is_open(self.handle_id()),
        ensures
            final(native).wf(),
            ({
                let reply = head_or(old(native).text_script(), (0i32, Seq::<u8>::empty()));
                String::decodes(reply.0, 0, reply.1, r)
            }),
            final(native).text_script() == tail_or_same(old(native).text_script()),
            final(native).int_replies@ == old(native).int_replies@,
            final(native).next_raw == old(native).next_raw,
            final(native).open@ == old(native).open@,
            final(native).closed@ == old(native).closed@,
            final(native).call_statuses@ == old(native).call_statuses@,
            final(native).advance_statuses@ == old(native).advance_statuses@,
            final(native).connect_log@ == old(native).connect_log@,
            final(native).find_log@ == old(native).find_log@,
            final(native).image_log@ == old(native).image_log@,
    {
        String::read_system_parameter(native, self.handle(), SystemProperty::SerialNumber)
    }

    /// The product name of the target.
    pub fn product_name(&self, native: &mut NativeModel) -> (r: Result<
        String,
        NiSystemConfigurationError,
    >)
        requires
            old(native).wf(),
            old(native).is_open(self.handle_id()),
        ensures
            final(native).wf(),
            ({
                let reply = head_or(old(native).text_script(), (0i32, Seq::<u8>::empty()));
                String::decodes(reply.0, 0, reply.1, r)
            }),
            final(native).text_script() == tail_or_same(old(native).text_script()),
            final(native).int_replies@ == old(native).int_replies@,
            final(native).next_raw == old(native).next_raw,
            final(native).open@ == old(native).open@,
            final(native).closed@ == old(native).closed@,
            final(native).call_statuses@ == old(native).call_statuses@,
            final(native).advance_statuses@ == old(native).advance_statuses@,
            final(native).connect_log@ == old(native).connect_log@,
            final(native).find_log@ == old(native).find_log@,
            final(native).image_log@ == old(native).image_log@,
    {
        String::read_system_parameter(native, self.handle(), SystemProperty::ProductName)
    }

    /// The numeric product code of the target.
    pub fn product_code(&self, native: &mut NativeModel) -> (r: Result<
        i32,
        NiSystemConfigurationError,
    >)
        requires
            old(native).wf(),
            old(native).is_open(self.handle_id()),
        ensures
            final(native).wf(),
            ({
                let reply = head_or(old(native).int_replies@, IntReply { status: 0, value: 0 });
                r == crate::parameters::int_property_outcome(reply.status, reply.value)
            }),
            final(native).int_replies@ == tail_or_same(old(native).int_replies@),
            final(native).text_replies@ == old(native).text_replies@,
            final(native).next_raw == old(native).next_raw,
            final(native).open@ == old(native).open@,
            final(native).closed@ == old(native).closed@,
            final(native).call_statuses@ == old(native).call_statuses@,
            final(native).advance_statuses@ == old(native).advance_statuses@,
            final(native).connect_log@ == old(native).connect_log@,
            final(native).find_log@ == old(native).find_log@,
            final(native).image_log@ == old(native).image_log@,
    {
        i32::read_system_parameter(native, self.handle(), SystemProperty::ProductId)
    }

}

} // verus!
