//! Network-interface properties of a target, and the closed address-
//! mode table.

use vstd::prelude::*;

use crate::error::{status_of_code, NiSystemConfigurationError};
use crate::native::{head_or, tail_or_same, IntReply, NativeModel, SystemProperty};
use crate::parameters::{ReadableParameter, ValueEnum};
use crate::session::Session;

verus! {

impl Session {
    /// The MAC address of the target's primary adapter.
    pub fn mac_address(&self, native: &mut NativeModel) -> (r: Result<
        String,
        NiSystemConfigurationError,
    >)
        requires
            old(native).wf(),
            old(native).is_open(self.handle_id()),
        ensures
            final(native).wf(),
            ({
                let reply = head_or(old(native).text_script(), (0i32, Seq::<u8>::empty()));
                String::decodes(reply.0, 0, reply.1, r)
            }),
            final(native).text_script() == tail_or_same(old(native).text_script()),
            final(native).int_replies@ == old(native).int_replies@,
            final(native).next_raw == old(native).next_raw,
            final(native).open@ == old(native).open@,
            final(native).closed@ == old(native).closed@,
            final(native).call_statuses@ == old(native).call_statuses@,
            final(native).advance_statuses@ == old(native).advance_statuses@,
            final(native).connect_log@ == old(native).connect_log@,
            final(native).find_log@ == old(native).find_log@,
            final(native).image_log@ == old(native).image_log@,
    {
        String::read_system_parameter(native, self.handle(), SystemProperty::MacAddress)
    }

    /// The IP address of the target.
    pub fn ip_address(&self, native: &mut NativeModel) -> (r: Result<
        String,
        NiSystemConfigurationError,
    >)
        requires
            old(native).wf(),
            old(native).is_open(self.handle_id()),
        ensures
            final(native).wf(),
            ({
                let reply = head_or(old(native).text_script(), (0i32, Seq::<u8>::empty()));
                String::decodes(reply.0, 0, reply.1, r)
            }),
            final(native).text_script() == tail_or_same(old(native).text_script()),
            final(native).int_replies@ == old(native).int_replies@,
            final(native).next_raw == old(native).next_raw,
            final(native).open@ == old(native).open@,
            final(native).closed@ == old(native).closed@,
            final(native).call_statuses@ == old(native).call_statuses@,
            final(native).advance_statuses@ == old(native).advance_statuses@,
            final(native).connect_log@ == old(native).connect_log@,
            final(native).find_log@ == old(native).find_log@,
            final(native).image_log@ == old(native).image_log@,
    {
        String::read_system_parameter(native, self.handle(), SystemProperty::IpAddress)
    }

    /// The subnet mask of the target.
    pub fn subnet_mask(&self, native: &mut NativeModel) -> (r: Result<
        String,
        NiSystemConfigurationError,
    >)
        requires
            old(native).wf(),
            old(native).is_open(self.handle_id()),
        ensures
            final(native).wf(),
            ({
                let reply = head_or(old(native).text_script(), (0i32, Seq::<u8>::empty()));
                String::decodes(reply.0, 0, reply.1, r)
            }),
            final(native).text_script() == tail_or_same(old(native).text_script()),
            final(native).int_replies@ == old(native).int_replies@,
            final(native).next_raw == old(native).next_raw,
            final(native).open@ == old(native).open@,
            final(native).closed@ == old(native).closed@,
            final(native).call_statuses@ == old(native).call_statuses@,
            final(native).advance_statuses@ == old(native).advance_statuses@,
            final(native).connect_log@ == old(native).connect_log@,
            final(native).find_log@ == old(native).find_log@,
            final(native).image_log@ == old(native).image_log@,
    {
        String::read_system_parameter(native, self.handle(), SystemProperty::SubnetMask)
    }

    /// The gateway of the target.
    pub fn gateway(&self, native: &mut NativeModel) -> (r: Result<
        String,
        NiSystemConfigurationError,
    >)
        requires
            old(native).wf(),
            old(native).is_open(self.handle_id()),
        ensures
            final(native).wf(),
            ({
                let reply = head_or(old(native).text_script(), (0i32, Seq::<u8>::empty()));
                String::decodes(reply.0, 0, reply.1, r)
            }),
            final(native).text_script() == tail_or_same(old(native).text_script()),
            final(native).int_replies@ == old(native).int_replies@,
            final(native).next_raw == old(native).next_raw,
            final(native).open@ == old(native).open@,
            final(native).closed@ == old(native).closed@,
            final(native).call_statuses@ == old(native).call_statuses@,
            final(native).advance_statuses@ == old(native).advance_statuses@,
            final(native).connect_log@ == old(native).connect_log@,
            final(native).find_log@ == old(native).find_log@,
            final(native).image_log@ == old(native).image_log@,
    {
        String::read_system_parameter(native, self.handle(), SystemProperty::Gateway)
    }

    /// The DNS server of the target.
    pub fn dns_server(&self, native: &mut NativeModel) -> (r: Result<
        String,
        NiSystemConfigurationError,
    >)
        requires
            old(native).wf(),
            old(native).is_open(self.handle_id()),
        ensures
            final(native).wf(),
            ({
                let reply = head_or(old(native).text_script(), (0i32, Seq::<u8>::empty()));
                String::decodes(reply.0, 0, reply.1, r)
            }),
            final(native).text_script() == tail_or_same(old(native).text_script()),
            final(native).int_replies@ == old(native).int_replies@,
            final(native).next_raw == old(native).next_raw,
            final(native).open@ == old(native).open@,
            final(native).closed@ == old(native).closed@,
            final(native).call_statuses@ == old(native).call_statuses@,
            final(native).advance_statuses@ == old(native).advance_statuses@,
            final(native).connect_log@ == old(native).connect_log@,
            final(native).find_log@ == old(native).find_log@,
            final(native).image_log@ == old(native).image_log@,
    {
        String::read_system_parameter(native, self.handle(), SystemProperty::DnsServer)
    }

    /// How the target obtains its address, decoded through the closed
    /// address-mode table; a raw value without an entry is reported as
    /// exactly that unexpected value.
    pub fn address_mode(&self, native: &mut NativeModel) -> (r: Result<
        NetworkAddressMode,
        NiSystemConfigurationError,
    >)
        requires
            old(native).wf(),
            old(native).is_open(self.handle_id()),
        ensures
            final(native).wf(),
            ({
                let reply = head_or(old(native).int_replies@, IntReply { status: 0, value: 0 });
                NetworkAddressMode::decodes(reply.status, reply.value, Seq::empty(), r)
            }),
            final(native).int_replies@ == tail_or_same(old(native).int_replies@),
            final(native).text_replies@ == old(native).text_replies@,
            final(native).next_raw == old(native).next_raw,
            final(native).open@ == old(native).open@,
            final(native).closed@ == old(native).closed@,
            final(native).call_statuses@ == old(native).call_statuses@,
            final(native).advance_statuses@ == old(native).advance_statuses@,
            final(native).connect_log@ == old(native).connect_log@,
            final(native).find_log@ == old(native).find_log@,
            final(native).image_log@ == old(native).image_log@,
    {
        NetworkAddressMode::read_system_parameter(
            native,
            self.handle(),
            SystemProperty::IpAddressMode,
        )
    }

}

/// How a target obtains its network address.
#[derive(Clone, Copy, Debug, PartialEq, Eq, Structural)]
pub enum NetworkAddressMode {
    Static,
    LinkLocalOnly,
    DhcpOrLinkLocal,
    DhcpOnly,
}

impl ValueEnum for NetworkAddressMode {
    open spec fn from_raw_spec(raw: i32) -> Option<NetworkAddressMode> {
        if raw == 1 {
            Some(NetworkAddressMode::Static)
        } else if raw == 2 {
            Some(NetworkAddressMode::DhcpOrLinkLocal)
        } else if raw == 4 {
            Some(NetworkAddressMode::LinkLocalOnly)
        } else if raw == 8 {
            Some(NetworkAddressMode::DhcpOnly)
        } else {
            None
        }
    }

    fn from_raw(raw: i32) -> (r: Option<NetworkAddressMode>) {
        if raw == 1 {
            Some(NetworkAddressMode::Static)
        } else if raw == 2 {
            Some(NetworkAddressMode::DhcpOrLinkLocal)
        } else if raw == 4 {
            Some(NetworkAddressMode::LinkLocalOnly)
        } else if raw == 8 {
            Some(NetworkAddressMode::DhcpOnly)
        } else {
            None
        }
    }
}

} // verus!
