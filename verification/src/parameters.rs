//! The typed property interface: a capability trait implemented once per
//! value kind - 32-bit integer, text, and enumerations decoded from an
//! integer - and reused by every higher-level getter.

use vstd::prelude::*;
use vstd::utf8::{decode_utf8, valid_utf8};

use crate::error::{api_status, status_of_code, NiSystemConfigurationError};
use crate::native::{
    head_or, tail_or_same, IndexedProperty, IntReply, NativeModel, PropertyKey, ResourceProperty,
    SystemProperty, SIMPLE_STRING_FILL, SIMPLE_STRING_LENGTH,
};
use crate::strings::{decode_simple_string, lemma_nul_index_of_terminated, nul_index};

verus! {

/// Allocates the fixed-capacity buffer for a native text read, filled
/// with the non-terminator sentinel byte.
pub fn new_simple_string() -> (r: Vec<u8>)
    ensures
        r@.len() == SIMPLE_STRING_LENGTH as int,
        forall|j: int| 0 <= j < r@.len() ==> r@[j] == SIMPLE_STRING_FILL,
{
    vec![SIMPLE_STRING_FILL; SIMPLE_STRING_LENGTH]
}

/// What an integer-valued property read yields from a native reply: the
/// value verbatim on success, the mapped failure otherwise.
pub open spec fn int_property_outcome(status: i32, value: i32) -> Result<
    i32,
    NiSystemConfigurationError,
> {
    if status < 0 {
        Err(NiSystemConfigurationError::ApiError(status_of_code(status)))
    } else {
        Ok(value)
    }
}

/// How a text-valued property read decodes the bytes the native layer
/// wrote: the text of exactly those bytes when they are valid UTF-8, an
/// encoding failure otherwise.
pub open spec fn decodes_text_value(
    text: Seq<u8>,
    r: Result<String, NiSystemConfigurationError>,
) -> bool {
    if valid_utf8(text) {
        &&& r is Ok
        &&& r->Ok_0@ == decode_utf8(text)
    } else {
        r == Err::<String, _>(NiSystemConfigurationError::EncodingError)
    }
}

/// Provides a common trait for all parameter types that can be read from
/// the various parameter interfaces.
///
/// Each implementation states, through `decodes`, what its reads yield
/// for every reply the native layer can give; the three retrieval
/// operations differ only in how the property is addressed.
pub trait ReadableParameter: Sized {
    /// Whether values of this kind travel through the native text
    /// buffer rather than an integer slot.
    spec fn reads_text() -> bool;

    /// How a read of this kind decodes a native reply: `status` and
    /// `value` describe an integer reply, `status` and `text` a text
    /// reply.
    spec fn decodes(
        status: i32,
        value: i32,
        text: Seq<u8>,
        r: Result<Self, NiSystemConfigurationError>,
    ) -> bool;

    /// Reads a resource-scoped property.
    fn read_resource_parameter(native: &mut NativeModel, handle: u64, id: ResourceProperty) -> (r:
        Result<Self, NiSystemConfigurationError>)
        requires
            old(native).wf(),
            old(native).is_open(handle),
        ensures
            final(native).wf(),
            !Self::reads_text() ==> ({
                let reply = head_or(old(native).int_replies@, IntReply { status: 0, value: 0 });
                &&& Self::decodes(reply.status, reply.value, Seq::empty(), r)
                &&& final(native).int_replies@ == tail_or_same(old(native).int_replies@)
                &&& final(native).text_replies@ == old(native).text_replies@
            }),
            Self::reads_text() ==> ({
                let reply = head_or(old(native).text_script(), (0i32, Seq::<u8>::empty()));
                &&& Self::decodes(reply.0, 0, reply.1, r)
                &&& final(native).text_script() == tail_or_same(old(native).text_script())
                &&& final(native).int_replies@ == old(native).int_replies@
            }),
            final(native).next_raw == old(native).next_raw,
            final(native).open@ == old(native).open@,
            final(native).closed@ == old(native).closed@,
            final(native).call_statuses@ == old(native).call_statuses@,
            final(native).advance_statuses@ == old(native).advance_statuses@,
            final(native).connect_log@ == old(native).connect_log@,
            final(native).find_log@ == old(native).find_log@,
            final(native).image_log@ == old(native).image_log@,
    ;

    /// Reads an indexed resource-scoped property.
    fn read_resource_indexed_parameter(
        native: &mut NativeModel,
        handle: u64,
        id: IndexedProperty,
        index: u32,
    ) -> (r: Result<Self, NiSystemConfigurationError>)
        requires
            old(native).wf(),
            old(native).is_open(handle),
        ensures
            final(native).wf(),
            !Self::reads_text() ==> ({
                let reply = head_or(old(native).int_replies@, IntReply { status: 0, value: 0 });
                &&& Self::decodes(reply.status, reply.value, Seq::empty(), r)
                &&& final(native).int_replies@ == tail_or_same(old(native).int_replies@)
                &&& final(native).text_replies@ == old(native).text_replies@
            }),
            Self::reads_text() ==> ({
                let reply = head_or(old(native).text_script(), (0i32, Seq::<u8>::empty()));
                &&& Self::decodes(reply.0, 0, reply.1, r)
                &&& final(native).text_script() == tail_or_same(old(native).text_script())
                &&& final(native).int_replies@ == old(native).int_replies@
            }),
            final(native).next_raw == old(native).next_raw,
            final(native).open@ == old(native).open@,
            final(native).closed@ == old(native).closed@,
            final(native).call_statuses@ == old(native).call_statuses@,
            final(native).advance_statuses@ == old(native).advance_statuses@,
            final(native).connect_log@ == old(native).connect_log@,
            final(native).find_log@ == old(native).find_log@,
            final(native).image_log@ == old(native).image_log@,
    ;

    /// Reads a session-scoped property.
    fn read_system_parameter(native: &mut NativeModel, handle: u64, id: SystemProperty) -> (r:
        Result<Self, NiSystemConfigurationError>)
        requires
            old(native).wf(),
            old(native).is_open(handle),
        ensures
            final(native).wf(),
            !Self::reads_text() ==> ({
                let reply = head_or(old(native).int_replies@, IntReply { status: 0, value: 0 });
                &&& Self::decodes(reply.status, reply.value, Seq::empty(), r)
                &&& final(native).int_replies@ == tail_or_same(old(native).int_replies@)
                &&& final(native).text_replies@ == old(native).text_replies@
            }),
            Self::reads_text() ==> ({
                let reply = head_or(old(native).text_script(), (0i32, Seq::<u8>::empty()));
                &&& Self::decodes(reply.0, 0, reply.1, r)
                &&& final(native).text_script() == tail_or_same(old(native).text_script())
                &&& final(native).int_replies@ == old(native).int_replies@
            }),
            final(native).next_raw == old(native).next_raw,
            final(native).open@ == old(native).open@,
            final(native).closed@ == old(native).closed@,
            final(native).call_statuses@ == old(native).call_statuses@,
            final(native).advance_statuses@ == old(native).advance_statuses@,
            final(native).connect_log@ == old(native).connect_log@,
            final(native).find_log@ == old(native).find_log@,
            final(native).image_log@ == old(native).image_log@,
    ;
}

impl ReadableParameter for i32 {
    open spec fn reads_text() -> bool {
        false
    }

    open spec fn decodes(
        status: i32,
        value: i32,
        text: Seq<u8>,
        r: Result<i32, NiSystemConfigurationError>,
    ) -> bool {
        r == int_property_outcome(status, value)
    }

    fn read_resource_parameter(native: &mut NativeModel, handle: u64, id: ResourceProperty) -> (r:
        Result<i32, NiSystemConfigurationError>) {
        let reply = native.read_int(handle, PropertyKey::Resource(id));
        match api_status(reply.status) {
            Ok(_) => Ok(reply.value),
            Err(e) => Err(e),
        }
    }

    fn read_resource_indexed_parameter(
        native: &mut NativeModel,
        handle: u64,
        id: IndexedProperty,
        index: u32,
    ) -> (r: Result<i32, NiSystemConfigurationError>) {
        let reply = native.read_int(handle, PropertyKey::Indexed(id, index));
        match api_status(reply.status) {
            Ok(_) => Ok(reply.value),
            Err(e) => Err(e),
        }
    }

    fn read_system_parameter(native: &mut NativeModel, handle: u64, id: SystemProperty) -> (r:
        Result<i32, NiSystemConfigurationError>) {
        let reply = native.read_int(handle, PropertyKey::System(id));
        match api_status(reply.status) {
            Ok(_) => Ok(reply.value),
            Err(e) => Err(e),
        }
    }
}

/// The shared body of the three text reads: allocates the sentinel
/// buffer, transfers it to the native call, reclaims it, and decodes.
fn read_text_property(native: &mut NativeModel, handle: u64, key: PropertyKey) -> (r: Result<
    String,
    NiSystemConfigurationError,
>)
    requires
        old(native).wf(),
        old(native).is_open(handle),
    ensures
        final(native).wf(),
        ({
            let reply = head_or(old(native).text_script(), (0i32, Seq::<u8>::empty()));
            if reply.0 < 0 {
                r == Err::<String, _>(
                    NiSystemConfigurationError::ApiError(status_of_code(reply.0)),
                )
            } else {
                decodes_text_value(reply.1, r)
            }
        }),
        final(native).text_script() == tail_or_same(old(native).text_script()),
        final(native).int_replies@ == old(native).int_replies@,
        final(native).next_raw == old(native).next_raw,
        final(native).open@ == old(native).open@,
        final(native).closed@ == old(native).closed@,
        final(native).call_statuses@ == old(native).call_statuses@,
        final(native).advance_statuses@ == old(native).advance_statuses@,
        final(native).connect_log@ == old(native).connect_log@,
        final(native).find_log@ == old(native).find_log@,
        final(native).image_log@ == old(native).image_log@,
{
    let mut buffer = new_simple_string();
    let status = native.read_text(handle, key, &mut buffer);
    match api_status(status) {
        Err(e) => Err(e),
        Ok(_) => {
            proof {
                let reply = head_or(old(native).text_script(), (0i32, Seq::<u8>::empty()));
                lemma_nul_index_of_terminated(
                    reply.1,
                    buffer@.skip(reply.1.len() as int + 1),
                );
                assert(buffer@ =~= reply.1 + seq![0u8] + buffer@.skip(reply.1.len() as int + 1));
                assert(nul_index(buffer@) == reply.1.len());
                assert(buffer@.take(reply.1.len() as int) == reply.1);
            }
            decode_simple_string(&buffer)
        },
    }
}

impl ReadableParameter for String {
    open spec fn reads_text() -> bool {
        true
    }

    open spec fn decodes(
        status: i32,
        value: i32,
        text: Seq<u8>,
        r: Result<String, NiSystemConfigurationError>,
    ) -> bool {
        if status < 0 {
            r == Err::<String, _>(NiSystemConfigurationError::ApiError(status_of_code(status)))
        } else {
            decodes_text_value(text, r)
        }
    }

    fn read_resource_parameter(native: &mut NativeModel, handle: u64, id: ResourceProperty) -> (r:
        Result<String, NiSystemConfigurationError>) {
        read_text_property(native, handle, PropertyKey::Resource(id))
    }

    fn read_resource_indexed_parameter(
        native: &mut NativeModel,
        handle: u64,
        id: IndexedProperty,
        index: u32,
    ) -> (r: Result<String, NiSystemConfigurationError>) {
        read_text_property(native, handle, PropertyKey::Indexed(id, index))
    }

    fn read_system_parameter(native: &mut NativeModel, handle: u64, id: SystemProperty) -> (r:
        Result<String, NiSystemConfigurationError>) {
        read_text_property(native, handle, PropertyKey::System(id))
    }
}

/// The closed decode table of an enumeration read as an integer: adding
/// a new enumeration type to the property interface takes one table and
/// nothing else.
pub trait ValueEnum: Sized {
    /// The variant a raw value stands for, if the table has an entry.
    spec fn from_raw_spec(raw: i32) -> Option<Self>;

    /// Decodes a raw value through the closed table.
    fn from_raw(raw: i32) -> (r: Option<Self>)
        ensures
            r == Self::from_raw_spec(raw),
    ;
}

impl<T: ValueEnum> ReadableParameter for T {
    open spec fn reads_text() -> bool {
        false
    }

    open spec fn decodes(
        status: i32,
        value: i32,
        text: Seq<u8>,
        r: Result<T, NiSystemConfigurationError>,
    ) -> bool {
        if status < 0 {
            r == Err::<T, _>(NiSystemConfigurationError::ApiError(status_of_code(status)))
        } else {
            match T::from_raw_spec(value) {
                Some(v) => r == Ok::<T, NiSystemConfigurationError>(v),
                None => r == Err::<T, _>(
                    NiSystemConfigurationError::UnexpectedEnumValue(value),
                ),
            }
        }
    }

    fn read_resource_parameter(native: &mut NativeModel, handle: u64, id: ResourceProperty) -> (r:
        Result<T, NiSystemConfigurationError>) {
        let reply = native.read_int(handle, PropertyKey::Resource(id));
        match api_status(reply.status) {
            Err(e) => Err(e),
            Ok(_) => match T::from_raw(reply.value) {
                Some(v) => Ok(v),
                None => Err(NiSystemConfigurationError::UnexpectedEnumValue(reply.value)),
            },
        }
    }

    fn read_resource_indexed_parameter(
        native: &mut NativeModel,
        handle: u64,
        id: IndexedProperty,
        index: u32,
    ) -> (r: Result<T, NiSystemConfigurationError>) {
        let reply = native.read_int(handle, PropertyKey::Indexed(id, index));
        match api_status(reply.status) {
            Err(e) => Err(e),
            Ok(_) => match T::from_raw(reply.value) {
                Some(v) => Ok(v),
                None => Err(NiSystemConfigurationError::UnexpectedEnumValue(reply.value)),
            },
        }
    }

    fn read_system_parameter(native: &mut NativeModel, handle: u64, id: SystemProperty) -> (r:
        Result<T, NiSystemConfigurationError>) {
        let reply = native.read_int(handle, PropertyKey::System(id));
        match api_status(reply.status) {
            Err(e) => Err(e),
            Ok(_) => match T::from_raw(reply.value) {
                Some(v) => Ok(v),
                None => Err(NiSystemConfigurationError::UnexpectedEnumValue(reply.value)),
            },
        }
    }
}

/// An enumeration-typed property read yields the matching variant for
/// every raw value with a table entry, and reports exactly the raw value
/// when the table has none - whatever the enumeration.
pub proof fn lemma_enum_decode_policy<T: ValueEnum>(value: i32, r: Result<
    T,
    NiSystemConfigurationError,
>)
    requires
        T::decodes(0i32, value, Seq::empty(), r),
    ensures
        T::from_raw_spec(value) is Some ==> r == Ok::<T, NiSystemConfigurationError>(
            T::from_raw_spec(value)->0,
        ),
        T::from_raw_spec(value) is None ==> r == Err::<T, _>(
            NiSystemConfigurationError::UnexpectedEnumValue(value),
        ),
{
}

/// The bus a hardware resource connects to.
#[derive(Clone, Copy, Debug, PartialEq, Eq, Structural)]
pub enum BusType {
    BuiltIn,
    PciPxi,
    Usb,
    Gpib,
    Vxi,
    Serial,
    TcpIp,
    CompactRio,
    Scxi,
    CompactDaq,
    SwitchBlock,
    Scc,
    FireWire,
    Accessory,
    Can,
    SwitchBlockDevice,
    Slsc,
}

impl ValueEnum for BusType {
    open spec fn from_raw_spec(raw: i32) -> Option<BusType> {
        if raw == 0 {
            Some(BusType::BuiltIn)
        } else if raw == 1 {
            Some(BusType::PciPxi)
        } else if raw == 2 {
            Some(BusType::Usb)
        } else if raw == 3 {
            Some(BusType::Gpib)
        } else if raw == 4 {
            Some(BusType::Vxi)
        } else if raw == 5 {
            Some(BusType::Serial)
        } else if raw == 6 {
            Some(BusType::TcpIp)
        } else if raw == 7 {
            Some(BusType::CompactRio)
        } else if raw == 8 {
            Some(BusType::Scxi)
        } else if raw == 9 {
            Some(BusType::CompactDaq)
        } else if raw == 10 {
            Some(BusType::SwitchBlock)
        } else if raw == 11 {
            Some(BusType::Scc)
        } else if raw == 12 {
            Some(BusType::FireWire)
        } else if raw == 13 {
            Some(BusType::Accessory)
        } else if raw == 14 {
            Some(BusType::Can)
        } else if raw == 15 {
            Some(BusType::SwitchBlockDevice)
        } else if raw == 16 {
            Some(BusType::Slsc)
        } else {
            None
        }
    }

    fn from_raw(raw: i32) -> (r: Option<BusType>) {
        if raw == 0 {
            Some(BusType::BuiltIn)
        } else if raw == 1 {
            Some(BusType::PciPxi)
        } else if raw == 2 {
            Some(BusType::Usb)
        } else if raw == 3 {
            Some(BusType::Gpib)
        } else if raw == 4 {
            Some(BusType::Vxi)
        } else if raw == 5 {
            Some(BusType::Serial)
        } else if raw == 6 {
            Some(BusType::TcpIp)
        } else if raw == 7 {
            Some(BusType::CompactRio)
        } else if raw == 8 {
            Some(BusType::Scxi)
        } else if raw == 9 {
            Some(BusType::CompactDaq)
        } else if raw == 10 {
            Some(BusType::SwitchBlock)
        } else if raw == 11 {
            Some(BusType::Scc)
        } else if raw == 12 {
            Some(BusType::FireWire)
        } else if raw == 13 {
            Some(BusType::Accessory)
        } else if raw == 14 {
            Some(BusType::Can)
        } else if raw == 15 {
            Some(BusType::SwitchBlockDevice)
        } else if raw == 16 {
            Some(BusType::Slsc)
        } else {
            None
        }
    }
}

/// The native boolean: a pair of integer constants for false and true.
/// Any non-zero raw value counts as true when one is read back.
#[derive(Clone, Copy, Debug, PartialEq, Eq, Structural)]
pub enum ApiBool {
    False,
    True,
}

impl ApiBool {
    /// The numeric value this variant stands for at the native boundary.
    pub open spec fn code_spec(self) -> i32 {
        match self {
            ApiBool::False => 0,
            ApiBool::True => 1,
        }
    }

    /// The boolean this variant stands for.
    pub open spec fn as_bool_spec(self) -> bool {
        self is True
    }

    pub open spec fn from_bool_spec(input: bool) -> ApiBool {
        if input {
            ApiBool::True
        } else {
            ApiBool::False
        }
    }

    pub fn code(self) -> (r: i32)
        ensures
            r == self.code_spec(),
    {
        match self {
            ApiBool::False => 0,
            ApiBool::True => 1,
        }
    }

    pub fn from_i32(n: i32) -> (r: Option<ApiBool>)
        ensures
            r == Self::from_raw_spec(n),
    {
        if n == 0 {
            Some(Self::False)
        } else {
            Some(Self::True)
        }
    }

    pub fn from_i64(n: i64) -> (r: Option<ApiBool>)
        ensures
            r == Some(ApiBool::from_bool_spec(n != 0)),
    {
        if n == 0 {
            Some(Self::False)
        } else {
            Some(Self::True)
        }
    }

    pub fn from_u64(n: u64) -> (r: Option<ApiBool>)
        ensures
            r == Some(ApiBool::from_bool_spec(n != 0)),
    {
        if n == 0 {
            Some(Self::False)
        } else {
            Some(Self::True)
        }
    }

    /// Constructing from a boolean and converting back yields the same
    /// boolean, and the two defined native constants convert
    /// consistently in both directions.
    pub proof fn lemma_round_trip(input: bool, value: ApiBool)
        ensures
            ApiBool::from_bool_spec(input).as_bool_spec() == input,
            ApiBool::from_bool_spec(value.as_bool_spec()) == value,
            ApiBool::from_raw_spec(value.code_spec()) == Some(value),
    {
    }
}

impl ValueEnum for ApiBool {
    open spec fn from_raw_spec(raw: i32) -> Option<ApiBool> {
        Some(ApiBool::from_bool_spec(raw != 0))
    }

    fn from_raw(raw: i32) -> (r: Option<ApiBool>) {
        ApiBool::from_i32(raw)
    }
}

impl From<bool> for ApiBool {
    fn from(input: bool) -> (r: ApiBool) {
        if input {
            ApiBool::True
        } else {
            ApiBool::False
        }
    }
}

impl vstd::std_specs::convert::FromSpecImpl<bool> for ApiBool {
    open spec fn obeys_from_spec() -> bool {
        true
    }

    open spec fn from_spec(t: bool) -> ApiBool {
        ApiBool::from_bool_spec(t)
    }
}

impl From<ApiBool> for bool {
    fn from(input: ApiBool) -> (r: bool) {
        match input {
            ApiBool::False => false,
            ApiBool::True => true,
        }
    }
}

impl vstd::std_specs::convert::FromSpecImpl<ApiBool> for bool {
    open spec fn obeys_from_spec() -> bool {
        true
    }

    open spec fn from_spec(t: ApiBool) -> bool {
        t.as_bool_spec()
    }
}

} // verus!
