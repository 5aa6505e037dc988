//! Discovered hardware resources and the lazy, forward-only enumeration
//! that yields them.

use vstd::prelude::*;

use crate::error::{api_status, lemma_code_preserved, status_of_code, NiSysCfgApiStatus,
    NiSystemConfigurationError};
use crate::handles::ScopedHandle;
use crate::native::{count_in, head_or, lemma_contains_push, tail_or_same, IndexedProperty, NativeModel,
    ResourceProperty, END_OF_ENUM_CODE};
use crate::parameters::{BusType, ReadableParameter};
use crate::session::Session;
use core::marker::PhantomData;

verus! {

/// The number of resources a full walk of an advance script yields: one
/// for every leading success until the end-of-enumeration sentinel or a
/// failure stops the sequence.
pub open spec fn yields_of(q: Seq<i32>) -> nat
    decreases q.len(),
{
    if q.len() == 0 {
        0
    } else if q[0] < 0 || q[0] == END_OF_ENUM_CODE {
        0
    } else {
        1 + yields_of(q.drop_first())
    }
}

/// The number of advance statuses a full walk consumes: the yielding
/// prefix and the terminating status, when the script holds one.
pub open spec fn consumed_of(q: Seq<i32>) -> int
    decreases q.len(),
{
    if q.len() == 0 {
        0
    } else if q[0] < 0 || q[0] == END_OF_ENUM_CODE {
        1
    } else {
        1 + consumed_of(q.drop_first())
    }
}

/// A full walk never yields more resources than the script has entries,
/// and never consumes more entries than the script holds.
pub proof fn lemma_walk_bounds(q: Seq<i32>)
    ensures
        yields_of(q) <= q.len(),
        yields_of(q) <= consumed_of(q),
        consumed_of(q) <= q.len(),
    decreases q.len(),
{
    if q.len() > 0 && !(q[0] < 0 || q[0] == END_OF_ENUM_CODE) {
        lemma_walk_bounds(q.drop_first());
    }
}

/// One discovered hardware or software item of a target, addressed by
/// its own native handle.
pub struct HardwareResource {
    handle: ScopedHandle,
}

/// A typed, resource-scoped property address, carrying the value kind it
/// is read as.
pub struct ResourceParameter<T: ReadableParameter> {
    id: ResourceProperty,
    phantom: PhantomData<T>,
}

impl<T: ReadableParameter> ResourceParameter<T> {
    /// The property this parameter addresses.
    pub closed spec fn id_spec(self) -> ResourceProperty {
        self.id
    }

    pub fn new(id: ResourceProperty) -> (r: Self)
        ensures
            r.id_spec() == id,
    {
        ResourceParameter { id, phantom: PhantomData }
    }
}

impl HardwareResource {
    /// The identity of the owned resource handle.
    pub closed spec fn resource_id(self) -> u64 {
        self.handle.raw_id()
    }

    /// Takes ownership of a freshly yielded resource handle.
    pub fn from_handle(handle: ScopedHandle) -> (r: Self)
        ensures
            r.resource_id() == handle.raw_id(),
    {
        HardwareResource { handle }
    }

    /// The display name of the resource, read as the first entry of its
    /// expert alias property.
    pub fn name(&self, native: &mut NativeModel) -> (r: Result<
        String,
        NiSystemConfigurationError,
    >)
        requires
            old(native).wf(),
            old(native).is_open(self.resource_id()),
        ensures
            final(native).wf(),
            ({
                let reply = head_or(old(native).text_script(), (0i32, Seq::<u8>::empty()));
                String::decodes(reply.0, 0, reply.1, r)
            }),
            final(native).text_script() == tail_or_same(old(native).text_script()),
            final(native).int_replies@ == old(native).int_replies@,
            final(native).next_raw == old(native).next_raw,
            final(native).open@ == old(native).open@,
            final(native).closed@ == old(native).closed@,
            final(native).call_statuses@ == old(native).call_statuses@,
            final(native).advance_statuses@ == old(native).advance_statuses@,
            final(native).connect_log@ == old(native).connect_log@,
            final(native).find_log@ == old(native).find_log@,
            final(native).image_log@ == old(native).image_log@,
    {
        String::read_resource_indexed_parameter(
            native,
            self.handle.raw(),
            IndexedProperty::ExpertUserAlias,
            0,
        )
    }

    /// Reads any typed resource-scoped property of this resource.
    pub fn get_parameter<T: ReadableParameter>(
        &self,
        native: &mut NativeModel,
        parameter: ResourceParameter<T>,
    ) -> (r: Result<T, NiSystemConfigurationError>)
        requires
            old(native).wf(),
            old(native).is_open(self.resource_id()),
        ensures
            final(native).wf(),
            !T::reads_text() ==> ({
                let reply = head_or(
                    old(native).int_replies@,
                    crate::native::IntReply { status: 0, value: 0 },
                );
                &&& T::decodes(reply.status, reply.value, Seq::empty(), r)
                &&& final(native).int_replies@ == tail_or_same(old(native).int_replies@)
                &&& final(native).text_replies@ == old(native).text_replies@
            }),
            T::reads_text() ==> ({
                let reply = head_or(old(native).text_script(), (0i32, Seq::<u8>::empty()));
                &&& T::decodes(reply.0, 0, reply.1, r)
                &&& final(native).text_script() == tail_or_same(old(native).text_script())
                &&& final(native).int_replies@ == old(native).int_replies@
            }),
            final(native).next_raw == old(native).next_raw,
            final(native).open@ == old(native).open@,
            final(native).closed@ == old(native).closed@,
            final(native).call_statuses@ == old(native).call_statuses@,
            final(native).advance_statuses@ == old(native).advance_statuses@,
            final(native).connect_log@ == old(native).connect_log@,
            final(native).find_log@ == old(native).find_log@,
            final(native).image_log@ == old(native).image_log@,
    {
        T::read_resource_parameter(native, self.handle.raw(), parameter.id)
    }

    /// The bus this resource connects to, decoded through the closed bus
    /// table; a raw value without an entry is reported as exactly that
    /// unexpected value.
    pub fn connects_to_bus_type(&self, native: &mut NativeModel) -> (r: Result<
        BusType,
        NiSystemConfigurationError,
    >)
        requires
            old(native).wf(),
            old(native).is_open(self.resource_id()),
        ensures
            final(native).wf(),
            ({
                let reply = head_or(
                    old(native).int_replies@,
                    crate::native::IntReply { status: 0, value: 0 },
                );
                BusType::decodes(reply.status, reply.value, Seq::empty(), r)
            }),
            final(native).int_replies@ == tail_or_same(old(native).int_replies@),
            final(native).text_replies@ == old(native).text_replies@,
            final(native).next_raw == old(native).next_raw,
            final(native).open@ == old(native).open@,
            final(native).closed@ == old(native).closed@,
            final(native).call_statuses@ == old(native).call_statuses@,
            final(native).advance_statuses@ == old(native).advance_statuses@,
            final(native).connect_log@ == old(native).connect_log@,
            final(native).find_log@ == old(native).find_log@,
            final(native).image_log@ == old(native).image_log@,
    {
        BusType::read_resource_parameter(
            native,
            self.handle.raw(),
            ResourceProperty::ConnectsToBusType,
        )
    }

    /// Releases the resource handle, exactly once; any failure the close
    /// reports is discarded.
    pub fn close(self, native: &mut NativeModel)
        requires
            old(native).wf(),
        ensures
            final(native).wf(),
            old(native).is_open(self.resource_id()) ==> {
                &&& !final(native).is_open(self.resource_id())
                &&& final(native).is_closed(self.resource_id())
                &&& final(native).closed@ == old(native).closed@.push(self.resource_id())
                &&& count_in(final(native).closed@, self.resource_id()) == 1
            },
            forall|h: u64|
                h != self.resource_id() ==> (#[trigger] final(native).is_open(h) <==> old(
                    native,
                ).is_open(h)),
            forall|h: u64|
                h != self.resource_id() ==> (#[trigger] final(native).is_closed(h) <==> old(
                    native,
                ).is_closed(h)),
            final(native).next_raw == old(native).next_raw,
            final(native).call_statuses@ == old(native).call_statuses@,
            final(native).advance_statuses@ == old(native).advance_statuses@,
            final(native).int_replies@ == old(native).int_replies@,
            final(native).text_replies@ == old(native).text_replies@,
            final(native).connect_log@ == old(native).connect_log@,
            final(native).find_log@ == old(native).find_log@,
            final(native).image_log@ == old(native).image_log@,
    {
        self.handle.close(native);
    }
}

/// A lazy, forward-only, non-restartable sequence of the resources a
/// find operation discovered.  It borrows the session that produced it,
/// so it cannot outlive it, and it owns the native enumeration handle.
pub struct HardwareResourceList<'a> {
    handle: ScopedHandle,
    session: &'a Session,
    done: bool,
}

impl<'a> HardwareResourceList<'a> {
    /// The identity of the owned enumeration handle.
    pub closed spec fn enumeration_id(self) -> u64 {
        self.handle.raw_id()
    }

    /// The identity of the owning session's handle.
    pub closed spec fn session_id(self) -> u64 {
        self.session.handle_id()
    }

    /// Whether the sequence has terminated; no further native advances
    /// are attempted once it has.
    pub closed spec fn is_done(self) -> bool {
        self.done
    }

    /// Takes ownership of a freshly issued enumeration handle, bound to
    /// the session that produced it.
    pub fn from_handle(handle: ScopedHandle, session: &'a Session) -> (r: Self)
        ensures
            r.enumeration_id() == handle.raw_id(),
            r.session_id() == session.handle_id(),
            !r.is_done(),
    {
        HardwareResourceList { handle, session, done: false }
    }

    /// One advance of the enumeration.  The native status decides: the
    /// end-of-enumeration sentinel terminates the sequence normally, any
    /// other success yields the next resource, and a failure terminates
    /// the sequence silently - the documented policy for this API.
    pub fn next(&mut self, native: &mut NativeModel) -> (r: Option<HardwareResource>)
        requires
            old(native).wf(),
            old(native).can_issue(),
            !old(self).is_done() ==> old(native).is_open(old(self).session_id()) && old(
                native,
            ).is_open(old(self).enumeration_id()),
        ensures
            final(native).wf(),
            final(self).enumeration_id() == old(self).enumeration_id(),
            final(self).session_id() == old(self).session_id(),
            old(self).is_done() ==> {
                &&& r is None
                &&& final(self).is_done()
                &&& *final(native) == *old(native)
            },
            !old(self).is_done() ==> ({
                let status = head_or(old(native).advance_statuses@, END_OF_ENUM_CODE);
                &&& final(native).advance_statuses@ == tail_or_same(old(native).advance_statuses@)
                &&& ((status >= 0 && status != END_OF_ENUM_CODE) ==> {
                    &&& r is Some
                    &&& r->0.resource_id() == old(native).next_raw
                    &&& old(native).is_fresh(r->0.resource_id())
                    &&& final(native).is_open(r->0.resource_id())
                    &&& final(native).open@ == old(native).open@.push(old(native).next_raw)
                    &&& final(native).next_raw == old(native).next_raw + 1
                    &&& !final(self).is_done()
                })
                &&& (!(status >= 0 && status != END_OF_ENUM_CODE) ==> {
                    &&& r is None
                    &&& final(self).is_done()
                    &&& final(native).open@ == old(native).open@
                    &&& final(native).next_raw == old(native).next_raw
                })
                &&& final(native).closed@ == old(native).closed@
                &&& final(native).call_statuses@ == old(native).call_statuses@
                &&& final(native).int_replies@ == old(native).int_replies@
                &&& final(native).text_replies@ == old(native).text_replies@
                &&& final(native).connect_log@ == old(native).connect_log@
                &&& final(native).find_log@ == old(native).find_log@
                &&& final(native).image_log@ == old(native).image_log@
            }),
    {
        if self.done {
            return None;
        }
        let (status, raw) = native.next_resource(self.session.handle(), self.handle.raw());
        proof {
            lemma_code_preserved(status);
        }
        match api_status(status) {
            Ok(NiSysCfgApiStatus::EndOfEnum) => {
                self.done = true;
                None
            },
            Ok(_) => Some(HardwareResource::from_handle(ScopedHandle::adopt(raw))),
            Err(_) => {
                self.done = true;
                None
            },
        }
    }

    /// Walks the enumeration to its end and collects every resource it
    /// yields, in order: one resource for each leading native success,
    /// stopped by the sentinel, by a failure, or by the end of what the
    /// native layer has to offer.
    pub fn drain(&mut self, native: &mut NativeModel) -> (r: Vec<HardwareResource>)
        requires
            old(native).wf(),
            old(native).next_raw + old(native).advance_statuses@.len() < u64::MAX,
            !old(self).is_done() ==> old(native).is_open(old(self).session_id()) && old(
                native,
            ).is_open(old(self).enumeration_id()),
        ensures
            final(native).wf(),
            final(self).is_done(),
            final(self).enumeration_id() == old(self).enumeration_id(),
            final(self).session_id() == old(self).session_id(),
            old(self).is_done() ==> r@.len() == 0 && *final(native) == *old(native),
            !old(self).is_done() ==> ({
                let n = yields_of(old(native).advance_statuses@);
                &&& r@.len() == n
                &&& (forall|k: int|
                    0 <= k < n ==> (#[trigger] r@[k].resource_id()) == old(native).next_raw + k
                        && final(native).is_open(r@[k].resource_id()))
                &&& final(native).next_raw == old(native).next_raw + n
                &&& final(native).open@ =~= old(native).open@ + Seq::new(
                    n,
                    |k: int| (old(native).next_raw + k) as u64,
                )
                &&& final(native).advance_statuses@ == old(native).advance_statuses@.skip(
                    consumed_of(old(native).advance_statuses@),
                )
                &&& final(native).closed@ == old(native).closed@
                &&& final(native).call_statuses@ == old(native).call_statuses@
                &&& final(native).int_replies@ == old(native).int_replies@
                &&& final(native).text_replies@ == old(native).text_replies@
                &&& final(native).connect_log@ == old(native).connect_log@
                &&& final(native).find_log@ == old(native).find_log@
                &&& final(native).image_log@ == old(native).image_log@
            }),
    {
        let mut out: Vec<HardwareResource> = Vec::new();
        if self.done {
            return out;
        }
        proof {
            lemma_walk_bounds(old(native).advance_statuses@);
        }
        while !self.done
            invariant
                native.wf(),
                self.enumeration_id() == old(self).enumeration_id(),
                self.session_id() == old(self).session_id(),
                !self.done ==> native.is_open(self.session_id()) && native.is_open(
                    self.enumeration_id(),
                ),
                !self.done ==> yields_of(old(native).advance_statuses@) == out@.len() + yields_of(
                    native.advance_statuses@,
                ),
                !self.done ==> consumed_of(old(native).advance_statuses@) == (
                old(native).advance_statuses@.len() - native.advance_statuses@.len())
                    + consumed_of(native.advance_statuses@),
                self.done ==> out@.len() == yields_of(old(native).advance_statuses@),
                self.done ==> native.advance_statuses@ == old(native).advance_statuses@.skip(
                    consumed_of(old(native).advance_statuses@),
                ),
                !self.done ==> native.advance_statuses@ == old(native).advance_statuses@.skip(
                    old(native).advance_statuses@.len() - native.advance_statuses@.len(),
                ),
                native.advance_statuses@.len() <= old(native).advance_statuses@.len(),
                out@.len() <= yields_of(old(native).advance_statuses@),
                native.next_raw == old(native).next_raw + out@.len(),
                native.open@ =~= old(native).open@ + Seq::new(
                    out@.len() as nat,
                    |k: int| (old(native).next_raw + k) as u64,
                ),
                forall|k: int|
                    0 <= k < out@.len() ==> (#[trigger] out@[k].resource_id()) == old(
                        native,
                    ).next_raw + k && native.is_open(out@[k].resource_id()),
                yields_of(old(native).advance_statuses@) <= old(native).advance_statuses@.len(),
                old(native).next_raw + old(native).advance_statuses@.len() < u64::MAX,
                native.closed@ == old(native).closed@,
                native.call_statuses@ == old(native).call_statuses@,
                native.int_replies@ == old(native).int_replies@,
                native.text_replies@ == old(native).text_replies@,
                native.connect_log@ == old(native).connect_log@,
                native.find_log@ == old(native).find_log@,
                native.image_log@ == old(native).image_log@,
            decreases native.advance_statuses@.len() + (if self.done {
                0int
            } else {
                1int
            }),
        {
            let ghost q = native.advance_statuses@;
            let ghost count = out@.len();
            let ghost pre = *native;
            match self.next(native) {
                Some(resource) => {
                    proof {
                        assert(q.len() > 0 && q[0] >= 0 && q[0] != END_OF_ENUM_CODE);
                        assert(yields_of(q) == 1 + yields_of(q.drop_first()));
                        assert(consumed_of(q) == 1 + consumed_of(q.drop_first()));
                        assert(native.open@ =~= (old(native).open@ + Seq::new(
                            count as nat,
                            |k: int| (old(native).next_raw + k) as u64,
                        )).push(resource.resource_id()));
                        assert((old(native).open@ + Seq::new(
                            (count + 1) as nat,
                            |k: int| (old(native).next_raw + k) as u64,
                        )) =~= (old(native).open@ + Seq::new(
                            count as nat,
                            |k: int| (old(native).next_raw + k) as u64,
                        )).push(resource.resource_id()));
                        assert(old(native).advance_statuses@.skip(
                            old(native).advance_statuses@.len() - q.len(),
                        ) =~= q);
                        assert(q.drop_first() =~= old(native).advance_statuses@.skip(
                            old(native).advance_statuses@.len() - q.len() + 1,
                        ));
                        lemma_contains_push(
                            pre.open@,
                            self.session_id(),
                            resource.resource_id(),
                        );
                        lemma_contains_push(
                            pre.open@,
                            self.enumeration_id(),
                            resource.resource_id(),
                        );
                    }
                    out.push(resource);
                    proof {
                        assert forall|k2: int|
                            0 <= k2 < out@.len() implies (#[trigger] out@[k2].resource_id())
                            == old(native).next_raw + k2 && native.is_open(
                            out@[k2].resource_id(),
                        ) by {
                            if k2 < out@.len() - 1 {
                                assert(out@[k2].resource_id() == old(native).next_raw + k2);
                                lemma_contains_push(
                                    pre.open@,
                                    out@[k2].resource_id(),
                                    resource.resource_id(),
                                );
                            }
                        }
                    }
                },
                None => {
                    proof {
                        if q.len() > 0 {
                            assert(q[0] < 0 || q[0] == END_OF_ENUM_CODE);
                            assert(yields_of(q) == 0);
                            assert(consumed_of(q) == 1);
                            assert(q.drop_first() =~= old(native).advance_statuses@.skip(
                                old(native).advance_statuses@.len() - q.len() + 1,
                            ));
                        } else {
                            assert(yields_of(q) == 0);
                            assert(consumed_of(q) == 0);
                        }
                    }
                },
            }
        }
        out
    }

    /// Releases the enumeration handle, exactly once; any failure the
    /// close reports is discarded.
    pub fn close(self, native: &mut NativeModel)
        requires
            old(native).wf(),
        ensures
            final(native).wf(),
            old(native).is_open(self.enumeration_id()) ==> {
                &&& !final(native).is_open(self.enumeration_id())
                &&& final(native).is_closed(self.enumeration_id())
                &&& final(native).closed@ == old(native).closed@.push(self.enumeration_id())
                &&& count_in(final(native).closed@, self.enumeration_id()) == 1
            },
            forall|h: u64|
                h != self.enumeration_id() ==> (#[trigger] final(native).is_open(h) <==> old(
                    native,
                ).is_open(h)),
            forall|h: u64|
                h != self.enumeration_id() ==> (#[trigger] final(native).is_closed(h) <==> old(
                    native,
                ).is_closed(h)),
            final(native).next_raw == old(native).next_raw,
            final(native).call_statuses@ == old(native).call_statuses@,
            final(native).advance_statuses@ == old(native).advance_statuses@,
            final(native).int_replies@ == old(native).int_replies@,
            final(native).text_replies@ == old(native).text_replies@,
            final(native).connect_log@ == old(native).connect_log@,
            final(native).find_log@ == old(native).find_log@,
            final(native).image_log@ == old(native).image_log@,
    {
        self.handle.close(native);
    }
}

} // verus!
