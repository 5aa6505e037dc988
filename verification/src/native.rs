//! The native call surface, modelled as explicit in-memory state.
//!
//! The real configuration service operates on opaque handles and signed
//! status codes behind a C calling convention that this crate cannot link.
//! [`NativeModel`] stands in for it: it keeps the handle lifecycle (which
//! handles are open, which have been closed) and a script of the replies
//! the next calls will return.  Every method is verified, so the protocol
//! layer built on top is proved correct for every script; a concrete
//! script doubles as the instrumented test target that counts close calls.

use vstd::prelude::*;

verus! {

/// The documented capacity of a "simple string" buffer exchanged with the
/// native layer.
pub const SIMPLE_STRING_LENGTH: usize = 1024;

/// The non-terminator sentinel byte a fresh simple-string buffer is
/// filled with.
pub const SIMPLE_STRING_FILL: u8 = 1;

/// The reserved success status that marks an exhausted enumeration.
pub const END_OF_ENUM_CODE: i32 = 1;

/// The failure status the model reports when a close names no open
/// handle.
pub const BAD_HANDLE_CODE: i32 = -2147024809;

/// A resource-scoped property identifier.
#[derive(Clone, Copy, Debug, PartialEq, Eq, Structural)]
pub enum ResourceProperty {
    ConnectsToBusType,
}

/// An indexed resource-scoped property identifier.
#[derive(Clone, Copy, Debug, PartialEq, Eq, Structural)]
pub enum IndexedProperty {
    ExpertUserAlias,
}

/// A session-scoped property identifier.
#[derive(Clone, Copy, Debug, PartialEq, Eq, Structural)]
pub enum SystemProperty {
    Hostname,
    SerialNumber,
    ProductName,
    ProductId,
    IsLocked,
    IsLockingSupported,
    MacAddress,
    IpAddress,
    IpAddressMode,
    SubnetMask,
    Gateway,
    DnsServer,
    SystemState,
}

/// The property a read addresses: resource-scoped, indexed-resource-
/// scoped, or session-scoped.
#[derive(Clone, Copy, Debug, PartialEq, Eq, Structural)]
pub enum PropertyKey {
    Resource(ResourceProperty),
    Indexed(IndexedProperty, u32),
    System(SystemProperty),
}

/// One scripted reply for an integer property read.
#[derive(Clone, Copy, Debug, PartialEq, Eq, Structural)]
pub struct IntReply {
    pub status: i32,
    pub value: i32,
}

/// One scripted reply for a text property read: the status, and the bytes
/// the native call writes into the caller's buffer before the terminator.
#[derive(Debug)]
pub struct TextReply {
    pub status: i32,
    pub text: Vec<u8>,
}

/// A scripted text reply stays within the simple-string capacity and
/// holds no interior terminator, as the native text protocol assumes.
pub open spec fn text_reply_wf(r: TextReply) -> bool {
    &&& r.text@.len() < SIMPLE_STRING_LENGTH as int
    &&& forall|j: int| 0 <= j < r.text@.len() ==> r.text@[j] != 0
}

/// The marshalled form of a connect call, as the session layer hands it
/// to the native layer.
pub struct ConnectRequest {
    pub target: String,
    pub username: Option<String>,
    pub password: Option<String>,
    pub locale_code: i32,
    pub force_refresh_code: i32,
    pub timeout_ms: u32,
}

/// The marshalled form of a system-image operation: capturing an image
/// of the target into a folder, or applying one from it.
pub enum ImageRequest {
    Capture {
        session: u64,
        title: String,
        id: String,
        version: String,
        description: String,
        auto_restart_code: i32,
        path: String,
        passphrase: Option<String>,
        excluded: Vec<String>,
        overwrite_code: i32,
    },
    Apply {
        session: u64,
        auto_restart_code: i32,
        path: String,
        passphrase: Option<String>,
        excluded: Vec<String>,
        original_system_only_code: i32,
        network_settings_code: i32,
    },
}

/// The session handle an image operation addresses.
pub open spec fn image_request_session(r: ImageRequest) -> u64 {
    match r {
        ImageRequest::Capture { session, .. } => session,
        ImageRequest::Apply { session, .. } => session,
    }
}

/// The marshalled form of a find call: the owning session, the filter
/// mode code, the filter handle (zero when no filter is supplied), and
/// the comma-separated expert list.
pub struct FindRequest {
    pub session: u64,
    pub mode_code: i32,
    pub filter: u64,
    pub experts: String,
}

/// The first element of a script queue, or the given default once the
/// script is exhausted.
pub open spec fn head_or<T>(q: Seq<T>, default: T) -> T {
    if q.len() > 0 {
        q[0]
    } else {
        default
    }
}

/// A script queue after one reply was consumed.
pub open spec fn tail_or_same<T>(q: Seq<T>) -> Seq<T> {
    if q.len() > 0 {
        q.drop_first()
    } else {
        q
    }
}

/// How many entries of the sequence hold the given handle.
pub open spec fn count_in(s: Seq<u64>, h: u64) -> nat
    decreases s.len(),
{
    if s.len() == 0 {
        0
    } else {
        count_in(s.drop_last(), h) + (if s.last() == h {
            1nat
        } else {
            0nat
        })
    }
}

/// A handle is absent from a sequence exactly when it is counted zero
/// times.
pub proof fn lemma_count_absent(s: Seq<u64>, h: u64)
    ensures
        (count_in(s, h) == 0) <==> !s.contains(h),
    decreases s.len(),
{
    if s.len() > 0 {
        lemma_count_absent(s.drop_last(), h);
        assert(s =~= s.drop_last().push(s.last()));
        if s.contains(h) {
            let i = choose|i: int| 0 <= i < s.len() && s[i] == h;
            if i < s.len() - 1 {
                assert(s.drop_last()[i] == h);
            }
        }
    }
}

/// Appending one handle leaves every other handle's count unchanged.
pub proof fn lemma_count_push_other(s: Seq<u64>, h: u64, x: u64)
    requires
        x != h,
    ensures
        count_in(s.push(h), x) == count_in(s, x),
{
    assert(s.push(h).drop_last() =~= s);
}

/// Appending a handle keeps every present handle present.
pub proof fn lemma_contains_push(s: Seq<u64>, x: u64, h: u64)
    requires
        s.contains(x),
    ensures
        s.push(h).contains(x),
{
    let k = choose|k: int| 0 <= k < s.len() && s[k] == x;
    assert(s.push(h)[k] == x);
}

/// Two distinct positions of a duplicate-free sequence hold distinct
/// values.
pub proof fn lemma_no_dup_distinct(s: Seq<u64>, a: int, b: int)
    requires
        s.no_duplicates(),
        0 <= a < s.len(),
        0 <= b < s.len(),
        a != b,
    ensures
        s[a] != s[b],
{
}

/// The native call surface as explicit state: the handle lifecycle and
/// the scripted replies.  The fields are public so that a test harness
/// can lay down a script directly; verified code changes the state only
/// through the methods below, whose contracts assume and preserve `wf`.
pub struct NativeModel {
    /// The next handle value the model will issue; handles are never
    /// reused.
    pub next_raw: u64,
    /// The handles currently open, each exactly once.
    pub open: Vec<u64>,
    /// The handles closed so far, each exactly once, in close order.
    pub closed: Vec<u64>,
    /// Scripted statuses for handle-issuing calls and one-shot
    /// operations; an exhausted script keeps succeeding with status 0.
    pub call_statuses: Vec<i32>,
    /// Scripted statuses for enumeration advances; an exhausted script
    /// reports the end-of-enumeration sentinel.
    pub advance_statuses: Vec<i32>,
    /// Scripted replies for integer property reads; an exhausted script
    /// reports status 0 and value 0.
    pub int_replies: Vec<IntReply>,
    /// Scripted replies for text property reads; an exhausted script
    /// reports status 0 and empty text.
    pub text_replies: Vec<TextReply>,
    /// Every connect request, in call order.
    pub connect_log: Vec<ConnectRequest>,
    /// Every find request, in call order.
    pub find_log: Vec<FindRequest>,
    /// Every system-image operation, in call order.
    pub image_log: Vec<ImageRequest>,
}

impl NativeModel {
    /// Whether the handle is currently open.
    pub open spec fn is_open(self, h: u64) -> bool {
        self.open@.contains(h)
    }

    /// Whether the handle has been closed.
    pub open spec fn is_closed(self, h: u64) -> bool {
        self.closed@.contains(h)
    }

    /// Whether the handle was never issued.
    pub open spec fn is_fresh(self, h: u64) -> bool {
        !self.is_open(h) && !self.is_closed(h)
    }

    /// Whether the model can still issue a fresh handle.
    pub open spec fn can_issue(self) -> bool {
        self.next_raw < u64::MAX
    }

    /// The scripted text replies, by status and text bytes.
    pub open spec fn text_script(self) -> Seq<(i32, Seq<u8>)> {
        self.text_replies@.map_values(|r: TextReply| (r.status, r.text@))
    }

    /// The invariant of the model: a handle is open at most once and
    /// closed at most once, never both; every issued handle lies below
    /// `next_raw`; and every scripted text reply respects the text
    /// protocol.
    pub open spec fn wf(self) -> bool {
        &&& self.open@.no_duplicates()
        &&& self.closed@.no_duplicates()
        &&& forall|h: u64| #[trigger] self.open@.contains(h) ==> !self.closed@.contains(h)
        &&& forall|i: int| 0 <= i < self.open@.len() ==> #[trigger] self.open@[i] < self.next_raw
        &&& forall|i: int|
            0 <= i < self.closed@.len() ==> #[trigger] self.closed@[i] < self.next_raw
        &&& forall|i: int|
            0 <= i < self.text_replies@.len() ==> text_reply_wf(#[trigger] self.text_replies@[i])
    }

    /// A model with no open handles and an empty script: every call
    /// succeeds with default replies.
    pub fn new() -> (r: NativeModel)
        ensures
            r.wf(),
            r.can_issue(),
            r.open@ =~= Seq::<u64>::empty(),
            r.closed@ =~= Seq::<u64>::empty(),
            r.call_statuses@ =~= Seq::<i32>::empty(),
            r.advance_statuses@ =~= Seq::<i32>::empty(),
            r.int_replies@ =~= Seq::<IntReply>::empty(),
            r.text_script() =~= Seq::<(i32, Seq<u8>)>::empty(),
            r.connect_log@.len() == 0,
            r.find_log@.len() == 0,
            r.image_log@.len() == 0,
    {
        NativeModel {
            next_raw: 1,
            open: Vec::new(),
            closed: Vec::new(),
            call_statuses: Vec::new(),
            advance_statuses: Vec::new(),
            int_replies: Vec::new(),
            text_replies: Vec::new(),
            connect_log: Vec::new(),
            find_log: Vec::new(),
            image_log: Vec::new(),
        }
    }

    /// Whether the handle is currently open, as a runtime guard.
    pub fn is_open_handle(&self, handle: u64) -> (r: bool)
        ensures
            r == self.is_open(handle),
    {
        let mut i: usize = 0;
        while i < self.open.len()
            invariant
                i <= self.open@.len(),
                forall|j: int| 0 <= j < i ==> self.open@[j] != handle,
            decreases self.open@.len() - i,
        {
            if self.open[i] == handle {
                return true;
            }
            i = i + 1;
        }
        false
    }

    /// How many times the handle has been closed.
    pub fn count_closed(&self, handle: u64) -> (r: usize)
        ensures
            r == count_in(self.closed@, handle),
    {
        let mut i: usize = 0;
        let mut count: usize = 0;
        while i < self.closed.len()
            invariant
                i <= self.closed@.len(),
                count <= i,
                count == count_in(self.closed@.take(i as int), handle),
            decreases self.closed@.len() - i,
        {
            proof {
                assert(self.closed@.take(i + 1).drop_last() =~= self.closed@.take(i as int));
            }
            if self.closed[i] == handle {
                count = count + 1;
            }
            i = i + 1;
        }
        proof {
            assert(self.closed@.take(self.closed@.len() as int) =~= self.closed@);
        }
        count
    }

    /// Consumes the next scripted call status; an exhausted script keeps
    /// succeeding.
    fn pop_call_status(&mut self) -> (status: i32)
        ensures
            status == head_or(old(self).call_statuses@, 0i32),
            final(self).call_statuses@ == tail_or_same(old(self).call_statuses@),
            final(self).next_raw == old(self).next_raw,
            final(self).open@ == old(self).open@,
            final(self).closed@ == old(self).closed@,
            final(self).advance_statuses@ == old(self).advance_statuses@,
            final(self).int_replies@ == old(self).int_replies@,
            final(self).text_replies@ == old(self).text_replies@,
            final(self).connect_log@ == old(self).connect_log@,
            final(self).find_log@ == old(self).find_log@,
            final(self).image_log@ == old(self).image_log@,
    {
        if self.call_statuses.len() > 0 {
            let status = self.call_statuses.remove(0);
            proof {
                assert(old(self).call_statuses@.remove(0) =~= old(
                    self,
                ).call_statuses@.drop_first());
            }
            status
        } else {
            0
        }
    }

    /// Issues a fresh handle and opens it.
    fn issue(&mut self) -> (h: u64)
        requires
            old(self).wf(),
            old(self).can_issue(),
        ensures
            final(self).wf(),
            h == old(self).next_raw,
            old(self).is_fresh(h),
            final(self).is_open(h),
            final(self).open@ == old(self).open@.push(h),
            final(self).next_raw == old(self).next_raw + 1,
            final(self).closed@ == old(self).closed@,
            final(self).call_statuses@ == old(self).call_statuses@,
            final(self).advance_statuses@ == old(self).advance_statuses@,
            final(self).int_replies@ == old(self).int_replies@,
            final(self).text_replies@ == old(self).text_replies@,
            final(self).connect_log@ == old(self).connect_log@,
            final(self).find_log@ == old(self).find_log@,
            final(self).image_log@ == old(self).image_log@,
    {
        let h = self.next_raw;
        proof {
            if old(self).open@.contains(h) {
                let i = choose|i: int| 0 <= i < old(self).open@.len() && old(self).open@[i] == h;
                assert(old(self).open@[i] < h);
            }
            if old(self).closed@.contains(h) {
                let i = choose|i: int|
                    0 <= i < old(self).closed@.len() && old(self).closed@[i] == h;
                assert(old(self).closed@[i] < h);
            }
        }
        self.next_raw = self.next_raw + 1;
        self.open.push(h);
        proof {
            let pre = old(self).open@;
            assert(self.open@ == pre.push(h));
            assert(self.open@[pre.len() as int] == h);
            assert(self.open@.no_duplicates()) by {
                assert forall|a: int, b: int|
                    0 <= a < self.open@.len() && 0 <= b < self.open@.len() && a
                        != b implies self.open@[a] != self.open@[b] by {
                    if a < pre.len() && b < pre.len() {
                        assert(self.open@[a] == pre[a] && self.open@[b] == pre[b]);
                    } else if a < pre.len() {
                        assert(self.open@[a] == pre[a] && pre[a] < h && self.open@[b] == h);
                    } else {
                        assert(self.open@[a] == h && self.open@[b] == pre[b] && pre[b] < h);
                    }
                }
            }
            assert forall|x: u64| #[trigger] self.open@.contains(x) implies !self.closed@.contains(
                x,
            ) by {
                let k = choose|k: int| 0 <= k < self.open@.len() && self.open@[k] == x;
                if k < pre.len() {
                    assert(pre[k] == x && pre.contains(x));
                } else {
                    assert(x == h);
                }
            }
            assert forall|i: int| 0 <= i < self.open@.len() implies #[trigger] self.open@[i]
                < self.next_raw by {
                if i < pre.len() {
                    assert(self.open@[i] == pre[i]);
                }
            }
        }
        h
    }

    /// Models the native session-initialisation call: logs the request,
    /// consumes the next scripted call status, and on success issues a
    /// fresh session handle.
    pub fn initialize_session(&mut self, request: ConnectRequest) -> (r: (i32, u64))
        requires
            old(self).wf(),
            old(self).can_issue(),
        ensures
            final(self).wf(),
            r.0 == head_or(old(self).call_statuses@, 0i32),
            final(self).call_statuses@ == tail_or_same(old(self).call_statuses@),
            r.0 >= 0 ==> {
                &&& r.1 == old(self).next_raw
                &&& old(self).is_fresh(r.1)
                &&& final(self).is_open(r.1)
                &&& final(self).open@ == old(self).open@.push(r.1)
                &&& final(self).next_raw == old(self).next_raw + 1
            },
            r.0 < 0 ==> final(self).open@ == old(self).open@ && final(self).next_raw == old(self).next_raw,
            final(self).closed@ == old(self).closed@,
            final(self).advance_statuses@ == old(self).advance_statuses@,
            final(self).int_replies@ == old(self).int_replies@,
            final(self).text_replies@ == old(self).text_replies@,
            final(self).connect_log@ == old(self).connect_log@.push(request),
            final(self).find_log@ == old(self).find_log@,
            final(self).image_log@ == old(self).image_log@,
    {
        let status = self.pop_call_status();
        self.connect_log.push(request);
        if status >= 0 {
            let h = self.issue();
            (status, h)
        } else {
            (status, 0)
        }
    }

    /// Models the native filter-creation call on an open session handle.
    pub fn create_filter(&mut self, session: u64) -> (r: (i32, u64))
        requires
            old(self).wf(),
            old(self).can_issue(),
            old(self).is_open(session),
        ensures
            final(self).wf(),
            r.0 == head_or(old(self).call_statuses@, 0i32),
            final(self).call_statuses@ == tail_or_same(old(self).call_statuses@),
            r.0 >= 0 ==> {
                &&& r.1 == old(self).next_raw
                &&& old(self).is_fresh(r.1)
                &&& final(self).is_open(r.1)
                &&& final(self).open@ == old(self).open@.push(r.1)
                &&& final(self).next_raw == old(self).next_raw + 1
            },
            r.0 < 0 ==> final(self).open@ == old(self).open@ && final(self).next_raw == old(self).next_raw,
            final(self).closed@ == old(self).closed@,
            final(self).advance_statuses@ == old(self).advance_statuses@,
            final(self).int_replies@ == old(self).int_replies@,
            final(self).text_replies@ == old(self).text_replies@,
            final(self).connect_log@ == old(self).connect_log@,
            final(self).find_log@ == old(self).find_log@,
            final(self).image_log@ == old(self).image_log@,
    {
        let status = self.pop_call_status();
        if status >= 0 {
            let h = self.issue();
            (status, h)
        } else {
            (status, 0)
        }
    }

    /// Models the native find call on an open session handle: logs the
    /// request, consumes the next scripted call status, and on success
    /// issues a fresh enumeration handle.
    pub fn find_hardware(&mut self, request: FindRequest) -> (r: (i32, u64))
        requires
            old(self).wf(),
            old(self).can_issue(),
            old(self).is_open(request.session),
        ensures
            final(self).wf(),
            r.0 == head_or(old(self).call_statuses@, 0i32),
            final(self).call_statuses@ == tail_or_same(old(self).call_statuses@),
            r.0 >= 0 ==> {
                &&& r.1 == old(self).next_raw
                &&& old(self).is_fresh(r.1)
                &&& final(self).is_open(r.1)
                &&& final(self).open@ == old(self).open@.push(r.1)
                &&& final(self).next_raw == old(self).next_raw + 1
            },
            r.0 < 0 ==> final(self).open@ == old(self).open@ && final(self).next_raw == old(self).next_raw,
            final(self).closed@ == old(self).closed@,
            final(self).advance_statuses@ == old(self).advance_statuses@,
            final(self).int_replies@ == old(self).int_replies@,
            final(self).text_replies@ == old(self).text_replies@,
            final(self).connect_log@ == old(self).connect_log@,
            final(self).find_log@ == old(self).find_log@.push(request),
            final(self).image_log@ == old(self).image_log@,
    {
        let status = self.pop_call_status();
        self.find_log.push(request);
        if status >= 0 {
            let h = self.issue();
            (status, h)
        } else {
            (status, 0)
        }
    }

    /// Models one native enumeration advance on an open session and
    /// enumeration handle: consumes the next scripted advance status; a
    /// success other than the end-of-enumeration sentinel issues a fresh
    /// resource handle.
    pub fn next_resource(&mut self, session: u64, enumeration: u64) -> (r: (i32, u64))
        requires
            old(self).wf(),
            old(self).can_issue(),
            old(self).is_open(session),
            old(self).is_open(enumeration),
        ensures
            final(self).wf(),
            r.0 == head_or(old(self).advance_statuses@, END_OF_ENUM_CODE),
            final(self).advance_statuses@ == tail_or_same(old(self).advance_statuses@),
            (r.0 >= 0 && r.0 != END_OF_ENUM_CODE) ==> {
                &&& r.1 == old(self).next_raw
                &&& old(self).is_fresh(r.1)
                &&& final(self).is_open(r.1)
                &&& final(self).open@ == old(self).open@.push(r.1)
                &&& final(self).next_raw == old(self).next_raw + 1
            },
            !(r.0 >= 0 && r.0 != END_OF_ENUM_CODE) ==> final(self).open@ == old(self).open@
                && final(self).next_raw == old(self).next_raw,
            final(self).closed@ == old(self).closed@,
            final(self).call_statuses@ == old(self).call_statuses@,
            final(self).int_replies@ == old(self).int_replies@,
            final(self).text_replies@ == old(self).text_replies@,
            final(self).connect_log@ == old(self).connect_log@,
            final(self).find_log@ == old(self).find_log@,
            final(self).image_log@ == old(self).image_log@,
    {
        let status = if self.advance_statuses.len() > 0 {
            let status = self.advance_statuses.remove(0);
            proof {
                assert(old(self).advance_statuses@.remove(0) =~= old(
                    self,
                ).advance_statuses@.drop_first());
            }
            status
        } else {
            END_OF_ENUM_CODE
        };
        if status >= 0 && status != END_OF_ENUM_CODE {
            let h = self.issue();
            (status, h)
        } else {
            (status, 0)
        }
    }

    /// Models a native integer property read on an open handle: consumes
    /// the next scripted integer reply.
    pub fn read_int(&mut self, handle: u64, key: PropertyKey) -> (r: IntReply)
        requires
            old(self).wf(),
            old(self).is_open(handle),
        ensures
            final(self).wf(),
            r == head_or(old(self).int_replies@, IntReply { status: 0, value: 0 }),
            final(self).int_replies@ == tail_or_same(old(self).int_replies@),
            final(self).next_raw == old(self).next_raw,
            final(self).open@ == old(self).open@,
            final(self).closed@ == old(self).closed@,
            final(self).call_statuses@ == old(self).call_statuses@,
            final(self).advance_statuses@ == old(self).advance_statuses@,
            final(self).text_replies@ == old(self).text_replies@,
            final(self).connect_log@ == old(self).connect_log@,
            final(self).find_log@ == old(self).find_log@,
            final(self).image_log@ == old(self).image_log@,
    {
        let _ = key;
        if self.int_replies.len() > 0 {
            let reply = self.int_replies.remove(0);
            proof {
                assert(old(self).int_replies@.remove(0) =~= old(self).int_replies@.drop_first());
            }
            reply
        } else {
            IntReply { status: 0, value: 0 }
        }
    }

    /// Models a native text property read on an open handle: consumes the
    /// next scripted text reply and, on success, writes its bytes and a
    /// terminator into the front of the caller's buffer, leaving the rest
    /// of the buffer as it was.
    pub fn read_text(&mut self, handle: u64, key: PropertyKey, buffer: &mut Vec<u8>) -> (status:
        i32)
        requires
            old(self).wf(),
            old(self).is_open(handle),
            old(buffer)@.len() == SIMPLE_STRING_LENGTH as int,
        ensures
            final(self).wf(),
            status == head_or(old(self).text_script(), (0i32, Seq::<u8>::empty())).0,
            final(self).text_script() == tail_or_same(old(self).text_script()),
            ({
                let reply = head_or(old(self).text_script(), (0i32, Seq::<u8>::empty()));
                &&& reply.1.len() < SIMPLE_STRING_LENGTH as int
                &&& (forall|j: int| 0 <= j < reply.1.len() ==> reply.1[j] != 0)
                &&& (status >= 0 ==> final(buffer)@ =~= reply.1 + seq![0u8] + old(buffer)@.skip(
                    reply.1.len() as int + 1,
                ))
                &&& (status < 0 ==> final(buffer)@ == old(buffer)@)
            }),
            final(self).next_raw == old(self).next_raw,
            final(self).open@ == old(self).open@,
            final(self).closed@ == old(self).closed@,
            final(self).call_statuses@ == old(self).call_statuses@,
            final(self).advance_statuses@ == old(self).advance_statuses@,
            final(self).int_replies@ == old(self).int_replies@,
            final(self).connect_log@ == old(self).connect_log@,
            final(self).find_log@ == old(self).find_log@,
            final(self).image_log@ == old(self).image_log@,
    {
        let _ = key;
        let reply = if self.text_replies.len() > 0 {
            let reply = self.text_replies.remove(0);
            proof {
                assert(old(self).text_replies@.remove(0) =~= old(self).text_replies@.drop_first());
            }
            reply
        } else {
            TextReply { status: 0, text: Vec::new() }
        };
        if reply.status >= 0 {
            let n = reply.text.len();
            let mut filled: Vec<u8> = Vec::new();
            let mut i: usize = 0;
            while i < n
                invariant
                    n == reply.text@.len(),
                    i <= n,
                    filled@ == reply.text@.take(i as int),
                decreases n - i,
            {
                filled.push(reply.text[i]);
                proof {
                    assert(reply.text@.take(i + 1) =~= reply.text@.take(i as int).push(
                        reply.text@[i as int],
                    ));
                }
                i = i + 1;
            }
            proof {
                assert(reply.text@.take(n as int) =~= reply.text@);
            }
            filled.push(0);
            let mut j: usize = n + 1;
            while j < SIMPLE_STRING_LENGTH
                invariant
                    n + 1 <= j <= SIMPLE_STRING_LENGTH as int,
                    buffer@.len() == SIMPLE_STRING_LENGTH as int,
                    filled@.len() == j,
                    filled@ =~= reply.text@ + seq![0u8] + buffer@.subrange(n + 1, j as int),
                decreases SIMPLE_STRING_LENGTH - j,
            {
                filled.push(buffer[j]);
                j = j + 1;
            }
            proof {
                assert(buffer@.subrange(n + 1, SIMPLE_STRING_LENGTH as int) =~= buffer@.skip(
                    n + 1,
                ));
            }
            *buffer = filled;
            reply.status
        } else {
            reply.status
        }
    }

    /// Models a one-shot native system-image operation on an open session
    /// handle: logs the request and consumes the next scripted call
    /// status.
    pub fn system_image_op(&mut self, request: ImageRequest) -> (status: i32)
        requires
            old(self).wf(),
            old(self).is_open(image_request_session(request)),
        ensures
            final(self).wf(),
            status == head_or(old(self).call_statuses@, 0i32),
            final(self).call_statuses@ == tail_or_same(old(self).call_statuses@),
            final(self).image_log@ == old(self).image_log@.push(request),
            final(self).next_raw == old(self).next_raw,
            final(self).open@ == old(self).open@,
            final(self).closed@ == old(self).closed@,
            final(self).advance_statuses@ == old(self).advance_statuses@,
            final(self).int_replies@ == old(self).int_replies@,
            final(self).text_replies@ == old(self).text_replies@,
            final(self).connect_log@ == old(self).connect_log@,
            final(self).find_log@ == old(self).find_log@,
    {
        let status = self.pop_call_status();
        self.image_log.push(request);
        status
    }

    /// Models the native close call: an open handle moves to the closed
    /// set, exactly once; closing any other value fails and changes
    /// nothing.
    pub fn close_handle(&mut self, handle: u64) -> (status: i32)
        requires
            old(self).wf(),
        ensures
            final(self).wf(),
            old(self).is_open(handle) ==> {
                &&& status == 0
                &&& !final(self).is_open(handle)
                &&& final(self).is_closed(handle)
                &&& final(self).closed@ == old(self).closed@.push(handle)
                &&& count_in(final(self).closed@, handle) == 1
            },
            !old(self).is_open(handle) ==> {
                &&& status == BAD_HANDLE_CODE
                &&& final(self).open@ == old(self).open@
                &&& final(self).closed@ == old(self).closed@
            },
            forall|h: u64|
                h != handle ==> (#[trigger] final(self).is_open(h) <==> old(self).is_open(h)),
            forall|h: u64|
                h != handle ==> (#[trigger] final(self).is_closed(h) <==> old(self).is_closed(h)),
            final(self).next_raw == old(self).next_raw,
            final(self).call_statuses@ == old(self).call_statuses@,
            final(self).advance_statuses@ == old(self).advance_statuses@,
            final(self).int_replies@ == old(self).int_replies@,
            final(self).text_replies@ == old(self).text_replies@,
            final(self).connect_log@ == old(self).connect_log@,
            final(self).find_log@ == old(self).find_log@,
            final(self).image_log@ == old(self).image_log@,
    {
        let mut i: usize = 0;
        while i < self.open.len()
            invariant
                old(self).wf(),
                self.open@ == old(self).open@,
                self.closed@ == old(self).closed@,
                self.next_raw == old(self).next_raw,
                self.call_statuses@ == old(self).call_statuses@,
                self.advance_statuses@ == old(self).advance_statuses@,
                self.int_replies@ == old(self).int_replies@,
                self.text_replies@ == old(self).text_replies@,
                self.connect_log@ == old(self).connect_log@,
                self.find_log@ == old(self).find_log@,
            self.image_log@ == old(self).image_log@,
                i <= self.open@.len(),
                forall|j: int| 0 <= j < i ==> self.open@[j] != handle,
            decreases self.open@.len() - i,
        {
            if self.open[i] == handle {
                self.open.remove(i);
                self.closed.push(handle);
                proof {
                    let pre = old(self).open@;
                    pre.remove_ensures(i as int);
                    assert(self.open@ == pre.remove(i as int));
                    assert forall|h: u64| h != handle implies (#[trigger] self.open@.contains(h)
                        <==> pre.contains(h)) by {
                        if pre.contains(h) {
                            let k = choose|k: int| 0 <= k < pre.len() && pre[k] == h;
                            if k < i {
                                assert(self.open@[k] == h);
                            } else {
                                assert(pre[k] == h && k != i);
                                assert(self.open@[k - 1] == h);
                            }
                        }
                        if self.open@.contains(h) {
                            let k = choose|k: int|
                                0 <= k < self.open@.len() && self.open@[k] == h;
                            if k < i {
                                assert(pre[k] == h);
                            } else {
                                assert(pre[k + 1] == h);
                            }
                        }
                    }
                    assert forall|j: int|
                        0 <= j < self.open@.len() implies #[trigger] self.open@[j] != handle by {
                        if j < i {
                            assert(self.open@[j] == pre.remove(i as int)[j]);
                            assert(pre.remove(i as int)[j] == pre[j]);
                        } else {
                            assert(self.open@[j] == pre.remove(i as int)[j]);
                            assert(pre.remove(i as int)[j] == pre[j + 1]);
                            assert(pre[i as int] == handle);
                            lemma_no_dup_distinct(pre, i as int, j + 1);
                        }
                    }
                    assert(!self.open@.contains(handle));
                    assert(self.open@.no_duplicates()) by {
                        assert forall|a: int, b: int|
                            0 <= a < self.open@.len() && 0 <= b < self.open@.len() && a
                                != b implies self.open@[a] != self.open@[b] by {
                            let pa: int = if a < i {
                                a
                            } else {
                                a + 1
                            };
                            let pb: int = if b < i {
                                b
                            } else {
                                b + 1
                            };
                            assert(self.open@[a] == pre.remove(i as int)[a]);
                            assert(self.open@[b] == pre.remove(i as int)[b]);
                            assert(pre.remove(i as int)[a] == pre[pa]);
                            assert(pre.remove(i as int)[b] == pre[pb]);
                            lemma_no_dup_distinct(pre, pa, pb);
                        }
                    }
                    assert(old(self).open@.contains(handle)) by {
                        assert(old(self).open@[i as int] == handle);
                    }
                    assert(!old(self).closed@.contains(handle));
                    lemma_count_absent(old(self).closed@, handle);
                    assert(self.closed@.drop_last() =~= old(self).closed@);
                    assert(self.closed@[old(self).closed@.len() as int] == handle);
                    assert(self.closed@.last() == handle);
                    assert(count_in(self.closed@, handle) == count_in(old(self).closed@, handle)
                        + 1);
                }
                return 0;
            }
            i = i + 1;
        }
        BAD_HANDLE_CODE
    }
}

} // verus!
