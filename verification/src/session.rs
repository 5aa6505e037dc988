//! Sessions: the top-level connection to a local or remote target, built
//! from a connection configuration, and the root for all other
//! operations.

use vstd::prelude::*;
use vstd::slice::slice_index_get;
use vstd::string::StringExecFns;

use crate::error::{api_status, status_of_code, NiSystemConfigurationError};
use crate::experts::{programmatic_name, ExpertType};
use crate::handles::ScopedHandle;
use crate::hardware_filter::{FilterMode, HardwareFilter};
use crate::native::{count_in, head_or, tail_or_same, ConnectRequest, FindRequest, NativeModel};
use crate::parameters::ApiBool;
use crate::resources::{yields_of, HardwareResourceList};
use crate::strings::contains_nul;
use vstd::utf8::{decode_utf8, valid_utf8};

verus! {

/// The locale a session reports its messages in: a closed enumeration
/// with a default value.
#[derive(Clone, Copy, Debug, PartialEq, Eq, Structural)]
pub enum Locale {
    Default,
    ChineseSimplified,
    English,
    French,
    German,
    Japanese,
    Korean,
}

impl Locale {
    /// The numeric value this locale stands for at the native boundary.
    pub open spec fn code_spec(self) -> i32 {
        match self {
            Locale::Default => 0,
            Locale::ChineseSimplified => 2052,
            Locale::English => 1033,
            Locale::French => 1036,
            Locale::German => 1031,
            Locale::Japanese => 1041,
            Locale::Korean => 1042,
        }
    }

    pub fn code(self) -> (r: i32)
        ensures
            r == self.code_spec(),
    {
        match self {
            Locale::Default => 0,
            Locale::ChineseSimplified => 2052,
            Locale::English => 1033,
            Locale::French => 1036,
            Locale::German => 1031,
            Locale::Japanese => 1041,
            Locale::Korean => 1042,
        }
    }
}

/// The configuration a session is connected from: the target address (an
/// empty string means the local system), optional credentials, locale,
/// force-refresh flag, and the timeout for the connect call itself.
pub struct SessionConfig<'a> {
    target: &'a str,
    username: Option<String>,
    password: Option<String>,
    locale: Locale,
    force_refresh: bool,
    timeout_ms: u32,
}

impl<'a> SessionConfig<'a> {
    /// Credentials that were accepted by the builder never hold the
    /// character the native text encoding forbids as an interior
    /// terminator.
    pub closed spec fn wf(self) -> bool {
        &&& (self.username is Some ==> !self.username->0@.contains('\0'))
        &&& (self.password is Some ==> !self.password->0@.contains('\0'))
    }

    /// The configured target address.
    pub closed spec fn target_spec(self) -> Seq<char> {
        self.target@
    }

    /// The configured username, if any.
    pub closed spec fn username_view(self) -> Option<Seq<char>> {
        match self.username {
            Some(u) => Some(u@),
            None => None,
        }
    }

    /// The configured password, if any.
    pub closed spec fn password_view(self) -> Option<Seq<char>> {
        match self.password {
            Some(p) => Some(p@),
            None => None,
        }
    }

    /// The configured locale.
    pub closed spec fn locale_spec(self) -> Locale {
        self.locale
    }

    /// The configured force-refresh flag.
    pub closed spec fn force_refresh_spec(self) -> bool {
        self.force_refresh
    }

    /// The configured connect timeout, in milliseconds.
    pub closed spec fn timeout_ms_spec(self) -> u32 {
        self.timeout_ms
    }

    /// The default configuration: the local system, no credentials, the
    /// default locale, no forced refresh, and a one-second timeout.
    pub fn new() -> (r: SessionConfig<'a>)
        ensures
            r.wf(),
            r.target_spec().len() == 0,
            r.username_view() is None,
            r.password_view() is None,
            r.locale_spec() == Locale::Default,
            !r.force_refresh_spec(),
            r.timeout_ms_spec() == 1000,
    {
        proof {
            reveal_strlit("");
        }
        SessionConfig {
            target: "",
            username: None,
            password: None,
            locale: Locale::Default,
            force_refresh: false,
            timeout_ms: 1000,
        }
    }

    /// Selects the target address; an empty string means the local
    /// system.
    pub fn target(self, target: &'a str) -> (r: Self)
        ensures
            r.wf() == self.wf(),
            r.target_spec() == target@,
            r.username_view() == self.username_view(),
            r.password_view() == self.password_view(),
            r.locale_spec() == self.locale_spec(),
            r.force_refresh_spec() == self.force_refresh_spec(),
            r.timeout_ms_spec() == self.timeout_ms_spec(),
    {
        SessionConfig { target, ..self }
    }

    /// Sets the username, rejecting text the native encoding cannot
    /// carry.
    pub fn username(self, username: &str) -> (r: Result<Self, NiSystemConfigurationError>)
        requires
            self.wf(),
        ensures
            username@.contains('\0') ==> r is Err && r->Err_0
                == NiSystemConfigurationError::EncodingError,
            !username@.contains('\0') ==> {
                &&& r is Ok
                &&& r->Ok_0.wf()
                &&& r->Ok_0.username_view() == Some(username@)
                &&& r->Ok_0.target_spec() == self.target_spec()
                &&& r->Ok_0.password_view() == self.password_view()
                &&& r->Ok_0.locale_spec() == self.locale_spec()
                &&& r->Ok_0.force_refresh_spec() == self.force_refresh_spec()
                &&& r->Ok_0.timeout_ms_spec() == self.timeout_ms_spec()
            },
    {
        if contains_nul(username) {
            Err(NiSystemConfigurationError::EncodingError)
        } else {
            Ok(SessionConfig { username: Some(String::from_str(username)), ..self })
        }
    }

    /// Sets the password, rejecting text the native encoding cannot
    /// carry.
    pub fn password(self, password: &str) -> (r: Result<Self, NiSystemConfigurationError>)
        requires
            self.wf(),
        ensures
            password@.contains('\0') ==> r is Err && r->Err_0
                == NiSystemConfigurationError::EncodingError,
            !password@.contains('\0') ==> {
                &&& r is Ok
                &&& r->Ok_0.wf()
                &&& r->Ok_0.password_view() == Some(password@)
                &&& r->Ok_0.target_spec() == self.target_spec()
                &&& r->Ok_0.username_view() == self.username_view()
                &&& r->Ok_0.locale_spec() == self.locale_spec()
                &&& r->Ok_0.force_refresh_spec() == self.force_refresh_spec()
                &&& r->Ok_0.timeout_ms_spec() == self.timeout_ms_spec()
            },
    {
        if contains_nul(password) {
            Err(NiSystemConfigurationError::EncodingError)
        } else {
            Ok(SessionConfig { password: Some(String::from_str(password)), ..self })
        }
    }

    /// Selects the locale.
    pub fn locale(self, locale: Locale) -> (r: Self)
        ensures
            r.wf() == self.wf(),
            r.locale_spec() == locale,
            r.target_spec() == self.target_spec(),
            r.username_view() == self.username_view(),
            r.password_view() == self.password_view(),
            r.force_refresh_spec() == self.force_refresh_spec(),
            r.timeout_ms_spec() == self.timeout_ms_spec(),
    {
        SessionConfig { locale, ..self }
    }

    /// Selects whether the native layer should refresh its view of the
    /// target instead of answering from its cache.
    pub fn force_refresh(self, force_refresh: bool) -> (r: Self)
        ensures
            r.wf() == self.wf(),
            r.force_refresh_spec() == force_refresh,
            r.target_spec() == self.target_spec(),
            r.username_view() == self.username_view(),
            r.password_view() == self.password_view(),
            r.locale_spec() == self.locale_spec(),
            r.timeout_ms_spec() == self.timeout_ms_spec(),
    {
        SessionConfig { force_refresh, ..self }
    }

    /// Selects the timeout for the connect call, in milliseconds.  No
    /// other operation is bounded by it.
    pub fn timeout_ms(self, timeout_ms: u32) -> (r: Self)
        ensures
            r.wf() == self.wf(),
            r.timeout_ms_spec() == timeout_ms,
            r.target_spec() == self.target_spec(),
            r.username_view() == self.username_view(),
            r.password_view() == self.password_view(),
            r.locale_spec() == self.locale_spec(),
            r.force_refresh_spec() == self.force_refresh_spec(),
    {
        SessionConfig { timeout_ms, ..self }
    }

    /// Opens a session to the configured target: marshals the
    /// configuration, rejects a target the native encoding cannot carry,
    /// hands the request to the native layer, and maps its status.  On
    /// success the returned session owns the freshly issued handle.
    pub fn connect(&self, native: &mut NativeModel) -> (r: Result<
        Session,
        NiSystemConfigurationError,
    >)
        requires
            self.wf(),
            old(native).wf(),
            old(native).can_issue(),
        ensures
            final(native).wf(),
            self.target_spec().contains('\0') ==> {
                &&& r is Err
                &&& r->Err_0 == NiSystemConfigurationError::EncodingError
                &&& final(native).open@ == old(native).open@
                &&& final(native).next_raw == old(native).next_raw
                &&& final(native).call_statuses@ == old(native).call_statuses@
                &&& final(native).connect_log@ == old(native).connect_log@
            },
            !self.target_spec().contains('\0') ==> ({
                let status = head_or(old(native).call_statuses@, 0i32);
                &&& final(native).call_statuses@ == tail_or_same(old(native).call_statuses@)
                &&& final(native).connect_log@.len() == old(native).connect_log@.len() + 1
                &&& final(native).connect_log@.take(old(native).connect_log@.len() as int) == old(
                    native,
                ).connect_log@
                &&& ({
                    let req = final(native).connect_log@.last();
                    &&& req.target@ == self.target_spec()
                    &&& (req.username is Some <==> self.username_view() is Some)
                    &&& (self.username_view() is Some ==> req.username->0@
                        == self.username_view()->0)
                    &&& (req.password is Some <==> self.password_view() is Some)
                    &&& (self.password_view() is Some ==> req.password->0@
                        == self.password_view()->0)
                    &&& req.locale_code == self.locale_spec().code_spec()
                    &&& req.force_refresh_code == ApiBool::from_bool_spec(
                        self.force_refresh_spec(),
                    ).code_spec()
                    &&& req.timeout_ms == self.timeout_ms_spec()
                })
                &&& (status >= 0 ==> {
                    &&& r is Ok
                    &&& r->Ok_0.handle_id() == old(native).next_raw
                    &&& old(native).is_fresh(r->Ok_0.handle_id())
                    &&& final(native).is_open(r->Ok_0.handle_id())
                    &&& final(native).open@ == old(native).open@.push(old(native).next_raw)
                    &&& final(native).next_raw == old(native).next_raw + 1
                })
                &&& (status < 0 ==> {
                    &&& r == Err::<Session, _>(
                        NiSystemConfigurationError::ApiError(status_of_code(status)),
                    )
                    &&& final(native).open@ == old(native).open@
                    &&& final(native).next_raw == old(native).next_raw
                })
            }),
            final(native).closed@ == old(native).closed@,
            final(native).advance_statuses@ == old(native).advance_statuses@,
            final(native).int_replies@ == old(native).int_replies@,
            final(native).text_replies@ == old(native).text_replies@,
            final(native).find_log@ == old(native).find_log@,
            final(native).image_log@ == old(native).image_log@,
    {
        if contains_nul(self.target) {
            return Err(NiSystemConfigurationError::EncodingError);
        }
        let username = match &self.username {
            Some(u) => Some(u.clone()),
            None => None,
        };
        let password = match &self.password {
            Some(p) => Some(p.clone()),
            None => None,
        };
        let request = ConnectRequest {
            target: String::from_str(self.target),
            username,
            password,
            locale_code: self.locale.code(),
            force_refresh_code: ApiBool::from(self.force_refresh).code(),
            timeout_ms: self.timeout_ms,
        };
        let (status, raw) = native.initialize_session(request);
        match api_status(status) {
            Ok(_) => Ok(Session { handle: ScopedHandle::adopt(raw) }),
            Err(e) => Err(e),
        }
    }
}

/// Provides an interface to an active system configuration session.
///
/// This is created when you connect to a target through
/// [`SessionConfig`] and gives access to the hardware and software
/// resources of that target.  The session owns its connection handle;
/// filters, enumerations and resources created from it are invalid once
/// it is closed, which their operations state by requiring the session
/// handle to still be open.
pub struct Session {
    handle: ScopedHandle,
}

/// The comma-separated join of the experts' programmatic names: an empty
/// list yields the empty text, a single name stands unchanged, and every
/// further name is appended after one separator, in input order.
pub open spec fn joined_names(l: Seq<ExpertType>) -> Seq<char>
    decreases l.len(),
{
    if l.len() == 0 {
        Seq::empty()
    } else if l.len() == 1 {
        programmatic_name(l[0])
    } else {
        programmatic_name(l[0]) + seq![','] + joined_names(l.drop_first())
    }
}

/// Appending one expert extends the join by one separator and its name,
/// except at the front.
proof fn lemma_joined_names_push(l: Seq<ExpertType>, e: ExpertType)
    ensures
        l.len() == 0 ==> joined_names(l.push(e)) =~= programmatic_name(e),
        l.len() > 0 ==> joined_names(l.push(e)) =~= joined_names(l) + seq![',']
            + programmatic_name(e),
    decreases l.len(),
{
    if l.len() == 0 {
        assert(l.push(e).len() == 1);
        assert(l.push(e)[0] == e);
    } else {
        lemma_joined_names_push(l.drop_first(), e);
        assert(l.push(e).drop_first() =~= l.drop_first().push(e));
        assert(l.push(e)[0] == l[0]);
        if l.len() == 1 {
            assert(joined_names(l.push(e)) =~= programmatic_name(l[0]) + seq![',']
                + programmatic_name(e));
        }
    }
}

/// Converts the expert list to the comma-separated form the native layer
/// expects, rejecting a joined text that the native encoding cannot
/// carry.
pub fn expert_list_to_text(list: &[ExpertType]) -> (r: Result<String, NiSystemConfigurationError>)
    ensures
        joined_names(list@).contains('\0') ==> r is Err && r->Err_0
            == NiSystemConfigurationError::EncodingError,
        !joined_names(list@).contains('\0') ==> r is Ok && r->Ok_0@ == joined_names(list@),
{
    let mut acc = String::new();
    let mut i: usize = 0;
    while i < list.len()
        invariant
            i <= list@.len(),
            acc@ =~= joined_names(list@.take(i as int)),
        decreases list@.len() - i,
    {
        if i > 0 {
            acc.append(",");
            proof {
                reveal_strlit(",");
                assert(","@ =~= seq![',']);
            }
        }
        let name = slice_index_get(list, i).to_programmatic_string();
        acc.append(name.as_str());
        proof {
            assert(list@.take(i + 1) =~= list@.take(i as int).push(list@[i as int]));
            lemma_joined_names_push(list@.take(i as int), list@[i as int]);
        }
        i = i + 1;
    }
    proof {
        assert(list@.take(list@.len() as int) =~= list@);
    }
    if contains_nul(acc.as_str()) {
        Err(NiSystemConfigurationError::EncodingError)
    } else {
        Ok(acc)
    }
}

/// The expert text a find call carries: all supported experts (the empty
/// text) when none are named, the joined programmatic names otherwise.
pub open spec fn expert_text_of(experts: Option<Seq<ExpertType>>) -> Seq<char> {
    match experts {
        None => Seq::empty(),
        Some(l) => joined_names(l),
    }
}

/// The `k`-th handle issued after a find: the enumeration handle is
/// `base`, the resources follow it in discovery order.
pub open spec fn issued_id(base: u64, k: int) -> u64 {
    (base + 1 + k) as u64
}

/// A script after its first `k` entries were consumed; consuming past
/// its end leaves it empty.
pub open spec fn dropped_front<T>(q: Seq<T>, k: int) -> Seq<T> {
    if k <= q.len() {
        q.skip(k)
    } else {
        Seq::empty()
    }
}

/// Consuming one more entry moves the front one further.
proof fn lemma_dropped_front_step<T>(q: Seq<T>, k: int)
    requires
        0 <= k,
    ensures
        tail_or_same(dropped_front(q, k)) =~= dropped_front(q, k + 1),
{
    if k < q.len() {
        assert(q.skip(k).drop_first() =~= q.skip(k + 1));
    }
}

/// The text reply the `k`-th name read receives: the scripted one, or
/// the default success with empty text once the script is exhausted.
pub open spec fn text_outcome_at(script: Seq<(i32, Seq<u8>)>, k: int) -> (i32, Seq<u8>) {
    if 0 <= k < script.len() {
        script[k]
    } else {
        (0i32, Seq::<u8>::empty())
    }
}

/// Whether the `k`-th name read succeeds: its native status is a success
/// and its bytes are valid text.
pub open spec fn name_outcome_ok(script: Seq<(i32, Seq<u8>)>, k: int) -> bool {
    text_outcome_at(script, k).0 >= 0 && valid_utf8(text_outcome_at(script, k).1)
}

/// Whether every one of the first `n` name reads succeeds.
pub open spec fn names_all_ok(script: Seq<(i32, Seq<u8>)>, n: int) -> bool {
    forall|k: int| 0 <= k < n ==> #[trigger] name_outcome_ok(script, k)
}

/// The collected names are exactly the first `n` name reads, each of
/// which succeeded and decoded to its scripted text.
pub open spec fn names_match(script: Seq<(i32, Seq<u8>)>, names: Seq<String>, n: int) -> bool {
    &&& names.len() == n
    &&& forall|k: int|
        0 <= k < n ==> name_outcome_ok(script, k) && (#[trigger] names[k])@ == decode_utf8(
            text_outcome_at(script, k).1,
        )
}

/// Appending the decoded text of the next successful name read extends a
/// matching collection by one.
proof fn lemma_names_match_push(
    script: Seq<(i32, Seq<u8>)>,
    names: Seq<String>,
    nm: String,
    n: int,
)
    requires
        names_match(script, names, n),
        name_outcome_ok(script, n),
        nm@ == decode_utf8(text_outcome_at(script, n).1),
    ensures
        names_match(script, names.push(nm), n + 1),
{
    assert forall|k: int| 0 <= k < n + 1 implies #[trigger] name_outcome_ok(script, k) by {
        if k < n {
            assert((names[k])@ == decode_utf8(text_outcome_at(script, k).1));
        }
    }
    assert forall|k: int|
        0 <= k < n + 1 implies (#[trigger] names.push(nm)[k])@ == decode_utf8(
        text_outcome_at(script, k).1,
    ) by {
        if k < n {
            assert(names.push(nm)[k] == names[k]);
        } else {
            assert(names.push(nm)[k] == nm);
        }
    }
    assert(names.push(nm).len() == n + 1);
}

impl Session {
    /// The identity of the owned connection handle.
    pub closed spec fn handle_id(self) -> u64 {
        self.handle.raw_id()
    }

    /// A borrowed, read-only view of the connection handle for native
    /// calls.
    pub(crate) fn handle(&self) -> (r: u64)
        ensures
            r == self.handle_id(),
    {
        self.handle.raw()
    }

    /// Creates a new filter for the session to use as part of a find
    /// operation.
    pub fn create_filter(&self, native: &mut NativeModel) -> (r: Result<
        HardwareFilter,
        NiSystemConfigurationError,
    >)
        requires
            old(native).wf(),
            old(native).can_issue(),
            old(native).is_open(self.handle_id()),
        ensures
            final(native).wf(),
            ({
                let status = head_or(old(native).call_statuses@, 0i32);
                &&& (status >= 0 ==> {
                    &&& r is Ok
                    &&& r->Ok_0.handle_id() == old(native).next_raw
                    &&& r->Ok_0.mode_spec() == FilterMode::MatchValuesAll
                    &&& final(native).is_open(r->Ok_0.handle_id())
                    &&& final(native).open@ == old(native).open@.push(old(native).next_raw)
                    &&& final(native).next_raw == old(native).next_raw + 1
                })
                &&& (status < 0 ==> {
                    &&& r == Err::<HardwareFilter, _>(
                        NiSystemConfigurationError::ApiError(status_of_code(status)),
                    )
                    &&& final(native).open@ == old(native).open@
                    &&& final(native).next_raw == old(native).next_raw
                })
            }),
            final(native).call_statuses@ == tail_or_same(old(native).call_statuses@),
            final(native).closed@ == old(native).closed@,
            final(native).advance_statuses@ == old(native).advance_statuses@,
            final(native).int_replies@ == old(native).int_replies@,
            final(native).text_replies@ == old(native).text_replies@,
            final(native).connect_log@ == old(native).connect_log@,
            final(native).find_log@ == old(native).find_log@,
            final(native).image_log@ == old(native).image_log@,
    {
        HardwareFilter::new(self, native)
    }

    /// Finds the hardware resources of the target, optionally narrowed
    /// by a filter and by a list of experts.
    ///
    /// Without a filter, every criterion matches and no native filter
    /// handle is passed.  Without experts - or with an empty list - all
    /// supported expert categories are searched; otherwise the experts'
    /// programmatic names are joined into one comma-separated text, in
    /// input order, before the call.
    pub fn find_hardware<'s>(
        &'s self,
        native: &mut NativeModel,
        filtering: Option<&HardwareFilter>,
        experts: Option<&[ExpertType]>,
    ) -> (r: Result<HardwareResourceList<'s>, NiSystemConfigurationError>)
        requires
            old(native).wf(),
            old(native).can_issue(),
            old(native).is_open(self.handle_id()),
        ensures
            final(native).wf(),
            ({
                let expert_text = expert_text_of(
                    match experts {
                        Some(l) => Some(l@),
                        None => None,
                    },
                );
                if expert_text.contains('\0') {
                    &&& r is Err
                    &&& r->Err_0 == NiSystemConfigurationError::EncodingError
                    &&& final(native).open@ == old(native).open@
                    &&& final(native).next_raw == old(native).next_raw
                    &&& final(native).call_statuses@ == old(native).call_statuses@
                    &&& final(native).find_log@ == old(native).find_log@
                } else {
                    let status = head_or(old(native).call_statuses@, 0i32);
                    &&& final(native).call_statuses@ == tail_or_same(old(native).call_statuses@)
                    &&& final(native).find_log@.len() == old(native).find_log@.len() + 1
                    &&& final(native).find_log@.take(old(native).find_log@.len() as int) == old(
                        native,
                    ).find_log@
                    &&& ({
                        let req = final(native).find_log@.last();
                        &&& req.session == self.handle_id()
                        &&& req.experts@ == expert_text
                        &&& (filtering is Some ==> req.mode_code
                            == filtering->0.mode_spec().code_spec() && req.filter
                            == filtering->0.handle_id())
                        &&& (filtering is None ==> req.mode_code
                            == FilterMode::MatchValuesAll.code_spec() && req.filter == 0)
                    })
                    &&& (status >= 0 ==> {
                        &&& r is Ok
                        &&& r->Ok_0.enumeration_id() == old(native).next_raw
                        &&& r->Ok_0.session_id() == self.handle_id()
                        &&& !r->Ok_0.is_done()
                        &&& old(native).is_fresh(r->Ok_0.enumeration_id())
                        &&& final(native).is_open(r->Ok_0.enumeration_id())
                        &&& final(native).open@ == old(native).open@.push(old(native).next_raw)
                        &&& final(native).next_raw == old(native).next_raw + 1
                    })
                    &&& (status < 0 ==> {
                        &&& r is Err
                        &&& r->Err_0 == NiSystemConfigurationError::ApiError(
                            status_of_code(status),
                        )
                        &&& final(native).open@ == old(native).open@
                        &&& final(native).next_raw == old(native).next_raw
                    })
                }
            }),
            final(native).closed@ == old(native).closed@,
            final(native).advance_statuses@ == old(native).advance_statuses@,
            final(native).int_replies@ == old(native).int_replies@,
            final(native).text_replies@ == old(native).text_replies@,
            final(native).connect_log@ == old(native).connect_log@,
            final(native).image_log@ == old(native).image_log@,
    {
        let (filter_mode, filter_handle) = if let Some(filter) = filtering {
            (filter.mode(), filter.handle())
        } else {
            (FilterMode::MatchValuesAll, 0u64)
        };
        let expert_list = if let Some(list) = experts {
            match expert_list_to_text(list) {
                Ok(text) => text,
                Err(e) => {
                    return Err(e);
                },
            }
        } else {
            String::new()
        };
        let request = FindRequest {
            session: self.handle(),
            mode_code: filter_mode.code(),
            filter: filter_handle,
            experts: expert_list,
        };
        let (status, raw) = native.find_hardware(request);
        match api_status(status) {
            Ok(_) => Ok(HardwareResourceList::from_handle(ScopedHandle::adopt(raw), self)),
            Err(e) => Err(e),
        }
    }

    /// Discovers hardware and returns the display name of every resource
    /// found, in discovery order.  Every handle the operation creates -
    /// the enumeration's and each resource's - is released exactly once,
    /// whether the operation completes normally, returns early on a
    /// failed find, or reports a failed name read.
    pub fn list_hardware_names(
        &self,
        native: &mut NativeModel,
        filtering: Option<&HardwareFilter>,
        experts: Option<&[ExpertType]>,
    ) -> (r: Result<Vec<String>, NiSystemConfigurationError>)
        requires
            old(native).wf(),
            old(native).is_open(self.handle_id()),
            old(native).next_raw + old(native).advance_statuses@.len() + 1 < u64::MAX,
        ensures
            final(native).wf(),
            forall|h: u64| #[trigger] final(native).is_open(h) <==> old(native).is_open(h),
            ({
                let expert_text = expert_text_of(
                    match experts {
                        Some(l) => Some(l@),
                        None => None,
                    },
                );
                let status = head_or(old(native).call_statuses@, 0i32);
                let n = yields_of(old(native).advance_statuses@) as int;
                let base = old(native).next_raw;
                &&& (expert_text.contains('\0') ==> r is Err && r->Err_0
                    == NiSystemConfigurationError::EncodingError)
                &&& ((!expert_text.contains('\0') && status < 0) ==> r is Err && r->Err_0
                    == NiSystemConfigurationError::ApiError(status_of_code(status)))
                &&& ((!expert_text.contains('\0') && status >= 0) ==> {
                    &&& count_in(final(native).closed@, base) == 1
                    &&& (forall|k: int|
                        0 <= k < n ==> #[trigger] count_in(
                            final(native).closed@,
                            (base + 1 + k) as u64,
                        ) == 1)
                    &&& (r is Ok <==> names_all_ok(old(native).text_script(), n))
                    &&& (r is Ok ==> r->Ok_0@.len() == n && (forall|k: int|
                        0 <= k < n ==> (#[trigger] r->Ok_0@[k])@ == decode_utf8(
                            text_outcome_at(old(native).text_script(), k).1,
                        )))
                })
            }),
    {
        let ghost pre = *old(native);
        let mut list = match self.find_hardware(native, filtering, experts) {
            Ok(l) => l,
            Err(e) => {
                return Err(e);
            },
        };
        let ghost base = pre.next_raw;
        let ghost n = yields_of(pre.advance_statuses@) as int;
        let ghost text0 = pre.text_script();
        proof {
            crate::native::lemma_contains_push(pre.open@, self.handle_id(), base);
            assert(native.open@ == pre.open@.push(base));
            assert(native.is_open(self.handle_id()));
        }
        let mut resources = list.drain(native);
        proof {
            crate::resources::lemma_walk_bounds(pre.advance_statuses@);
            assert(native.open@ =~= pre.open@.push(base) + Seq::new(
                n as nat,
                |k: int| (base + 1 + k) as u64,
            ));
            assert forall|h: u64| #[trigger] native.is_open(h) <==> (pre.is_open(h) || h == base
                || (exists|k: int| 0 <= k < n && h == #[trigger] issued_id(base, k))) by {
                let with_enum = pre.open@.push(base);
                let fresh = Seq::new(n as nat, |k: int| (base + 1 + k) as u64);
                assert(native.open@ =~= with_enum + fresh);
                if native.is_open(h) {
                    let j = choose|j: int| 0 <= j < native.open@.len() && native.open@[j] == h;
                    assert(native.open@[j] == (with_enum + fresh)[j]);
                    if j < with_enum.len() {
                        assert((with_enum + fresh)[j] == with_enum[j]);
                        if j < pre.open@.len() {
                            assert(with_enum[j] == pre.open@[j]);
                            assert(pre.open@[j] == h);
                        } else {
                            assert(with_enum[j] == base);
                        }
                    } else {
                        assert((with_enum + fresh)[j] == fresh[j - with_enum.len()]);
                        assert(fresh[j - with_enum.len()] == issued_id(
                            base,
                            j - with_enum.len(),
                        ));
                        assert(0 <= j - with_enum.len() < n && h == issued_id(
                            base,
                            j - with_enum.len(),
                        ));
                    }
                }
                if pre.is_open(h) {
                    let j = choose|j: int| 0 <= j < pre.open@.len() && pre.open@[j] == h;
                    assert(with_enum[j] == h);
                    assert((with_enum + fresh)[j] == with_enum[j]);
                    assert(native.open@[j] == h);
                }
                if h == base {
                    let j = pre.open@.len() as int;
                    assert(with_enum[j] == h);
                    assert((with_enum + fresh)[j] == with_enum[j]);
                    assert(native.open@[j] == h);
                }
                if exists|k: int| 0 <= k < n && h == issued_id(base, k) {
                    let k = choose|k: int| 0 <= k < n && h == issued_id(base, k);
                    let j = with_enum.len() + k;
                    assert((with_enum + fresh)[j] == fresh[k]);
                    assert(fresh[k] == issued_id(base, k));
                    assert(native.open@[j] == h);
                }
            }
        }
        let mut names: Vec<String> = Vec::new();
        let mut failure: Option<NiSystemConfigurationError> = None;
        let ghost mut processed: int = 0;
        while resources.len() > 0
            invariant
                native.wf(),
                pre.wf(),
                self.handle_id() < base,
                base == pre.next_raw,
                n == yields_of(pre.advance_statuses@) as int,
                base + 1 + n < u64::MAX,
                text0 == pre.text_script(),
                0 <= processed <= n,
                processed + resources@.len() == n,
                forall|k: int|
                    0 <= k < resources@.len() ==> (#[trigger] resources@[k].resource_id()) == (
                    base + 1 + processed + k) as u64 && native.is_open(
                        resources@[k].resource_id(),
                    ),
                native.is_open(self.handle_id()),
                native.is_open(base as u64),
                list.enumeration_id() == base,
                forall|k: int|
                    0 <= k < processed ==> #[trigger] count_in(
                        native.closed@,
                        (base + 1 + k) as u64,
                    ) == 1,
                forall|h: u64|
                    #[trigger] native.is_open(h) <==> (pre.is_open(h) || h == base || (
                    exists|k: int| processed <= k < n && h == #[trigger] issued_id(base, k))),
                native.text_script() == dropped_front(text0, processed),
                failure is None ==> names_match(text0, names@, processed),
                failure is Some ==> (exists|k0: int|
                    0 <= k0 < processed && !name_outcome_ok(text0, k0)),
            decreases resources@.len(),
        {
            let ghost at_start = *native;
            let ghost rs = resources@;
            let resource = resources.remove(0);
            let ghost rid = resource.resource_id();
            proof {
                assert(resources@ =~= rs.drop_first());
                assert(rs[0].resource_id() == rid);
                assert(rid == (base + 1 + processed) as u64);
                assert(at_start.is_open(rid));
                assert forall|k: int|
                    0 <= k < resources@.len() implies (#[trigger] resources@[k].resource_id())
                    == (base + 1 + (processed + 1) + k) as u64 by {
                    assert(resources@[k] == rs[k + 1]);
                }
            }
            let read = resource.name(native);
            proof {
                assert(head_or(at_start.text_script(), (0i32, Seq::<u8>::empty()))
                    == text_outcome_at(text0, processed)) by {
                    if processed < text0.len() {
                        assert(dropped_front(text0, processed)[0] == text0[processed]);
                    }
                }
                lemma_dropped_front_step(text0, processed);
            }
            match read {
                Ok(nm) => {
                    proof {
                        assert(name_outcome_ok(text0, processed));
                        assert(nm@ == decode_utf8(text_outcome_at(text0, processed).1));
                    }
                    if failure.is_none() {
                        let ghost names0 = names@;
                        proof {
                            lemma_names_match_push(text0, names0, nm, processed);
                        }
                        names.push(nm);
                        proof {
                            assert(names@ == names0.push(nm));
                            assert(names_match(text0, names@, processed + 1));
                        }
                    }
                },
                Err(e) => {
                    proof {
                        assert(!name_outcome_ok(text0, processed));
                    }
                    if failure.is_none() {
                        failure = Some(e);
                    }
                },
            }
            let ghost before_close = *native;
            resource.close(native);
            proof {
                assert(before_close.open@ == at_start.open@);
                assert(before_close.closed@ == at_start.closed@);
                assert(before_close.is_open(rid));
                assert(native.closed@ == before_close.closed@.push(rid));
                assert forall|k: int|
                    0 <= k < processed + 1 implies #[trigger] count_in(
                    native.closed@,
                    (base + 1 + k) as u64,
                ) == 1 by {
                    if k < processed {
                        assert(count_in(at_start.closed@, (base + 1 + k) as u64) == 1);
                        crate::native::lemma_count_push_other(
                            before_close.closed@,
                            rid,
                            (base + 1 + k) as u64,
                        );
                    } else {
                        assert((base + 1 + k) as u64 == rid);
                        assert(count_in(native.closed@, rid) == 1);
                    }
                }
                assert forall|h: u64| #[trigger] native.is_open(h) <==> (pre.is_open(h) || h
                    == base || (exists|k: int|
                    processed + 1 <= k < n && h == #[trigger] issued_id(base, k))) by {
                    assert(at_start.is_open(h) <==> (pre.is_open(h) || h == base || (
                    exists|k: int| processed <= k < n && h == issued_id(base, k))));
                    assert(before_close.is_open(h) == at_start.is_open(h));
                    if h != rid {
                        assert(native.is_open(h) <==> before_close.is_open(h));
                        if exists|k: int| processed <= k < n && h == issued_id(base, k) {
                            let k = choose|k: int|
                                processed <= k < n && h == issued_id(base, k);
                            if k == processed {
                                assert(h == rid);
                                assert(false);
                            } else {
                                assert(processed + 1 <= k < n && h == issued_id(base, k));
                            }
                        }
                        if exists|k: int| processed + 1 <= k < n && h == issued_id(base, k) {
                            let k = choose|k: int|
                                processed + 1 <= k < n && h == issued_id(base, k);
                            assert(processed <= k < n && h == issued_id(base, k));
                        }
                    } else {
                        assert(!native.is_open(rid));
                        if pre.is_open(rid) {
                            let j = choose|j: int|
                                0 <= j < pre.open@.len() && pre.open@[j] == rid;
                            assert(pre.open@[j] < pre.next_raw);
                            assert(false);
                        }
                        assert(rid != base);
                        if exists|k: int| processed + 1 <= k < n && h == issued_id(base, k) {
                            let k = choose|k: int|
                                processed + 1 <= k < n && h == issued_id(base, k);
                            assert(issued_id(base, k) != rid);
                            assert(false);
                        }
                    }
                }
                processed = processed + 1;
            }
        }
        let ghost before_final = *native;
        list.close(native);
        proof {
            assert(processed == n);
            assert(before_final.is_open(base as u64));
            assert(native.closed@ == before_final.closed@.push(base as u64));
            assert forall|h: u64| #[trigger] native.is_open(h) <==> pre.is_open(h) by {
                assert(before_final.is_open(h) <==> (pre.is_open(h) || h == base || (
                exists|k: int| n <= k < n && h == issued_id(base, k))));
                if h != base as u64 {
                    assert(native.is_open(h) <==> before_final.is_open(h));
                } else {
                    assert(!native.is_open(h));
                    if pre.is_open(h) {
                        let j = choose|j: int| 0 <= j < pre.open@.len() && pre.open@[j] == h;
                        assert(pre.open@[j] < pre.next_raw);
                        assert(false);
                    }
                }
            }
            assert(count_in(native.closed@, base as u64) == 1);
            assert forall|k: int|
                0 <= k < n implies #[trigger] count_in(native.closed@, (base + 1 + k) as u64)
                == 1 by {
                assert(count_in(before_final.closed@, (base + 1 + k) as u64) == 1);
                crate::native::lemma_count_push_other(
                    before_final.closed@,
                    base,
                    (base + 1 + k) as u64,
                );
            }
        }
        proof {
            if failure is None {
                assert(names_match(text0, names@, n));
                assert forall|k: int| 0 <= k < n implies #[trigger] name_outcome_ok(
                    text0,
                    k,
                ) by {
                    assert((names@[k])@ == decode_utf8(text_outcome_at(text0, k).1));
                }
                assert(names_all_ok(text0, n));
            } else {
                let k0 = choose|k0: int| 0 <= k0 < n && !name_outcome_ok(text0, k0);
                assert(!names_all_ok(text0, n));
            }
        }
        match failure {
            None => Ok(names),
            Some(e) => Err(e),
        }
    }

    /// Closes the session's connection handle, exactly once; any failure
    /// the close reports is discarded.  Filters, enumerations and
    /// resources of this session must not be used afterwards.
    pub fn close(self, native: &mut NativeModel)
        requires
            old(native).wf(),
        ensures
            final(native).wf(),
            old(native).is_open(self.handle_id()) ==> {
                &&& !final(native).is_open(self.handle_id())
                &&& final(native).is_closed(self.handle_id())
                &&& final(native).closed@ == old(native).closed@.push(self.handle_id())
                &&& count_in(final(native).closed@, self.handle_id()) == 1
            },
            forall|h: u64|
                h != self.handle_id() ==> (#[trigger] final(native).is_open(h) <==> old(
                    native,
                ).is_open(h)),
            forall|h: u64|
                h != self.handle_id() ==> (#[trigger] final(native).is_closed(h) <==> old(
                    native,
                ).is_closed(h)),
            final(native).next_raw == old(native).next_raw,
            final(native).call_statuses@ == old(native).call_statuses@,
            final(native).advance_statuses@ == old(native).advance_statuses@,
            final(native).int_replies@ == old(native).int_replies@,
            final(native).text_replies@ == old(native).text_replies@,
            final(native).connect_log@ == old(native).connect_log@,
            final(native).find_log@ == old(native).find_log@,
            final(native).image_log@ == old(native).image_log@,
    {
        self.handle.close(native);
    }
}

} // verus!
