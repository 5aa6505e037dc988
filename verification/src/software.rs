//! Managing software images on targets: capturing a system image into a
//! folder and applying one from it.

use vstd::prelude::*;
use vstd::slice::slice_index_get;
use vstd::string::StringExecFns;

use crate::error::{api_status, status_of_code, NiSystemConfigurationError};
use crate::native::{head_or, tail_or_same, ImageRequest, NativeModel};
use crate::session::Session;
use crate::strings::contains_nul;
use crate::types::FfiBoolean;

verus! {

/// A unique identifier in the GUID format the native layer expects.
pub type Uuid = String;

/// Contains the metadata which can be saved with system images.
pub struct ImageInfo {
    /// A title for the image.
    pub title: String,
    /// A unique identifier for the image, in the GUID format
    /// "{00000000-0000-0000-0000-000000000000}" where each '0' stands
    /// for a hexadecimal digit.
    pub id: Uuid,
    /// A short description for the image.
    pub description: String,
    /// A version number for the image.
    pub version: String,
}

/// The network interface settings that can be applied when setting a
/// system image.
///
/// *Reset* returns an adapter to its defaults, normally DHCP; *apply*
/// sets it to the settings of the system the image was taken from;
/// *preserve* keeps the settings of the current system.
#[derive(Clone, Copy, Debug, PartialEq, Eq, Structural)]
pub enum NetworkInterfaceSettings {
    ResetPrimaryResetOthers,
    PreservePrimaryResetOthers,
    PreservePrimaryPreserveOthers,
    PreservePrimaryApplyOthers,
    ApplyPrimaryResetOthers,
    ApplyPrimaryPreserveOthers,
    ApplyPrimaryApplyOthers,
}

impl NetworkInterfaceSettings {
    /// The numeric value this setting stands for at the native boundary.
    pub open spec fn code_spec(self) -> i32 {
        match self {
            NetworkInterfaceSettings::ResetPrimaryResetOthers => 0,
            NetworkInterfaceSettings::PreservePrimaryResetOthers => 1,
            NetworkInterfaceSettings::PreservePrimaryPreserveOthers => 2,
            NetworkInterfaceSettings::PreservePrimaryApplyOthers => 3,
            NetworkInterfaceSettings::ApplyPrimaryResetOthers => 4,
            NetworkInterfaceSettings::ApplyPrimaryPreserveOthers => 5,
            NetworkInterfaceSettings::ApplyPrimaryApplyOthers => 6,
        }
    }

    pub fn code(self) -> (r: i32)
        ensures
            r == self.code_spec(),
    {
        match self {
            NetworkInterfaceSettings::ResetPrimaryResetOthers => 0,
            NetworkInterfaceSettings::PreservePrimaryResetOthers => 1,
            NetworkInterfaceSettings::PreservePrimaryPreserveOthers => 2,
            NetworkInterfaceSettings::PreservePrimaryApplyOthers => 3,
            NetworkInterfaceSettings::ApplyPrimaryResetOthers => 4,
            NetworkInterfaceSettings::ApplyPrimaryPreserveOthers => 5,
            NetworkInterfaceSettings::ApplyPrimaryApplyOthers => 6,
        }
    }
}

/// Whether any entry of an excluded-path list holds the character the
/// native text encoding cannot carry.
pub open spec fn excluded_list_has_nul(list: Seq<&str>) -> bool {
    exists|k: int| 0 <= k < list.len() && list[k]@.contains('\0')
}

/// Converts an excluded-path list for a native call, rejecting text the
/// native encoding cannot carry.
fn excluded_to_strings(list: &[&str]) -> (r: Result<Vec<String>, NiSystemConfigurationError>)
    ensures
        excluded_list_has_nul(list@) ==> r is Err && r->Err_0
            == NiSystemConfigurationError::EncodingError,
        !excluded_list_has_nul(list@) ==> {
            &&& r is Ok
            &&& r->Ok_0@.len() == list@.len()
            &&& forall|k: int| 0 <= k < list@.len() ==> (#[trigger] r->Ok_0@[k])@ == list@[k]@
        },
{
    let mut out: Vec<String> = Vec::new();
    let mut i: usize = 0;
    while i < list.len()
        invariant
            i <= list@.len(),
            out@.len() == i,
            forall|k: int| 0 <= k < i ==> (#[trigger] out@[k])@ == list@[k]@,
            forall|k: int| 0 <= k < i ==> !list@[k]@.contains('\0'),
        decreases list@.len() - i,
    {
        let item = *slice_index_get(list, i);
        if contains_nul(item) {
            return Err(NiSystemConfigurationError::EncodingError);
        }
        out.push(String::from_str(item));
        i = i + 1;
    }
    Ok(out)
}

impl Session {
    /// Creates an image of the system in the `image` folder path: the
    /// folder receives the metadata and the disk image.
    ///
    /// Every piece of text handed to the native layer - the path, the
    /// metadata, the optional encryption passphrase, and each excluded
    /// file or folder - is rejected with an encoding failure if the
    /// native encoding cannot carry it.  Otherwise the marshalled
    /// request goes to the native layer and its status decides the
    /// outcome.
    pub fn get_system_image(
        &self,
        native: &mut NativeModel,
        image: &str,
        image_info: &ImageInfo,
        encryption_passphrase: Option<&str>,
        excluded_files_folders: &[&str],
        auto_restart: bool,
        overwrite_if_exists: bool,
    ) -> (r: Result<(), NiSystemConfigurationError>)
        requires
            old(native).wf(),
            old(native).is_open(self.handle_id()),
        ensures
            final(native).wf(),
            ({
                let bad = image@.contains('\0') || (encryption_passphrase is Some
                    && encryption_passphrase->0@.contains('\0')) || image_info.title@.contains(
                    '\0',
                ) || image_info.id@.contains('\0') || image_info.version@.contains('\0')
                    || image_info.description@.contains('\0') || excluded_list_has_nul(
                    excluded_files_folders@,
                );
                if bad {
                    &&& r is Err
                    &&& r->Err_0 == NiSystemConfigurationError::EncodingError
                    &&& final(native).call_statuses@ == old(native).call_statuses@
                    &&& final(native).image_log@ == old(native).image_log@
                } else {
                    let status = head_or(old(native).call_statuses@, 0i32);
                    &&& final(native).call_statuses@ == tail_or_same(old(native).call_statuses@)
                    &&& final(native).image_log@.len() == old(native).image_log@.len() + 1
                    &&& final(native).image_log@.take(old(native).image_log@.len() as int)
                        == old(native).image_log@
                    &&& (final(native).image_log@.last() matches ImageRequest::Capture {
                        session,
                        title,
                        id,
                        version,
                        description,
                        auto_restart_code,
                        path,
                        passphrase,
                        excluded,
                        overwrite_code,
                    } && session == self.handle_id() && title@ == image_info.title@ && id@
                        == image_info.id@ && version@ == image_info.version@ && description@
                        == image_info.description@ && auto_restart_code
                        == FfiBoolean::from_bool_spec(auto_restart).code_spec() && path@
                        == image@ && (passphrase is Some <==> encryption_passphrase is Some) && (
                    encryption_passphrase is Some ==> passphrase->0@
                        == encryption_passphrase->0@) && excluded@.len()
                        == excluded_files_folders@.len() && (forall|k: int|
                        0 <= k < excluded@.len() ==> (#[trigger] excluded@[k])@
                            == excluded_files_folders@[k]@) && overwrite_code
                        == FfiBoolean::from_bool_spec(overwrite_if_exists).code_spec())
                    &&& (status >= 0 ==> r is Ok)
                    &&& (status < 0 ==> r is Err && r->Err_0
                        == NiSystemConfigurationError::ApiError(status_of_code(status)))
                }
            }),
            final(native).next_raw == old(native).next_raw,
            final(native).open@ == old(native).open@,
            final(native).closed@ == old(native).closed@,
            final(native).advance_statuses@ == old(native).advance_statuses@,
            final(native).int_replies@ == old(native).int_replies@,
            final(native).text_replies@ == old(native).text_replies@,
            final(native).connect_log@ == old(native).connect_log@,
            final(native).find_log@ == old(native).find_log@,
    {
        if contains_nul(image) {
            return Err(NiSystemConfigurationError::EncodingError);
        }
        let passphrase = match encryption_passphrase {
            Some(p) => {
                if contains_nul(p) {
                    return Err(NiSystemConfigurationError::EncodingError);
                }
                Some(String::from_str(p))
            },
            None => None,
        };
        if contains_nul(image_info.title.as_str()) {
            return Err(NiSystemConfigurationError::EncodingError);
        }
        if contains_nul(image_info.id.as_str()) {
            return Err(NiSystemConfigurationError::EncodingError);
        }
        if contains_nul(image_info.version.as_str()) {
            return Err(NiSystemConfigurationError::EncodingError);
        }
        if contains_nul(image_info.description.as_str()) {
            return Err(NiSystemConfigurationError::EncodingError);
        }
        let excluded = match excluded_to_strings(excluded_files_folders) {
            Ok(v) => v,
            Err(e) => {
                return Err(e);
            },
        };
        let request = ImageRequest::Capture {
            session: self.handle(),
            title: image_info.title.clone(),
            id: image_info.id.clone(),
            version: image_info.version.clone(),
            description: image_info.description.clone(),
            auto_restart_code: FfiBoolean::from(auto_restart).code(),
            path: String::from_str(image),
            passphrase,
            excluded,
            overwrite_code: FfiBoolean::from(overwrite_if_exists).code(),
        };
        let status = native.system_image_op(request);
        match api_status(status) {
            Ok(_) => Ok(()),
            Err(e) => Err(e),
        }
    }

    /// Copies a system image captured with [`Session::get_system_image`]
    /// from the `image` folder path onto the target.
    ///
    /// The same encoding rules hold as when capturing; on top of the
    /// restart flag, the call carries whether the image may only go back
    /// to the system it was taken from, and what happens to the network
    /// interface settings afterwards.
    pub fn set_system_image(
        &self,
        native: &mut NativeModel,
        image: &str,
        encryption_passphrase: Option<&str>,
        excluded_files_folders: &[&str],
        auto_restart: bool,
        original_system_only: bool,
        network_settings: NetworkInterfaceSettings,
    ) -> (r: Result<(), NiSystemConfigurationError>)
        requires
            old(native).wf(),
            old(native).is_open(self.handle_id()),
        ensures
            final(native).wf(),
            ({
                let bad = image@.contains('\0') || (encryption_passphrase is Some
                    && encryption_passphrase->0@.contains('\0')) || excluded_list_has_nul(
                    excluded_files_folders@,
                );
                if bad {
                    &&& r is Err
                    &&& r->Err_0 == NiSystemConfigurationError::EncodingError
                    &&& final(native).call_statuses@ == old(native).call_statuses@
                    &&& final(native).image_log@ == old(native).image_log@
                } else {
                    let status = head_or(old(native).call_statuses@, 0i32);
                    &&& final(native).call_statuses@ == tail_or_same(old(native).call_statuses@)
                    &&& final(native).image_log@.len() == old(native).image_log@.len() + 1
                    &&& final(native).image_log@.take(old(native).image_log@.len() as int)
                        == old(native).image_log@
                    &&& (final(native).image_log@.last() matches ImageRequest::Apply {
                        session,
                        auto_restart_code,
                        path,
                        passphrase,
                        excluded,
                        original_system_only_code,
                        network_settings_code,
                    } && session == self.handle_id() && auto_restart_code
                        == FfiBoolean::from_bool_spec(auto_restart).code_spec() && path@
                        == image@ && (passphrase is Some <==> encryption_passphrase is Some) && (
                    encryption_passphrase is Some ==> passphrase->0@
                        == encryption_passphrase->0@) && excluded@.len()
                        == excluded_files_folders@.len() && (forall|k: int|
                        0 <= k < excluded@.len() ==> (#[trigger] excluded@[k])@
                            == excluded_files_folders@[k]@) && original_system_only_code
                        == FfiBoolean::from_bool_spec(original_system_only).code_spec()
                        && network_settings_code == network_settings.code_spec())
                    &&& (status >= 0 ==> r is Ok)
                    &&& (status < 0 ==> r is Err && r->Err_0
                        == NiSystemConfigurationError::ApiError(status_of_code(status)))
                }
            }),
            final(native).next_raw == old(native).next_raw,
            final(native).open@ == old(native).open@,
            final(native).closed@ == old(native).closed@,
            final(native).advance_statuses@ == old(native).advance_statuses@,
            final(native).int_replies@ == old(native).int_replies@,
            final(native).text_replies@ == old(native).text_replies@,
            final(native).connect_log@ == old(native).connect_log@,
            final(native).find_log@ == old(native).find_log@,
    {
        if contains_nul(image) {
            return Err(NiSystemConfigurationError::EncodingError);
        }
        let passphrase = match encryption_passphrase {
            Some(p) => {
                if contains_nul(p) {
                    return Err(NiSystemConfigurationError::EncodingError);
                }
                Some(String::from_str(p))
            },
            None => None,
        };
        let excluded = match excluded_to_strings(excluded_files_folders) {
            Ok(v) => v,
            Err(e) => {
                return Err(e);
            },
        };
        let request = ImageRequest::Apply {
            session: self.handle(),
            auto_restart_code: FfiBoolean::from(auto_restart).code(),
            path: String::from_str(image),
            passphrase,
            excluded,
            original_system_only_code: FfiBoolean::from(original_system_only).code(),
            network_settings_code: network_settings.code(),
        };
        let status = native.system_image_op(request);
        match api_status(status) {
            Ok(_) => Ok(()),
            Err(e) => Err(e),
        }
    }
}

} // verus!
