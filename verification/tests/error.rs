//! Tests of the status-code mapping: the closed table, the unknown
//! fallback, and the sign convention.

use ni_syscfg::error::{api_status, NiSysCfgApiStatus, NiSystemConfigurationError};

#[test]
fn basic_error_test() {
    assert_eq!(
        NiSysCfgApiStatus::from(-2147418113i32),
        NiSysCfgApiStatus::Unexpected
    );
    assert_eq!(
        NiSysCfgApiStatus::from(-2147220277i32),
        NiSysCfgApiStatus::InvalidStartup
    )
}

#[test]
fn full_table_maps_every_code_to_its_variant() {
    let table: Vec<(i32, NiSysCfgApiStatus)> = vec![
        (0, NiSysCfgApiStatus::OK),
        (1, NiSysCfgApiStatus::EndOfEnum),
        (263024, NiSysCfgApiStatus::SelfTestBasicOnly),
        (263168, NiSysCfgApiStatus::FoundCachedOfflineSystem),
        (263169, NiSysCfgApiStatus::RestartLocalhostInitiated),
        (263170, NiSysCfgApiStatus::ChangedPropertyNotSaved),
        (-2147467263, NiSysCfgApiStatus::NotImplemented),
        (-2147467261, NiSysCfgApiStatus::NullPointer),
        (-2147467259, NiSysCfgApiStatus::Fail),
        (-2147418113, NiSysCfgApiStatus::Unexpected),
        (-2147024882, NiSysCfgApiStatus::OutOfMemory),
        (-2147024809, NiSysCfgApiStatus::InvalidArg),
        (-2147220448, NiSysCfgApiStatus::OperationTimedOut),
        (-2147220322, NiSysCfgApiStatus::FileNotFound),
        (-2147220278, NiSysCfgApiStatus::InvalidMACFormat),
        (-2147220624, NiSysCfgApiStatus::PropMismatch),
        (-2147220623, NiSysCfgApiStatus::PropDoesNotExist),
        (-2147220622, NiSysCfgApiStatus::UriIllegalSyntax),
        (-2147220621, NiSysCfgApiStatus::UriTargetDoesNotExist),
        (-2147220620, NiSysCfgApiStatus::UriExpertDoesNotExist),
        (-2147220619, NiSysCfgApiStatus::ItemDoesNotExist),
        (-2147220618, NiSysCfgApiStatus::InvalidMode),
        (-2147220616, NiSysCfgApiStatus::SysConfigAPINotInstalled),
        (-2147220614, NiSysCfgApiStatus::NameSyntaxIllegal),
        (-2147220613, NiSysCfgApiStatus::NameCollision),
        (-2147220612, NiSysCfgApiStatus::NoPropValidated),
        (-2147220611, NiSysCfgApiStatus::UriUnauthorized),
        (-2147220610, NiSysCfgApiStatus::RenameResourceDependencies),
        (-2147220609, NiSysCfgApiStatus::ValueInvalid),
        (-2147220608, NiSysCfgApiStatus::ValuesInconsistent),
        (-2147220607, NiSysCfgApiStatus::Canceled),
        (-2147220606, NiSysCfgApiStatus::ResponseSyntax),
        (-2147220605, NiSysCfgApiStatus::ResourceIsNotPresent),
        (-2147220604, NiSysCfgApiStatus::ResourceIsSimulated),
        (-2147220603, NiSysCfgApiStatus::NotInFirmwareUpdateState),
        (-2147220602, NiSysCfgApiStatus::FirmwareImageDeviceMismatch),
        (-2147220601, NiSysCfgApiStatus::FirmwareImageCorrupt),
        (-2147220600, NiSysCfgApiStatus::InvalidFirmwareVersion),
        (-2147220599, NiSysCfgApiStatus::OlderFirmwareVersion),
        (-2147220598, NiSysCfgApiStatus::InvalidLoginCredentials),
        (-2147220597, NiSysCfgApiStatus::FirmwareUpdateAttemptFailed),
        (-2147220596, NiSysCfgApiStatus::EncryptionFailed),
        (-2147220595, NiSysCfgApiStatus::SomePropsNotValidated),
        (-2147220594, NiSysCfgApiStatus::InvalidCalibrationCredentials),
        (-2147220593, NiSysCfgApiStatus::CannotDeletePresentResource),
        (-2147220592, NiSysCfgApiStatus::UriTargetTransmitError),
        (-2147220591, NiSysCfgApiStatus::DecryptionFailed),
        (-2147220590, NiSysCfgApiStatus::FirmwareExpertVersionMismatch),
        (-2147220589, NiSysCfgApiStatus::AmbiguousImportAction),
        (-2147220588, NiSysCfgApiStatus::RequiredItemFailedImport),
        (-2147220587, NiSysCfgApiStatus::ItemInUse),
        (-2147220586, NiSysCfgApiStatus::ItemTypeNotSupported),
        (-2147220560, NiSysCfgApiStatus::PermissionDenied),
        (-2147220559, NiSysCfgApiStatus::SystemNotFound),
        (-2147220558, NiSysCfgApiStatus::TransformFailed),
        (-2147220557, NiSysCfgApiStatus::NotInstalled),
        (-2147220556, NiSysCfgApiStatus::LaunchFailure),
        (-2147220555, NiSysCfgApiStatus::InternalTimeout),
        (-2147220554, NiSysCfgApiStatus::MissingTransform),
        (-2147220553, NiSysCfgApiStatus::IncorrectExtension),
        (-2147220552, NiSysCfgApiStatus::FileReadOnly),
        (-2147220551, NiSysCfgApiStatus::ReportOverwrite),
        (-2147220550, NiSysCfgApiStatus::DirectoryError),
        (-2147220480, NiSysCfgApiStatus::CannotOpenFile),
        (-2147220479, NiSysCfgApiStatus::InsufficientPermissions),
        (-2147220478, NiSysCfgApiStatus::NCECopierFailed),
        (-2147220477, NiSysCfgApiStatus::FileOperationFailed),
        (-2147220476, NiSysCfgApiStatus::NameCollisionError),
        (-2147220475, NiSysCfgApiStatus::UnexpectedError),
        (-2147220474, NiSysCfgApiStatus::NCENoStreamError),
        (-2147220473, NiSysCfgApiStatus::NCECompressionError),
        (-2147220472, NiSysCfgApiStatus::NCEStreamReadError),
        (-2147220471, NiSysCfgApiStatus::NCEStreamWriteError),
        (-2147220470, NiSysCfgApiStatus::NCEStreamSeekError),
        (-2147220469, NiSysCfgApiStatus::NCERepoNotReady),
        (-2147220468, NiSysCfgApiStatus::NCERepoInvalid),
        (-2147220467, NiSysCfgApiStatus::NCERepoIncompat),
        (-2147220466, NiSysCfgApiStatus::NCENoImportStorage),
        (-2147220465, NiSysCfgApiStatus::NCENoExportStorage),
        (-2147220464, NiSysCfgApiStatus::NCENoObjCopier),
        (-2147220463, NiSysCfgApiStatus::CopyInProgress),
        (-2147220462, NiSysCfgApiStatus::FileNotRecognized),
        (-2147220461, NiSysCfgApiStatus::SystemNotSupported),
        (-2147220460, NiSysCfgApiStatus::SystemNotReachable),
        (-2147220459, NiSysCfgApiStatus::ProductSoftwareNotInstalled),
        (-2147220458, NiSysCfgApiStatus::ProductSoftwareTooOld),
        (-2147220457, NiSysCfgApiStatus::ProductSoftwareTooNew),
        (-2147220456, NiSysCfgApiStatus::DataTooOld),
        (-2147220455, NiSysCfgApiStatus::DataTooNew),
        (-2147220454, NiSysCfgApiStatus::NoItemsToCopy),
        (-2147220453, NiSysCfgApiStatus::OrphanItems),
        (-2147220452, NiSysCfgApiStatus::DirtyItems),
        (-2147220451, NiSysCfgApiStatus::FileOverwrite),
        (-2147220450, NiSysCfgApiStatus::ItemOverwrite),
        (-2147220449, NiSysCfgApiStatus::MissingDependency),
        (-2147220447, NiSysCfgApiStatus::OperationCanceled),
        (-2147220446, NiSysCfgApiStatus::WarningConflicts),
        (-2147220445, NiSysCfgApiStatus::ErrorConflicts),
        (-2147220444, NiSysCfgApiStatus::ItemsRequireUserInput),
        (-2147220443, NiSysCfgApiStatus::ProductExpertNotReady),
        (-2147220442, NiSysCfgApiStatus::OrphanFiles),
        (-2147220441, NiSysCfgApiStatus::IsConst),
        (-2147220440, NiSysCfgApiStatus::UnsupportedProductMode),
        (-2147220368, NiSysCfgApiStatus::HostSoftwareTooOld),
        (-2147220367, NiSysCfgApiStatus::OpkgUpdateFeedFailure),
        (-2147220366, NiSysCfgApiStatus::FeedNotFound),
        (-2147220365, NiSysCfgApiStatus::FeedAlreadyExists),
        (-2147220364, NiSysCfgApiStatus::InstallOptionNotSupported),
        (-2147220363, NiSysCfgApiStatus::FirmwareTooOld),
        (-2147220362, NiSysCfgApiStatus::SoftwareTooOld),
        (-2147220361, NiSysCfgApiStatus::RequiresSSH),
        (-2147220360, NiSysCfgApiStatus::OpkgResponseSyntax),
        (-2147220359, NiSysCfgApiStatus::WrongSoftwareSetType),
        (-2147220358, NiSysCfgApiStatus::RequiresOpkg),
        (-2147220357, NiSysCfgApiStatus::HDFormatEncryptNotSupported),
        (-2147220356, NiSysCfgApiStatus::HDFormatNoRecoveryKeyDevice),
        (-2147220355, NiSysCfgApiStatus::RestartLocalhostAmbiguous),
        (-2147220354, NiSysCfgApiStatus::ImageInvalidCorrupt),
        (-2147220353, NiSysCfgApiStatus::SafeOrInstallModeRequired),
        (-2147220352, NiSysCfgApiStatus::EncryptPhraseMismatch),
        (-2147220351, NiSysCfgApiStatus::InvalidIP),
        (-2147220350, NiSysCfgApiStatus::InvalidGateway),
        (-2147220349, NiSysCfgApiStatus::InvalidDNS),
        (-2147220348, NiSysCfgApiStatus::InvalidSubnet),
        (-2147220347, NiSysCfgApiStatus::CmdNotSupported),
        (-2147220346, NiSysCfgApiStatus::ConfigFailed),
        (-2147220345, NiSysCfgApiStatus::Locked),
        (-2147220344, NiSysCfgApiStatus::BadPassword),
        (-2147220343, NiSysCfgApiStatus::NotConfigurable),
        (-2147220342, NiSysCfgApiStatus::UnlockFailed),
        (-2147220341, NiSysCfgApiStatus::LockFailed),
        (-2147220340, NiSysCfgApiStatus::InstallFailed),
        (-2147220339, NiSysCfgApiStatus::InstallationCorrupt),
        (-2147220338, NiSysCfgApiStatus::EmptyFile),
        (-2147220337, NiSysCfgApiStatus::UnconfiguredIP),
        (-2147220336, NiSysCfgApiStatus::InstallationGenericFailure),
        (-2147220335, NiSysCfgApiStatus::DownloadAlreadyStarted),
        (-2147220334, NiSysCfgApiStatus::Aborted),
        (-2147220333, NiSysCfgApiStatus::DiskFull),
        (-2147220332, NiSysCfgApiStatus::HDFormatFailed),
        (-2147220331, NiSysCfgApiStatus::HDFormatNotSafeMode),
        (-2147220330, NiSysCfgApiStatus::HDFormatRebootFailed),
        (-2147220329, NiSysCfgApiStatus::ConnectionRefused),
        (-2147220328, NiSysCfgApiStatus::GetRemoteFilesFailed),
        (-2147220327, NiSysCfgApiStatus::PutRemoteFilesFailed),
        (-2147220326, NiSysCfgApiStatus::InvalidImage),
        (-2147220325, NiSysCfgApiStatus::ImageDeviceCodeMismatch),
        (-2147220324, NiSysCfgApiStatus::SystemMismatch),
        (-2147220323, NiSysCfgApiStatus::HDFormatWrongFS),
        (-2147220321, NiSysCfgApiStatus::CustomInstallNotSupported),
        (-2147220320, NiSysCfgApiStatus::FTPFailed),
        (-2147220319, NiSysCfgApiStatus::Timeout),
        (-2147220318, NiSysCfgApiStatus::DirNotFound),
        (-2147220317, NiSysCfgApiStatus::PathNotFound),
        (-2147220316, NiSysCfgApiStatus::NoSoftwareAvailable),
        (-2147220315, NiSysCfgApiStatus::OverwriteError),
        (-2147220314, NiSysCfgApiStatus::HDFormatCannotKeepCfg),
        (-2147220313, NiSysCfgApiStatus::FileOrPathTooLong),
        (-2147220312, NiSysCfgApiStatus::DDPInternalTimeout),
        (-2147220311, NiSysCfgApiStatus::IOPermissionDenied),
        (-2147220310, NiSysCfgApiStatus::PathAlreadyExists),
        (-2147220309, NiSysCfgApiStatus::ExecutionFailure),
        (-2147220308, NiSysCfgApiStatus::DownloadError),
        (-2147220307, NiSysCfgApiStatus::NetSendFailed),
        (-2147220306, NiSysCfgApiStatus::ContactHostDisconnected),
        (-2147220305, NiSysCfgApiStatus::NetSvcDown),
        (-2147220304, NiSysCfgApiStatus::NotConfirmed),
        (-2147220303, NiSysCfgApiStatus::HostNotResolved),
        (-2147220302, NiSysCfgApiStatus::RebootTimeout),
        (-2147220301, NiSysCfgApiStatus::NoConfirmationFP1600),
        (-2147220300, NiSysCfgApiStatus::DuplicateStartup),
        (-2147220299, NiSysCfgApiStatus::RemoteInvalidArgument),
        (-2147220298, NiSysCfgApiStatus::NotUninstallable),
        (-2147220297, NiSysCfgApiStatus::DuplicatesNotAllowed),
        (-2147220296, NiSysCfgApiStatus::NotInstallable),
        (-2147220295, NiSysCfgApiStatus::WrongDevice),
        (-2147220294, NiSysCfgApiStatus::WrongOS),
        (-2147220293, NiSysCfgApiStatus::OSVersionTooOld),
        (-2147220292, NiSysCfgApiStatus::IOError),
        (-2147220291, NiSysCfgApiStatus::CorruptConfig),
        (-2147220290, NiSysCfgApiStatus::BufferOverflow),
        (-2147220289, NiSysCfgApiStatus::UnsupportedCDFVersion),
        (-2147220288, NiSysCfgApiStatus::InvalidStack),
        (-2147220287, NiSysCfgApiStatus::IncompleteStack),
        (-2147220286, NiSysCfgApiStatus::StackItemMissing),
        (-2147220285, NiSysCfgApiStatus::TopLevelHiddenComponentError),
        (-2147220284, NiSysCfgApiStatus::InvalidAddon),
        (-2147220283, NiSysCfgApiStatus::NoRTImagesFolder),
        (-2147220282, NiSysCfgApiStatus::NoRTImagesRegistry),
        (-2147220281, NiSysCfgApiStatus::NoRTS2CDF),
        (-2147220280, NiSysCfgApiStatus::UnsupportedOS),
        (-2147220279, NiSysCfgApiStatus::ExactVersionRequired),
        (-2147220277, NiSysCfgApiStatus::InvalidStartup),
    ];
    assert_eq!(table.len(), 193);
    for (code, expected) in table {
        assert_eq!(NiSysCfgApiStatus::from_code(code), expected);
    }
}

#[test]
fn unknown_codes_map_to_unknown_with_raw_value() {
    let probes = vec![2, 12345, 263025, i32::MAX, -3, -2147418114, -2147220276, i32::MIN];
    for code in probes {
        assert_eq!(
            NiSysCfgApiStatus::from_code(code),
            NiSysCfgApiStatus::Unknown(code)
        );
    }
}

#[test]
fn api_status_splits_on_sign() {
    assert_eq!(api_status(0), Ok(NiSysCfgApiStatus::OK));
    assert_eq!(api_status(1), Ok(NiSysCfgApiStatus::EndOfEnum));
    assert_eq!(api_status(7777), Ok(NiSysCfgApiStatus::Unknown(7777)));
    assert_eq!(
        api_status(-2147467259),
        Err(NiSystemConfigurationError::ApiError(NiSysCfgApiStatus::Fail))
    );
    assert_eq!(
        api_status(-7777),
        Err(NiSystemConfigurationError::ApiError(NiSysCfgApiStatus::Unknown(
            -7777
        )))
    );
}

