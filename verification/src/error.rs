//! Status codes of the native layer and the crate's error type.

use vstd::prelude::*;

verus! {

/// A representation of the different status codes the native layer can
/// return.  The mapping is total: a code that is absent from the closed
/// table below becomes `Unknown` and carries the raw value.
#[derive(Clone, Copy, Debug, PartialEq, Eq, Structural)]
pub enum NiSysCfgApiStatus {
    Unknown(i32),
    OK,
    EndOfEnum,
    SelfTestBasicOnly,
    FoundCachedOfflineSystem,
    RestartLocalhostInitiated,
    ChangedPropertyNotSaved,
    NotImplemented,
    NullPointer,
    Fail,
    Unexpected,
    OutOfMemory,
    InvalidArg,
    OperationTimedOut,
    FileNotFound,
    InvalidMACFormat,
    PropMismatch,
    PropDoesNotExist,
    UriIllegalSyntax,
    UriTargetDoesNotExist,
    UriExpertDoesNotExist,
    ItemDoesNotExist,
    InvalidMode,
    SysConfigAPINotInstalled,
    NameSyntaxIllegal,
    NameCollision,
    NoPropValidated,
    UriUnauthorized,
    RenameResourceDependencies,
    ValueInvalid,
    ValuesInconsistent,
    Canceled,
    ResponseSyntax,
    ResourceIsNotPresent,
    ResourceIsSimulated,
    NotInFirmwareUpdateState,
    FirmwareImageDeviceMismatch,
    FirmwareImageCorrupt,
    InvalidFirmwareVersion,
    OlderFirmwareVersion,
    InvalidLoginCredentials,
    FirmwareUpdateAttemptFailed,
    EncryptionFailed,
    SomePropsNotValidated,
    InvalidCalibrationCredentials,
    CannotDeletePresentResource,
    UriTargetTransmitError,
    DecryptionFailed,
    FirmwareExpertVersionMismatch,
    AmbiguousImportAction,
    RequiredItemFailedImport,
    ItemInUse,
    ItemTypeNotSupported,
    PermissionDenied,
    SystemNotFound,
    TransformFailed,
    NotInstalled,
    LaunchFailure,
    InternalTimeout,
    MissingTransform,
    IncorrectExtension,
    FileReadOnly,
    ReportOverwrite,
    DirectoryError,
    CannotOpenFile,
    InsufficientPermissions,
    NCECopierFailed,
    FileOperationFailed,
    NameCollisionError,
    UnexpectedError,
    NCENoStreamError,
    NCECompressionError,
    NCEStreamReadError,
    NCEStreamWriteError,
    NCEStreamSeekError,
    NCERepoNotReady,
    NCERepoInvalid,
    NCERepoIncompat,
    NCENoImportStorage,
    NCENoExportStorage,
    NCENoObjCopier,
    CopyInProgress,
    FileNotRecognized,
    SystemNotSupported,
    SystemNotReachable,
    ProductSoftwareNotInstalled,
    ProductSoftwareTooOld,
    ProductSoftwareTooNew,
    DataTooOld,
    DataTooNew,
    NoItemsToCopy,
    OrphanItems,
    DirtyItems,
    FileOverwrite,
    ItemOverwrite,
    MissingDependency,
    OperationCanceled,
    WarningConflicts,
    ErrorConflicts,
    ItemsRequireUserInput,
    ProductExpertNotReady,
    OrphanFiles,
    IsConst,
    UnsupportedProductMode,
    HostSoftwareTooOld,
    OpkgUpdateFeedFailure,
    FeedNotFound,
    FeedAlreadyExists,
    InstallOptionNotSupported,
    FirmwareTooOld,
    SoftwareTooOld,
    RequiresSSH,
    OpkgResponseSyntax,
    WrongSoftwareSetType,
    RequiresOpkg,
    HDFormatEncryptNotSupported,
    HDFormatNoRecoveryKeyDevice,
    RestartLocalhostAmbiguous,
    ImageInvalidCorrupt,
    SafeOrInstallModeRequired,
    EncryptPhraseMismatch,
    InvalidIP,
    InvalidGateway,
    InvalidDNS,
    InvalidSubnet,
    CmdNotSupported,
    ConfigFailed,
    Locked,
    BadPassword,
    NotConfigurable,
    UnlockFailed,
    LockFailed,
    InstallFailed,
    InstallationCorrupt,
    EmptyFile,
    UnconfiguredIP,
    InstallationGenericFailure,
    DownloadAlreadyStarted,
    Aborted,
    DiskFull,
    HDFormatFailed,
    HDFormatNotSafeMode,
    HDFormatRebootFailed,
    ConnectionRefused,
    GetRemoteFilesFailed,
    PutRemoteFilesFailed,
    InvalidImage,
    ImageDeviceCodeMismatch,
    SystemMismatch,
    HDFormatWrongFS,
    CustomInstallNotSupported,
    FTPFailed,
    Timeout,
    DirNotFound,
    PathNotFound,
    NoSoftwareAvailable,
    OverwriteError,
    HDFormatCannotKeepCfg,
    FileOrPathTooLong,
    DDPInternalTimeout,
    IOPermissionDenied,
    PathAlreadyExists,
    ExecutionFailure,
    DownloadError,
    NetSendFailed,
    ContactHostDisconnected,
    NetSvcDown,
    NotConfirmed,
    HostNotResolved,
    RebootTimeout,
    NoConfirmationFP1600,
    DuplicateStartup,
    RemoteInvalidArgument,
    NotUninstallable,
    DuplicatesNotAllowed,
    NotInstallable,
    WrongDevice,
    WrongOS,
    OSVersionTooOld,
    IOError,
    CorruptConfig,
    BufferOverflow,
    UnsupportedCDFVersion,
    InvalidStack,
    IncompleteStack,
    StackItemMissing,
    TopLevelHiddenComponentError,
    InvalidAddon,
    NoRTImagesFolder,
    NoRTImagesRegistry,
    NoRTS2CDF,
    UnsupportedOS,
    ExactVersionRequired,
    InvalidStartup,
}

/// The numeric code a status variant stands for; an `Unknown` status
/// stands for the raw value it carries.
pub open spec fn status_code(s: NiSysCfgApiStatus) -> i32 {
    match s {
        NiSysCfgApiStatus::Unknown(raw) => raw,
        NiSysCfgApiStatus::OK => 0i32,
        NiSysCfgApiStatus::EndOfEnum => 1i32,
        NiSysCfgApiStatus::SelfTestBasicOnly => 263024i32,
        NiSysCfgApiStatus::FoundCachedOfflineSystem => 263168i32,
        NiSysCfgApiStatus::RestartLocalhostInitiated => 263169i32,
        NiSysCfgApiStatus::ChangedPropertyNotSaved => 263170i32,
        NiSysCfgApiStatus::NotImplemented => -2147467263i32,
        NiSysCfgApiStatus::NullPointer => -2147467261i32,
        NiSysCfgApiStatus::Fail => -2147467259i32,
        NiSysCfgApiStatus::Unexpected => -2147418113i32,
        NiSysCfgApiStatus::OutOfMemory => -2147024882i32,
        NiSysCfgApiStatus::InvalidArg => -2147024809i32,
        NiSysCfgApiStatus::OperationTimedOut => -2147220448i32,
        NiSysCfgApiStatus::FileNotFound => -2147220322i32,
        NiSysCfgApiStatus::InvalidMACFormat => -2147220278i32,
        NiSysCfgApiStatus::PropMismatch => -2147220624i32,
        NiSysCfgApiStatus::PropDoesNotExist => -2147220623i32,
        NiSysCfgApiStatus::UriIllegalSyntax => -2147220622i32,
        NiSysCfgApiStatus::UriTargetDoesNotExist => -2147220621i32,
        NiSysCfgApiStatus::UriExpertDoesNotExist => -2147220620i32,
        NiSysCfgApiStatus::ItemDoesNotExist => -2147220619i32,
        NiSysCfgApiStatus::InvalidMode => -2147220618i32,
        NiSysCfgApiStatus::SysConfigAPINotInstalled => -2147220616i32,
        NiSysCfgApiStatus::NameSyntaxIllegal => -2147220614i32,
        NiSysCfgApiStatus::NameCollision => -2147220613i32,
        NiSysCfgApiStatus::NoPropValidated => -2147220612i32,
        NiSysCfgApiStatus::UriUnauthorized => -2147220611i32,
        NiSysCfgApiStatus::RenameResourceDependencies => -2147220610i32,
        NiSysCfgApiStatus::ValueInvalid => -2147220609i32,
        NiSysCfgApiStatus::ValuesInconsistent => -2147220608i32,
        NiSysCfgApiStatus::Canceled => -2147220607i32,
        NiSysCfgApiStatus::ResponseSyntax => -2147220606i32,
        NiSysCfgApiStatus::ResourceIsNotPresent => -2147220605i32,
        NiSysCfgApiStatus::ResourceIsSimulated => -2147220604i32,
        NiSysCfgApiStatus::NotInFirmwareUpdateState => -2147220603i32,
        NiSysCfgApiStatus::FirmwareImageDeviceMismatch => -2147220602i32,
        NiSysCfgApiStatus::FirmwareImageCorrupt => -2147220601i32,
        NiSysCfgApiStatus::InvalidFirmwareVersion => -2147220600i32,
        NiSysCfgApiStatus::OlderFirmwareVersion => -2147220599i32,
        NiSysCfgApiStatus::InvalidLoginCredentials => -2147220598i32,
        NiSysCfgApiStatus::FirmwareUpdateAttemptFailed => -2147220597i32,
        NiSysCfgApiStatus::EncryptionFailed => -2147220596i32,
        NiSysCfgApiStatus::SomePropsNotValidated => -2147220595i32,
        NiSysCfgApiStatus::InvalidCalibrationCredentials => -2147220594i32,
        NiSysCfgApiStatus::CannotDeletePresentResource => -2147220593i32,
        NiSysCfgApiStatus::UriTargetTransmitError => -2147220592i32,
        NiSysCfgApiStatus::DecryptionFailed => -2147220591i32,
        NiSysCfgApiStatus::FirmwareExpertVersionMismatch => -2147220590i32,
        NiSysCfgApiStatus::AmbiguousImportAction => -2147220589i32,
        NiSysCfgApiStatus::RequiredItemFailedImport => -2147220588i32,
        NiSysCfgApiStatus::ItemInUse => -2147220587i32,
        NiSysCfgApiStatus::ItemTypeNotSupported => -2147220586i32,
        NiSysCfgApiStatus::PermissionDenied => -2147220560i32,
        NiSysCfgApiStatus::SystemNotFound => -2147220559i32,
        NiSysCfgApiStatus::TransformFailed => -2147220558i32,
        NiSysCfgApiStatus::NotInstalled => -2147220557i32,
        NiSysCfgApiStatus::LaunchFailure => -2147220556i32,
        NiSysCfgApiStatus::InternalTimeout => -2147220555i32,
        NiSysCfgApiStatus::MissingTransform => -2147220554i32,
        NiSysCfgApiStatus::IncorrectExtension => -2147220553i32,
        NiSysCfgApiStatus::FileReadOnly => -2147220552i32,
        NiSysCfgApiStatus::ReportOverwrite => -2147220551i32,
        NiSysCfgApiStatus::DirectoryError => -2147220550i32,
        NiSysCfgApiStatus::CannotOpenFile => -2147220480i32,
        NiSysCfgApiStatus::InsufficientPermissions => -2147220479i32,
        NiSysCfgApiStatus::NCECopierFailed => -2147220478i32,
        NiSysCfgApiStatus::FileOperationFailed => -2147220477i32,
        NiSysCfgApiStatus::NameCollisionError => -2147220476i32,
        NiSysCfgApiStatus::UnexpectedError => -2147220475i32,
        NiSysCfgApiStatus::NCENoStreamError => -2147220474i32,
        NiSysCfgApiStatus::NCECompressionError => -2147220473i32,
        NiSysCfgApiStatus::NCEStreamReadError => -2147220472i32,
        NiSysCfgApiStatus::NCEStreamWriteError => -2147220471i32,
        NiSysCfgApiStatus::NCEStreamSeekError => -2147220470i32,
        NiSysCfgApiStatus::NCERepoNotReady => -2147220469i32,
        NiSysCfgApiStatus::NCERepoInvalid => -2147220468i32,
        NiSysCfgApiStatus::NCERepoIncompat => -2147220467i32,
        NiSysCfgApiStatus::NCENoImportStorage => -2147220466i32,
        NiSysCfgApiStatus::NCENoExportStorage => -2147220465i32,
        NiSysCfgApiStatus::NCENoObjCopier => -2147220464i32,
        NiSysCfgApiStatus::CopyInProgress => -2147220463i32,
        NiSysCfgApiStatus::FileNotRecognized => -2147220462i32,
        NiSysCfgApiStatus::SystemNotSupported => -2147220461i32,
        NiSysCfgApiStatus::SystemNotReachable => -2147220460i32,
        NiSysCfgApiStatus::ProductSoftwareNotInstalled => -2147220459i32,
        NiSysCfgApiStatus::ProductSoftwareTooOld => -2147220458i32,
        NiSysCfgApiStatus::ProductSoftwareTooNew => -2147220457i32,
        NiSysCfgApiStatus::DataTooOld => -2147220456i32,
        NiSysCfgApiStatus::DataTooNew => -2147220455i32,
        NiSysCfgApiStatus::NoItemsToCopy => -2147220454i32,
        NiSysCfgApiStatus::OrphanItems => -2147220453i32,
        NiSysCfgApiStatus::DirtyItems => -2147220452i32,
        NiSysCfgApiStatus::FileOverwrite => -2147220451i32,
        NiSysCfgApiStatus::ItemOverwrite => -2147220450i32,
        NiSysCfgApiStatus::MissingDependency => -2147220449i32,
        NiSysCfgApiStatus::OperationCanceled => -2147220447i32,
        NiSysCfgApiStatus::WarningConflicts => -2147220446i32,
        NiSysCfgApiStatus::ErrorConflicts => -2147220445i32,
        NiSysCfgApiStatus::ItemsRequireUserInput => -2147220444i32,
        NiSysCfgApiStatus::ProductExpertNotReady => -2147220443i32,
        NiSysCfgApiStatus::OrphanFiles => -2147220442i32,
        NiSysCfgApiStatus::IsConst => -2147220441i32,
        NiSysCfgApiStatus::UnsupportedProductMode => -2147220440i32,
        NiSysCfgApiStatus::HostSoftwareTooOld => -2147220368i32,
        NiSysCfgApiStatus::OpkgUpdateFeedFailure => -2147220367i32,
        NiSysCfgApiStatus::FeedNotFound => -2147220366i32,
        NiSysCfgApiStatus::FeedAlreadyExists => -2147220365i32,
        NiSysCfgApiStatus::InstallOptionNotSupported => -2147220364i32,
        NiSysCfgApiStatus::FirmwareTooOld => -2147220363i32,
        NiSysCfgApiStatus::SoftwareTooOld => -2147220362i32,
        NiSysCfgApiStatus::RequiresSSH => -2147220361i32,
        NiSysCfgApiStatus::OpkgResponseSyntax => -2147220360i32,
        NiSysCfgApiStatus::WrongSoftwareSetType => -2147220359i32,
        NiSysCfgApiStatus::RequiresOpkg => -2147220358i32,
        NiSysCfgApiStatus::HDFormatEncryptNotSupported => -2147220357i32,
        NiSysCfgApiStatus::HDFormatNoRecoveryKeyDevice => -2147220356i32,
        NiSysCfgApiStatus::RestartLocalhostAmbiguous => -2147220355i32,
        NiSysCfgApiStatus::ImageInvalidCorrupt => -2147220354i32,
        NiSysCfgApiStatus::SafeOrInstallModeRequired => -2147220353i32,
        NiSysCfgApiStatus::EncryptPhraseMismatch => -2147220352i32,
        NiSysCfgApiStatus::InvalidIP => -2147220351i32,
        NiSysCfgApiStatus::InvalidGateway => -2147220350i32,
        NiSysCfgApiStatus::InvalidDNS => -2147220349i32,
        NiSysCfgApiStatus::InvalidSubnet => -2147220348i32,
        NiSysCfgApiStatus::CmdNotSupported => -2147220347i32,
        NiSysCfgApiStatus::ConfigFailed => -2147220346i32,
        NiSysCfgApiStatus::Locked => -2147220345i32,
        NiSysCfgApiStatus::BadPassword => -2147220344i32,
        NiSysCfgApiStatus::NotConfigurable => -2147220343i32,
        NiSysCfgApiStatus::UnlockFailed => -2147220342i32,
        NiSysCfgApiStatus::LockFailed => -2147220341i32,
        NiSysCfgApiStatus::InstallFailed => -2147220340i32,
        NiSysCfgApiStatus::InstallationCorrupt => -2147220339i32,
        NiSysCfgApiStatus::EmptyFile => -2147220338i32,
        NiSysCfgApiStatus::UnconfiguredIP => -2147220337i32,
        NiSysCfgApiStatus::InstallationGenericFailure => -2147220336i32,
        NiSysCfgApiStatus::DownloadAlreadyStarted => -2147220335i32,
        NiSysCfgApiStatus::Aborted => -2147220334i32,
        NiSysCfgApiStatus::DiskFull => -2147220333i32,
        NiSysCfgApiStatus::HDFormatFailed => -2147220332i32,
        NiSysCfgApiStatus::HDFormatNotSafeMode => -2147220331i32,
        NiSysCfgApiStatus::HDFormatRebootFailed => -2147220330i32,
        NiSysCfgApiStatus::ConnectionRefused => -2147220329i32,
        NiSysCfgApiStatus::GetRemoteFilesFailed => -2147220328i32,
        NiSysCfgApiStatus::PutRemoteFilesFailed => -2147220327i32,
        NiSysCfgApiStatus::InvalidImage => -2147220326i32,
        NiSysCfgApiStatus::ImageDeviceCodeMismatch => -2147220325i32,
        NiSysCfgApiStatus::SystemMismatch => -2147220324i32,
        NiSysCfgApiStatus::HDFormatWrongFS => -2147220323i32,
        NiSysCfgApiStatus::CustomInstallNotSupported => -2147220321i32,
        NiSysCfgApiStatus::FTPFailed => -2147220320i32,
        NiSysCfgApiStatus::Timeout => -2147220319i32,
        NiSysCfgApiStatus::DirNotFound => -2147220318i32,
        NiSysCfgApiStatus::PathNotFound => -2147220317i32,
        NiSysCfgApiStatus::NoSoftwareAvailable => -2147220316i32,
        NiSysCfgApiStatus::OverwriteError => -2147220315i32,
        NiSysCfgApiStatus::HDFormatCannotKeepCfg => -2147220314i32,
        NiSysCfgApiStatus::FileOrPathTooLong => -2147220313i32,
        NiSysCfgApiStatus::DDPInternalTimeout => -2147220312i32,
        NiSysCfgApiStatus::IOPermissionDenied => -2147220311i32,
        NiSysCfgApiStatus::PathAlreadyExists => -2147220310i32,
        NiSysCfgApiStatus::ExecutionFailure => -2147220309i32,
        NiSysCfgApiStatus::DownloadError => -2147220308i32,
        NiSysCfgApiStatus::NetSendFailed => -2147220307i32,
        NiSysCfgApiStatus::ContactHostDisconnected => -2147220306i32,
        NiSysCfgApiStatus::NetSvcDown => -2147220305i32,
        NiSysCfgApiStatus::NotConfirmed => -2147220304i32,
        NiSysCfgApiStatus::HostNotResolved => -2147220303i32,
        NiSysCfgApiStatus::RebootTimeout => -2147220302i32,
        NiSysCfgApiStatus::NoConfirmationFP1600 => -2147220301i32,
        NiSysCfgApiStatus::DuplicateStartup => -2147220300i32,
        NiSysCfgApiStatus::RemoteInvalidArgument => -2147220299i32,
        NiSysCfgApiStatus::NotUninstallable => -2147220298i32,
        NiSysCfgApiStatus::DuplicatesNotAllowed => -2147220297i32,
        NiSysCfgApiStatus::NotInstallable => -2147220296i32,
        NiSysCfgApiStatus::WrongDevice => -2147220295i32,
        NiSysCfgApiStatus::WrongOS => -2147220294i32,
        NiSysCfgApiStatus::OSVersionTooOld => -2147220293i32,
        NiSysCfgApiStatus::IOError => -2147220292i32,
        NiSysCfgApiStatus::CorruptConfig => -2147220291i32,
        NiSysCfgApiStatus::BufferOverflow => -2147220290i32,
        NiSysCfgApiStatus::UnsupportedCDFVersion => -2147220289i32,
        NiSysCfgApiStatus::InvalidStack => -2147220288i32,
        NiSysCfgApiStatus::IncompleteStack => -2147220287i32,
        NiSysCfgApiStatus::StackItemMissing => -2147220286i32,
        NiSysCfgApiStatus::TopLevelHiddenComponentError => -2147220285i32,
        NiSysCfgApiStatus::InvalidAddon => -2147220284i32,
        NiSysCfgApiStatus::NoRTImagesFolder => -2147220283i32,
        NiSysCfgApiStatus::NoRTImagesRegistry => -2147220282i32,
        NiSysCfgApiStatus::NoRTS2CDF => -2147220281i32,
        NiSysCfgApiStatus::UnsupportedOS => -2147220280i32,
        NiSysCfgApiStatus::ExactVersionRequired => -2147220279i32,
        NiSysCfgApiStatus::InvalidStartup => -2147220277i32,
    }
}

/// Whether a code has an entry in the closed mapping table.
pub open spec fn known_code(code: i32) -> bool {
    code == 0 || code == 1 || code == 263024 || code == 263168 ||
    code == 263169 || code == 263170 || code == -2147467263 || code == -2147467261 ||
    code == -2147467259 || code == -2147418113 || code == -2147024882 || code == -2147024809 ||
    code == -2147220448 || code == -2147220322 || code == -2147220278 || code == -2147220624 ||
    code == -2147220623 || code == -2147220622 || code == -2147220621 || code == -2147220620 ||
    code == -2147220619 || code == -2147220618 || code == -2147220616 || code == -2147220614 ||
    code == -2147220613 || code == -2147220612 || code == -2147220611 || code == -2147220610 ||
    code == -2147220609 || code == -2147220608 || code == -2147220607 || code == -2147220606 ||
    code == -2147220605 || code == -2147220604 || code == -2147220603 || code == -2147220602 ||
    code == -2147220601 || code == -2147220600 || code == -2147220599 || code == -2147220598 ||
    code == -2147220597 || code == -2147220596 || code == -2147220595 || code == -2147220594 ||
    code == -2147220593 || code == -2147220592 || code == -2147220591 || code == -2147220590 ||
    code == -2147220589 || code == -2147220588 || code == -2147220587 || code == -2147220586 ||
    code == -2147220560 || code == -2147220559 || code == -2147220558 || code == -2147220557 ||
    code == -2147220556 || code == -2147220555 || code == -2147220554 || code == -2147220553 ||
    code == -2147220552 || code == -2147220551 || code == -2147220550 || code == -2147220480 ||
    code == -2147220479 || code == -2147220478 || code == -2147220477 || code == -2147220476 ||
    code == -2147220475 || code == -2147220474 || code == -2147220473 || code == -2147220472 ||
    code == -2147220471 || code == -2147220470 || code == -2147220469 || code == -2147220468 ||
    code == -2147220467 || code == -2147220466 || code == -2147220465 || code == -2147220464 ||
    code == -2147220463 || code == -2147220462 || code == -2147220461 || code == -2147220460 ||
    code == -2147220459 || code == -2147220458 || code == -2147220457 || code == -2147220456 ||
    code == -2147220455 || code == -2147220454 || code == -2147220453 || code == -2147220452 ||
    code == -2147220451 || code == -2147220450 || code == -2147220449 || code == -2147220447 ||
    code == -2147220446 || code == -2147220445 || code == -2147220444 || code == -2147220443 ||
    code == -2147220442 || code == -2147220441 || code == -2147220440 || code == -2147220368 ||
    code == -2147220367 || code == -2147220366 || code == -2147220365 || code == -2147220364 ||
    code == -2147220363 || code == -2147220362 || code == -2147220361 || code == -2147220360 ||
    code == -2147220359 || code == -2147220358 || code == -2147220357 || code == -2147220356 ||
    code == -2147220355 || code == -2147220354 || code == -2147220353 || code == -2147220352 ||
    code == -2147220351 || code == -2147220350 || code == -2147220349 || code == -2147220348 ||
    code == -2147220347 || code == -2147220346 || code == -2147220345 || code == -2147220344 ||
    code == -2147220343 || code == -2147220342 || code == -2147220341 || code == -2147220340 ||
    code == -2147220339 || code == -2147220338 || code == -2147220337 || code == -2147220336 ||
    code == -2147220335 || code == -2147220334 || code == -2147220333 || code == -2147220332 ||
    code == -2147220331 || code == -2147220330 || code == -2147220329 || code == -2147220328 ||
    code == -2147220327 || code == -2147220326 || code == -2147220325 || code == -2147220324 ||
    code == -2147220323 || code == -2147220321 || code == -2147220320 || code == -2147220319 ||
    code == -2147220318 || code == -2147220317 || code == -2147220316 || code == -2147220315 ||
    code == -2147220314 || code == -2147220313 || code == -2147220312 || code == -2147220311 ||
    code == -2147220310 || code == -2147220309 || code == -2147220308 || code == -2147220307 ||
    code == -2147220306 || code == -2147220305 || code == -2147220304 || code == -2147220303 ||
    code == -2147220302 || code == -2147220301 || code == -2147220300 || code == -2147220299 ||
    code == -2147220298 || code == -2147220297 || code == -2147220296 || code == -2147220295 ||
    code == -2147220294 || code == -2147220293 || code == -2147220292 || code == -2147220291 ||
    code == -2147220290 || code == -2147220289 || code == -2147220288 || code == -2147220287 ||
    code == -2147220286 || code == -2147220285 || code == -2147220284 || code == -2147220283 ||
    code == -2147220282 || code == -2147220281 || code == -2147220280 || code == -2147220279 ||
    code == -2147220277
}

/// The total mapping from a raw native code to its status variant.
pub open spec fn status_of_code(code: i32) -> NiSysCfgApiStatus {
    if code == 0 {
        NiSysCfgApiStatus::OK
    } else if code == 1 {
        NiSysCfgApiStatus::EndOfEnum
    } else if code == 263024 {
        NiSysCfgApiStatus::SelfTestBasicOnly
    } else if code == 263168 {
        NiSysCfgApiStatus::FoundCachedOfflineSystem
    } else if code == 263169 {
        NiSysCfgApiStatus::RestartLocalhostInitiated
    } else if code == 263170 {
        NiSysCfgApiStatus::ChangedPropertyNotSaved
    } else if code == -2147467263 {
        NiSysCfgApiStatus::NotImplemented
    } else if code == -2147467261 {
        NiSysCfgApiStatus::NullPointer
    } else if code == -2147467259 {
        NiSysCfgApiStatus::Fail
    } else if code == -2147418113 {
        NiSysCfgApiStatus::Unexpected
    } else if code == -2147024882 {
        NiSysCfgApiStatus::OutOfMemory
    } else if code == -2147024809 {
        NiSysCfgApiStatus::InvalidArg
    } else if code == -2147220448 {
        NiSysCfgApiStatus::OperationTimedOut
    } else if code == -2147220322 {
        NiSysCfgApiStatus::FileNotFound
    } else if code == -2147220278 {
        NiSysCfgApiStatus::InvalidMACFormat
    } else if code == -2147220624 {
        NiSysCfgApiStatus::PropMismatch
    } else if code == -2147220623 {
        NiSysCfgApiStatus::PropDoesNotExist
    } else if code == -2147220622 {
        NiSysCfgApiStatus::UriIllegalSyntax
    } else if code == -2147220621 {
        NiSysCfgApiStatus::UriTargetDoesNotExist
    } else if code == -2147220620 {
        NiSysCfgApiStatus::UriExpertDoesNotExist
    } else if code == -2147220619 {
        NiSysCfgApiStatus::ItemDoesNotExist
    } else if code == -2147220618 {
        NiSysCfgApiStatus::InvalidMode
    } else if code == -2147220616 {
        NiSysCfgApiStatus::SysConfigAPINotInstalled
    } else if code == -2147220614 {
        NiSysCfgApiStatus::NameSyntaxIllegal
    } else if code == -2147220613 {
        NiSysCfgApiStatus::NameCollision
    } else if code == -2147220612 {
        NiSysCfgApiStatus::NoPropValidated
    } else if code == -2147220611 {
        NiSysCfgApiStatus::UriUnauthorized
    } else if code == -2147220610 {
        NiSysCfgApiStatus::RenameResourceDependencies
    } else if code == -2147220609 {
        NiSysCfgApiStatus::ValueInvalid
    } else if code == -2147220608 {
        NiSysCfgApiStatus::ValuesInconsistent
    } else if code == -2147220607 {
        NiSysCfgApiStatus::Canceled
    } else if code == -2147220606 {
        NiSysCfgApiStatus::ResponseSyntax
    } else if code == -2147220605 {
        NiSysCfgApiStatus::ResourceIsNotPresent
    } else if code == -2147220604 {
        NiSysCfgApiStatus::ResourceIsSimulated
    } else if code == -2147220603 {
        NiSysCfgApiStatus::NotInFirmwareUpdateState
    } else if code == -2147220602 {
        NiSysCfgApiStatus::FirmwareImageDeviceMismatch
    } else if code == -2147220601 {
        NiSysCfgApiStatus::FirmwareImageCorrupt
    } else if code == -2147220600 {
        NiSysCfgApiStatus::InvalidFirmwareVersion
    } else if code == -2147220599 {
        NiSysCfgApiStatus::OlderFirmwareVersion
    } else if code == -2147220598 {
        NiSysCfgApiStatus::InvalidLoginCredentials
    } else if code == -2147220597 {
        NiSysCfgApiStatus::FirmwareUpdateAttemptFailed
    } else if code == -2147220596 {
        NiSysCfgApiStatus::EncryptionFailed
    } else if code == -2147220595 {
        NiSysCfgApiStatus::SomePropsNotValidated
    } else if code == -2147220594 {
        NiSysCfgApiStatus::InvalidCalibrationCredentials
    } else if code == -2147220593 {
        NiSysCfgApiStatus::CannotDeletePresentResource
    } else if code == -2147220592 {
        NiSysCfgApiStatus::UriTargetTransmitError
    } else if code == -2147220591 {
        NiSysCfgApiStatus::DecryptionFailed
    } else if code == -2147220590 {
        NiSysCfgApiStatus::FirmwareExpertVersionMismatch
    } else if code == -2147220589 {
        NiSysCfgApiStatus::AmbiguousImportAction
    } else if code == -2147220588 {
        NiSysCfgApiStatus::RequiredItemFailedImport
    } else if code == -2147220587 {
        NiSysCfgApiStatus::ItemInUse
    } else if code == -2147220586 {
        NiSysCfgApiStatus::ItemTypeNotSupported
    } else if code == -2147220560 {
        NiSysCfgApiStatus::PermissionDenied
    } else if code == -2147220559 {
        NiSysCfgApiStatus::SystemNotFound
    } else if code == -2147220558 {
        NiSysCfgApiStatus::TransformFailed
    } else if code == -2147220557 {
        NiSysCfgApiStatus::NotInstalled
    } else if code == -2147220556 {
        NiSysCfgApiStatus::LaunchFailure
    } else if code == -2147220555 {
        NiSysCfgApiStatus::InternalTimeout
    } else if code == -2147220554 {
        NiSysCfgApiStatus::MissingTransform
    } else if code == -2147220553 {
        NiSysCfgApiStatus::IncorrectExtension
    } else if code == -2147220552 {
        NiSysCfgApiStatus::FileReadOnly
    } else if code == -2147220551 {
        NiSysCfgApiStatus::ReportOverwrite
    } else if code == -2147220550 {
        NiSysCfgApiStatus::DirectoryError
    } else if code == -2147220480 {
        NiSysCfgApiStatus::CannotOpenFile
    } else if code == -2147220479 {
        NiSysCfgApiStatus::InsufficientPermissions
    } else if code == -2147220478 {
        NiSysCfgApiStatus::NCECopierFailed
    } else if code == -2147220477 {
        NiSysCfgApiStatus::FileOperationFailed
    } else if code == -2147220476 {
        NiSysCfgApiStatus::NameCollisionError
    } else if code == -2147220475 {
        NiSysCfgApiStatus::UnexpectedError
    } else if code == -2147220474 {
        NiSysCfgApiStatus::NCENoStreamError
    } else if code == -2147220473 {
        NiSysCfgApiStatus::NCECompressionError
    } else if code == -2147220472 {
        NiSysCfgApiStatus::NCEStreamReadError
    } else if code == -2147220471 {
        NiSysCfgApiStatus::NCEStreamWriteError
    } else if code == -2147220470 {
        NiSysCfgApiStatus::NCEStreamSeekError
    } else if code == -2147220469 {
        NiSysCfgApiStatus::NCERepoNotReady
    } else if code == -2147220468 {
        NiSysCfgApiStatus::NCERepoInvalid
    } else if code == -2147220467 {
        NiSysCfgApiStatus::NCERepoIncompat
    } else if code == -2147220466 {
        NiSysCfgApiStatus::NCENoImportStorage
    } else if code == -2147220465 {
        NiSysCfgApiStatus::NCENoExportStorage
    } else if code == -2147220464 {
        NiSysCfgApiStatus::NCENoObjCopier
    } else if code == -2147220463 {
        NiSysCfgApiStatus::CopyInProgress
    } else if code == -2147220462 {
        NiSysCfgApiStatus::FileNotRecognized
    } else if code == -2147220461 {
        NiSysCfgApiStatus::SystemNotSupported
    } else if code == -2147220460 {
        NiSysCfgApiStatus::SystemNotReachable
    } else if code == -2147220459 {
        NiSysCfgApiStatus::ProductSoftwareNotInstalled
    } else if code == -2147220458 {
        NiSysCfgApiStatus::ProductSoftwareTooOld
    } else if code == -2147220457 {
        NiSysCfgApiStatus::ProductSoftwareTooNew
    } else if code == -2147220456 {
        NiSysCfgApiStatus::DataTooOld
    } else if code == -2147220455 {
        NiSysCfgApiStatus::DataTooNew
    } else if code == -2147220454 {
        NiSysCfgApiStatus::NoItemsToCopy
    } else if code == -2147220453 {
        NiSysCfgApiStatus::OrphanItems
    } else if code == -2147220452 {
        NiSysCfgApiStatus::DirtyItems
    } else if code == -2147220451 {
        NiSysCfgApiStatus::FileOverwrite
    } else if code == -2147220450 {
        NiSysCfgApiStatus::ItemOverwrite
    } else if code == -2147220449 {
        NiSysCfgApiStatus::MissingDependency
    } else if code == -2147220447 {
        NiSysCfgApiStatus::OperationCanceled
    } else if code == -2147220446 {
        NiSysCfgApiStatus::WarningConflicts
    } else if code == -2147220445 {
        NiSysCfgApiStatus::ErrorConflicts
    } else if code == -2147220444 {
        NiSysCfgApiStatus::ItemsRequireUserInput
    } else if code == -2147220443 {
        NiSysCfgApiStatus::ProductExpertNotReady
    } else if code == -2147220442 {
        NiSysCfgApiStatus::OrphanFiles
    } else if code == -2147220441 {
        NiSysCfgApiStatus::IsConst
    } else if code == -2147220440 {
        NiSysCfgApiStatus::UnsupportedProductMode
    } else if code == -2147220368 {
        NiSysCfgApiStatus::HostSoftwareTooOld
    } else if code == -2147220367 {
        NiSysCfgApiStatus::OpkgUpdateFeedFailure
    } else if code == -2147220366 {
        NiSysCfgApiStatus::FeedNotFound
    } else if code == -2147220365 {
        NiSysCfgApiStatus::FeedAlreadyExists
    } else if code == -2147220364 {
        NiSysCfgApiStatus::InstallOptionNotSupported
    } else if code == -2147220363 {
        NiSysCfgApiStatus::FirmwareTooOld
    } else if code == -2147220362 {
        NiSysCfgApiStatus::SoftwareTooOld
    } else if code == -2147220361 {
        NiSysCfgApiStatus::RequiresSSH
    } else if code == -2147220360 {
        NiSysCfgApiStatus::OpkgResponseSyntax
    } else if code == -2147220359 {
        NiSysCfgApiStatus::WrongSoftwareSetType
    } else if code == -2147220358 {
        NiSysCfgApiStatus::RequiresOpkg
    } else if code == -2147220357 {
        NiSysCfgApiStatus::HDFormatEncryptNotSupported
    } else if code == -2147220356 {
        NiSysCfgApiStatus::HDFormatNoRecoveryKeyDevice
    } else if code == -2147220355 {
        NiSysCfgApiStatus::RestartLocalhostAmbiguous
    } else if code == -2147220354 {
        NiSysCfgApiStatus::ImageInvalidCorrupt
    } else if code == -2147220353 {
        NiSysCfgApiStatus::SafeOrInstallModeRequired
    } else if code == -2147220352 {
        NiSysCfgApiStatus::EncryptPhraseMismatch
    } else if code == -2147220351 {
        NiSysCfgApiStatus::InvalidIP
    } else if code == -2147220350 {
        NiSysCfgApiStatus::InvalidGateway
    } else if code == -2147220349 {
        NiSysCfgApiStatus::InvalidDNS
    } else if code == -2147220348 {
        NiSysCfgApiStatus::InvalidSubnet
    } else if code == -2147220347 {
        NiSysCfgApiStatus::CmdNotSupported
    } else if code == -2147220346 {
        NiSysCfgApiStatus::ConfigFailed
    } else if code == -2147220345 {
        NiSysCfgApiStatus::Locked
    } else if code == -2147220344 {
        NiSysCfgApiStatus::BadPassword
    } else if code == -2147220343 {
        NiSysCfgApiStatus::NotConfigurable
    } else if code == -2147220342 {
        NiSysCfgApiStatus::UnlockFailed
    } else if code == -2147220341 {
        NiSysCfgApiStatus::LockFailed
    } else if code == -2147220340 {
        NiSysCfgApiStatus::InstallFailed
    } else if code == -2147220339 {
        NiSysCfgApiStatus::InstallationCorrupt
    } else if code == -2147220338 {
        NiSysCfgApiStatus::EmptyFile
    } else if code == -2147220337 {
        NiSysCfgApiStatus::UnconfiguredIP
    } else if code == -2147220336 {
        NiSysCfgApiStatus::InstallationGenericFailure
    } else if code == -2147220335 {
        NiSysCfgApiStatus::DownloadAlreadyStarted
    } else if code == -2147220334 {
        NiSysCfgApiStatus::Aborted
    } else if code == -2147220333 {
        NiSysCfgApiStatus::DiskFull
    } else if code == -2147220332 {
        NiSysCfgApiStatus::HDFormatFailed
    } else if code == -2147220331 {
        NiSysCfgApiStatus::HDFormatNotSafeMode
    } else if code == -2147220330 {
        NiSysCfgApiStatus::HDFormatRebootFailed
    } else if code == -2147220329 {
        NiSysCfgApiStatus::ConnectionRefused
    } else if code == -2147220328 {
        NiSysCfgApiStatus::GetRemoteFilesFailed
    } else if code == -2147220327 {
        NiSysCfgApiStatus::PutRemoteFilesFailed
    } else if code == -2147220326 {
        NiSysCfgApiStatus::InvalidImage
    } else if code == -2147220325 {
        NiSysCfgApiStatus::ImageDeviceCodeMismatch
    } else if code == -2147220324 {
        NiSysCfgApiStatus::SystemMismatch
    } else if code == -2147220323 {
        NiSysCfgApiStatus::HDFormatWrongFS
    } else if code == -2147220321 {
        NiSysCfgApiStatus::CustomInstallNotSupported
    } else if code == -2147220320 {
        NiSysCfgApiStatus::FTPFailed
    } else if code == -2147220319 {
        NiSysCfgApiStatus::Timeout
    } else if code == -2147220318 {
        NiSysCfgApiStatus::DirNotFound
    } else if code == -2147220317 {
        NiSysCfgApiStatus::PathNotFound
    } else if code == -2147220316 {
        NiSysCfgApiStatus::NoSoftwareAvailable
    } else if code == -2147220315 {
        NiSysCfgApiStatus::OverwriteError
    } else if code == -2147220314 {
        NiSysCfgApiStatus::HDFormatCannotKeepCfg
    } else if code == -2147220313 {
        NiSysCfgApiStatus::FileOrPathTooLong
    } else if code == -2147220312 {
        NiSysCfgApiStatus::DDPInternalTimeout
    } else if code == -2147220311 {
        NiSysCfgApiStatus::IOPermissionDenied
    } else if code == -2147220310 {
        NiSysCfgApiStatus::PathAlreadyExists
    } else if code == -2147220309 {
        NiSysCfgApiStatus::ExecutionFailure
    } else if code == -2147220308 {
        NiSysCfgApiStatus::DownloadError
    } else if code == -2147220307 {
        NiSysCfgApiStatus::NetSendFailed
    } else if code == -2147220306 {
        NiSysCfgApiStatus::ContactHostDisconnected
    } else if code == -2147220305 {
        NiSysCfgApiStatus::NetSvcDown
    } else if code == -2147220304 {
        NiSysCfgApiStatus::NotConfirmed
    } else if code == -2147220303 {
        NiSysCfgApiStatus::HostNotResolved
    } else if code == -2147220302 {
        NiSysCfgApiStatus::RebootTimeout
    } else if code == -2147220301 {
        NiSysCfgApiStatus::NoConfirmationFP1600
    } else if code == -2147220300 {
        NiSysCfgApiStatus::DuplicateStartup
    } else if code == -2147220299 {
        NiSysCfgApiStatus::RemoteInvalidArgument
    } else if code == -2147220298 {
        NiSysCfgApiStatus::NotUninstallable
    } else if code == -2147220297 {
        NiSysCfgApiStatus::DuplicatesNotAllowed
    } else if code == -2147220296 {
        NiSysCfgApiStatus::NotInstallable
    } else if code == -2147220295 {
        NiSysCfgApiStatus::WrongDevice
    } else if code == -2147220294 {
        NiSysCfgApiStatus::WrongOS
    } else if code == -2147220293 {
        NiSysCfgApiStatus::OSVersionTooOld
    } else if code == -2147220292 {
        NiSysCfgApiStatus::IOError
    } else if code == -2147220291 {
        NiSysCfgApiStatus::CorruptConfig
    } else if code == -2147220290 {
        NiSysCfgApiStatus::BufferOverflow
    } else if code == -2147220289 {
        NiSysCfgApiStatus::UnsupportedCDFVersion
    } else if code == -2147220288 {
        NiSysCfgApiStatus::InvalidStack
    } else if code == -2147220287 {
        NiSysCfgApiStatus::IncompleteStack
    } else if code == -2147220286 {
        NiSysCfgApiStatus::StackItemMissing
    } else if code == -2147220285 {
        NiSysCfgApiStatus::TopLevelHiddenComponentError
    } else if code == -2147220284 {
        NiSysCfgApiStatus::InvalidAddon
    } else if code == -2147220283 {
        NiSysCfgApiStatus::NoRTImagesFolder
    } else if code == -2147220282 {
        NiSysCfgApiStatus::NoRTImagesRegistry
    } else if code == -2147220281 {
        NiSysCfgApiStatus::NoRTS2CDF
    } else if code == -2147220280 {
        NiSysCfgApiStatus::UnsupportedOS
    } else if code == -2147220279 {
        NiSysCfgApiStatus::ExactVersionRequired
    } else if code == -2147220277 {
        NiSysCfgApiStatus::InvalidStartup
    } else {
        NiSysCfgApiStatus::Unknown(code)
    }
}

impl NiSysCfgApiStatus {
    /// Maps a raw native code through the closed table; any code without
    /// an entry yields `Unknown` with that code, for every 32-bit input.
    pub fn from_code(code: i32) -> (r: NiSysCfgApiStatus)
        ensures
            r == status_of_code(code),
    {
        if code == 0 {
            NiSysCfgApiStatus::OK
        } else if code == 1 {
            NiSysCfgApiStatus::EndOfEnum
        } else if code == 263024 {
            NiSysCfgApiStatus::SelfTestBasicOnly
        } else if code == 263168 {
            NiSysCfgApiStatus::FoundCachedOfflineSystem
        } else if code == 263169 {
            NiSysCfgApiStatus::RestartLocalhostInitiated
        } else if code == 263170 {
            NiSysCfgApiStatus::ChangedPropertyNotSaved
        } else if code == -2147467263 {
            NiSysCfgApiStatus::NotImplemented
        } else if code == -2147467261 {
            NiSysCfgApiStatus::NullPointer
        } else if code == -2147467259 {
            NiSysCfgApiStatus::Fail
        } else if code == -2147418113 {
            NiSysCfgApiStatus::Unexpected
        } else if code == -2147024882 {
            NiSysCfgApiStatus::OutOfMemory
        } else if code == -2147024809 {
            NiSysCfgApiStatus::InvalidArg
        } else if code == -2147220448 {
            NiSysCfgApiStatus::OperationTimedOut
        } else if code == -2147220322 {
            NiSysCfgApiStatus::FileNotFound
        } else if code == -2147220278 {
            NiSysCfgApiStatus::InvalidMACFormat
        } else if code == -2147220624 {
            NiSysCfgApiStatus::PropMismatch
        } else if code == -2147220623 {
            NiSysCfgApiStatus::PropDoesNotExist
        } else if code == -2147220622 {
            NiSysCfgApiStatus::UriIllegalSyntax
        } else if code == -2147220621 {
            NiSysCfgApiStatus::UriTargetDoesNotExist
        } else if code == -2147220620 {
            NiSysCfgApiStatus::UriExpertDoesNotExist
        } else if code == -2147220619 {
            NiSysCfgApiStatus::ItemDoesNotExist
        } else if code == -2147220618 {
            NiSysCfgApiStatus::InvalidMode
        } else if code == -2147220616 {
            NiSysCfgApiStatus::SysConfigAPINotInstalled
        } else if code == -2147220614 {
            NiSysCfgApiStatus::NameSyntaxIllegal
        } else if code == -2147220613 {
            NiSysCfgApiStatus::NameCollision
        } else if code == -2147220612 {
            NiSysCfgApiStatus::NoPropValidated
        } else if code == -2147220611 {
            NiSysCfgApiStatus::UriUnauthorized
        } else if code == -2147220610 {
            NiSysCfgApiStatus::RenameResourceDependencies
        } else if code == -2147220609 {
            NiSysCfgApiStatus::ValueInvalid
        } else if code == -2147220608 {
            NiSysCfgApiStatus::ValuesInconsistent
        } else if code == -2147220607 {
            NiSysCfgApiStatus::Canceled
        } else if code == -2147220606 {
            NiSysCfgApiStatus::ResponseSyntax
        } else if code == -2147220605 {
            NiSysCfgApiStatus::ResourceIsNotPresent
        } else if code == -2147220604 {
            NiSysCfgApiStatus::ResourceIsSimulated
        } else if code == -2147220603 {
            NiSysCfgApiStatus::NotInFirmwareUpdateState
        } else if code == -2147220602 {
            NiSysCfgApiStatus::FirmwareImageDeviceMismatch
        } else if code == -2147220601 {
            NiSysCfgApiStatus::FirmwareImageCorrupt
        } else if code == -2147220600 {
            NiSysCfgApiStatus::InvalidFirmwareVersion
        } else if code == -2147220599 {
            NiSysCfgApiStatus::OlderFirmwareVersion
        } else if code == -2147220598 {
            NiSysCfgApiStatus::InvalidLoginCredentials
        } else if code == -2147220597 {
            NiSysCfgApiStatus::FirmwareUpdateAttemptFailed
        } else if code == -2147220596 {
            NiSysCfgApiStatus::EncryptionFailed
        } else if code == -2147220595 {
            NiSysCfgApiStatus::SomePropsNotValidated
        } else if code == -2147220594 {
            NiSysCfgApiStatus::InvalidCalibrationCredentials
        } else if code == -2147220593 {
            NiSysCfgApiStatus::CannotDeletePresentResource
        } else if code == -2147220592 {
            NiSysCfgApiStatus::UriTargetTransmitError
        } else if code == -2147220591 {
            NiSysCfgApiStatus::DecryptionFailed
        } else if code == -2147220590 {
            NiSysCfgApiStatus::FirmwareExpertVersionMismatch
        } else if code == -2147220589 {
            NiSysCfgApiStatus::AmbiguousImportAction
        } else if code == -2147220588 {
            NiSysCfgApiStatus::RequiredItemFailedImport
        } else if code == -2147220587 {
            NiSysCfgApiStatus::ItemInUse
        } else if code == -2147220586 {
            NiSysCfgApiStatus::ItemTypeNotSupported
        } else if code == -2147220560 {
            NiSysCfgApiStatus::PermissionDenied
        } else if code == -2147220559 {
            NiSysCfgApiStatus::SystemNotFound
        } else if code == -2147220558 {
            NiSysCfgApiStatus::TransformFailed
        } else if code == -2147220557 {
            NiSysCfgApiStatus::NotInstalled
        } else if code == -2147220556 {
            NiSysCfgApiStatus::LaunchFailure
        } else if code == -2147220555 {
            NiSysCfgApiStatus::InternalTimeout
        } else if code == -2147220554 {
            NiSysCfgApiStatus::MissingTransform
        } else if code == -2147220553 {
            NiSysCfgApiStatus::IncorrectExtension
        } else if code == -2147220552 {
            NiSysCfgApiStatus::FileReadOnly
        } else if code == -2147220551 {
            NiSysCfgApiStatus::ReportOverwrite
        } else if code == -2147220550 {
            NiSysCfgApiStatus::DirectoryError
        } else if code == -2147220480 {
            NiSysCfgApiStatus::CannotOpenFile
        } else if code == -2147220479 {
            NiSysCfgApiStatus::InsufficientPermissions
        } else if code == -2147220478 {
            NiSysCfgApiStatus::NCECopierFailed
        } else if code == -2147220477 {
            NiSysCfgApiStatus::FileOperationFailed
        } else if code == -2147220476 {
            NiSysCfgApiStatus::NameCollisionError
        } else if code == -2147220475 {
            NiSysCfgApiStatus::UnexpectedError
        } else if code == -2147220474 {
            NiSysCfgApiStatus::NCENoStreamError
        } else if code == -2147220473 {
            NiSysCfgApiStatus::NCECompressionError
        } else if code == -2147220472 {
            NiSysCfgApiStatus::NCEStreamReadError
        } else if code == -2147220471 {
            NiSysCfgApiStatus::NCEStreamWriteError
        } else if code == -2147220470 {
            NiSysCfgApiStatus::NCEStreamSeekError
        } else if code == -2147220469 {
            NiSysCfgApiStatus::NCERepoNotReady
        } else if code == -2147220468 {
            NiSysCfgApiStatus::NCERepoInvalid
        } else if code == -2147220467 {
            NiSysCfgApiStatus::NCERepoIncompat
        } else if code == -2147220466 {
            NiSysCfgApiStatus::NCENoImportStorage
        } else if code == -2147220465 {
            NiSysCfgApiStatus::NCENoExportStorage
        } else if code == -2147220464 {
            NiSysCfgApiStatus::NCENoObjCopier
        } else if code == -2147220463 {
            NiSysCfgApiStatus::CopyInProgress
        } else if code == -2147220462 {
            NiSysCfgApiStatus::FileNotRecognized
        } else if code == -2147220461 {
            NiSysCfgApiStatus::SystemNotSupported
        } else if code == -2147220460 {
            NiSysCfgApiStatus::SystemNotReachable
        } else if code == -2147220459 {
            NiSysCfgApiStatus::ProductSoftwareNotInstalled
        } else if code == -2147220458 {
            NiSysCfgApiStatus::ProductSoftwareTooOld
        } else if code == -2147220457 {
            NiSysCfgApiStatus::ProductSoftwareTooNew
        } else if code == -2147220456 {
            NiSysCfgApiStatus::DataTooOld
        } else if code == -2147220455 {
            NiSysCfgApiStatus::DataTooNew
        } else if code == -2147220454 {
            NiSysCfgApiStatus::NoItemsToCopy
        } else if code == -2147220453 {
            NiSysCfgApiStatus::OrphanItems
        } else if code == -2147220452 {
            NiSysCfgApiStatus::DirtyItems
        } else if code == -2147220451 {
            NiSysCfgApiStatus::FileOverwrite
        } else if code == -2147220450 {
            NiSysCfgApiStatus::ItemOverwrite
        } else if code == -2147220449 {
            NiSysCfgApiStatus::MissingDependency
        } else if code == -2147220447 {
            NiSysCfgApiStatus::OperationCanceled
        } else if code == -2147220446 {
            NiSysCfgApiStatus::WarningConflicts
        } else if code == -2147220445 {
            NiSysCfgApiStatus::ErrorConflicts
        } else if code == -2147220444 {
            NiSysCfgApiStatus::ItemsRequireUserInput
        } else if code == -2147220443 {
            NiSysCfgApiStatus::ProductExpertNotReady
        } else if code == -2147220442 {
            NiSysCfgApiStatus::OrphanFiles
        } else if code == -2147220441 {
            NiSysCfgApiStatus::IsConst
        } else if code == -2147220440 {
            NiSysCfgApiStatus::UnsupportedProductMode
        } else if code == -2147220368 {
            NiSysCfgApiStatus::HostSoftwareTooOld
        } else if code == -2147220367 {
            NiSysCfgApiStatus::OpkgUpdateFeedFailure
        } else if code == -2147220366 {
            NiSysCfgApiStatus::FeedNotFound
        } else if code == -2147220365 {
            NiSysCfgApiStatus::FeedAlreadyExists
        } else if code == -2147220364 {
            NiSysCfgApiStatus::InstallOptionNotSupported
        } else if code == -2147220363 {
            NiSysCfgApiStatus::FirmwareTooOld
        } else if code == -2147220362 {
            NiSysCfgApiStatus::SoftwareTooOld
        } else if code == -2147220361 {
            NiSysCfgApiStatus::RequiresSSH
        } else if code == -2147220360 {
            NiSysCfgApiStatus::OpkgResponseSyntax
        } else if code == -2147220359 {
            NiSysCfgApiStatus::WrongSoftwareSetType
        } else if code == -2147220358 {
            NiSysCfgApiStatus::RequiresOpkg
        } else if code == -2147220357 {
            NiSysCfgApiStatus::HDFormatEncryptNotSupported
        } else if code == -2147220356 {
            NiSysCfgApiStatus::HDFormatNoRecoveryKeyDevice
        } else if code == -2147220355 {
            NiSysCfgApiStatus::RestartLocalhostAmbiguous
        } else if code == -2147220354 {
            NiSysCfgApiStatus::ImageInvalidCorrupt
        } else if code == -2147220353 {
            NiSysCfgApiStatus::SafeOrInstallModeRequired
        } else if code == -2147220352 {
            NiSysCfgApiStatus::EncryptPhraseMismatch
        } else if code == -2147220351 {
            NiSysCfgApiStatus::InvalidIP
        } else if code == -2147220350 {
            NiSysCfgApiStatus::InvalidGateway
        } else if code == -2147220349 {
            NiSysCfgApiStatus::InvalidDNS
        } else if code == -2147220348 {
            NiSysCfgApiStatus::InvalidSubnet
        } else if code == -2147220347 {
            NiSysCfgApiStatus::CmdNotSupported
        } else if code == -2147220346 {
            NiSysCfgApiStatus::ConfigFailed
        } else if code == -2147220345 {
            NiSysCfgApiStatus::Locked
        } else if code == -2147220344 {
            NiSysCfgApiStatus::BadPassword
        } else if code == -2147220343 {
            NiSysCfgApiStatus::NotConfigurable
        } else if code == -2147220342 {
            NiSysCfgApiStatus::UnlockFailed
        } else if code == -2147220341 {
            NiSysCfgApiStatus::LockFailed
        } else if code == -2147220340 {
            NiSysCfgApiStatus::InstallFailed
        } else if code == -2147220339 {
            NiSysCfgApiStatus::InstallationCorrupt
        } else if code == -2147220338 {
            NiSysCfgApiStatus::EmptyFile
        } else if code == -2147220337 {
            NiSysCfgApiStatus::UnconfiguredIP
        } else if code == -2147220336 {
            NiSysCfgApiStatus::InstallationGenericFailure
        } else if code == -2147220335 {
            NiSysCfgApiStatus::DownloadAlreadyStarted
        } else if code == -2147220334 {
            NiSysCfgApiStatus::Aborted
        } else if code == -2147220333 {
            NiSysCfgApiStatus::DiskFull
        } else if code == -2147220332 {
            NiSysCfgApiStatus::HDFormatFailed
        } else if code == -2147220331 {
            NiSysCfgApiStatus::HDFormatNotSafeMode
        } else if code == -2147220330 {
            NiSysCfgApiStatus::HDFormatRebootFailed
        } else if code == -2147220329 {
            NiSysCfgApiStatus::ConnectionRefused
        } else if code == -2147220328 {
            NiSysCfgApiStatus::GetRemoteFilesFailed
        } else if code == -2147220327 {
            NiSysCfgApiStatus::PutRemoteFilesFailed
        } else if code == -2147220326 {
            NiSysCfgApiStatus::InvalidImage
        } else if code == -2147220325 {
            NiSysCfgApiStatus::ImageDeviceCodeMismatch
        } else if code == -2147220324 {
            NiSysCfgApiStatus::SystemMismatch
        } else if code == -2147220323 {
            NiSysCfgApiStatus::HDFormatWrongFS
        } else if code == -2147220321 {
            NiSysCfgApiStatus::CustomInstallNotSupported
        } else if code == -2147220320 {
            NiSysCfgApiStatus::FTPFailed
        } else if code == -2147220319 {
            NiSysCfgApiStatus::Timeout
        } else if code == -2147220318 {
            NiSysCfgApiStatus::DirNotFound
        } else if code == -2147220317 {
            NiSysCfgApiStatus::PathNotFound
        } else if code == -2147220316 {
            NiSysCfgApiStatus::NoSoftwareAvailable
        } else if code == -2147220315 {
            NiSysCfgApiStatus::OverwriteError
        } else if code == -2147220314 {
            NiSysCfgApiStatus::HDFormatCannotKeepCfg
        } else if code == -2147220313 {
            NiSysCfgApiStatus::FileOrPathTooLong
        } else if code == -2147220312 {
            NiSysCfgApiStatus::DDPInternalTimeout
        } else if code == -2147220311 {
            NiSysCfgApiStatus::IOPermissionDenied
        } else if code == -2147220310 {
            NiSysCfgApiStatus::PathAlreadyExists
        } else if code == -2147220309 {
            NiSysCfgApiStatus::ExecutionFailure
        } else if code == -2147220308 {
            NiSysCfgApiStatus::DownloadError
        } else if code == -2147220307 {
            NiSysCfgApiStatus::NetSendFailed
        } else if code == -2147220306 {
            NiSysCfgApiStatus::ContactHostDisconnected
        } else if code == -2147220305 {
            NiSysCfgApiStatus::NetSvcDown
        } else if code == -2147220304 {
            NiSysCfgApiStatus::NotConfirmed
        } else if code == -2147220303 {
            NiSysCfgApiStatus::HostNotResolved
        } else if code == -2147220302 {
            NiSysCfgApiStatus::RebootTimeout
        } else if code == -2147220301 {
            NiSysCfgApiStatus::NoConfirmationFP1600
        } else if code == -2147220300 {
            NiSysCfgApiStatus::DuplicateStartup
        } else if code == -2147220299 {
            NiSysCfgApiStatus::RemoteInvalidArgument
        } else if code == -2147220298 {
            NiSysCfgApiStatus::NotUninstallable
        } else if code == -2147220297 {
            NiSysCfgApiStatus::DuplicatesNotAllowed
        } else if code == -2147220296 {
            NiSysCfgApiStatus::NotInstallable
        } else if code == -2147220295 {
            NiSysCfgApiStatus::WrongDevice
        } else if code == -2147220294 {
            NiSysCfgApiStatus::WrongOS
        } else if code == -2147220293 {
            NiSysCfgApiStatus::OSVersionTooOld
        } else if code == -2147220292 {
            NiSysCfgApiStatus::IOError
        } else if code == -2147220291 {
            NiSysCfgApiStatus::CorruptConfig
        } else if code == -2147220290 {
            NiSysCfgApiStatus::BufferOverflow
        } else if code == -2147220289 {
            NiSysCfgApiStatus::UnsupportedCDFVersion
        } else if code == -2147220288 {
            NiSysCfgApiStatus::InvalidStack
        } else if code == -2147220287 {
            NiSysCfgApiStatus::IncompleteStack
        } else if code == -2147220286 {
            NiSysCfgApiStatus::StackItemMissing
        } else if code == -2147220285 {
            NiSysCfgApiStatus::TopLevelHiddenComponentError
        } else if code == -2147220284 {
            NiSysCfgApiStatus::InvalidAddon
        } else if code == -2147220283 {
            NiSysCfgApiStatus::NoRTImagesFolder
        } else if code == -2147220282 {
            NiSysCfgApiStatus::NoRTImagesRegistry
        } else if code == -2147220281 {
            NiSysCfgApiStatus::NoRTS2CDF
        } else if code == -2147220280 {
            NiSysCfgApiStatus::UnsupportedOS
        } else if code == -2147220279 {
            NiSysCfgApiStatus::ExactVersionRequired
        } else if code == -2147220277 {
            NiSysCfgApiStatus::InvalidStartup
        } else {
            NiSysCfgApiStatus::Unknown(code)
        }
    }
}

impl From<i32> for NiSysCfgApiStatus {
    fn from(item: i32) -> (r: NiSysCfgApiStatus) {
        NiSysCfgApiStatus::from_code(item)
    }
}

impl vstd::std_specs::convert::FromSpecImpl<i32> for NiSysCfgApiStatus {
    open spec fn obeys_from_spec() -> bool {
        true
    }

    open spec fn from_spec(t: i32) -> NiSysCfgApiStatus {
        status_of_code(t)
    }
}

/// Every code in the closed mapping table is sent to exactly its own
/// variant: mapping the code of any known status yields that status back.
pub proof fn lemma_known_code_round_trip(s: NiSysCfgApiStatus)
    requires
        !(s is Unknown),
    ensures
        status_of_code(status_code(s)) == s,
{
}

/// A code without an entry in the table is sent to `Unknown` carrying
/// exactly that code, whether it is positive or negative.
pub proof fn lemma_unknown_code(code: i32)
    requires
        !known_code(code),
    ensures
        status_of_code(code) == NiSysCfgApiStatus::Unknown(code),
{
}

/// A code with an entry in the table is never sent to `Unknown`.
pub proof fn lemma_known_code_not_unknown(code: i32)
    requires
        known_code(code),
    ensures
        !(status_of_code(code) is Unknown),
        status_code(status_of_code(code)) == code,
{
}

/// Mapping never loses the raw code: the code of the mapped status is
/// exactly the code that was mapped, known or not.
pub proof fn lemma_code_preserved(code: i32)
    ensures
        status_code(status_of_code(code)) == code,
{
}

/// The errors this crate reports: a mapped native failure status, a text
/// marshalling failure, or an enumeration value with no entry in its table.
#[derive(Clone, Copy, Debug, PartialEq, Eq, Structural)]
pub enum NiSystemConfigurationError {
    ApiError(NiSysCfgApiStatus),
    EncodingError,
    UnexpectedEnumValue(i32),
}

/// Checks the status code of a native call: a non-negative code is a
/// success and is returned mapped, a negative code is returned as the
/// mapped failure.
pub fn api_status(status: i32) -> (r: Result<NiSysCfgApiStatus, NiSystemConfigurationError>)
    ensures
        status >= 0 ==> r == Ok::<NiSysCfgApiStatus, NiSystemConfigurationError>(status_of_code(status)),
        status < 0 ==> r == Err::<NiSysCfgApiStatus, NiSystemConfigurationError>(
            NiSystemConfigurationError::ApiError(status_of_code(status)),
        ),
{
    if status >= 0 {
        Ok(NiSysCfgApiStatus::from_code(status))
    } else {
        Err(NiSystemConfigurationError::ApiError(NiSysCfgApiStatus::from_code(status)))
    }
}

} // verus!

