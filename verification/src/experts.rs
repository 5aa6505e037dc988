//! Handling for the "experts" of the system configuration service: the
//! native plugin categories that understand one class of hardware or
//! software each.

use vstd::prelude::*;
use vstd::string::StringExecFns;

use crate::strings::str_eq;

verus! {

/// `ExpertType` wraps the reference names for the different experts of
/// the native layer.
///
/// `Unknown` provides a way of accessing any new or not yet translated
/// expert by carrying its programmatic name directly.
#[derive(Clone, PartialEq, Eq, Debug)]
pub enum ExpertType {
    CanOpen,
    CRio,
    CRioWithDaqmx,
    NetworkDiscovery,
    FlexRIOModularIO,
    FlexRIOIntegratedIO,
    Ni488_2,
    Ni568x,
    Ni845x,
    NiController,
    NiDaqmx,
    NiDCPower,
    NiDCPower416x,
    NiDMM,
    NiDMM408x,
    NiFGen,
    NimmWave,
    NiOSI,
    NiPTP,
    NiPXImc,
    NiRio,
    RTSI,
    NiScope,
    NiScope5170,
    NiScope5164,
    NiScope5110,
    Serial,
    SLSC,
    STS,
    NiSync,
    NiVISA,
    NiVNA,
    NiVST,
    NiWSN,
    NiXNET,
    PXIPlatformServices,
    Softmotion,
    Unknown(String),
}

/// The programmatic name an expert type stands for at the native
/// boundary.
pub open spec fn programmatic_name(e: ExpertType) -> Seq<char> {
    match e {
        ExpertType::CanOpen => "ni-canopen"@,
        ExpertType::CRio => "crio"@,
        ExpertType::CRioWithDaqmx => "crioparent"@,
        ExpertType::NetworkDiscovery => "network"@,
        ExpertType::FlexRIOModularIO => "niflexrio"@,
        ExpertType::FlexRIOIntegratedIO => "niflexrio2"@,
        ExpertType::Ni488_2 => "ni-488.2"@,
        ExpertType::Ni568x => "ni-rfpowermeter"@,
        ExpertType::Ni845x => "845x"@,
        ExpertType::NiController => "ni-controller"@,
        ExpertType::NiDaqmx => "daqmx"@,
        ExpertType::NiDCPower => "dcpowerscx"@,
        ExpertType::NiDCPower416x => "nidcpower416x"@,
        ExpertType::NiDMM => "nidmmscx"@,
        ExpertType::NiDMM408x => "nidmm408x"@,
        ExpertType::NiFGen => "nifgen5433"@,
        ExpertType::NimmWave => "ni-mmwave"@,
        ExpertType::NiOSI => "ni-osi"@,
        ExpertType::NiPTP => "ni-1588"@,
        ExpertType::NiPXImc => "ni-pximc"@,
        ExpertType::NiRio => "ni-rio"@,
        ExpertType::RTSI => "rtsi"@,
        ExpertType::NiScope => "niscopescx"@,
        ExpertType::NiScope5170 => "niscope5170"@,
        ExpertType::NiScope5164 => "niscope5164"@,
        ExpertType::NiScope5110 => "niscope5110"@,
        ExpertType::Serial => "serial"@,
        ExpertType::SLSC => "slsc"@,
        ExpertType::STS => "nistsrcbps"@,
        ExpertType::NiSync => "ni-sync"@,
        ExpertType::NiVISA => "ni-visa"@,
        ExpertType::NiVNA => "nivna"@,
        ExpertType::NiVST => "ni-vst"@,
        ExpertType::NiWSN => "ni-wsn"@,
        ExpertType::NiXNET => "xnet"@,
        ExpertType::PXIPlatformServices => "ni-pxi"@,
        ExpertType::Softmotion => "mcSysApi"@,
        ExpertType::Unknown(name) => name@,
    }
}

/// Whether a programmatic name has an expert variant of its own in the
/// closed name table.
pub open spec fn known_expert_name(s: Seq<char>) -> bool {
    s == "ni-canopen"@ || s == "crio"@ || s == "crioparent"@ ||
    s == "network"@ || s == "niflexrio"@ || s == "niflexrio2"@ ||
    s == "ni-488.2"@ || s == "ni-rfpowermeter"@ || s == "845x"@ ||
    s == "ni-controller"@ || s == "daqmx"@ || s == "dcpowerscx"@ ||
    s == "nidcpower416x"@ || s == "nidmmscx"@ || s == "nidmm408x"@ ||
    s == "nifgen5433"@ || s == "ni-mmwave"@ || s == "ni-osi"@ ||
    s == "ni-1588"@ || s == "ni-pximc"@ || s == "ni-rio"@ ||
    s == "rtsi"@ || s == "niscopescx"@ || s == "niscope5170"@ ||
    s == "niscope5164"@ || s == "niscope5110"@ || s == "serial"@ ||
    s == "slsc"@ || s == "nistsrcbps"@ || s == "ni-sync"@ ||
    s == "ni-visa"@ || s == "nivna"@ || s == "ni-vst"@ ||
    s == "ni-wsn"@ || s == "xnet"@ || s == "ni-pxi"@ ||
    s == "mcSysApi"@
}

/// How a programmatic name relates to the expert type it denotes: the
/// expert carries exactly that name, and it is `Unknown` precisely when
/// the name has no entry in the closed name table.
pub open spec fn names_expert(s: Seq<char>, e: ExpertType) -> bool {
    &&& programmatic_name(e) == s
    &&& (e is Unknown <==> !known_expert_name(s))
}

impl ExpertType {
    /// Provides the string for the expert used by the native layer.
    pub fn to_programmatic_string(&self) -> (r: String)
        ensures
            r@ == programmatic_name(*self),
    {
        match self {
            ExpertType::Unknown(name) => name.clone(),
            ExpertType::CanOpen => String::from_str("ni-canopen"),
            ExpertType::CRio => String::from_str("crio"),
            ExpertType::CRioWithDaqmx => String::from_str("crioparent"),
            ExpertType::NetworkDiscovery => String::from_str("network"),
            ExpertType::FlexRIOModularIO => String::from_str("niflexrio"),
            ExpertType::FlexRIOIntegratedIO => String::from_str("niflexrio2"),
            ExpertType::Ni488_2 => String::from_str("ni-488.2"),
            ExpertType::Ni568x => String::from_str("ni-rfpowermeter"),
            ExpertType::Ni845x => String::from_str("845x"),
            ExpertType::NiController => String::from_str("ni-controller"),
            ExpertType::NiDaqmx => String::from_str("daqmx"),
            ExpertType::NiDCPower => String::from_str("dcpowerscx"),
            ExpertType::NiDCPower416x => String::from_str("nidcpower416x"),
            ExpertType::NiDMM => String::from_str("nidmmscx"),
            ExpertType::NiDMM408x => String::from_str("nidmm408x"),
            ExpertType::NiFGen => String::from_str("nifgen5433"),
            ExpertType::NimmWave => String::from_str("ni-mmwave"),
            ExpertType::NiOSI => String::from_str("ni-osi"),
            ExpertType::NiPTP => String::from_str("ni-1588"),
            ExpertType::NiPXImc => String::from_str("ni-pximc"),
            ExpertType::NiRio => String::from_str("ni-rio"),
            ExpertType::RTSI => String::from_str("rtsi"),
            ExpertType::NiScope => String::from_str("niscopescx"),
            ExpertType::NiScope5170 => String::from_str("niscope5170"),
            ExpertType::NiScope5164 => String::from_str("niscope5164"),
            ExpertType::NiScope5110 => String::from_str("niscope5110"),
            ExpertType::Serial => String::from_str("serial"),
            ExpertType::SLSC => String::from_str("slsc"),
            ExpertType::STS => String::from_str("nistsrcbps"),
            ExpertType::NiSync => String::from_str("ni-sync"),
            ExpertType::NiVISA => String::from_str("ni-visa"),
            ExpertType::NiVNA => String::from_str("nivna"),
            ExpertType::NiVST => String::from_str("ni-vst"),
            ExpertType::NiWSN => String::from_str("ni-wsn"),
            ExpertType::NiXNET => String::from_str("xnet"),
            ExpertType::PXIPlatformServices => String::from_str("ni-pxi"),
            ExpertType::Softmotion => String::from_str("mcSysApi"),
        }
    }

    /// Translates a programmatic name back through the closed name
    /// table; a name without an entry yields `Unknown` carrying it.
    pub fn from_name(text: &str) -> (r: ExpertType)
        ensures
            names_expert(text@, r),
    {
        if str_eq(text, "ni-canopen") {
            ExpertType::CanOpen
        } else if str_eq(text, "crio") {
            ExpertType::CRio
        } else if str_eq(text, "crioparent") {
            ExpertType::CRioWithDaqmx
        } else if str_eq(text, "network") {
            ExpertType::NetworkDiscovery
        } else if str_eq(text, "niflexrio") {
            ExpertType::FlexRIOModularIO
        } else if str_eq(text, "niflexrio2") {
            ExpertType::FlexRIOIntegratedIO
        } else if str_eq(text, "ni-488.2") {
            ExpertType::Ni488_2
        } else if str_eq(text, "ni-rfpowermeter") {
            ExpertType::Ni568x
        } else if str_eq(text, "845x") {
            ExpertType::Ni845x
        } else if str_eq(text, "ni-controller") {
            ExpertType::NiController
        } else if str_eq(text, "daqmx") {
            ExpertType::NiDaqmx
        } else if str_eq(text, "dcpowerscx") {
            ExpertType::NiDCPower
        } else if str_eq(text, "nidcpower416x") {
            ExpertType::NiDCPower416x
        } else if str_eq(text, "nidmmscx") {
            ExpertType::NiDMM
        } else if str_eq(text, "nidmm408x") {
            ExpertType::NiDMM408x
        } else if str_eq(text, "nifgen5433") {
            ExpertType::NiFGen
        } else if str_eq(text, "ni-mmwave") {
            ExpertType::NimmWave
        } else if str_eq(text, "ni-osi") {
            ExpertType::NiOSI
        } else if str_eq(text, "ni-1588") {
            ExpertType::NiPTP
        } else if str_eq(text, "ni-pximc") {
            ExpertType::NiPXImc
        } else if str_eq(text, "ni-rio") {
            ExpertType::NiRio
        } else if str_eq(text, "rtsi") {
            ExpertType::RTSI
        } else if str_eq(text, "niscopescx") {
            ExpertType::NiScope
        } else if str_eq(text, "niscope5170") {
            ExpertType::NiScope5170
        } else if str_eq(text, "niscope5164") {
            ExpertType::NiScope5164
        } else if str_eq(text, "niscope5110") {
            ExpertType::NiScope5110
        } else if str_eq(text, "serial") {
            ExpertType::Serial
        } else if str_eq(text, "slsc") {
            ExpertType::SLSC
        } else if str_eq(text, "nistsrcbps") {
            ExpertType::STS
        } else if str_eq(text, "ni-sync") {
            ExpertType::NiSync
        } else if str_eq(text, "ni-visa") {
            ExpertType::NiVISA
        } else if str_eq(text, "nivna") {
            ExpertType::NiVNA
        } else if str_eq(text, "ni-vst") {
            ExpertType::NiVST
        } else if str_eq(text, "ni-wsn") {
            ExpertType::NiWSN
        } else if str_eq(text, "xnet") {
            ExpertType::NiXNET
        } else if str_eq(text, "ni-pxi") {
            ExpertType::PXIPlatformServices
        } else if str_eq(text, "mcSysApi") {
            ExpertType::Softmotion
        } else {
            ExpertType::Unknown(text.to_owned())
        }
    }
}

impl From<&str> for ExpertType {
    fn from(text: &str) -> (r: ExpertType) {
        ExpertType::from_name(text)
    }
}

impl vstd::std_specs::convert::FromSpecImpl<&str> for ExpertType {
    open spec fn obeys_from_spec() -> bool {
        false
    }

    open spec fn from_spec(t: &str) -> ExpertType {
        arbitrary()
    }
}

/// Every expert of the closed table translates to its own name and back
/// to itself, never to `Unknown`.
pub proof fn lemma_known_expert_round_trip(e: ExpertType)
    requires
        !(e is Unknown),
    ensures
        names_expert(programmatic_name(e), e),
{
}

/// One expert reported by the native layer, with its display name and
/// version.
pub struct SystemExpert {
    pub expert_type: ExpertType,
    pub display_name: String,
    pub version: String,
}

} // verus!
