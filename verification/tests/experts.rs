//! Tests of the expert name table: both directions of the translation.

use ni_syscfg::ExpertType;

fn test_string_conversion(expert_type: ExpertType, programmatic_name: &str) {
    assert_eq!(
        expert_type.to_programmatic_string(),
        programmatic_name.to_string()
    );
    assert_eq!(expert_type, programmatic_name.into());
}

#[test]
fn type_to_string() {
    test_string_conversion(ExpertType::Unknown("unknown".to_string()), "unknown");
    test_string_conversion(ExpertType::CanOpen, "ni-canopen");
    test_string_conversion(ExpertType::CRio, "crio");
    test_string_conversion(ExpertType::CRioWithDaqmx, "crioparent");
    test_string_conversion(ExpertType::NetworkDiscovery, "network");
    test_string_conversion(ExpertType::FlexRIOModularIO, "niflexrio");
    test_string_conversion(ExpertType::FlexRIOIntegratedIO, "niflexrio2");
    test_string_conversion(ExpertType::Ni488_2, "ni-488.2");
    test_string_conversion(ExpertType::Ni568x, "ni-rfpowermeter");
    test_string_conversion(ExpertType::Ni845x, "845x");
    test_string_conversion(ExpertType::NiController, "ni-controller");
    test_string_conversion(ExpertType::NiDaqmx, "daqmx");
    test_string_conversion(ExpertType::NiDCPower, "dcpowerscx");
    test_string_conversion(ExpertType::NiDCPower416x, "nidcpower416x");
    test_string_conversion(ExpertType::NiDMM, "nidmmscx");
    test_string_conversion(ExpertType::NiDMM408x, "nidmm408x");
    test_string_conversion(ExpertType::NiFGen, "nifgen5433");
    test_string_conversion(ExpertType::NimmWave, "ni-mmwave");
    test_string_conversion(ExpertType::NiOSI, "ni-osi");
    test_string_conversion(ExpertType::NiPTP, "ni-1588");
    test_string_conversion(ExpertType::NiPXImc, "ni-pximc");
    test_string_conversion(ExpertType::NiRio, "ni-rio");
    test_string_conversion(ExpertType::RTSI, "rtsi");
    test_string_conversion(ExpertType::NiScope, "niscopescx");
    test_string_conversion(ExpertType::NiScope5170, "niscope5170");
    test_string_conversion(ExpertType::NiScope5164, "niscope5164");
    test_string_conversion(ExpertType::NiScope5110, "niscope5110");
    test_string_conversion(ExpertType::Serial, "serial");
    test_string_conversion(ExpertType::SLSC, "slsc");
    test_string_conversion(ExpertType::STS, "nistsrcbps");
    test_string_conversion(ExpertType::NiSync, "ni-sync");
    test_string_conversion(ExpertType::NiVISA, "ni-visa");
    test_string_conversion(ExpertType::NiVNA, "nivna");
    test_string_conversion(ExpertType::NiVST, "ni-vst");
    test_string_conversion(ExpertType::NiWSN, "ni-wsn");
    test_string_conversion(ExpertType::NiXNET, "xnet");
    test_string_conversion(ExpertType::PXIPlatformServices, "ni-pxi");
    test_string_conversion(ExpertType::Softmotion, "mcSysApi");
}

#[test]
fn system_expert_carries_its_description() {
    let expert = ni_syscfg::experts::SystemExpert {
        expert_type: ExpertType::NiDaqmx,
        display_name: "NI-DAQmx".to_string(),
        version: "23.0".to_string(),
    };
    assert_eq!(expert.expert_type, ExpertType::NiDaqmx);
    assert_eq!(expert.display_name, "NI-DAQmx");
    assert_eq!(expert.version, "23.0");
}
