//! A resource-safe access layer over a handle-based system-configuration
//! service.
//!
//! The crate opens sessions to local or remote targets, enumerates hardware
//! resources, and reads typed configuration properties.  Every native status
//! code is turned into a structured result, and every native handle is
//! released exactly once.  The native call surface itself is modelled as
//! explicit in-memory state ([`native::NativeModel`]), so the whole protocol
//! layer - status mapping, handle lifecycle, marshalling and typed property
//! decoding - is verified against that model.

pub mod error;
pub mod experts;
pub mod handles;
pub mod hardware_filter;
pub mod native;
pub mod parameters;
pub mod resources;
pub mod session;
pub mod software;
pub mod strings;
pub mod system;
pub mod types;

pub use experts::ExpertType;
pub use hardware_filter::{FilterMode, HardwareFilter};
pub use resources::{HardwareResource, HardwareResourceList, ResourceParameter};
pub use session::{Locale, Session, SessionConfig};
pub use system::{NetworkAddressMode, RealTimeSession};
pub use types::FfiBoolean;
