//! An OpenCL-style ICD front end: an opaque-handle object model
//! (platform, device, context) with reference counting, a generic
//! two-phase parameter-query protocol, a property-list parser, and a
//! capability aggregator that negotiates a supported API version from
//! raw device limits.
//!
//! Native screen acquisition and the C ABI itself are outside
//! collaborators: the library works on plain-value descriptions of the
//! underlying compute devices, and every operation is a total function
//! over an explicit registry state.

pub mod cl;
pub mod context;
pub mod device;
pub mod device_info;
pub mod icd;
pub mod platform;
pub mod properties;
pub mod screen;
pub mod util;
pub mod version;
