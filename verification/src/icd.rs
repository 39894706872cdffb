//! The registry behind the opaque handles: the immutable device
//! collection discovered once at initialization, and the context
//! slots. A handle is a one-based slot number; zero is the null
//! handle; validity is membership in the registry, which preserves
//! the identity semantics of the external handle contract.
#![allow(non_camel_case_types)]

use vstd::prelude::*;

use crate::cl::CL_DEVICE_NOT_FOUND;
use crate::cl::CL_DEVICE_TYPE_ACCELERATOR;
use crate::cl::CL_DEVICE_TYPE_ALL;
use crate::cl::CL_DEVICE_TYPE_CPU;
use crate::cl::CL_DEVICE_TYPE_CUSTOM;
use crate::cl::CL_DEVICE_TYPE_DEFAULT;
use crate::cl::CL_DEVICE_TYPE_GPU;
use crate::cl::CL_INVALID_DEVICE;
use crate::cl::CL_INVALID_VALUE;
use crate::cl::cl_device_id;
use crate::cl::cl_device_type;
use crate::cl::cl_int;
use crate::cl::cl_platform_id;
use crate::cl::cl_uint;
use crate::context::_cl_context;
use crate::device::Device;
use crate::device::spec_check_embedded;
use crate::device::spec_device_built;
use crate::device::spec_device_type;
use crate::device::spec_image_3d_shiftable;
use crate::device::spec_image_supported;
use crate::platform::spec_check_platform;
use crate::platform::check_platform;
use crate::screen::PipeScreen;
use crate::util::check_cl_device_type;
use crate::util::spec_check_cl_device_type;

verus! {

/// A device slot of the registry.
pub struct _cl_device_id {
    pub dev: Device,
}

impl _cl_device_id {
    pub fn new(dev: Device) -> (r: Self)
        ensures
            r.dev == dev,
    {
        Self { dev }
    }
}

/// The process-wide state: the devices, enumerated exactly once and
/// immutable thereafter, and the context slots. Every operation
/// leaves the device collection unchanged.
pub struct Icd {
    pub devices: Vec<_cl_device_id>,
    pub contexts: Vec<Option<_cl_context>>,
}

impl Icd {
    /// Initializes the registry: discovers the devices from the given
    /// screens, with the optional version override, and no contexts.
    pub fn new(screens: Vec<PipeScreen>, env_val: Option<&str>) -> (r: Icd)
        requires
            forall|k: int|
                0 <= k < screens@.len() ==> (spec_check_embedded(#[trigger] screens@[k])
                    && spec_image_supported(screens@[k]) ==> spec_image_3d_shiftable(screens@[k])),
        ensures
            r.devices@.len() == Device::spec_valid_screens(screens@).len(),
            forall|k: int|
                0 <= k < r.devices@.len() ==> spec_device_built(
                    (#[trigger] r.devices@[k]).dev,
                    Device::spec_valid_screens(screens@)[k],
                    crate::device::spec_env_override(env_val),
                ),
            r.contexts@.len() == 0,
    {
        let devs = Device::all(screens, env_val);
        let mut devices: Vec<_cl_device_id> = Vec::new();
        let ghost built = devs@;
        let mut devs = devs;
        let n = devs.len();
        let mut i: usize = 0;
        while i < n
            invariant
                i <= n,
                n == built.len(),
                i + devs.len() == built.len(),
                devs@ == built.skip(i as int),
                devices@.len() == i,
                forall|k: int| 0 <= k < i ==> (#[trigger] devices@[k]).dev == built[k],
            decreases n - i,
        {
            let d = devs.remove(0);
            proof {
                assert(built.skip(i as int)[0] == built[i as int]);
                assert(built.skip(i as int).subrange(1, built.skip(i as int).len() as int)
                    =~= built.skip(i as int + 1));
            }
            devices.push(_cl_device_id::new(d));
            i = i + 1;
        }
        Icd { devices, contexts: Vec::new() }
    }
}

/// A device handle is valid when it names a slot of the registry.
pub open spec fn spec_device_valid(icd: Icd, device: cl_device_id) -> bool {
    1 <= device <= icd.devices@.len()
}

pub open spec fn spec_check_device(icd: Icd, device: cl_device_id) -> Result<(), cl_int> {
    if spec_device_valid(icd, device) {
        Ok(())
    } else {
        Err(CL_INVALID_DEVICE)
    }
}

/// A device handle is valid exactly when it is a member of the
/// immutable device collection; a null handle never is.
pub fn check_device(icd: &Icd, device: cl_device_id) -> (r: Result<(), cl_int>)
    ensures
        r == spec_check_device(*icd, device),
{
    if device >= 1 && device <= icd.devices.len() {
        Ok(())
    } else {
        Err(CL_INVALID_DEVICE)
    }
}

/// Whether a device of the given externally visible type passes a
/// type filter. Each concrete filter matches by its bit; the
/// all-devices filter is inverted and matches exactly the devices
/// that are not of the custom type.
pub open spec fn spec_type_matches(filter: cl_device_type, dev_type: cl_device_type) -> bool {
    let f = filter as u32;
    if f == CL_DEVICE_TYPE_ACCELERATOR || f == CL_DEVICE_TYPE_CPU || f == CL_DEVICE_TYPE_CUSTOM
        || f == CL_DEVICE_TYPE_DEFAULT || f == CL_DEVICE_TYPE_GPU {
        filter & dev_type != 0
    } else if f == CL_DEVICE_TYPE_ALL {
        (CL_DEVICE_TYPE_CUSTOM as cl_device_type) & !dev_type != 0
    } else {
        false
    }
}

/// The externally visible type of the device in a slot.
pub open spec fn spec_slot_device_type(devices: Seq<_cl_device_id>, k: int) -> cl_device_type {
    spec_device_type(devices[k].dev.screen, devices[k].dev.custom)
}

/// The handles of the devices that pass a type filter, in collection
/// order; a handle is its slot number plus one.
pub open spec fn spec_matching_devs(devices: Seq<_cl_device_id>, device_type: cl_device_type) -> Seq<
    cl_device_id,
>
    decreases devices.len(),
{
    if devices.len() == 0 {
        Seq::empty()
    } else {
        let rest = spec_matching_devs(devices.drop_last(), device_type);
        if spec_type_matches(device_type, spec_slot_device_type(devices, devices.len() - 1)) {
            rest.push(devices.len() as usize)
        } else {
            rest
        }
    }
}

/// The devices that pass a type filter, as handles, in collection
/// order.
pub fn get_devs_for_type(icd: &Icd, device_type: cl_device_type) -> (r: Vec<cl_device_id>)
    ensures
        r@ == spec_matching_devs(icd.devices@, device_type),
{
    let mut r: Vec<cl_device_id> = Vec::new();
    let mut i: usize = 0;
    while i < icd.devices.len()
        invariant
            i <= icd.devices@.len(),
            r@ == spec_matching_devs(icd.devices@.take(i as int), device_type),
        decreases icd.devices@.len() - i,
    {
        let dt = icd.devices[i].dev.device_type();
        let f = #[verifier::truncate] (device_type as u32);
        let matches_filter = if f == CL_DEVICE_TYPE_ACCELERATOR || f == CL_DEVICE_TYPE_CPU || f
            == CL_DEVICE_TYPE_CUSTOM || f == CL_DEVICE_TYPE_DEFAULT || f == CL_DEVICE_TYPE_GPU {
            device_type & dt != 0
        } else if f == CL_DEVICE_TYPE_ALL {
            (CL_DEVICE_TYPE_CUSTOM as cl_device_type) & !dt != 0
        } else {
            false
        };
        if matches_filter {
            r.push(i + 1);
        }
        proof {
            let pre = icd.devices@.take(i as int + 1);
            assert(pre.drop_last() =~= icd.devices@.take(i as int));
            assert(pre.last() == icd.devices@[i as int]);
            assert(spec_slot_device_type(pre, pre.len() - 1) == spec_device_type(
                icd.devices@[i as int].dev.screen,
                icd.devices@[i as int].dev.custom,
            ));
        }
        i = i + 1;
    }
    proof {
        assert(icd.devices@.take(icd.devices@.len() as int) =~= icd.devices@);
    }
    r
}

/// Enumerates the devices that pass a type filter: validates the
/// platform and the filter, requires at least one receiver and room
/// for at least one handle where handles were asked for, fails with
/// the not-found status when nothing matches, and reports at most
/// `num_entries` handles together with the full matching count.
pub fn get_device_ids(
    icd: &Icd,
    platform: cl_platform_id,
    device_type: cl_device_type,
    num_entries: cl_uint,
    devices: bool,
    num_devices: bool,
) -> (r: Result<(Option<Vec<cl_device_id>>, Option<cl_uint>), cl_int>)
    ensures
        ({
            let matching = spec_matching_devs(icd.devices@, device_type);
            if spec_check_platform(platform) is Err {
                r == Err::<(Option<Vec<cl_device_id>>, Option<cl_uint>), cl_int>(
                    spec_check_platform(platform).get_Err_0(),
                )
            } else if spec_check_cl_device_type(device_type) is Err {
                r == Err::<(Option<Vec<cl_device_id>>, Option<cl_uint>), cl_int>(
                    spec_check_cl_device_type(device_type).get_Err_0(),
                )
            } else if num_entries == 0 && devices {
                r == Err::<(Option<Vec<cl_device_id>>, Option<cl_uint>), cl_int>(CL_INVALID_VALUE)
            } else if !num_devices && !devices {
                r == Err::<(Option<Vec<cl_device_id>>, Option<cl_uint>), cl_int>(CL_INVALID_VALUE)
            } else if matching.len() == 0 {
                r == Err::<(Option<Vec<cl_device_id>>, Option<cl_uint>), cl_int>(CL_DEVICE_NOT_FOUND)
            } else {
                r matches Ok((ids, count)) && (devices ==> (ids matches Some(v) && v@
                    == matching.take(
                    if num_entries as int <= matching.len() {
                        num_entries as int
                    } else {
                        matching.len() as int
                    },
                ))) && (!devices ==> ids is None) && count == (if num_devices {
                    Some(matching.len() as u32)
                } else {
                    None
                })
            }
        }),
{
    check_platform(platform)?;
    check_cl_device_type(device_type)?;
    if num_entries == 0 && devices {
        return Err(CL_INVALID_VALUE);
    }
    if !num_devices && !devices {
        return Err(CL_INVALID_VALUE);
    }
    let devs = get_devs_for_type(icd, device_type);
    if devs.len() == 0 {
        return Err(CL_DEVICE_NOT_FOUND);
    }
    let count = if num_devices {
        Some(#[verifier::truncate] (devs.len() as cl_uint))
    } else {
        None
    };
    let ids = if devices {
        let n = if (num_entries as usize) <= devs.len() {
            num_entries as usize
        } else {
            devs.len()
        };
        let mut v = devs;
        v.truncate(n);
        Some(v)
    } else {
        None
    };
    Ok((ids, count))
}

/// The entry points reachable through the dynamic
/// extension-function lookup.
#[derive(Clone, Copy, Debug, PartialEq, Eq, Structural)]
pub enum ExtensionFn {
    GetPlatformInfo,
    IcdGetPlatformIdsKhr,
}

pub open spec fn spec_extension_function(name: Seq<char>) -> Option<ExtensionFn> {
    if name == "clGetPlatformInfo"@ {
        Some(ExtensionFn::GetPlatformInfo)
    } else if name == "clIcdGetPlatformIDsKHR"@ {
        Some(ExtensionFn::IcdGetPlatformIdsKhr)
    } else {
        None
    }
}

/// Resolves a symbol name to the entry point it names; an unknown
/// name yields nothing rather than failing.
pub fn get_extension_function(name: &str) -> (r: Option<ExtensionFn>)
    ensures
        r == spec_extension_function(name@),
{
    let n = String::from_str(name);
    if n.eq(&String::from_str("clGetPlatformInfo")) {
        Some(ExtensionFn::GetPlatformInfo)
    } else if n.eq(&String::from_str("clIcdGetPlatformIDsKHR")) {
        Some(ExtensionFn::IcdGetPlatformIdsKhr)
    } else {
        None
    }
}

/// Device discovery is deterministic: the enumeration is a function
/// of the immutable device collection alone, so two states with the
/// same collection enumerate the same handles in the same order.
pub proof fn lemma_enumeration_deterministic(a: Icd, b: Icd, device_type: cl_device_type)
    requires
        a.devices == b.devices,
    ensures
        spec_matching_devs(a.devices@, device_type) == spec_matching_devs(b.devices@, device_type),
{
}

/// A custom device passes no type filter but the custom one: not the
/// concrete accelerator, processor, graphics or default filters, and
/// not the inverted all-devices filter either, which matches exactly
/// the non-custom devices.
pub proof fn lemma_custom_device_filters(filter: cl_device_type)
    ensures
        spec_type_matches(filter, CL_DEVICE_TYPE_CUSTOM as cl_device_type) <==> (filter as u32)
            == CL_DEVICE_TYPE_CUSTOM,
{
    assert((filter as u32) == 8u32 ==> filter & 16u64 == 0u64) by (bit_vector);
    assert((filter as u32) == 2u32 ==> filter & 16u64 == 0u64) by (bit_vector);
    assert((filter as u32) == 4u32 ==> filter & 16u64 == 0u64) by (bit_vector);
    assert((filter as u32) == 1u32 ==> filter & 16u64 == 0u64) by (bit_vector);
    assert((filter as u32) == 16u32 ==> filter & 16u64 != 0u64) by (bit_vector);
    assert(16u64 & !16u64 == 0u64) by (bit_vector);
}

} // verus!
