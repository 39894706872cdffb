//! The platform singleton: a process-wide object whose handle is a
//! fixed registry identifier. A supplied platform handle is valid
//! exactly when it is null (meaning the default platform) or equals
//! the singleton's handle.
#![allow(non_camel_case_types)]

use vstd::prelude::*;

use crate::cl::CL_INVALID_PLATFORM;
use crate::cl::CL_INVALID_VALUE;
use crate::cl::CL_PLATFORM_EXTENSIONS;
use crate::cl::CL_PLATFORM_EXTENSIONS_WITH_VERSION;
use crate::cl::CL_PLATFORM_HOST_TIMER_RESOLUTION;
use crate::cl::CL_PLATFORM_ICD_SUFFIX_KHR;
use crate::cl::CL_PLATFORM_NAME;
use crate::cl::CL_PLATFORM_NUMERIC_VERSION;
use crate::cl::CL_PLATFORM_PROFILE;
use crate::cl::CL_PLATFORM_VENDOR;
use crate::cl::CL_PLATFORM_VERSION;
use crate::cl::cl_int;
use crate::cl::cl_platform_id;
use crate::cl::cl_platform_info;
use crate::cl::cl_uint;
use crate::util::CLProp;
use crate::util::cl_info_reply;
use crate::util::cl_prop;
use crate::util::concat_cl_vec;
use crate::util::spec_str_prop;
use crate::util::u32_le_bytes;
use crate::util::u32_le_vec;
use crate::util::u64_le_bytes;
use crate::util::u64_le_vec;
use crate::version::CLVersion;
use crate::version::cl_name_version;
use crate::version::mk_cl_version_ext;
use crate::version::spec_mk_cl_version;
use crate::version::spec_name_field;

verus! {

/// The registry identifier of the platform singleton.
pub const PLATFORM_HANDLE: cl_platform_id = 1;

/// The platform object: its fixed set of supported extension records.
pub struct _cl_platform_id {
    pub extensions: Vec<cl_name_version>,
}

impl _cl_platform_id {
    /// The singleton's value: one extension record, the loader
    /// extension at version 1.0.0.
    pub fn new() -> (r: Self)
        ensures
            r.extensions@.len() == 1,
            r.extensions@[0].version == spec_mk_cl_version(1, 0, 0),
            r.extensions@[0].name@ == spec_name_field(vstd::utf8::encode_utf8("cl_khr_icd"@)),
    {
        let mut extensions: Vec<cl_name_version> = Vec::new();
        extensions.push(mk_cl_version_ext(1, 0, 0, "cl_khr_icd"));
        Self { extensions }
    }
}

pub open spec fn spec_check_platform(platform: cl_platform_id) -> Result<(), cl_int> {
    if platform != 0 && platform != PLATFORM_HANDLE {
        Err(CL_INVALID_PLATFORM)
    } else {
        Ok(())
    }
}

/// A platform handle is valid when it is null or the singleton's.
pub fn check_platform(platform: cl_platform_id) -> (r: Result<(), cl_int>)
    ensures
        r == spec_check_platform(platform),
{
    if platform != 0 && platform != PLATFORM_HANDLE {
        return Err(CL_INVALID_PLATFORM);
    }
    Ok(())
}

/// The singleton's handle.
pub fn get_platform() -> (r: cl_platform_id)
    ensures
        r == PLATFORM_HANDLE,
{
    PLATFORM_HANDLE
}

/// Enumerates the platforms: there is exactly one. The handle list
/// and the count are each written exactly when the caller asked for
/// them, and asking for neither, or for handles with no room for any,
/// is invalid.
pub fn get_platform_ids(num_entries: cl_uint, platforms: bool, num_platforms: bool) -> (r: Result<
    (Option<Vec<cl_platform_id>>, Option<cl_uint>),
    cl_int,
>)
    ensures
        ({
            if num_entries == 0 && platforms {
                r == Err::<(Option<Vec<cl_platform_id>>, Option<cl_uint>), cl_int>(CL_INVALID_VALUE)
            } else if !num_platforms && !platforms {
                r == Err::<(Option<Vec<cl_platform_id>>, Option<cl_uint>), cl_int>(CL_INVALID_VALUE)
            } else {
                r matches Ok((ids, count)) && (platforms ==> (ids matches Some(v) && v@ =~= seq![
                    PLATFORM_HANDLE,
                ])) && (!platforms ==> ids is None) && count == (if num_platforms {
                    Some(1u32)
                } else {
                    None
                })
            }
        }),
{
    if num_entries == 0 && platforms {
        return Err(CL_INVALID_VALUE);
    }
    if !num_platforms && !platforms {
        return Err(CL_INVALID_VALUE);
    }
    let ids = if platforms {
        let mut v: Vec<cl_platform_id> = Vec::new();
        v.push(PLATFORM_HANDLE);
        proof {
            assert(v@ =~= seq![PLATFORM_HANDLE]);
        }
        Some(v)
    } else {
        None
    };
    let count = if num_platforms {
        Some(1u32)
    } else {
        None
    };
    Ok((ids, count))
}

/// What each platform query reports, as bytes; an unrecognized
/// parameter name reports nothing.
pub open spec fn spec_platform_info_bytes(param_name: cl_platform_info) -> Option<Seq<u8>> {
    if param_name == CL_PLATFORM_EXTENSIONS {
        Some(spec_str_prop("cl_khr_icd"@))
    } else if param_name == CL_PLATFORM_EXTENSIONS_WITH_VERSION {
        Some(
            u32_le_bytes(spec_mk_cl_version(1, 0, 0)) + spec_name_field(
                vstd::utf8::encode_utf8("cl_khr_icd"@),
            ),
        )
    } else if param_name == CL_PLATFORM_HOST_TIMER_RESOLUTION {
        Some(u64_le_bytes(0))
    } else if param_name == CL_PLATFORM_ICD_SUFFIX_KHR {
        Some(spec_str_prop("MESA"@))
    } else if param_name == CL_PLATFORM_NAME {
        Some(spec_str_prop("rusticl"@))
    } else if param_name == CL_PLATFORM_NUMERIC_VERSION {
        Some(u32_le_bytes(CLVersion::Cl3_0.spec_code()))
    } else if param_name == CL_PLATFORM_PROFILE {
        Some(spec_str_prop("FULL_PROFILE"@))
    } else if param_name == CL_PLATFORM_VENDOR {
        Some(spec_str_prop("Mesa/X.org"@))
    } else if param_name == CL_PLATFORM_VERSION {
        Some(spec_str_prop("OpenCL 3.0"@))
    } else {
        None
    }
}

/// The encoded value of one platform query, or nothing for an
/// unrecognized parameter name.
fn platform_info_bytes(p: &_cl_platform_id, param_name: cl_platform_info) -> (r: Option<Vec<u8>>)
    requires
        p.extensions@.len() == 1,
        p.extensions@[0].version == spec_mk_cl_version(1, 0, 0),
        p.extensions@[0].name@ == spec_name_field(vstd::utf8::encode_utf8("cl_khr_icd"@)),
    ensures
        ({
            match spec_platform_info_bytes(param_name) {
                None => r is None,
                Some(d) => r matches Some(v) && v@ == d,
            }
        }),
{
    if param_name == CL_PLATFORM_EXTENSIONS {
        Some(cl_prop("cl_khr_icd"))
    } else if param_name == CL_PLATFORM_EXTENSIONS_WITH_VERSION {
        let d = p.extensions.cl_vec();
        proof {
            assert(concat_cl_vec(p.extensions@.drop_last()) =~= Seq::<u8>::empty());
        }
        Some(d)
    } else if param_name == CL_PLATFORM_HOST_TIMER_RESOLUTION {
        Some(u64_le_vec(0))
    } else if param_name == CL_PLATFORM_ICD_SUFFIX_KHR {
        Some(cl_prop("MESA"))
    } else if param_name == CL_PLATFORM_NAME {
        Some(cl_prop("rusticl"))
    } else if param_name == CL_PLATFORM_NUMERIC_VERSION {
        Some(u32_le_vec(CLVersion::Cl3_0.code()))
    } else if param_name == CL_PLATFORM_PROFILE {
        Some(cl_prop("FULL_PROFILE"))
    } else if param_name == CL_PLATFORM_VENDOR {
        Some(cl_prop("Mesa/X.org"))
    } else if param_name == CL_PLATFORM_VERSION {
        Some(cl_prop("OpenCL 3.0"))
    } else {
        None
    }
}

/// The platform query of the two-phase protocol: validate the handle,
/// resolve the parameter, check the declared buffer capacity, then
/// report the size and the bytes exactly where the caller supplied a
/// receiver (`param_value`, `param_value_size_ret` say which output
/// pointers were non-null).
pub fn get_platform_info(
    platform: cl_platform_id,
    param_name: cl_platform_info,
    param_value_size: usize,
    param_value: bool,
    param_value_size_ret: bool,
) -> (r: Result<(Option<Vec<u8>>, Option<usize>), cl_int>)
    ensures
        spec_check_platform(platform) matches Err(e) ==> r == Err::<
            (Option<Vec<u8>>, Option<usize>),
            cl_int,
        >(e),
        spec_check_platform(platform) is Ok ==> ({
            match spec_platform_info_bytes(param_name) {
                None => r == Err::<(Option<Vec<u8>>, Option<usize>), cl_int>(CL_INVALID_VALUE),
                Some(d) => if param_value && param_value_size < d.len() {
                    r == Err::<(Option<Vec<u8>>, Option<usize>), cl_int>(CL_INVALID_VALUE)
                } else {
                    r matches Ok((value, size_ret)) && (param_value ==> (value matches Some(v)
                        && v@ == d)) && (!param_value ==> value is None) && size_ret == (
                    if param_value_size_ret {
                        Some(d.len() as usize)
                    } else {
                        None
                    })
                },
            }
        }),
{
    if let Err(e) = check_platform(platform) {
        return Err(e);
    }
    let p = _cl_platform_id::new();
    let d = match platform_info_bytes(&p, param_name) {
        None => {
            return Err(CL_INVALID_VALUE);
        },
        Some(d) => d,
    };
    cl_info_reply(d, param_value_size, param_value, param_value_size_ret)
}

/// Every recognized platform query reports at least one byte, so a
/// size-only query always reports a positive size.
pub proof fn lemma_platform_info_size_positive(param_name: cl_platform_info)
    ensures
        spec_platform_info_bytes(param_name) matches Some(d) ==> d.len() > 0,
{
    assert(spec_name_field(vstd::utf8::encode_utf8("cl_khr_icd"@)).len() == 64);
}

} // verus!
