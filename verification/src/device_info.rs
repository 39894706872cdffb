//! The device query of the two-phase protocol: every recognized
//! parameter name maps to a fixed constant, a raw screen limit, or an
//! aggregator-derived value, encoded canonically.
#![allow(non_camel_case_types)]

use vstd::prelude::*;

use crate::cl::CL_DEVICE_ADDRESS_BITS;
use crate::cl::CL_DEVICE_ATOMIC_FENCE_CAPABILITIES;
use crate::cl::CL_DEVICE_ATOMIC_MEMORY_CAPABILITIES;
use crate::cl::CL_DEVICE_AVAILABLE;
use crate::cl::CL_DEVICE_BUILT_IN_KERNELS;
use crate::cl::CL_DEVICE_BUILT_IN_KERNELS_WITH_VERSION;
use crate::cl::CL_DEVICE_COMPILER_AVAILABLE;
use crate::cl::CL_DEVICE_DEVICE_ENQUEUE_CAPABILITIES;
use crate::cl::CL_DEVICE_DOUBLE_FP_CONFIG;
use crate::cl::CL_DEVICE_ENDIAN_LITTLE;
use crate::cl::CL_DEVICE_ERROR_CORRECTION_SUPPORT;
use crate::cl::CL_DEVICE_EXECUTION_CAPABILITIES;
use crate::cl::CL_DEVICE_EXTENSIONS;
use crate::cl::CL_DEVICE_EXTENSIONS_WITH_VERSION;
use crate::cl::CL_DEVICE_GENERIC_ADDRESS_SPACE_SUPPORT;
use crate::cl::CL_DEVICE_GLOBAL_MEM_CACHELINE_SIZE;
use crate::cl::CL_DEVICE_GLOBAL_MEM_CACHE_SIZE;
use crate::cl::CL_DEVICE_GLOBAL_MEM_CACHE_TYPE;
use crate::cl::CL_DEVICE_GLOBAL_MEM_SIZE;
use crate::cl::CL_DEVICE_GLOBAL_VARIABLE_PREFERRED_TOTAL_SIZE;
use crate::cl::CL_DEVICE_HOST_UNIFIED_MEMORY;
use crate::cl::CL_DEVICE_ILS_WITH_VERSION;
use crate::cl::CL_DEVICE_IL_VERSION;
use crate::cl::CL_DEVICE_IMAGE2D_MAX_HEIGHT;
use crate::cl::CL_DEVICE_IMAGE2D_MAX_WIDTH;
use crate::cl::CL_DEVICE_IMAGE3D_MAX_DEPTH;
use crate::cl::CL_DEVICE_IMAGE3D_MAX_HEIGHT;
use crate::cl::CL_DEVICE_IMAGE3D_MAX_WIDTH;
use crate::cl::CL_DEVICE_IMAGE_BASE_ADDRESS_ALIGNMENT;
use crate::cl::CL_DEVICE_IMAGE_MAX_ARRAY_SIZE;
use crate::cl::CL_DEVICE_IMAGE_MAX_BUFFER_SIZE;
use crate::cl::CL_DEVICE_IMAGE_PITCH_ALIGNMENT;
use crate::cl::CL_DEVICE_IMAGE_SUPPORT;
use crate::cl::CL_DEVICE_LATEST_CONFORMANCE_VERSION_PASSED;
use crate::cl::CL_DEVICE_LINKER_AVAILABLE;
use crate::cl::CL_DEVICE_LOCAL_MEM_SIZE;
use crate::cl::CL_DEVICE_LOCAL_MEM_TYPE;
use crate::cl::CL_DEVICE_MAX_CLOCK_FREQUENCY;
use crate::cl::CL_DEVICE_MAX_COMPUTE_UNITS;
use crate::cl::CL_DEVICE_MAX_CONSTANT_ARGS;
use crate::cl::CL_DEVICE_MAX_CONSTANT_BUFFER_SIZE;
use crate::cl::CL_DEVICE_MAX_GLOBAL_VARIABLE_SIZE;
use crate::cl::CL_DEVICE_MAX_MEM_ALLOC_SIZE;
use crate::cl::CL_DEVICE_MAX_NUM_SUB_GROUPS;
use crate::cl::CL_DEVICE_MAX_ON_DEVICE_EVENTS;
use crate::cl::CL_DEVICE_MAX_ON_DEVICE_QUEUES;
use crate::cl::CL_DEVICE_MAX_PARAMETER_SIZE;
use crate::cl::CL_DEVICE_MAX_PIPE_ARGS;
use crate::cl::CL_DEVICE_MAX_READ_IMAGE_ARGS;
use crate::cl::CL_DEVICE_MAX_READ_WRITE_IMAGE_ARGS;
use crate::cl::CL_DEVICE_MAX_SAMPLERS;
use crate::cl::CL_DEVICE_MAX_WORK_GROUP_SIZE;
use crate::cl::CL_DEVICE_MAX_WORK_ITEM_DIMENSIONS;
use crate::cl::CL_DEVICE_MAX_WORK_ITEM_SIZES;
use crate::cl::CL_DEVICE_MAX_WRITE_IMAGE_ARGS;
use crate::cl::CL_DEVICE_MEM_BASE_ADDR_ALIGN;
use crate::cl::CL_DEVICE_MIN_DATA_TYPE_ALIGN_SIZE;
use crate::cl::CL_DEVICE_NAME;
use crate::cl::CL_DEVICE_NATIVE_VECTOR_WIDTH_CHAR;
use crate::cl::CL_DEVICE_NATIVE_VECTOR_WIDTH_DOUBLE;
use crate::cl::CL_DEVICE_NATIVE_VECTOR_WIDTH_FLOAT;
use crate::cl::CL_DEVICE_NATIVE_VECTOR_WIDTH_HALF;
use crate::cl::CL_DEVICE_NATIVE_VECTOR_WIDTH_INT;
use crate::cl::CL_DEVICE_NATIVE_VECTOR_WIDTH_LONG;
use crate::cl::CL_DEVICE_NATIVE_VECTOR_WIDTH_SHORT;
use crate::cl::CL_DEVICE_NON_UNIFORM_WORK_GROUP_SUPPORT;
use crate::cl::CL_DEVICE_NUMERIC_VERSION;
use crate::cl::CL_DEVICE_OPENCL_C_ALL_VERSIONS;
use crate::cl::CL_DEVICE_OPENCL_C_FEATURES;
use crate::cl::CL_DEVICE_OPENCL_C_VERSION;
use crate::cl::CL_DEVICE_PARENT_DEVICE;
use crate::cl::CL_DEVICE_PARTITION_AFFINITY_DOMAIN;
use crate::cl::CL_DEVICE_PARTITION_MAX_SUB_DEVICES;
use crate::cl::CL_DEVICE_PIPE_MAX_ACTIVE_RESERVATIONS;
use crate::cl::CL_DEVICE_PIPE_MAX_PACKET_SIZE;
use crate::cl::CL_DEVICE_PIPE_SUPPORT;
use crate::cl::CL_DEVICE_PLATFORM;
use crate::cl::CL_DEVICE_PREFERRED_GLOBAL_ATOMIC_ALIGNMENT;
use crate::cl::CL_DEVICE_PREFERRED_INTEROP_USER_SYNC;
use crate::cl::CL_DEVICE_PREFERRED_LOCAL_ATOMIC_ALIGNMENT;
use crate::cl::CL_DEVICE_PREFERRED_PLATFORM_ATOMIC_ALIGNMENT;
use crate::cl::CL_DEVICE_PREFERRED_VECTOR_WIDTH_CHAR;
use crate::cl::CL_DEVICE_PREFERRED_VECTOR_WIDTH_DOUBLE;
use crate::cl::CL_DEVICE_PREFERRED_VECTOR_WIDTH_FLOAT;
use crate::cl::CL_DEVICE_PREFERRED_VECTOR_WIDTH_HALF;
use crate::cl::CL_DEVICE_PREFERRED_VECTOR_WIDTH_INT;
use crate::cl::CL_DEVICE_PREFERRED_VECTOR_WIDTH_LONG;
use crate::cl::CL_DEVICE_PREFERRED_VECTOR_WIDTH_SHORT;
use crate::cl::CL_DEVICE_PREFERRED_WORK_GROUP_SIZE_MULTIPLE;
use crate::cl::CL_DEVICE_PRINTF_BUFFER_SIZE;
use crate::cl::CL_DEVICE_PROFILE;
use crate::cl::CL_DEVICE_PROFILING_TIMER_RESOLUTION;
use crate::cl::CL_DEVICE_QUEUE_ON_DEVICE_MAX_SIZE;
use crate::cl::CL_DEVICE_QUEUE_ON_DEVICE_PREFERRED_SIZE;
use crate::cl::CL_DEVICE_QUEUE_ON_DEVICE_PROPERTIES;
use crate::cl::CL_DEVICE_QUEUE_PROPERTIES;
use crate::cl::CL_DEVICE_REFERENCE_COUNT;
use crate::cl::CL_DEVICE_SINGLE_FP_CONFIG;
use crate::cl::CL_DEVICE_SUB_GROUP_INDEPENDENT_FORWARD_PROGRESS;
use crate::cl::CL_DEVICE_SVM_CAPABILITIES;
use crate::cl::CL_DEVICE_TYPE;
use crate::cl::CL_DEVICE_VENDOR;
use crate::cl::CL_DEVICE_VENDOR_ID;
use crate::cl::CL_DEVICE_VERSION;
use crate::cl::CL_DEVICE_WORK_GROUP_COLLECTIVE_FUNCTIONS_SUPPORT;
use crate::cl::CL_DRIVER_VERSION;
use crate::cl::CL_EXEC_KERNEL;
use crate::cl::CL_FP_ROUND_TO_NEAREST;
use crate::cl::CL_FP_ROUND_TO_ZERO;
use crate::cl::CL_GLOBAL;
use crate::cl::CL_INVALID_DEVICE;
use crate::cl::CL_INVALID_VALUE;
use crate::cl::CL_NONE;
use crate::cl::CL_QUEUE_PROFILING_ENABLE;
use crate::cl::cl_command_queue_properties;
use crate::cl::cl_device_affinity_domain;
use crate::cl::cl_device_atomic_capabilities;
use crate::cl::cl_device_device_enqueue_capabilities;
use crate::cl::cl_device_exec_capabilities;
use crate::cl::cl_device_fp_config;
use crate::cl::cl_device_id;
use crate::cl::cl_device_info;
use crate::cl::cl_device_local_mem_type;
use crate::cl::cl_device_mem_cache_type;
use crate::cl::cl_device_svm_capabilities;
use crate::cl::cl_device_type;
use crate::cl::cl_int;
use crate::cl::cl_platform_id;
use crate::cl::cl_uint;
use crate::cl::cl_ulong;
use crate::cl::cl_version;
use crate::device::Device;
use crate::device::spec_address_bits;
use crate::device::spec_const_max_size;
use crate::device::spec_device_type;
use crate::device::spec_global_mem_size;
use crate::device::spec_image_2d_size;
use crate::device::spec_image_3d_shiftable;
use crate::device::spec_image_3d_size;
use crate::device::spec_image_array_size;
use crate::device::spec_image_buffer_size;
use crate::device::spec_image_read_count;
use crate::device::spec_image_supported;
use crate::device::spec_image_write_count;
use crate::device::spec_little_endian;
use crate::device::spec_local_mem_size;
use crate::device::spec_max_block_sizes;
use crate::device::spec_max_clock_freq;
use crate::device::spec_max_compute_units;
use crate::device::spec_max_grid_dimensions;
use crate::device::spec_max_mem_alloc;
use crate::device::spec_max_samplers;
use crate::device::spec_max_threads_per_block;
use crate::device::spec_param_max_size;
use crate::device::spec_unified_memory;
use crate::device::spec_vendor_id;
use crate::icd::Icd;
use crate::icd::check_device;
use crate::icd::spec_device_valid;
use crate::platform::PLATFORM_HANDLE;
use crate::platform::get_platform;
use crate::util::CLProp;
use crate::util::cl_info_reply;
use crate::util::cl_prop;
use crate::util::concat_cl_vec;
use crate::util::spec_str_prop;
use crate::util::spec_string_prop;
use crate::util::u32_le_bytes;
use crate::util::u64_le_bytes;
use crate::version::cl_name_version;

verus! {

/// The parameters that expand the three-dimensional image level
/// count by shifting.
pub open spec fn spec_image_3d_param(param_name: cl_device_info) -> bool {
    param_name == CL_DEVICE_IMAGE3D_MAX_WIDTH || param_name == CL_DEVICE_IMAGE3D_MAX_HEIGHT
        || param_name == CL_DEVICE_IMAGE3D_MAX_DEPTH
}

/// What each device query reports, as bytes; an unrecognized
/// parameter name reports nothing.
pub open spec fn spec_device_info_bytes(dev: Device, param_name: cl_device_info) -> Option<
    Seq<u8>,
> {
    let s = dev.screen;
    if param_name == CL_DEVICE_ADDRESS_BITS {
        Some(u32_le_bytes(spec_address_bits(s)))
    } else if param_name == CL_DEVICE_ATOMIC_FENCE_CAPABILITIES {
        Some(u64_le_bytes(0))
    } else if param_name == CL_DEVICE_ATOMIC_MEMORY_CAPABILITIES {
        Some(u64_le_bytes(0))
    } else if param_name == CL_DEVICE_AVAILABLE {
        Some(u32_le_bytes(1))
    } else if param_name == CL_DEVICE_BUILT_IN_KERNELS {
        Some(spec_str_prop(""@))
    } else if param_name == CL_DEVICE_BUILT_IN_KERNELS_WITH_VERSION {
        Some(Seq::empty())
    } else if param_name == CL_DEVICE_COMPILER_AVAILABLE {
        Some(u32_le_bytes(1))
    } else if param_name == CL_DEVICE_DEVICE_ENQUEUE_CAPABILITIES {
        Some(u64_le_bytes(0))
    } else if param_name == CL_DEVICE_DOUBLE_FP_CONFIG {
        Some(u64_le_bytes(0))
    } else if param_name == CL_DEVICE_ENDIAN_LITTLE {
        Some(
            u32_le_bytes(
                if spec_little_endian(s) {
                    1
                } else {
                    0
                },
            ),
        )
    } else if param_name == CL_DEVICE_ERROR_CORRECTION_SUPPORT {
        Some(u32_le_bytes(0))
    } else if param_name == CL_DEVICE_EXECUTION_CAPABILITIES {
        Some(u64_le_bytes(CL_EXEC_KERNEL as u64))
    } else if param_name == CL_DEVICE_EXTENSIONS {
        Some(spec_str_prop(dev.extension_string@))
    } else if param_name == CL_DEVICE_EXTENSIONS_WITH_VERSION {
        Some(concat_cl_vec(dev.extensions@))
    } else if param_name == CL_DEVICE_GENERIC_ADDRESS_SPACE_SUPPORT {
        Some(u32_le_bytes(0))
    } else if param_name == CL_DEVICE_GLOBAL_MEM_CACHE_TYPE {
        Some(u32_le_bytes(CL_NONE))
    } else if param_name == CL_DEVICE_GLOBAL_MEM_CACHE_SIZE {
        Some(u64_le_bytes(0))
    } else if param_name == CL_DEVICE_GLOBAL_MEM_CACHELINE_SIZE {
        Some(u32_le_bytes(0))
    } else if param_name == CL_DEVICE_GLOBAL_MEM_SIZE {
        Some(u64_le_bytes(spec_global_mem_size(s)))
    } else if param_name == CL_DEVICE_GLOBAL_VARIABLE_PREFERRED_TOTAL_SIZE {
        Some(u64_le_bytes(0))
    } else if param_name == CL_DEVICE_HOST_UNIFIED_MEMORY {
        Some(
            u32_le_bytes(
                if spec_unified_memory(s) {
                    1
                } else {
                    0
                },
            ),
        )
    } else if param_name == CL_DEVICE_IL_VERSION {
        Some(spec_str_prop(""@))
    } else if param_name == CL_DEVICE_ILS_WITH_VERSION {
        Some(Seq::empty())
    } else if param_name == CL_DEVICE_IMAGE_BASE_ADDRESS_ALIGNMENT {
        Some(u32_le_bytes(0))
    } else if param_name == CL_DEVICE_IMAGE_MAX_ARRAY_SIZE {
        Some(u64_le_bytes(spec_image_array_size(s) as u64))
    } else if param_name == CL_DEVICE_IMAGE_MAX_BUFFER_SIZE {
        Some(u64_le_bytes(spec_image_buffer_size(s) as u64))
    } else if param_name == CL_DEVICE_IMAGE_PITCH_ALIGNMENT {
        Some(u32_le_bytes(0))
    } else if param_name == CL_DEVICE_IMAGE_SUPPORT {
        Some(
            u32_le_bytes(
                if spec_image_supported(s) {
                    1
                } else {
                    0
                },
            ),
        )
    } else if param_name == CL_DEVICE_IMAGE2D_MAX_HEIGHT {
        Some(u64_le_bytes(spec_image_2d_size(s) as u64))
    } else if param_name == CL_DEVICE_IMAGE2D_MAX_WIDTH {
        Some(u64_le_bytes(spec_image_2d_size(s) as u64))
    } else if param_name == CL_DEVICE_IMAGE3D_MAX_HEIGHT {
        Some(u64_le_bytes(spec_image_3d_size(s) as u64))
    } else if param_name == CL_DEVICE_IMAGE3D_MAX_WIDTH {
        Some(u64_le_bytes(spec_image_3d_size(s) as u64))
    } else if param_name == CL_DEVICE_IMAGE3D_MAX_DEPTH {
        Some(u64_le_bytes(spec_image_3d_size(s) as u64))
    } else if param_name == CL_DEVICE_SUB_GROUP_INDEPENDENT_FORWARD_PROGRESS {
        Some(u32_le_bytes(0))
    } else if param_name == CL_DEVICE_LATEST_CONFORMANCE_VERSION_PASSED {
        Some(spec_str_prop(""@))
    } else if param_name == CL_DEVICE_LINKER_AVAILABLE {
        Some(u32_le_bytes(1))
    } else if param_name == CL_DEVICE_LOCAL_MEM_SIZE {
        Some(u64_le_bytes(spec_local_mem_size(s)))
    } else if param_name == CL_DEVICE_LOCAL_MEM_TYPE {
        Some(u32_le_bytes(CL_GLOBAL))
    } else if param_name == CL_DEVICE_MAX_CLOCK_FREQUENCY {
        Some(u32_le_bytes(spec_max_clock_freq(s)))
    } else if param_name == CL_DEVICE_MAX_COMPUTE_UNITS {
        Some(u32_le_bytes(spec_max_compute_units(s)))
    } else if param_name == CL_DEVICE_MAX_CONSTANT_ARGS {
        Some(u32_le_bytes(1024))
    } else if param_name == CL_DEVICE_MAX_CONSTANT_BUFFER_SIZE {
        Some(u64_le_bytes(spec_const_max_size(s)))
    } else if param_name == CL_DEVICE_MAX_GLOBAL_VARIABLE_SIZE {
        Some(u64_le_bytes(0))
    } else if param_name == CL_DEVICE_MAX_MEM_ALLOC_SIZE {
        Some(u64_le_bytes(spec_max_mem_alloc(s)))
    } else if param_name == CL_DEVICE_MAX_NUM_SUB_GROUPS {
        Some(u32_le_bytes(0))
    } else if param_name == CL_DEVICE_MAX_ON_DEVICE_EVENTS {
        Some(u32_le_bytes(0))
    } else if param_name == CL_DEVICE_MAX_ON_DEVICE_QUEUES {
        Some(u32_le_bytes(0))
    } else if param_name == CL_DEVICE_MAX_PARAMETER_SIZE {
        Some(u64_le_bytes(spec_param_max_size(s) as u64))
    } else if param_name == CL_DEVICE_MAX_PIPE_ARGS {
        Some(u32_le_bytes(0))
    } else if param_name == CL_DEVICE_MAX_READ_IMAGE_ARGS {
        Some(u32_le_bytes(spec_image_read_count(s)))
    } else if param_name == CL_DEVICE_MAX_READ_WRITE_IMAGE_ARGS {
        Some(u32_le_bytes(0))
    } else if param_name == CL_DEVICE_MAX_SAMPLERS {
        Some(u32_le_bytes(spec_max_samplers(s)))
    } else if param_name == CL_DEVICE_MAX_WORK_GROUP_SIZE {
        Some(u64_le_bytes(spec_max_threads_per_block(s) as u64))
    } else if param_name == CL_DEVICE_MAX_WORK_ITEM_DIMENSIONS {
        Some(u32_le_bytes(spec_max_grid_dimensions(s)))
    } else if param_name == CL_DEVICE_MAX_WORK_ITEM_SIZES {
        Some(concat_cl_vec(spec_max_block_sizes(s)))
    } else if param_name == CL_DEVICE_MAX_WRITE_IMAGE_ARGS {
        Some(u32_le_bytes(spec_image_write_count(s)))
    } else if param_name == CL_DEVICE_MEM_BASE_ADDR_ALIGN {
        Some(u32_le_bytes(0x1000))
    } else if param_name == CL_DEVICE_MIN_DATA_TYPE_ALIGN_SIZE {
        Some(u32_le_bytes(128))
    } else if param_name == CL_DEVICE_NAME {
        Some(spec_string_prop(s.screen.name@))
    } else if param_name == CL_DEVICE_NATIVE_VECTOR_WIDTH_CHAR {
        Some(u32_le_bytes(1))
    } else if param_name == CL_DEVICE_NATIVE_VECTOR_WIDTH_DOUBLE {
        Some(u32_le_bytes(0))
    } else if param_name == CL_DEVICE_NATIVE_VECTOR_WIDTH_FLOAT {
        Some(u32_le_bytes(1))
    } else if param_name == CL_DEVICE_NATIVE_VECTOR_WIDTH_HALF {
        Some(u32_le_bytes(0))
    } else if param_name == CL_DEVICE_NATIVE_VECTOR_WIDTH_INT {
        Some(u32_le_bytes(1))
    } else if param_name == CL_DEVICE_NATIVE_VECTOR_WIDTH_LONG {
        Some(u32_le_bytes(1))
    } else if param_name == CL_DEVICE_NATIVE_VECTOR_WIDTH_SHORT {
        Some(u32_le_bytes(1))
    } else if param_name == CL_DEVICE_NON_UNIFORM_WORK_GROUP_SUPPORT {
        Some(u32_le_bytes(0))
    } else if param_name == CL_DEVICE_NUMERIC_VERSION {
        Some(u32_le_bytes(dev.cl_version.spec_code()))
    } else if param_name == CL_DEVICE_PARENT_DEVICE {
        Some(u64_le_bytes(0))
    } else if param_name == CL_DEVICE_PARTITION_AFFINITY_DOMAIN {
        Some(u64_le_bytes(0))
    } else if param_name == CL_DEVICE_PARTITION_MAX_SUB_DEVICES {
        Some(u32_le_bytes(0))
    } else if param_name == CL_DEVICE_PIPE_MAX_ACTIVE_RESERVATIONS {
        Some(u32_le_bytes(0))
    } else if param_name == CL_DEVICE_PIPE_MAX_PACKET_SIZE {
        Some(u32_le_bytes(0))
    } else if param_name == CL_DEVICE_PIPE_SUPPORT {
        Some(u32_le_bytes(0))
    } else if param_name == CL_DEVICE_PLATFORM {
        Some(u64_le_bytes(PLATFORM_HANDLE as u64))
    } else if param_name == CL_DEVICE_PREFERRED_GLOBAL_ATOMIC_ALIGNMENT {
        Some(u32_le_bytes(0))
    } else if param_name == CL_DEVICE_PREFERRED_INTEROP_USER_SYNC {
        Some(u32_le_bytes(1))
    } else if param_name == CL_DEVICE_PREFERRED_LOCAL_ATOMIC_ALIGNMENT {
        Some(u32_le_bytes(0))
    } else if param_name == CL_DEVICE_PREFERRED_PLATFORM_ATOMIC_ALIGNMENT {
        Some(u32_le_bytes(0))
    } else if param_name == CL_DEVICE_PREFERRED_VECTOR_WIDTH_CHAR {
        Some(u32_le_bytes(1))
    } else if param_name == CL_DEVICE_PREFERRED_VECTOR_WIDTH_DOUBLE {
        Some(u32_le_bytes(0))
    } else if param_name == CL_DEVICE_PREFERRED_VECTOR_WIDTH_FLOAT {
        Some(u32_le_bytes(1))
    } else if param_name == CL_DEVICE_PREFERRED_VECTOR_WIDTH_HALF {
        Some(u32_le_bytes(0))
    } else if param_name == CL_DEVICE_PREFERRED_VECTOR_WIDTH_INT {
        Some(u32_le_bytes(1))
    } else if param_name == CL_DEVICE_PREFERRED_VECTOR_WIDTH_LONG {
        Some(u32_le_bytes(1))
    } else if param_name == CL_DEVICE_PREFERRED_VECTOR_WIDTH_SHORT {
        Some(u32_le_bytes(1))
    } else if param_name == CL_DEVICE_PREFERRED_WORK_GROUP_SIZE_MULTIPLE {
        Some(u64_le_bytes(1))
    } else if param_name == CL_DEVICE_PRINTF_BUFFER_SIZE {
        Some(u64_le_bytes(0))
    } else if param_name == CL_DEVICE_PROFILING_TIMER_RESOLUTION {
        Some(u64_le_bytes(0))
    } else if param_name == CL_DEVICE_OPENCL_C_FEATURES {
        Some(Seq::empty())
    } else if param_name == CL_DEVICE_OPENCL_C_VERSION {
        Some(spec_string_prop(dev.clc_version.spec_version_chars()))
    } else if param_name == CL_DEVICE_OPENCL_C_ALL_VERSIONS {
        Some(concat_cl_vec(dev.clc_versions@))
    } else if param_name == CL_DEVICE_PROFILE {
        Some(
            spec_str_prop(
                if dev.embedded {
                    "EMBEDDED_PROFILE"@
                } else {
                    "FULL_PROFILE"@
                },
            ),
        )
    } else if param_name == CL_DEVICE_QUEUE_ON_DEVICE_MAX_SIZE {
        Some(u32_le_bytes(0))
    } else if param_name == CL_DEVICE_QUEUE_ON_DEVICE_PREFERRED_SIZE {
        Some(u32_le_bytes(0))
    } else if param_name == CL_DEVICE_QUEUE_ON_DEVICE_PROPERTIES {
        Some(u64_le_bytes(0))
    } else if param_name == CL_DEVICE_QUEUE_PROPERTIES {
        Some(u64_le_bytes(CL_QUEUE_PROFILING_ENABLE as u64))
    } else if param_name == CL_DEVICE_REFERENCE_COUNT {
        Some(u32_le_bytes(1))
    } else if param_name == CL_DEVICE_SINGLE_FP_CONFIG {
        Some(u64_le_bytes((CL_FP_ROUND_TO_ZERO | CL_FP_ROUND_TO_NEAREST) as u64))
    } else if param_name == CL_DEVICE_SVM_CAPABILITIES {
        Some(u64_le_bytes(0))
    } else if param_name == CL_DEVICE_TYPE {
        Some(u64_le_bytes(spec_device_type(s, dev.custom)))
    } else if param_name == CL_DEVICE_VENDOR {
        Some(spec_string_prop(s.screen.device_vendor@))
    } else if param_name == CL_DEVICE_VENDOR_ID {
        Some(u32_le_bytes(spec_vendor_id(s)))
    } else if param_name == CL_DEVICE_VERSION {
        Some(spec_string_prop("OpenCL "@ + dev.cl_version.spec_version_chars()))
    } else if param_name == CL_DRIVER_VERSION {
        Some(spec_str_prop("0.1"@))
    } else if param_name == CL_DEVICE_WORK_GROUP_COLLECTIVE_FUNCTIONS_SUPPORT {
        Some(u32_le_bytes(0))
    } else {
        None
    }
}

/// The encoded value of one device query, or nothing for an
/// unrecognized parameter name.
#[verifier::rlimit(100)]
fn device_info_bytes(dev: &Device, param_name: cl_device_info) -> (r: Option<Vec<u8>>)
    requires
        spec_image_3d_param(param_name) ==> spec_image_3d_shiftable(dev.screen),
    ensures
        ({
            match spec_device_info_bytes(*dev, param_name) {
                None => r is None,
                Some(d) => r matches Some(v) && v@ == d,
            }
        }),
{
    let d: Vec<u8> = if param_name == CL_DEVICE_ADDRESS_BITS {
        cl_prop::<cl_uint>(dev.address_bits())
    } else if param_name == CL_DEVICE_ATOMIC_FENCE_CAPABILITIES {
        cl_prop::<cl_device_atomic_capabilities>(0)
    } else if param_name == CL_DEVICE_ATOMIC_MEMORY_CAPABILITIES {
        cl_prop::<cl_device_atomic_capabilities>(0)
    } else if param_name == CL_DEVICE_AVAILABLE {
        cl_prop::<bool>(true)
    } else if param_name == CL_DEVICE_BUILT_IN_KERNELS {
        cl_prop::<&str>("")
    } else if param_name == CL_DEVICE_BUILT_IN_KERNELS_WITH_VERSION {
        empty_name_version_bytes()
    } else if param_name == CL_DEVICE_COMPILER_AVAILABLE {
        cl_prop::<bool>(true)
    } else if param_name == CL_DEVICE_DEVICE_ENQUEUE_CAPABILITIES {
        cl_prop::<cl_device_device_enqueue_capabilities>(0)
    } else if param_name == CL_DEVICE_DOUBLE_FP_CONFIG {
        cl_prop::<cl_device_fp_config>(0)
    } else if param_name == CL_DEVICE_ENDIAN_LITTLE {
        cl_prop::<bool>(dev.little_endian())
    } else if param_name == CL_DEVICE_ERROR_CORRECTION_SUPPORT {
        cl_prop::<bool>(false)
    } else if param_name == CL_DEVICE_EXECUTION_CAPABILITIES {
        cl_prop::<cl_device_exec_capabilities>(CL_EXEC_KERNEL as cl_device_exec_capabilities)
    } else if param_name == CL_DEVICE_EXTENSIONS {
        dev.extension_string.as_str().cl_vec()
    } else if param_name == CL_DEVICE_EXTENSIONS_WITH_VERSION {
        dev.extensions.cl_vec()
    } else if param_name == CL_DEVICE_GENERIC_ADDRESS_SPACE_SUPPORT {
        cl_prop::<bool>(false)
    } else if param_name == CL_DEVICE_GLOBAL_MEM_CACHE_TYPE {
        cl_prop::<cl_device_mem_cache_type>(CL_NONE)
    } else if param_name == CL_DEVICE_GLOBAL_MEM_CACHE_SIZE {
        cl_prop::<cl_ulong>(0)
    } else if param_name == CL_DEVICE_GLOBAL_MEM_CACHELINE_SIZE {
        cl_prop::<cl_uint>(0)
    } else if param_name == CL_DEVICE_GLOBAL_MEM_SIZE {
        cl_prop::<cl_ulong>(dev.global_mem_size())
    } else if param_name == CL_DEVICE_GLOBAL_VARIABLE_PREFERRED_TOTAL_SIZE {
        cl_prop::<usize>(0)
    } else if param_name == CL_DEVICE_HOST_UNIFIED_MEMORY {
        cl_prop::<bool>(dev.unified_memory())
    } else if param_name == CL_DEVICE_IL_VERSION {
        cl_prop::<&str>("")
    } else if param_name == CL_DEVICE_ILS_WITH_VERSION {
        empty_name_version_bytes()
    } else if param_name == CL_DEVICE_IMAGE_BASE_ADDRESS_ALIGNMENT {
        cl_prop::<cl_uint>(0)
    } else if param_name == CL_DEVICE_IMAGE_MAX_ARRAY_SIZE {
        cl_prop::<usize>(dev.image_array_size())
    } else if param_name == CL_DEVICE_IMAGE_MAX_BUFFER_SIZE {
        cl_prop::<usize>(dev.image_buffer_size())
    } else if param_name == CL_DEVICE_IMAGE_PITCH_ALIGNMENT {
        cl_prop::<cl_uint>(0)
    } else if param_name == CL_DEVICE_IMAGE_SUPPORT {
        cl_prop::<bool>(dev.image_supported())
    } else if param_name == CL_DEVICE_IMAGE2D_MAX_HEIGHT {
        cl_prop::<usize>(dev.image_2d_size())
    } else if param_name == CL_DEVICE_IMAGE2D_MAX_WIDTH {
        cl_prop::<usize>(dev.image_2d_size())
    } else if param_name == CL_DEVICE_IMAGE3D_MAX_HEIGHT {
        cl_prop::<usize>(dev.image_3d_size())
    } else if param_name == CL_DEVICE_IMAGE3D_MAX_WIDTH {
        cl_prop::<usize>(dev.image_3d_size())
    } else if param_name == CL_DEVICE_IMAGE3D_MAX_DEPTH {
        cl_prop::<usize>(dev.image_3d_size())
    } else if param_name == CL_DEVICE_SUB_GROUP_INDEPENDENT_FORWARD_PROGRESS {
        cl_prop::<bool>(false)
    } else if param_name == CL_DEVICE_LATEST_CONFORMANCE_VERSION_PASSED {
        cl_prop::<&str>("")
    } else if param_name == CL_DEVICE_LINKER_AVAILABLE {
        cl_prop::<bool>(true)
    } else if param_name == CL_DEVICE_LOCAL_MEM_SIZE {
        cl_prop::<cl_ulong>(dev.local_mem_size())
    } else if param_name == CL_DEVICE_LOCAL_MEM_TYPE {
        cl_prop::<cl_device_local_mem_type>(CL_GLOBAL)
    } else if param_name == CL_DEVICE_MAX_CLOCK_FREQUENCY {
        cl_prop::<cl_uint>(dev.max_clock_freq())
    } else if param_name == CL_DEVICE_MAX_COMPUTE_UNITS {
        cl_prop::<cl_uint>(dev.max_compute_units())
    } else if param_name == CL_DEVICE_MAX_CONSTANT_ARGS {
        cl_prop::<cl_uint>(1024)
    } else if param_name == CL_DEVICE_MAX_CONSTANT_BUFFER_SIZE {
        cl_prop::<cl_ulong>(dev.const_max_size())
    } else if param_name == CL_DEVICE_MAX_GLOBAL_VARIABLE_SIZE {
        cl_prop::<usize>(0)
    } else if param_name == CL_DEVICE_MAX_MEM_ALLOC_SIZE {
        cl_prop::<cl_ulong>(dev.max_mem_alloc())
    } else if param_name == CL_DEVICE_MAX_NUM_SUB_GROUPS {
        cl_prop::<cl_uint>(0)
    } else if param_name == CL_DEVICE_MAX_ON_DEVICE_EVENTS {
        cl_prop::<cl_uint>(0)
    } else if param_name == CL_DEVICE_MAX_ON_DEVICE_QUEUES {
        cl_prop::<cl_uint>(0)
    } else if param_name == CL_DEVICE_MAX_PARAMETER_SIZE {
        cl_prop::<usize>(dev.param_max_size())
    } else if param_name == CL_DEVICE_MAX_PIPE_ARGS {
        cl_prop::<cl_uint>(0)
    } else if param_name == CL_DEVICE_MAX_READ_IMAGE_ARGS {
        cl_prop::<cl_uint>(dev.image_read_count())
    } else if param_name == CL_DEVICE_MAX_READ_WRITE_IMAGE_ARGS {
        cl_prop::<cl_uint>(0)
    } else if param_name == CL_DEVICE_MAX_SAMPLERS {
        cl_prop::<cl_uint>(dev.max_samplers())
    } else if param_name == CL_DEVICE_MAX_WORK_GROUP_SIZE {
        cl_prop::<usize>(dev.max_threads_per_block())
    } else if param_name == CL_DEVICE_MAX_WORK_ITEM_DIMENSIONS {
        cl_prop::<cl_uint>(dev.max_grid_dimensions())
    } else if param_name == CL_DEVICE_MAX_WORK_ITEM_SIZES {
        dev.max_block_sizes().cl_vec()
    } else if param_name == CL_DEVICE_MAX_WRITE_IMAGE_ARGS {
        cl_prop::<cl_uint>(dev.image_write_count())
    } else if param_name == CL_DEVICE_MEM_BASE_ADDR_ALIGN {
        cl_prop::<cl_uint>(0x1000)
    } else if param_name == CL_DEVICE_MIN_DATA_TYPE_ALIGN_SIZE {
        cl_prop::<cl_uint>(128)
    } else if param_name == CL_DEVICE_NAME {
        cl_prop(dev.screen().name())
    } else if param_name == CL_DEVICE_NATIVE_VECTOR_WIDTH_CHAR {
        cl_prop::<cl_uint>(1)
    } else if param_name == CL_DEVICE_NATIVE_VECTOR_WIDTH_DOUBLE {
        cl_prop::<cl_uint>(0)
    } else if param_name == CL_DEVICE_NATIVE_VECTOR_WIDTH_FLOAT {
        cl_prop::<cl_uint>(1)
    } else if param_name == CL_DEVICE_NATIVE_VECTOR_WIDTH_HALF {
        cl_prop::<cl_uint>(0)
    } else if param_name == CL_DEVICE_NATIVE_VECTOR_WIDTH_INT {
        cl_prop::<cl_uint>(1)
    } else if param_name == CL_DEVICE_NATIVE_VECTOR_WIDTH_LONG {
        cl_prop::<cl_uint>(1)
    } else if param_name == CL_DEVICE_NATIVE_VECTOR_WIDTH_SHORT {
        cl_prop::<cl_uint>(1)
    } else if param_name == CL_DEVICE_NON_UNIFORM_WORK_GROUP_SUPPORT {
        cl_prop::<bool>(false)
    } else if param_name == CL_DEVICE_NUMERIC_VERSION {
        cl_prop::<cl_version>(dev.cl_version.code())
    } else if param_name == CL_DEVICE_PARENT_DEVICE {
        cl_prop::<cl_device_id>(0)
    } else if param_name == CL_DEVICE_PARTITION_AFFINITY_DOMAIN {
        cl_prop::<cl_device_affinity_domain>(0)
    } else if param_name == CL_DEVICE_PARTITION_MAX_SUB_DEVICES {
        cl_prop::<cl_uint>(0)
    } else if param_name == CL_DEVICE_PIPE_MAX_ACTIVE_RESERVATIONS {
        cl_prop::<cl_uint>(0)
    } else if param_name == CL_DEVICE_PIPE_MAX_PACKET_SIZE {
        cl_prop::<cl_uint>(0)
    } else if param_name == CL_DEVICE_PIPE_SUPPORT {
        cl_prop::<bool>(false)
    } else if param_name == CL_DEVICE_PLATFORM {
        cl_prop::<cl_platform_id>(get_platform())
    } else if param_name == CL_DEVICE_PREFERRED_GLOBAL_ATOMIC_ALIGNMENT {
        cl_prop::<cl_uint>(0)
    } else if param_name == CL_DEVICE_PREFERRED_INTEROP_USER_SYNC {
        cl_prop::<bool>(true)
    } else if param_name == CL_DEVICE_PREFERRED_LOCAL_ATOMIC_ALIGNMENT {
        cl_prop::<cl_uint>(0)
    } else if param_name == CL_DEVICE_PREFERRED_PLATFORM_ATOMIC_ALIGNMENT {
        cl_prop::<cl_uint>(0)
    } else if param_name == CL_DEVICE_PREFERRED_VECTOR_WIDTH_CHAR {
        cl_prop::<cl_uint>(1)
    } else if param_name == CL_DEVICE_PREFERRED_VECTOR_WIDTH_DOUBLE {
        cl_prop::<cl_uint>(0)
    } else if param_name == CL_DEVICE_PREFERRED_VECTOR_WIDTH_FLOAT {
        cl_prop::<cl_uint>(1)
    } else if param_name == CL_DEVICE_PREFERRED_VECTOR_WIDTH_HALF {
        cl_prop::<cl_uint>(0)
    } else if param_name == CL_DEVICE_PREFERRED_VECTOR_WIDTH_INT {
        cl_prop::<cl_uint>(1)
    } else if param_name == CL_DEVICE_PREFERRED_VECTOR_WIDTH_LONG {
        cl_prop::<cl_uint>(1)
    } else if param_name == CL_DEVICE_PREFERRED_VECTOR_WIDTH_SHORT {
        cl_prop::<cl_uint>(1)
    } else if param_name == CL_DEVICE_PREFERRED_WORK_GROUP_SIZE_MULTIPLE {
        cl_prop::<usize>(1)
    } else if param_name == CL_DEVICE_PRINTF_BUFFER_SIZE {
        cl_prop::<usize>(0)
    } else if param_name == CL_DEVICE_PROFILING_TIMER_RESOLUTION {
        cl_prop::<usize>(0)
    } else if param_name == CL_DEVICE_OPENCL_C_FEATURES {
        empty_name_version_bytes()
    } else if param_name == CL_DEVICE_OPENCL_C_VERSION {
        cl_prop::<String>(dev.clc_version.version_string())
    } else if param_name == CL_DEVICE_OPENCL_C_ALL_VERSIONS {
        dev.clc_versions.cl_vec()
    } else if param_name == CL_DEVICE_PROFILE {
        cl_prop(
            if dev.embedded {
                "EMBEDDED_PROFILE"
            } else {
                "FULL_PROFILE"
            },
        )
    } else if param_name == CL_DEVICE_QUEUE_ON_DEVICE_MAX_SIZE {
        cl_prop::<cl_uint>(0)
    } else if param_name == CL_DEVICE_QUEUE_ON_DEVICE_PREFERRED_SIZE {
        cl_prop::<cl_uint>(0)
    } else if param_name == CL_DEVICE_QUEUE_ON_DEVICE_PROPERTIES {
        cl_prop::<cl_command_queue_properties>(0)
    } else if param_name == CL_DEVICE_QUEUE_PROPERTIES {
        cl_prop::<cl_command_queue_properties>(
            CL_QUEUE_PROFILING_ENABLE as cl_command_queue_properties,
        )
    } else if param_name == CL_DEVICE_REFERENCE_COUNT {
        cl_prop::<cl_uint>(1)
    } else if param_name == CL_DEVICE_SINGLE_FP_CONFIG {
        cl_prop::<cl_device_fp_config>(
            (CL_FP_ROUND_TO_ZERO | CL_FP_ROUND_TO_NEAREST) as cl_device_fp_config,
        )
    } else if param_name == CL_DEVICE_SVM_CAPABILITIES {
        cl_prop::<cl_device_svm_capabilities>(0)
    } else if param_name == CL_DEVICE_TYPE {
        cl_prop::<cl_device_type>(dev.device_type())
    } else if param_name == CL_DEVICE_VENDOR {
        cl_prop(dev.screen().device_vendor())
    } else if param_name == CL_DEVICE_VENDOR_ID {
        cl_prop::<cl_uint>(dev.vendor_id())
    } else if param_name == CL_DEVICE_VERSION {
        let mut vs = String::from_str("OpenCL ");
        let ver = dev.cl_version.version_string();
        vs.append(ver.as_str());
        cl_prop::<String>(vs)
    } else if param_name == CL_DRIVER_VERSION {
        cl_prop("0.1")
    } else if param_name == CL_DEVICE_WORK_GROUP_COLLECTIVE_FUNCTIONS_SUPPORT {
        cl_prop::<bool>(false)
    } else {
        return None;
    };
    Some(d)
}

/// The encoding of an empty versioned-name list: nothing.
fn empty_name_version_bytes() -> (r: Vec<u8>)
    ensures
        r@ == Seq::<u8>::empty(),
{
    let v: Vec<cl_name_version> = Vec::new();
    let r = v.cl_vec();
    proof {
        assert(r@ =~= Seq::<u8>::empty());
    }
    r
}

/// Every recognized device query on a discovered device reports at
/// least one byte, so a size-only query always reports a positive
/// size — except the three version-record lists that this layer
/// reports empty, and the work-item size list of a screen that
/// reports no block sizes.
pub proof fn lemma_device_info_size_positive(dev: Device, param_name: cl_device_info)
    requires
        param_name != CL_DEVICE_BUILT_IN_KERNELS_WITH_VERSION,
        param_name != CL_DEVICE_ILS_WITH_VERSION,
        param_name != CL_DEVICE_OPENCL_C_FEATURES,
        dev.extensions@.len() > 0,
        dev.clc_versions@.len() > 0,
        dev.screen.screen.max_block_size@.len() > 0,
    ensures
        spec_device_info_bytes(dev, param_name) matches Some(d) ==> d.len() > 0,
{
    if param_name == CL_DEVICE_EXTENSIONS_WITH_VERSION {
        crate::util::lemma_concat_len_ge_last(dev.extensions@);
        assert(dev.extensions@.last().cl_vec_spec().len() == 68);
    }
    if param_name == CL_DEVICE_OPENCL_C_ALL_VERSIONS {
        crate::util::lemma_concat_len_ge_last(dev.clc_versions@);
        assert(dev.clc_versions@.last().cl_vec_spec().len() == 68);
    }
    if param_name == CL_DEVICE_MAX_WORK_ITEM_SIZES {
        crate::util::lemma_concat_len_ge_last(spec_max_block_sizes(dev.screen));
        assert(spec_max_block_sizes(dev.screen).last().cl_vec_spec().len() == 8);
    }
}

/// The device query of the two-phase protocol: validate the handle,
/// resolve the parameter, check the declared buffer capacity, then
/// report the size and the bytes exactly where the caller supplied a
/// receiver.
pub fn get_device_info(
    icd: &Icd,
    device: cl_device_id,
    param_name: cl_device_info,
    param_value_size: usize,
    param_value: bool,
    param_value_size_ret: bool,
) -> (r: Result<(Option<Vec<u8>>, Option<usize>), cl_int>)
    requires
        spec_image_3d_param(param_name) && spec_device_valid(*icd, device)
            ==> spec_image_3d_shiftable(icd.devices@[device - 1].dev.screen),
    ensures
        !spec_device_valid(*icd, device) ==> r == Err::<
            (Option<Vec<u8>>, Option<usize>),
            cl_int,
        >(CL_INVALID_DEVICE),
        spec_device_valid(*icd, device) ==> ({
            match spec_device_info_bytes(icd.devices@[device - 1].dev, param_name) {
                None => r == Err::<(Option<Vec<u8>>, Option<usize>), cl_int>(CL_INVALID_VALUE),
                Some(d) => if param_value && param_value_size < d.len() {
                    r == Err::<(Option<Vec<u8>>, Option<usize>), cl_int>(CL_INVALID_VALUE)
                } else {
                    r matches Ok((value, size_ret)) && (param_value ==> (value matches Some(v)
                        && v@ == d)) && (!param_value ==> value is None) && size_ret == (
                    if param_value_size_ret {
                        Some(d.len() as usize)
                    } else {
                        None
                    })
                },
            }
        }),
{
    check_device(icd, device)?;
    let dev = &icd.devices[device - 1].dev;
    let d = match device_info_bytes(dev, param_name) {
        None => {
            return Err(CL_INVALID_VALUE);
        },
        Some(d) => d,
    };
    cl_info_reply(d, param_value_size, param_value, param_value_size_ret)
}

} // verus!
