//! Types and constants of the external API surface: status codes,
//! parameter names, device-type bits and handle aliases. The numeric
//! values are a public contract and match the external specification.
#![allow(non_camel_case_types)]

use vstd::prelude::*;

verus! {

pub type cl_int = i32;

pub type cl_uint = u32;

pub type cl_ulong = u64;

pub type cl_char = i8;

pub type cl_bool = u32;

pub type cl_version = u32;

pub type cl_bitfield = u64;

pub type cl_device_type = u64;

pub type cl_device_info = u32;

pub type cl_platform_info = u32;

pub type cl_context_info = u32;

pub type cl_context_properties = isize;

pub type cl_device_fp_config = u64;

pub type cl_device_mem_cache_type = u32;

pub type cl_device_local_mem_type = u32;

pub type cl_device_exec_capabilities = u64;

pub type cl_device_svm_capabilities = u64;

pub type cl_device_affinity_domain = u64;

pub type cl_device_atomic_capabilities = u64;

pub type cl_device_device_enqueue_capabilities = u64;

pub type cl_command_queue_properties = u64;

/// Opaque handles are registry identifiers in this model: zero stands
/// for a null handle, everything else for a registry slot.
pub type cl_platform_id = usize;

pub type cl_device_id = usize;

pub type cl_context = usize;

// Status codes.
pub const CL_SUCCESS: cl_int = 0;

pub const CL_DEVICE_NOT_FOUND: cl_int = -1;

pub const CL_OUT_OF_HOST_MEMORY: cl_int = -6;

pub const CL_INVALID_VALUE: cl_int = -30;

pub const CL_INVALID_DEVICE_TYPE: cl_int = -31;

pub const CL_INVALID_PLATFORM: cl_int = -32;

pub const CL_INVALID_DEVICE: cl_int = -33;

pub const CL_INVALID_CONTEXT: cl_int = -34;

pub const CL_INVALID_PROPERTY: cl_int = -64;

// Canonical booleans.
pub const CL_FALSE: cl_bool = 0;

pub const CL_TRUE: cl_bool = 1;

// Device type bits.
pub const CL_DEVICE_TYPE_DEFAULT: cl_uint = 1;

pub const CL_DEVICE_TYPE_CPU: cl_uint = 2;

pub const CL_DEVICE_TYPE_GPU: cl_uint = 4;

pub const CL_DEVICE_TYPE_ACCELERATOR: cl_uint = 8;

pub const CL_DEVICE_TYPE_CUSTOM: cl_uint = 16;

pub const CL_DEVICE_TYPE_ALL: cl_uint = 0xFFFFFFFF;

// Platform queries.
pub const CL_PLATFORM_PROFILE: cl_platform_info = 0x0900;

pub const CL_PLATFORM_VERSION: cl_platform_info = 0x0901;

pub const CL_PLATFORM_NAME: cl_platform_info = 0x0902;

pub const CL_PLATFORM_VENDOR: cl_platform_info = 0x0903;

pub const CL_PLATFORM_EXTENSIONS: cl_platform_info = 0x0904;

pub const CL_PLATFORM_HOST_TIMER_RESOLUTION: cl_platform_info = 0x0905;

pub const CL_PLATFORM_NUMERIC_VERSION: cl_platform_info = 0x0906;

pub const CL_PLATFORM_EXTENSIONS_WITH_VERSION: cl_platform_info = 0x0907;

pub const CL_PLATFORM_ICD_SUFFIX_KHR: cl_platform_info = 0x0920;

// Device queries.
pub const CL_DEVICE_TYPE: cl_device_info = 0x1000;

pub const CL_DEVICE_VENDOR_ID: cl_device_info = 0x1001;

pub const CL_DEVICE_MAX_COMPUTE_UNITS: cl_device_info = 0x1002;

pub const CL_DEVICE_MAX_WORK_ITEM_DIMENSIONS: cl_device_info = 0x1003;

pub const CL_DEVICE_MAX_WORK_GROUP_SIZE: cl_device_info = 0x1004;

pub const CL_DEVICE_MAX_WORK_ITEM_SIZES: cl_device_info = 0x1005;

pub const CL_DEVICE_PREFERRED_VECTOR_WIDTH_CHAR: cl_device_info = 0x1006;

pub const CL_DEVICE_PREFERRED_VECTOR_WIDTH_SHORT: cl_device_info = 0x1007;

pub const CL_DEVICE_PREFERRED_VECTOR_WIDTH_INT: cl_device_info = 0x1008;

pub const CL_DEVICE_PREFERRED_VECTOR_WIDTH_LONG: cl_device_info = 0x1009;

pub const CL_DEVICE_PREFERRED_VECTOR_WIDTH_FLOAT: cl_device_info = 0x100A;

pub const CL_DEVICE_PREFERRED_VECTOR_WIDTH_DOUBLE: cl_device_info = 0x100B;

pub const CL_DEVICE_MAX_CLOCK_FREQUENCY: cl_device_info = 0x100C;

pub const CL_DEVICE_ADDRESS_BITS: cl_device_info = 0x100D;

pub const CL_DEVICE_MAX_READ_IMAGE_ARGS: cl_device_info = 0x100E;

pub const CL_DEVICE_MAX_WRITE_IMAGE_ARGS: cl_device_info = 0x100F;

pub const CL_DEVICE_MAX_MEM_ALLOC_SIZE: cl_device_info = 0x1010;

pub const CL_DEVICE_IMAGE2D_MAX_WIDTH: cl_device_info = 0x1011;

pub const CL_DEVICE_IMAGE2D_MAX_HEIGHT: cl_device_info = 0x1012;

pub const CL_DEVICE_IMAGE3D_MAX_WIDTH: cl_device_info = 0x1013;

pub const CL_DEVICE_IMAGE3D_MAX_HEIGHT: cl_device_info = 0x1014;

pub const CL_DEVICE_IMAGE3D_MAX_DEPTH: cl_device_info = 0x1015;

pub const CL_DEVICE_IMAGE_SUPPORT: cl_device_info = 0x1016;

pub const CL_DEVICE_MAX_PARAMETER_SIZE: cl_device_info = 0x1017;

pub const CL_DEVICE_MAX_SAMPLERS: cl_device_info = 0x1018;

pub const CL_DEVICE_MEM_BASE_ADDR_ALIGN: cl_device_info = 0x1019;

pub const CL_DEVICE_MIN_DATA_TYPE_ALIGN_SIZE: cl_device_info = 0x101A;

pub const CL_DEVICE_SINGLE_FP_CONFIG: cl_device_info = 0x101B;

pub const CL_DEVICE_GLOBAL_MEM_CACHE_TYPE: cl_device_info = 0x101C;

pub const CL_DEVICE_GLOBAL_MEM_CACHELINE_SIZE: cl_device_info = 0x101D;

pub const CL_DEVICE_GLOBAL_MEM_CACHE_SIZE: cl_device_info = 0x101E;

pub const CL_DEVICE_GLOBAL_MEM_SIZE: cl_device_info = 0x101F;

pub const CL_DEVICE_MAX_CONSTANT_BUFFER_SIZE: cl_device_info = 0x1020;

pub const CL_DEVICE_MAX_CONSTANT_ARGS: cl_device_info = 0x1021;

pub const CL_DEVICE_LOCAL_MEM_TYPE: cl_device_info = 0x1022;

pub const CL_DEVICE_LOCAL_MEM_SIZE: cl_device_info = 0x1023;

pub const CL_DEVICE_ERROR_CORRECTION_SUPPORT: cl_device_info = 0x1024;

pub const CL_DEVICE_PROFILING_TIMER_RESOLUTION: cl_device_info = 0x1025;

pub const CL_DEVICE_ENDIAN_LITTLE: cl_device_info = 0x1026;

pub const CL_DEVICE_AVAILABLE: cl_device_info = 0x1027;

pub const CL_DEVICE_COMPILER_AVAILABLE: cl_device_info = 0x1028;

pub const CL_DEVICE_EXECUTION_CAPABILITIES: cl_device_info = 0x1029;

pub const CL_DEVICE_QUEUE_PROPERTIES: cl_device_info = 0x102A;

pub const CL_DEVICE_NAME: cl_device_info = 0x102B;

pub const CL_DEVICE_VENDOR: cl_device_info = 0x102C;

pub const CL_DRIVER_VERSION: cl_device_info = 0x102D;

pub const CL_DEVICE_PROFILE: cl_device_info = 0x102E;

pub const CL_DEVICE_VERSION: cl_device_info = 0x102F;

pub const CL_DEVICE_EXTENSIONS: cl_device_info = 0x1030;

pub const CL_DEVICE_PLATFORM: cl_device_info = 0x1031;

pub const CL_DEVICE_DOUBLE_FP_CONFIG: cl_device_info = 0x1032;

pub const CL_DEVICE_PREFERRED_VECTOR_WIDTH_HALF: cl_device_info = 0x1034;

pub const CL_DEVICE_HOST_UNIFIED_MEMORY: cl_device_info = 0x1035;

pub const CL_DEVICE_NATIVE_VECTOR_WIDTH_CHAR: cl_device_info = 0x1036;

pub const CL_DEVICE_NATIVE_VECTOR_WIDTH_SHORT: cl_device_info = 0x1037;

pub const CL_DEVICE_NATIVE_VECTOR_WIDTH_INT: cl_device_info = 0x1038;

pub const CL_DEVICE_NATIVE_VECTOR_WIDTH_LONG: cl_device_info = 0x1039;

pub const CL_DEVICE_NATIVE_VECTOR_WIDTH_FLOAT: cl_device_info = 0x103A;

pub const CL_DEVICE_NATIVE_VECTOR_WIDTH_DOUBLE: cl_device_info = 0x103B;

pub const CL_DEVICE_NATIVE_VECTOR_WIDTH_HALF: cl_device_info = 0x103C;

pub const CL_DEVICE_OPENCL_C_VERSION: cl_device_info = 0x103D;

pub const CL_DEVICE_LINKER_AVAILABLE: cl_device_info = 0x103E;

pub const CL_DEVICE_BUILT_IN_KERNELS: cl_device_info = 0x103F;

pub const CL_DEVICE_IMAGE_MAX_BUFFER_SIZE: cl_device_info = 0x1040;

pub const CL_DEVICE_IMAGE_MAX_ARRAY_SIZE: cl_device_info = 0x1041;

pub const CL_DEVICE_PARENT_DEVICE: cl_device_info = 0x1042;

pub const CL_DEVICE_PARTITION_MAX_SUB_DEVICES: cl_device_info = 0x1043;

pub const CL_DEVICE_PARTITION_AFFINITY_DOMAIN: cl_device_info = 0x1045;

pub const CL_DEVICE_REFERENCE_COUNT: cl_device_info = 0x1047;

pub const CL_DEVICE_PREFERRED_INTEROP_USER_SYNC: cl_device_info = 0x1048;

pub const CL_DEVICE_PRINTF_BUFFER_SIZE: cl_device_info = 0x1049;

pub const CL_DEVICE_IMAGE_PITCH_ALIGNMENT: cl_device_info = 0x104A;

pub const CL_DEVICE_IMAGE_BASE_ADDRESS_ALIGNMENT: cl_device_info = 0x104B;

pub const CL_DEVICE_MAX_READ_WRITE_IMAGE_ARGS: cl_device_info = 0x104C;

pub const CL_DEVICE_MAX_GLOBAL_VARIABLE_SIZE: cl_device_info = 0x104D;

pub const CL_DEVICE_QUEUE_ON_DEVICE_PROPERTIES: cl_device_info = 0x104E;

pub const CL_DEVICE_QUEUE_ON_DEVICE_PREFERRED_SIZE: cl_device_info = 0x104F;

pub const CL_DEVICE_QUEUE_ON_DEVICE_MAX_SIZE: cl_device_info = 0x1050;

pub const CL_DEVICE_MAX_ON_DEVICE_QUEUES: cl_device_info = 0x1051;

pub const CL_DEVICE_MAX_ON_DEVICE_EVENTS: cl_device_info = 0x1052;

pub const CL_DEVICE_SVM_CAPABILITIES: cl_device_info = 0x1053;

pub const CL_DEVICE_GLOBAL_VARIABLE_PREFERRED_TOTAL_SIZE: cl_device_info = 0x1054;

pub const CL_DEVICE_MAX_PIPE_ARGS: cl_device_info = 0x1055;

pub const CL_DEVICE_PIPE_MAX_ACTIVE_RESERVATIONS: cl_device_info = 0x1056;

pub const CL_DEVICE_PIPE_MAX_PACKET_SIZE: cl_device_info = 0x1057;

pub const CL_DEVICE_PREFERRED_PLATFORM_ATOMIC_ALIGNMENT: cl_device_info = 0x1058;

pub const CL_DEVICE_PREFERRED_GLOBAL_ATOMIC_ALIGNMENT: cl_device_info = 0x1059;

pub const CL_DEVICE_PREFERRED_LOCAL_ATOMIC_ALIGNMENT: cl_device_info = 0x105A;

pub const CL_DEVICE_IL_VERSION: cl_device_info = 0x105B;

pub const CL_DEVICE_MAX_NUM_SUB_GROUPS: cl_device_info = 0x105C;

pub const CL_DEVICE_SUB_GROUP_INDEPENDENT_FORWARD_PROGRESS: cl_device_info = 0x105D;

pub const CL_DEVICE_NUMERIC_VERSION: cl_device_info = 0x105E;

pub const CL_DEVICE_EXTENSIONS_WITH_VERSION: cl_device_info = 0x1060;

pub const CL_DEVICE_ILS_WITH_VERSION: cl_device_info = 0x1061;

pub const CL_DEVICE_BUILT_IN_KERNELS_WITH_VERSION: cl_device_info = 0x1062;

pub const CL_DEVICE_ATOMIC_MEMORY_CAPABILITIES: cl_device_info = 0x1063;

pub const CL_DEVICE_ATOMIC_FENCE_CAPABILITIES: cl_device_info = 0x1064;

pub const CL_DEVICE_NON_UNIFORM_WORK_GROUP_SUPPORT: cl_device_info = 0x1065;

pub const CL_DEVICE_OPENCL_C_ALL_VERSIONS: cl_device_info = 0x1066;

pub const CL_DEVICE_PREFERRED_WORK_GROUP_SIZE_MULTIPLE: cl_device_info = 0x1067;

pub const CL_DEVICE_WORK_GROUP_COLLECTIVE_FUNCTIONS_SUPPORT: cl_device_info = 0x1068;

pub const CL_DEVICE_GENERIC_ADDRESS_SPACE_SUPPORT: cl_device_info = 0x1069;

pub const CL_DEVICE_OPENCL_C_FEATURES: cl_device_info = 0x106F;

pub const CL_DEVICE_DEVICE_ENQUEUE_CAPABILITIES: cl_device_info = 0x1070;

pub const CL_DEVICE_PIPE_SUPPORT: cl_device_info = 0x1071;

pub const CL_DEVICE_LATEST_CONFORMANCE_VERSION_PASSED: cl_device_info = 0x1072;

// Context queries and properties.
pub const CL_CONTEXT_REFERENCE_COUNT: cl_context_info = 0x1080;

pub const CL_CONTEXT_DEVICES: cl_context_info = 0x1081;

pub const CL_CONTEXT_PROPERTIES: cl_context_info = 0x1082;

pub const CL_CONTEXT_NUM_DEVICES: cl_context_info = 0x1083;

pub const CL_CONTEXT_PLATFORM: cl_uint = 0x1084;

pub const CL_CONTEXT_INTEROP_USER_SYNC: cl_uint = 0x1085;

// Miscellaneous enumerations used by device queries.
pub const CL_NONE: cl_device_mem_cache_type = 0;

pub const CL_GLOBAL: cl_device_local_mem_type = 2;

pub const CL_EXEC_KERNEL: cl_uint = 1;

pub const CL_QUEUE_PROFILING_ENABLE: cl_uint = 2;

pub const CL_FP_ROUND_TO_NEAREST: cl_uint = 4;

pub const CL_FP_ROUND_TO_ZERO: cl_uint = 8;

} // verus!
