use rusticl::cl::CL_INVALID_PLATFORM;
use rusticl::cl::CL_INVALID_VALUE;
use rusticl::cl::CL_PLATFORM_EXTENSIONS;
use rusticl::cl::CL_PLATFORM_NAME;
use rusticl::cl::CL_PLATFORM_NUMERIC_VERSION;
use rusticl::cl::CL_PLATFORM_VERSION;
use rusticl::icd::ExtensionFn;
use rusticl::icd::get_extension_function;
use rusticl::platform::check_platform;
use rusticl::platform::get_platform;
use rusticl::platform::get_platform_ids;
use rusticl::platform::get_platform_info;

#[test]
fn test_get_platform_info() {
    let r = get_platform_info(0, CL_PLATFORM_EXTENSIONS, 0, false, true);
    assert!(r.is_ok());
    let (_, s) = r.unwrap();
    let s = s.unwrap();
    assert!(s > 0);

    let r = get_platform_info(0, CL_PLATFORM_EXTENSIONS, s, true, true);
    assert!(r.is_ok());
    let (v, s2) = r.unwrap();
    let v = v.unwrap();
    assert_eq!(s2.unwrap(), s);
    assert_eq!(s, v.len());
    assert!(!v[0..s - 2].contains(&0));
    assert_eq!(v[s - 1], 0);
}

#[test]
fn test_platform_info_values() {
    let (v, _) = get_platform_info(0, CL_PLATFORM_NAME, 8, true, false).unwrap();
    assert_eq!(v.unwrap(), b"rusticl\0".to_vec());
    let (v, _) = get_platform_info(0, CL_PLATFORM_VERSION, 64, true, false).unwrap();
    assert_eq!(v.unwrap(), b"OpenCL 3.0\0".to_vec());
    let (v, _) = get_platform_info(0, CL_PLATFORM_NUMERIC_VERSION, 4, true, false).unwrap();
    assert_eq!(v.unwrap(), vec![0, 0, 0xC0, 0]);
}

#[test]
fn test_platform_info_small_buffer_rejected() {
    // "cl_khr_icd" needs eleven bytes with its terminator; a smaller
    // buffer fails whether or not a size receiver is supplied
    let r = get_platform_info(0, CL_PLATFORM_EXTENSIONS, 10, true, true);
    assert_eq!(r.unwrap_err(), CL_INVALID_VALUE);
    let r = get_platform_info(0, CL_PLATFORM_EXTENSIONS, 10, true, false);
    assert_eq!(r.unwrap_err(), CL_INVALID_VALUE);
}

#[test]
fn test_platform_info_unknown_param_rejected() {
    let r = get_platform_info(0, 0x4242, 0, false, true);
    assert_eq!(r.unwrap_err(), CL_INVALID_VALUE);
}

#[test]
fn test_platform_info_bad_handle_rejected() {
    let r = get_platform_info(7, CL_PLATFORM_NAME, 0, false, true);
    assert_eq!(r.unwrap_err(), CL_INVALID_PLATFORM);
}

#[test]
fn test_check_platform_accepts_null_and_singleton() {
    assert!(check_platform(0).is_ok());
    assert!(check_platform(get_platform()).is_ok());
    assert_eq!(check_platform(get_platform() + 1), Err(CL_INVALID_PLATFORM));
}

#[test]
fn test_get_platform_ids() {
    // no room for handles although handles were asked for
    assert_eq!(get_platform_ids(0, true, true), Err(CL_INVALID_VALUE));
    // neither receiver supplied
    assert_eq!(get_platform_ids(4, false, false), Err(CL_INVALID_VALUE));
    let (ids, count) = get_platform_ids(4, true, true).unwrap();
    assert_eq!(ids.unwrap(), vec![get_platform()]);
    assert_eq!(count.unwrap(), 1);
    let (ids, count) = get_platform_ids(0, false, true).unwrap();
    assert!(ids.is_none());
    assert_eq!(count.unwrap(), 1);
}

#[test]
fn test_extension_function_lookup() {
    assert_eq!(get_extension_function("clGetPlatformInfo"), Some(ExtensionFn::GetPlatformInfo));
    assert_eq!(
        get_extension_function("clIcdGetPlatformIDsKHR"),
        Some(ExtensionFn::IcdGetPlatformIdsKhr)
    );
    assert_eq!(get_extension_function("clUnknownSymbol"), None);
}
