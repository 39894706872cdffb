use rusticl::cl::CL_DEVICE_TYPE_ALL;
use rusticl::cl::CL_DEVICE_TYPE_CPU;
use rusticl::cl::CL_INVALID_DEVICE_TYPE;
use rusticl::util::CLProp;
use rusticl::util::check_cl_bool;
use rusticl::util::check_cl_device_type;
use rusticl::util::cl_prop;
use rusticl::util::str_as_nul_vec;
use rusticl::version::CLVersion;
use rusticl::version::mk_cl_version;
use rusticl::version::mk_cl_version_ext;

#[test]
fn test_nul_string() {
    let r = str_as_nul_vec("d");
    assert!(r.is_ok());
    let s = r.unwrap();
    assert_eq!(s[0], 'd' as u8);
    assert_eq!(s[1], '\0' as u8);
}

#[test]
fn test_nul_string_interior_nul_rejected() {
    let r = str_as_nul_vec("a\0b");
    assert!(r.is_err());
}

#[test]
fn test_u32_encoding_is_little_endian() {
    assert_eq!(cl_prop::<u32>(0x01020304), vec![4, 3, 2, 1]);
}

#[test]
fn test_u64_encoding_is_little_endian() {
    assert_eq!(cl_prop::<u64>(0x0102030405060708), vec![8, 7, 6, 5, 4, 3, 2, 1]);
}

#[test]
fn test_bool_encodes_as_four_byte_sentinel() {
    assert_eq!(cl_prop::<bool>(true), vec![1, 0, 0, 0]);
    assert_eq!(cl_prop::<bool>(false), vec![0, 0, 0, 0]);
}

#[test]
fn test_string_encoding_has_one_terminator() {
    assert_eq!(cl_prop::<String>(String::from("ab")), vec![97, 98, 0]);
    assert_eq!(cl_prop::<&str>("ab"), vec![97, 98, 0]);
}

#[test]
fn test_str_with_interior_nul_degrades_to_single_nul() {
    assert_eq!(cl_prop::<&str>("a\0b"), vec![0]);
}

#[test]
fn test_usize_encodes_as_eight_bytes() {
    assert_eq!(cl_prop::<usize>(2), vec![2, 0, 0, 0, 0, 0, 0, 0]);
}

#[test]
fn test_vec_encoding_concatenates() {
    let v: Vec<u32> = vec![1, 2];
    assert_eq!(v.cl_vec(), vec![1, 0, 0, 0, 2, 0, 0, 0]);
}

#[test]
fn test_name_version_record_width() {
    let nv = mk_cl_version_ext(1, 2, 0, "OpenCL C 1.2");
    let bytes = nv.cl_vec();
    assert_eq!(bytes.len(), 68);
    assert_eq!(&bytes[4..16], "OpenCL C 1.2".as_bytes());
    assert!(bytes[16..].iter().all(|b| *b == 0));
}

#[test]
fn test_mk_cl_version_packs_fields() {
    assert_eq!(mk_cl_version(1, 0, 0), 0x400000);
    assert_eq!(mk_cl_version(1, 2, 0), 0x402000);
    assert_eq!(mk_cl_version(3, 0, 0), 0xC00000);
    assert_eq!(CLVersion::Cl3_0.code(), 0xC00000);
    assert_eq!(CLVersion::from_code(0x401000), Some(CLVersion::Cl1_1));
    assert_eq!(CLVersion::from_code(0x800000), None);
}

#[test]
fn test_check_cl_device_type_accepts_exact_values() {
    assert!(check_cl_device_type(CL_DEVICE_TYPE_CPU as u64).is_ok());
    assert!(check_cl_device_type(CL_DEVICE_TYPE_ALL as u64).is_ok());
    // a combined mask is not one of the defined values
    assert_eq!(check_cl_device_type(3), Err(CL_INVALID_DEVICE_TYPE));
    assert_eq!(check_cl_device_type(1 << 40), Err(CL_INVALID_DEVICE_TYPE));
}

#[test]
fn test_check_cl_bool_accepts_canonical_booleans() {
    assert!(check_cl_bool(0).is_some());
    assert!(check_cl_bool(1).is_some());
    assert!(check_cl_bool(2).is_none());
    assert!(check_cl_bool(-1).is_none());
}
