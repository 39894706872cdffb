use rusticl::cl::CL_DEVICE_ADDRESS_BITS;
use rusticl::cl::CL_DEVICE_EXTENSIONS;
use rusticl::cl::CL_DEVICE_IMAGE3D_MAX_WIDTH;
use rusticl::cl::CL_DEVICE_MAX_WORK_ITEM_SIZES;
use rusticl::cl::CL_DEVICE_NAME;
use rusticl::cl::CL_DEVICE_NOT_FOUND;
use rusticl::cl::CL_DEVICE_NUMERIC_VERSION;
use rusticl::cl::CL_DEVICE_PROFILE;
use rusticl::cl::CL_DEVICE_TYPE;
use rusticl::cl::CL_DEVICE_TYPE_ACCELERATOR;
use rusticl::cl::CL_DEVICE_TYPE_ALL;
use rusticl::cl::CL_DEVICE_TYPE_CPU;
use rusticl::cl::CL_DEVICE_TYPE_CUSTOM;
use rusticl::cl::CL_DEVICE_TYPE_DEFAULT;
use rusticl::cl::CL_DEVICE_TYPE_GPU;
use rusticl::cl::CL_DEVICE_VERSION;
use rusticl::cl::CL_INVALID_DEVICE;
use rusticl::cl::CL_INVALID_DEVICE_TYPE;
use rusticl::cl::CL_INVALID_PLATFORM;
use rusticl::cl::CL_INVALID_VALUE;
use rusticl::device::Device;
use rusticl::device_info::get_device_info;
use rusticl::icd::Icd;
use rusticl::icd::check_device;
use rusticl::icd::get_device_ids;
use rusticl::icd::get_devs_for_type;
use rusticl::screen::PipeLoaderDevice;
use rusticl::screen::PipeScreen;
use rusticl::screen::ScreenDesc;
use rusticl::screen::load_screens;
use rusticl::screen::pipe_loader_device_type;
use rusticl::version::CLVersion;

/// A capability stub with every limit at a comfortable full-profile
/// tier.
fn full_screen() -> ScreenDesc {
    ScreenDesc {
        has_destroy: true,
        has_get_compute_param: true,
        has_get_name: true,
        has_get_param: true,
        has_get_shader_param: true,
        name: String::from("fast0"),
        device_vendor: String::from("acme"),
        compute: 1,
        max_texture_2d_size: 16384,
        max_texture_3d_levels: 12,
        max_texture_array_layers: 2048,
        max_texture_buffer_size: 65536,
        endianness: 0,
        vendor_id: 0x1002,
        uma: 0,
        // the serialized compute representation is bit three
        supported_irs: 0b1000,
        max_const_buffer_size: 65536,
        max_sampler_views: 128,
        max_shader_images: 64,
        max_texture_samplers: 16,
        address_bits: 64,
        max_clock_frequency: 1000,
        max_compute_units: 32,
        max_global_size: 8 << 30,
        max_local_size: 32768,
        max_mem_alloc_size: 1 << 30,
        grid_dimension: 3,
        max_threads_per_block: 1024,
        max_input_size: 1024,
        max_block_size: vec![1024, 1024, 64],
    }
}

fn icd_of(kind: pipe_loader_device_type, desc: ScreenDesc) -> Icd {
    let screens = load_screens(vec![(PipeLoaderDevice::new(kind), Some(desc))]);
    Icd::new(screens, None)
}

fn software_icd() -> Icd {
    icd_of(pipe_loader_device_type::PIPE_LOADER_DEVICE_SOFTWARE, full_screen())
}

fn info(icd: &Icd, param: u32) -> Vec<u8> {
    let (v, _) = get_device_info(icd, 1, param, 4096, true, false).unwrap();
    v.unwrap()
}

#[test]
fn test_discovery_builds_one_device() {
    let icd = software_icd();
    assert!(check_device(&icd, 1).is_ok());
    assert_eq!(check_device(&icd, 0), Err(CL_INVALID_DEVICE));
    assert_eq!(check_device(&icd, 2), Err(CL_INVALID_DEVICE));
}

#[test]
fn test_discovery_drops_small_parameter_size() {
    let mut desc = full_screen();
    // below the floor a kernel cannot take the minimum argument count
    desc.max_input_size = 127;
    let icd = icd_of(pipe_loader_device_type::PIPE_LOADER_DEVICE_SOFTWARE, desc);
    assert_eq!(check_device(&icd, 1), Err(CL_INVALID_DEVICE));
}

#[test]
fn test_discovery_drops_screens_without_compute() {
    let mut desc = full_screen();
    desc.compute = 0;
    let icd = icd_of(pipe_loader_device_type::PIPE_LOADER_DEVICE_SOFTWARE, desc);
    assert_eq!(check_device(&icd, 1), Err(CL_INVALID_DEVICE));
}

#[test]
fn test_screen_without_required_callbacks_is_discarded() {
    let mut desc = full_screen();
    desc.has_get_name = false;
    let dev = PipeLoaderDevice::new(pipe_loader_device_type::PIPE_LOADER_DEVICE_SOFTWARE);
    assert_eq!(load_screens(vec![(dev, Some(desc))]).len(), 0);
    assert_eq!(load_screens(vec![(dev, None)]).len(), 0);
    assert_eq!(PipeScreen::new(dev, None).is_none(), true);
}

#[test]
fn test_version_negotiation_without_fp64_caps_below_one_two() {
    // every limit at its highest tier, but the 64-bit float extension
    // is never reported: the negotiated level stays at or below 1.1
    let icd = software_icd();
    let dev = &icd.devices[0].dev;
    assert!(!dev.embedded);
    assert!(!dev.custom);
    assert!(!dev.cl_version.at_least(CLVersion::Cl1_2));
    // the missing atomics extensions pin it all the way down
    assert_eq!(dev.cl_version, CLVersion::Cl1_0);
    assert_eq!(dev.clc_version, CLVersion::Cl1_0);
    assert_eq!(dev.clc_versions.len(), 1);
}

#[test]
fn test_env_override_replaces_negotiated_version() {
    let screens = load_screens(vec![(
        PipeLoaderDevice::new(pipe_loader_device_type::PIPE_LOADER_DEVICE_SOFTWARE),
        Some(full_screen()),
    )]);
    let icd = Icd::new(screens, Some("3.0"));
    assert_eq!(icd.devices[0].dev.cl_version, CLVersion::Cl3_0);
    assert_eq!(icd.devices[0].dev.clc_versions.len(), 4);
}

#[test]
fn test_parse_env_version() {
    assert_eq!(Device::parse_env_version(None), None);
    assert_eq!(Device::parse_env_version(Some("1.0")), Some(CLVersion::Cl1_0));
    assert_eq!(Device::parse_env_version(Some("1.1")), Some(CLVersion::Cl1_1));
    assert_eq!(Device::parse_env_version(Some("3.0")), Some(CLVersion::Cl3_0));
    assert_eq!(Device::parse_env_version(Some("+3.0")), Some(CLVersion::Cl3_0));
    assert_eq!(Device::parse_env_version(Some("2.0")), None);
    assert_eq!(Device::parse_env_version(Some("3.0.0")), None);
    assert_eq!(Device::parse_env_version(Some("3")), None);
    assert_eq!(Device::parse_env_version(Some("a.b")), None);
    assert_eq!(Device::parse_env_version(Some("3.")), None);
    assert_eq!(Device::parse_env_version(Some(".0")), None);
    assert_eq!(Device::parse_env_version(Some("4294967296.0")), None);
}

#[test]
fn test_device_info_values() {
    let icd = software_icd();
    assert_eq!(info(&icd, CL_DEVICE_ADDRESS_BITS), vec![64, 0, 0, 0]);
    assert_eq!(info(&icd, CL_DEVICE_NAME), b"fast0\0".to_vec());
    assert_eq!(info(&icd, CL_DEVICE_VERSION), b"OpenCL 1.0\0".to_vec());
    assert_eq!(info(&icd, CL_DEVICE_PROFILE), b"FULL_PROFILE\0".to_vec());
    assert_eq!(info(&icd, CL_DEVICE_EXTENSIONS), b"cl_khr_byte_addressable_store\0".to_vec());
    // a software device reports the processor type
    assert_eq!(info(&icd, CL_DEVICE_TYPE), vec![2, 0, 0, 0, 0, 0, 0, 0]);
    // twelve levels expand to 2048 texels
    assert_eq!(info(&icd, CL_DEVICE_IMAGE3D_MAX_WIDTH), vec![0, 8, 0, 0, 0, 0, 0, 0]);
    // the packed numeric version of level 1.0
    assert_eq!(info(&icd, CL_DEVICE_NUMERIC_VERSION), vec![0, 0, 0x40, 0]);
    let sizes = info(&icd, CL_DEVICE_MAX_WORK_ITEM_SIZES);
    assert_eq!(sizes.len(), 24);
    assert_eq!(&sizes[0..8], &[0, 4, 0, 0, 0, 0, 0, 0]);
}

#[test]
fn test_device_info_size_query_then_fetch() {
    let icd = software_icd();
    let (v, s) = get_device_info(&icd, 1, CL_DEVICE_NAME, 0, false, true).unwrap();
    assert!(v.is_none());
    let s = s.unwrap();
    assert!(s > 0);
    let (v, s2) = get_device_info(&icd, 1, CL_DEVICE_NAME, s, true, true).unwrap();
    assert_eq!(s2.unwrap(), s);
    assert_eq!(v.unwrap().len(), s);
}

#[test]
fn test_device_info_small_buffer_rejected() {
    let icd = software_icd();
    let r = get_device_info(&icd, 1, CL_DEVICE_NAME, 5, true, true);
    assert_eq!(r.unwrap_err(), CL_INVALID_VALUE);
    let r = get_device_info(&icd, 1, CL_DEVICE_NAME, 5, true, false);
    assert_eq!(r.unwrap_err(), CL_INVALID_VALUE);
}

#[test]
fn test_device_info_bad_inputs() {
    let icd = software_icd();
    assert_eq!(
        get_device_info(&icd, 9, CL_DEVICE_NAME, 0, false, true).unwrap_err(),
        CL_INVALID_DEVICE
    );
    assert_eq!(get_device_info(&icd, 1, 0x4242, 0, false, true).unwrap_err(), CL_INVALID_VALUE);
}

#[test]
fn test_enumeration_is_idempotent() {
    let icd = software_icd();
    let a = get_devs_for_type(&icd, CL_DEVICE_TYPE_CPU as u64);
    let b = get_devs_for_type(&icd, CL_DEVICE_TYPE_CPU as u64);
    assert_eq!(a, b);
    assert_eq!(a, vec![1]);
    let (ids_a, n_a) = get_device_ids(&icd, 0, CL_DEVICE_TYPE_ALL as u64, 8, true, true).unwrap();
    let (ids_b, n_b) = get_device_ids(&icd, 0, CL_DEVICE_TYPE_ALL as u64, 8, true, true).unwrap();
    assert_eq!(ids_a, ids_b);
    assert_eq!(n_a, n_b);
    assert_eq!(ids_a.unwrap(), vec![1]);
}

#[test]
fn test_custom_device_matches_only_custom_filter() {
    let mut desc = full_screen();
    // fewer than three grid dimensions forces the custom
    // classification, whatever the loader kind says
    desc.grid_dimension = 2;
    let icd = icd_of(pipe_loader_device_type::PIPE_LOADER_DEVICE_SOFTWARE, desc);
    assert!(icd.devices[0].dev.custom);
    assert_eq!(get_devs_for_type(&icd, CL_DEVICE_TYPE_CPU as u64), vec![]);
    assert_eq!(get_devs_for_type(&icd, CL_DEVICE_TYPE_GPU as u64), vec![]);
    assert_eq!(get_devs_for_type(&icd, CL_DEVICE_TYPE_DEFAULT as u64), vec![]);
    assert_eq!(get_devs_for_type(&icd, CL_DEVICE_TYPE_ACCELERATOR as u64), vec![]);
    // the all-devices filter is inverted: it matches exactly the
    // devices that are not custom, so not this one
    assert_eq!(get_devs_for_type(&icd, CL_DEVICE_TYPE_ALL as u64), vec![]);
    assert_eq!(get_devs_for_type(&icd, CL_DEVICE_TYPE_CUSTOM as u64), vec![1]);
}

#[test]
fn test_gpu_device_types() {
    let icd = icd_of(pipe_loader_device_type::PIPE_LOADER_DEVICE_PCI, full_screen());
    // a PCI device reports the graphics and default types
    assert_eq!(info(&icd, CL_DEVICE_TYPE), vec![5, 0, 0, 0, 0, 0, 0, 0]);
    assert_eq!(get_devs_for_type(&icd, CL_DEVICE_TYPE_GPU as u64), vec![1]);
    assert_eq!(get_devs_for_type(&icd, CL_DEVICE_TYPE_DEFAULT as u64), vec![1]);
    assert_eq!(get_devs_for_type(&icd, CL_DEVICE_TYPE_CPU as u64), vec![]);
}

#[test]
fn test_get_device_ids_errors_and_truncation() {
    let icd = software_icd();
    assert_eq!(
        get_device_ids(&icd, 9, CL_DEVICE_TYPE_ALL as u64, 1, true, true).unwrap_err(),
        CL_INVALID_PLATFORM
    );
    assert_eq!(
        get_device_ids(&icd, 0, 3, 1, true, true).unwrap_err(),
        CL_INVALID_DEVICE_TYPE
    );
    assert_eq!(
        get_device_ids(&icd, 0, CL_DEVICE_TYPE_ALL as u64, 0, true, true).unwrap_err(),
        CL_INVALID_VALUE
    );
    assert_eq!(
        get_device_ids(&icd, 0, CL_DEVICE_TYPE_ALL as u64, 0, false, false).unwrap_err(),
        CL_INVALID_VALUE
    );
    assert_eq!(
        get_device_ids(&icd, 0, CL_DEVICE_TYPE_ACCELERATOR as u64, 1, true, true).unwrap_err(),
        CL_DEVICE_NOT_FOUND
    );
    // two devices, room for one handle: the count still reports both
    let screens = load_screens(vec![
        (
            PipeLoaderDevice::new(pipe_loader_device_type::PIPE_LOADER_DEVICE_SOFTWARE),
            Some(full_screen()),
        ),
        (
            PipeLoaderDevice::new(pipe_loader_device_type::PIPE_LOADER_DEVICE_SOFTWARE),
            Some(full_screen()),
        ),
    ]);
    let icd = Icd::new(screens, None);
    let (ids, count) = get_device_ids(&icd, 0, CL_DEVICE_TYPE_ALL as u64, 1, true, true).unwrap();
    assert_eq!(ids.unwrap(), vec![1]);
    assert_eq!(count.unwrap(), 2);
}

#[test]
fn test_device_info_empty_lists_report_zero_size() {
    // the version-record lists this layer reports empty are the one
    // place a size-only query reports zero
    let icd = software_icd();
    let (_, s) = get_device_info(
        &icd,
        1,
        rusticl::cl::CL_DEVICE_BUILT_IN_KERNELS_WITH_VERSION,
        0,
        false,
        true,
    )
    .unwrap();
    assert_eq!(s.unwrap(), 0);
    // while the populated record lists report whole records
    let (_, s) = get_device_info(
        &icd,
        1,
        rusticl::cl::CL_DEVICE_EXTENSIONS_WITH_VERSION,
        0,
        false,
        true,
    )
    .unwrap();
    assert_eq!(s.unwrap(), 68);
}

#[test]
fn test_embedded_profile_classification() {
    let mut desc = full_screen();
    // a single sampler is below the full-profile minimum of sixteen
    desc.max_texture_samplers = 1;
    let icd = icd_of(pipe_loader_device_type::PIPE_LOADER_DEVICE_SOFTWARE, desc);
    let dev = &icd.devices[0].dev;
    assert!(dev.embedded);
    assert_eq!(info(&icd, CL_DEVICE_PROFILE), b"EMBEDDED_PROFILE\0".to_vec());
}
