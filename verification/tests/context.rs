use rusticl::cl::CL_CONTEXT_DEVICES;
use rusticl::cl::CL_CONTEXT_INTEROP_USER_SYNC;
use rusticl::cl::CL_CONTEXT_NUM_DEVICES;
use rusticl::cl::CL_CONTEXT_PLATFORM;
use rusticl::cl::CL_CONTEXT_PROPERTIES;
use rusticl::cl::CL_CONTEXT_REFERENCE_COUNT;
use rusticl::cl::CL_DEVICE_NOT_FOUND;
use rusticl::cl::CL_DEVICE_TYPE_ACCELERATOR;
use rusticl::cl::CL_DEVICE_TYPE_CPU;
use rusticl::cl::CL_INVALID_CONTEXT;
use rusticl::cl::CL_INVALID_DEVICE;
use rusticl::cl::CL_INVALID_DEVICE_TYPE;
use rusticl::cl::CL_INVALID_PLATFORM;
use rusticl::cl::CL_INVALID_PROPERTY;
use rusticl::cl::CL_INVALID_VALUE;
use rusticl::context::create_context;
use rusticl::context::create_context_from_type;
use rusticl::context::get_context_info;
use rusticl::context::release_context;
use rusticl::context::retain_context;
use rusticl::icd::Icd;
use rusticl::platform::get_platform;
use rusticl::properties::Properties;
use rusticl::screen::PipeLoaderDevice;
use rusticl::screen::ScreenDesc;
use rusticl::screen::load_screens;
use rusticl::screen::pipe_loader_device_type;

fn full_screen() -> ScreenDesc {
    ScreenDesc {
        has_destroy: true,
        has_get_compute_param: true,
        has_get_name: true,
        has_get_param: true,
        has_get_shader_param: true,
        name: String::from("fast0"),
        device_vendor: String::from("acme"),
        compute: 1,
        max_texture_2d_size: 16384,
        max_texture_3d_levels: 12,
        max_texture_array_layers: 2048,
        max_texture_buffer_size: 65536,
        endianness: 0,
        vendor_id: 0x1002,
        uma: 0,
        supported_irs: 0b1000,
        max_const_buffer_size: 65536,
        max_sampler_views: 128,
        max_shader_images: 64,
        max_texture_samplers: 16,
        address_bits: 64,
        max_clock_frequency: 1000,
        max_compute_units: 32,
        max_global_size: 8 << 30,
        max_local_size: 32768,
        max_mem_alloc_size: 1 << 30,
        grid_dimension: 3,
        max_threads_per_block: 1024,
        max_input_size: 1024,
        max_block_size: vec![1024, 1024, 64],
    }
}

fn one_device_icd() -> Icd {
    let screens = load_screens(vec![(
        PipeLoaderDevice::new(pipe_loader_device_type::PIPE_LOADER_DEVICE_SOFTWARE),
        Some(full_screen()),
    )]);
    Icd::new(screens, None)
}

#[test]
fn test_create_context_without_devices_rejected() {
    let mut icd = one_device_icd();
    assert_eq!(create_context(&mut icd, None, 1, None, false, false), Err(CL_INVALID_VALUE));
}

#[test]
fn test_create_context_zero_devices_rejected() {
    let mut icd = one_device_icd();
    let devs: Vec<usize> = vec![];
    assert_eq!(
        create_context(&mut icd, None, 0, Some(&devs), false, false),
        Err(CL_INVALID_VALUE)
    );
}

#[test]
fn test_create_context_user_data_without_notify_rejected() {
    let mut icd = one_device_icd();
    let devs: Vec<usize> = vec![1];
    assert_eq!(
        create_context(&mut icd, None, 1, Some(&devs), false, true),
        Err(CL_INVALID_VALUE)
    );
    // with a callback the same user data is fine
    assert!(create_context(&mut icd, None, 1, Some(&devs), true, true).is_ok());
}

#[test]
fn test_create_context_duplicate_property_rejected() {
    let mut icd = one_device_icd();
    let devs: Vec<usize> = vec![1];
    let props: Vec<isize> = vec![
        CL_CONTEXT_INTEROP_USER_SYNC as isize,
        1,
        CL_CONTEXT_INTEROP_USER_SYNC as isize,
        1,
        0,
    ];
    assert_eq!(
        create_context(&mut icd, Some(&props), 1, Some(&devs), false, false),
        Err(CL_INVALID_PROPERTY)
    );
}

#[test]
fn test_create_context_property_validation() {
    let mut icd = one_device_icd();
    let devs: Vec<usize> = vec![1];
    // an unsupported key
    let props: Vec<isize> = vec![0x4242, 1, 0];
    assert_eq!(
        create_context(&mut icd, Some(&props), 1, Some(&devs), false, false),
        Err(CL_INVALID_PROPERTY)
    );
    // the platform key must name a valid platform
    let props: Vec<isize> = vec![CL_CONTEXT_PLATFORM as isize, 99, 0];
    assert_eq!(
        create_context(&mut icd, Some(&props), 1, Some(&devs), false, false),
        Err(CL_INVALID_PLATFORM)
    );
    // the interop key must carry a canonical boolean
    let props: Vec<isize> = vec![CL_CONTEXT_INTEROP_USER_SYNC as isize, 5, 0];
    assert_eq!(
        create_context(&mut icd, Some(&props), 1, Some(&devs), false, false),
        Err(CL_INVALID_PROPERTY)
    );
    // a well-formed list passes
    let props: Vec<isize> = vec![
        CL_CONTEXT_PLATFORM as isize,
        get_platform() as isize,
        CL_CONTEXT_INTEROP_USER_SYNC as isize,
        1,
        0,
    ];
    assert!(create_context(&mut icd, Some(&props), 1, Some(&devs), false, false).is_ok());
}

#[test]
fn test_create_context_invalid_device_rejected() {
    let mut icd = one_device_icd();
    let devs: Vec<usize> = vec![1, 7];
    assert_eq!(
        create_context(&mut icd, None, 2, Some(&devs), false, false),
        Err(CL_INVALID_DEVICE)
    );
}

#[test]
fn test_create_context_removes_duplicate_devices() {
    let mut icd = one_device_icd();
    let devs: Vec<usize> = vec![1, 1];
    let ctx = create_context(&mut icd, None, 2, Some(&devs), false, false).unwrap();
    let (v, _) = get_context_info(&icd, ctx, CL_CONTEXT_NUM_DEVICES, 4, true, false).unwrap();
    assert_eq!(v.unwrap(), vec![1, 0, 0, 0]);
    let (v, _) = get_context_info(&icd, ctx, CL_CONTEXT_DEVICES, 64, true, false).unwrap();
    assert_eq!(v.unwrap(), vec![1, 0, 0, 0, 0, 0, 0, 0]);
}

#[test]
fn test_create_context_removes_separated_duplicate_devices() {
    // a duplicate is removed even when it is not next to its twin:
    // the first occurrences stay, in order
    let screens = load_screens(vec![
        (
            PipeLoaderDevice::new(pipe_loader_device_type::PIPE_LOADER_DEVICE_SOFTWARE),
            Some(full_screen()),
        ),
        (
            PipeLoaderDevice::new(pipe_loader_device_type::PIPE_LOADER_DEVICE_SOFTWARE),
            Some(full_screen()),
        ),
    ]);
    let mut icd = Icd::new(screens, None);
    let devs: Vec<usize> = vec![1, 2, 1];
    let ctx = create_context(&mut icd, None, 3, Some(&devs), false, false).unwrap();
    let (v, _) = get_context_info(&icd, ctx, CL_CONTEXT_NUM_DEVICES, 4, true, false).unwrap();
    assert_eq!(v.unwrap(), vec![2, 0, 0, 0]);
    let (v, _) = get_context_info(&icd, ctx, CL_CONTEXT_DEVICES, 64, true, false).unwrap();
    assert_eq!(
        v.unwrap(),
        vec![1, 0, 0, 0, 0, 0, 0, 0, 2, 0, 0, 0, 0, 0, 0, 0]
    );
}

#[test]
fn test_context_info_queries() {
    let mut icd = one_device_icd();
    let devs: Vec<usize> = vec![1];
    let props: Vec<isize> = vec![CL_CONTEXT_INTEROP_USER_SYNC as isize, 1, 0];
    let ctx = create_context(&mut icd, Some(&props), 1, Some(&devs), false, false).unwrap();
    let (v, _) = get_context_info(&icd, ctx, CL_CONTEXT_REFERENCE_COUNT, 4, true, false).unwrap();
    assert_eq!(v.unwrap(), vec![1, 0, 0, 0]);
    // the property query reports the empty placeholder
    let (v, s) = get_context_info(&icd, ctx, CL_CONTEXT_PROPERTIES, 0, false, true).unwrap();
    assert!(v.is_none());
    assert_eq!(s.unwrap(), 0);
    // unknown parameter
    assert_eq!(
        get_context_info(&icd, ctx, 0x4242, 0, false, true).unwrap_err(),
        CL_INVALID_VALUE
    );
    // a too-small buffer
    assert_eq!(
        get_context_info(&icd, ctx, CL_CONTEXT_REFERENCE_COUNT, 2, true, true).unwrap_err(),
        CL_INVALID_VALUE
    );
    // a null handle
    assert_eq!(
        get_context_info(&icd, 0, CL_CONTEXT_REFERENCE_COUNT, 4, true, false).unwrap_err(),
        CL_INVALID_CONTEXT
    );
}

#[test]
fn test_retain_release_balance_frees_exactly_once() {
    let mut icd = one_device_icd();
    let devs: Vec<usize> = vec![1];
    let ctx = create_context(&mut icd, None, 1, Some(&devs), false, false).unwrap();
    let n = 3;
    for _ in 0..n {
        assert!(retain_context(&mut icd, ctx).is_ok());
    }
    let (v, _) = get_context_info(&icd, ctx, CL_CONTEXT_REFERENCE_COUNT, 4, true, false).unwrap();
    assert_eq!(v.unwrap(), vec![4, 0, 0, 0]);
    for _ in 0..n {
        assert!(release_context(&mut icd, ctx).is_ok());
    }
    // still live, back at one reference
    let (v, _) = get_context_info(&icd, ctx, CL_CONTEXT_REFERENCE_COUNT, 4, true, false).unwrap();
    assert_eq!(v.unwrap(), vec![1, 0, 0, 0]);
    // the final release deallocates the context
    assert!(release_context(&mut icd, ctx).is_ok());
    assert_eq!(release_context(&mut icd, ctx), Err(CL_INVALID_CONTEXT));
    assert_eq!(retain_context(&mut icd, ctx), Err(CL_INVALID_CONTEXT));
    assert_eq!(
        get_context_info(&icd, ctx, CL_CONTEXT_REFERENCE_COUNT, 4, true, false).unwrap_err(),
        CL_INVALID_CONTEXT
    );
}

#[test]
fn test_retain_release_null_handle_rejected() {
    let mut icd = one_device_icd();
    assert_eq!(retain_context(&mut icd, 0), Err(CL_INVALID_CONTEXT));
    assert_eq!(release_context(&mut icd, 0), Err(CL_INVALID_CONTEXT));
}

#[test]
fn test_create_context_from_type() {
    let mut icd = one_device_icd();
    let ctx =
        create_context_from_type(&mut icd, None, CL_DEVICE_TYPE_CPU as u64, false, false).unwrap();
    let (v, _) = get_context_info(&icd, ctx, CL_CONTEXT_NUM_DEVICES, 4, true, false).unwrap();
    assert_eq!(v.unwrap(), vec![1, 0, 0, 0]);
    // a combined mask is not a valid filter
    assert_eq!(
        create_context_from_type(&mut icd, None, 3, false, false),
        Err(CL_INVALID_DEVICE_TYPE)
    );
    // nothing matches the accelerator filter
    assert_eq!(
        create_context_from_type(&mut icd, None, CL_DEVICE_TYPE_ACCELERATOR as u64, false, false),
        Err(CL_DEVICE_NOT_FOUND)
    );
}

#[test]
fn test_properties_terminator_only() {
    // a list holding nothing but the terminator is empty and valid
    let raw: Vec<isize> = vec![0];
    let p = Properties::from_raw(Some(&raw)).unwrap();
    assert_eq!(p.props.len(), 0);
    assert_eq!(Properties::from_raw_echo(Some(&raw)), vec![0]);
    let mut icd = one_device_icd();
    let devs: Vec<usize> = vec![1];
    assert!(create_context(&mut icd, Some(&raw), 1, Some(&devs), false, false).is_ok());
}

#[test]
fn test_properties_parser() {
    // an absent list is empty and valid
    let p = Properties::from_raw(None).unwrap();
    assert_eq!(p.props.len(), 0);
    assert_eq!(Properties::from_raw_echo(None), Vec::<isize>::new());
    // pairs are read up to the terminator
    let raw: Vec<isize> = vec![10, 11, 20, 21, 0, 99];
    let p = Properties::from_raw(Some(&raw)).unwrap();
    assert_eq!(p.props, vec![(10, 11), (20, 21)]);
    assert_eq!(Properties::from_raw_echo(Some(&raw)), vec![10, 11, 20, 21, 0]);
    // a duplicate key invalidates the list
    let raw: Vec<isize> = vec![10, 11, 10, 21, 0];
    assert!(Properties::from_raw(Some(&raw)).is_none());
}
