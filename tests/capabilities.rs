use prust::{CommandQueue, Device, DeviceType, Error, InfoEntry, InfoTable, Platform};

fn ok(param: u32, value: Vec<u8>) -> InfoEntry {
    InfoEntry { param, status: 0, value }
}

fn u32_entry(param: u32, v: u32) -> InfoEntry {
    ok(param, v.to_le_bytes().to_vec())
}

fn u64_entry(param: u32, v: u64) -> InfoEntry {
    ok(param, v.to_le_bytes().to_vec())
}

fn device(entries: Vec<InfoEntry>) -> Device {
    Device::new(77, InfoTable::new(entries))
}

#[test]
fn scalar_answers() {
    let d = device(vec![
        u32_entry(0x1001, 0x10de),
        u32_entry(0x1002, 16),
        u64_entry(0x1004, 1024),
        u64_entry(0x1010, 1 << 32),
        ok(0x1011, 8192u32.to_le_bytes().to_vec()),
        u32_entry(0x100C, 1500),
    ]);
    assert_eq!(d.id, 77);
    assert_eq!(d.vendor_id(), Ok(0x10de));
    assert_eq!(d.max_compute_units(), Ok(16));
    assert_eq!(d.max_work_group_size(), Ok(1024));
    assert_eq!(d.max_mem_alloc_size(), Ok(1usize << 32));
    assert_eq!(d.image2d_max_width(), Ok(8192));
    assert_eq!(d.max_clock_frequency(), Ok(1500));
}

#[test]
fn boolean_answers() {
    let d = device(vec![
        u32_entry(0x1016, 1),
        u32_entry(0x1026, 0),
        u32_entry(0x1027, 1),
        u32_entry(0x1028, 2),
    ]);
    assert_eq!(d.image_support(), Ok(true));
    assert_eq!(d.endian_little(), Ok(false));
    assert_eq!(d.available(), Ok(true));
    assert_eq!(d.compiler_available(), Ok(false));
}

#[test]
fn device_types() {
    assert_eq!(device(vec![u64_entry(0x1000, 2)]).device_type(), Ok(DeviceType::CPU));
    assert_eq!(device(vec![u64_entry(0x1000, 4)]).device_type(), Ok(DeviceType::GPU));
    assert_eq!(device(vec![u64_entry(0x1000, 8)]).device_type(), Ok(DeviceType::Accelerator));
    assert_eq!(device(vec![u64_entry(0x1000, 6)]).device_type(), Err(Error::UnknownDeviceType(6)));
}

#[test]
fn queue_properties_follow_out_of_order_support() {
    let ooo = device(vec![u64_entry(0x102A, 3)]);
    assert_eq!(ooo.out_of_order_supported(), Ok(true));
    assert_eq!(CommandQueue::properties_for(&ooo), Ok(1));
    let in_order = device(vec![u64_entry(0x102A, 2)]);
    assert_eq!(in_order.out_of_order_supported(), Ok(false));
    assert_eq!(CommandQueue::properties_for(&in_order), Ok(0));
    assert_eq!(CommandQueue::properties_for(&device(vec![])), Err(Error::RuntimeQuery(-30)));
}

#[test]
fn work_item_sizes_and_platform() {
    let mut sizes = Vec::new();
    for v in [1024u64, 512, 64] {
        sizes.extend_from_slice(&v.to_le_bytes());
    }
    sizes.push(7);
    let d = device(vec![ok(0x1005, sizes), u64_entry(0x1031, 0xabcdef)]);
    assert_eq!(d.max_work_item_sizes(), Ok(vec![1024, 512, 64]));
    assert_eq!(d.platform(), Ok(0xabcdef));
}

#[test]
fn text_answers() {
    let d = device(vec![
        ok(0x102B, b"Tahiti\0".to_vec()),
        ok(0x102C, "Ünïcode".as_bytes().to_vec()),
        ok(0x1030, b"cl_khr_fp64".to_vec()),
        ok(0x102E, vec![0xff, 0xfe]),
    ]);
    assert_eq!(d.name(), Ok("Tahiti\0".to_string()));
    assert_eq!(d.vendor(), Ok("Ünïcode".to_string()));
    assert_eq!(d.extensions(), Ok("cl_khr_fp64".to_string()));
    assert_eq!(d.profile(), Err(Error::InvalidText(0x102E)));
}

#[test]
fn query_errors() {
    let d = device(vec![
        InfoEntry { param: 0x1001, status: -5, value: Vec::new() },
        ok(0x1002, vec![1, 2]),
        ok(0x1004, vec![1, 2, 3]),
    ]);
    assert_eq!(d.vendor_id(), Err(Error::RuntimeQuery(-5)));
    assert_eq!(d.max_compute_units(), Err(Error::InfoSize { param: 0x1002, len: 2 }));
    assert_eq!(d.max_work_group_size(), Err(Error::InfoSize { param: 0x1004, len: 3 }));
    assert_eq!(d.address_bits(), Err(Error::RuntimeQuery(-30)));
    assert_eq!(d.version(), Err(Error::RuntimeQuery(-30)));
}

#[test]
fn first_answer_wins() {
    let d = device(vec![u32_entry(0x1003, 3), u32_entry(0x1003, 9)]);
    assert_eq!(d.max_work_item_dimensions(), Ok(3));
}

#[test]
fn queried_params_cover_the_getters() {
    let params = Device::queried_params();
    assert_eq!(params.len(), 44);
    assert!(params.contains(&0x1030));
    assert!(params.contains(&0x1000));
    assert_eq!(Platform::queried_params(), vec![0x0900, 0x0901, 0x0902, 0x0903, 0x0904]);
}

#[test]
fn platform_answers() {
    let p = Platform::new(
        3,
        InfoTable::new(vec![
            ok(0x0900, b"FULL_PROFILE".to_vec()),
            ok(0x0901, b"OpenCL 1.2".to_vec()),
            ok(0x0902, b"Portable".to_vec()),
            ok(0x0903, b"Vendor".to_vec()),
        ]),
    );
    assert_eq!(p.id, 3);
    assert_eq!(p.profile(), Ok("FULL_PROFILE".to_string()));
    assert_eq!(p.version(), Ok("OpenCL 1.2".to_string()));
    assert_eq!(p.name(), Ok("Portable".to_string()));
    assert_eq!(p.vendor(), Ok("Vendor".to_string()));
    assert_eq!(p.extensions(), Err(Error::RuntimeQuery(-30)));
}
