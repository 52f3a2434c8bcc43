use gpu::{Buffer, Device};

fn u32s_to_bytes(values: &[u32]) -> Vec<u8> {
    values.iter().flat_map(|v| v.to_le_bytes()).collect()
}

fn bytes_to_u32s(bytes: &[u8]) -> Vec<u32> {
    bytes.chunks(4).map(|c| u32::from_le_bytes([c[0], c[1], c[2], c[3]])).collect()
}

#[test]
fn round_trip_empty() {
    let mut device = Device::new();
    let context = device.create_context();
    context.make_current(&mut device).unwrap();
    let buffer = Buffer::from_data(&mut device, &context, &[]);
    assert_eq!(buffer.size(&mut device), 0);
    assert_eq!(buffer.data(&mut device, 4), Vec::<u8>::new());
}

#[test]
fn round_trip_one_element() {
    let mut device = Device::new();
    let context = device.create_context();
    context.make_current(&mut device).unwrap();
    let bytes = u32s_to_bytes(&[0xDEAD_BEEF]);
    let buffer = Buffer::from_data(&mut device, &context, &bytes);
    assert_eq!(buffer.size(&mut device), 4);
    let out = buffer.data(&mut device, 4);
    assert_eq!(bytes_to_u32s(&out), vec![0xDEAD_BEEF]);
}

#[test]
fn round_trip_many_elements() {
    let mut device = Device::new();
    let context = device.create_context();
    context.make_current(&mut device).unwrap();
    let values: Vec<u32> = (0..1024).collect();
    let bytes = u32s_to_bytes(&values);
    let buffer = Buffer::from_data(&mut device, &context, &bytes);
    assert_eq!(buffer.size(&mut device), 4096);
    let out = buffer.data(&mut device, 4);
    assert_eq!(out, bytes);
    assert_eq!(bytes_to_u32s(&out), values);
}

#[test]
fn read_back_truncates_to_whole_elements() {
    let mut device = Device::new();
    let context = device.create_context();
    context.make_current(&mut device).unwrap();
    let bytes: Vec<u8> = (0..10).collect();
    let buffer = Buffer::from_data(&mut device, &context, &bytes);
    let out = buffer.data(&mut device, 4);
    assert_eq!(out, &bytes[..8]);
}

#[test]
fn reallocate_smaller_reports_new_size() {
    let mut device = Device::new();
    let context = device.create_context();
    context.make_current(&mut device).unwrap();
    let bytes: Vec<u8> = vec![0xAB; 100];
    let buffer = Buffer::from_data(&mut device, &context, &bytes);
    assert_eq!(buffer.size(&mut device), 100);
    buffer.reallocate(&mut device, 10);
    assert_eq!(buffer.size(&mut device), 10);
    assert_eq!(buffer.data(&mut device, 1), vec![0u8; 10]);
}

#[test]
fn allocate_zero_defers_storage() {
    let mut device = Device::new();
    let context = device.create_context();
    context.make_current(&mut device).unwrap();
    let buffer = Buffer::allocate(&mut device, &context, 0);
    assert_eq!(buffer.size(&mut device), 0);
}

#[test]
fn allocate_reserves_zeroed_storage() {
    let mut device = Device::new();
    let context = device.create_context();
    context.make_current(&mut device).unwrap();
    let buffer = Buffer::allocate(&mut device, &context, 16);
    assert_eq!(buffer.size(&mut device), 16);
    assert_eq!(buffer.data(&mut device, 1), vec![0u8; 16]);
}

#[test]
fn set_data_replaces_contents_and_size() {
    let mut device = Device::new();
    let context = device.create_context();
    context.make_current(&mut device).unwrap();
    let buffer = Buffer::from_data(&mut device, &context, &[1, 2, 3]);
    buffer.set_data(&mut device, &[9, 8]);
    assert_eq!(buffer.size(&mut device), 2);
    assert_eq!(buffer.data(&mut device, 1), vec![9, 8]);
}
