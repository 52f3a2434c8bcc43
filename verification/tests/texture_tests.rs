use gpu::{ColorFormat, ComponentFormat, Device, Texture3D, TextureFormat};

fn f32s_to_bytes(values: &[f32]) -> Vec<u8> {
    values.iter().flat_map(|v| v.to_le_bytes()).collect()
}

fn bytes_to_f32s(bytes: &[u8]) -> Vec<f32> {
    bytes.chunks(4).map(|c| f32::from_le_bytes([c[0], c[1], c[2], c[3]])).collect()
}

#[test]
fn allocation() {
    let mut device = Device::new();
    let context = device.create_context();
    context.make_current(&mut device).unwrap();

    let dimension = (111, 222, 333);
    let texture = Texture3D::allocate(
        &mut device,
        &context,
        dimension,
        &TextureFormat(ColorFormat::RGBA, ComponentFormat::U8),
    );
    assert_eq!(texture.get_dimension(&mut device), dimension);
}

#[test]
fn from_data() {
    let mut device = Device::new();
    let context = device.create_context();
    context.make_current(&mut device).unwrap();

    let mut data_in: Vec<f32> = Vec::new();
    let dimension = (8, 8, 8);
    let components = 2;
    for x in 0..dimension.0 {
        for y in 0..dimension.1 {
            for z in 0..dimension.2 {
                for w in 1..(components + 1) {
                    data_in.push((w * (dimension.1 * (y * dimension.0 + x) + z)) as f32);
                }
            }
        }
    }

    let data_in_format =
        TextureFormat(ColorFormat::components(components), ComponentFormat::F32);
    let bytes_in = f32s_to_bytes(&data_in);
    let texture = Texture3D::from_data(
        &mut device,
        &context,
        dimension,
        &data_in_format,
        &bytes_in,
        &data_in_format,
    );

    assert_eq!(components, texture.get_format().get_color_format().get_size());
    assert_eq!(dimension, texture.get_dimension(&mut device));

    let data_out = bytes_to_f32s(&texture.data(&mut device));

    assert_eq!(data_in, data_out);
}

#[test]
fn reallocate_smaller_reports_new_dimensions() {
    let mut device = Device::new();
    let context = device.create_context();
    context.make_current(&mut device).unwrap();

    let format = TextureFormat(ColorFormat::R, ComponentFormat::U8);
    let mut texture = Texture3D::allocate(&mut device, &context, (16, 16, 16), &format);
    assert_eq!(texture.get_dimension(&mut device), (16, 16, 16));
    assert_eq!(texture.dimensions(), (16, 16, 16));
    texture.reallocate(&mut device, (2, 3, 4), &format);
    assert_eq!(texture.get_dimension(&mut device), (2, 3, 4));
    assert_eq!(texture.dimensions(), (2, 3, 4));
    assert_eq!(texture.get_width(&mut device), 2);
    assert_eq!(texture.get_height(&mut device), 3);
    assert_eq!(texture.get_depth(&mut device), 4);
    assert_eq!(texture.data(&mut device).len(), 24);
}

#[test]
fn set_data_updates_dimensions_and_format_together() {
    let mut device = Device::new();
    let context = device.create_context();
    context.make_current(&mut device).unwrap();

    let first = TextureFormat(ColorFormat::RGBA, ComponentFormat::U8);
    let second = TextureFormat(ColorFormat::RG, ComponentFormat::U8);
    let mut texture = Texture3D::allocate(&mut device, &context, (4, 4, 4), &first);
    let data: Vec<u8> = (0..16).collect();
    texture.set_data(&mut device, (2, 2, 2), &second, &data, &second);
    assert_eq!(texture.get_dimension(&mut device), (2, 2, 2));
    assert_eq!(texture.get_format().get_color_format().get_size(), 2);
    assert_eq!(texture.data(&mut device), data);
}

#[test]
fn allocated_storage_reads_as_zero() {
    let mut device = Device::new();
    let context = device.create_context();
    context.make_current(&mut device).unwrap();

    let format = TextureFormat(ColorFormat::RG, ComponentFormat::F32);
    let texture = Texture3D::allocate(&mut device, &context, (2, 2, 2), &format);
    assert_eq!(texture.data(&mut device), vec![0u8; 64]);
    assert_eq!(texture.get_type(), 0x806F);
}
