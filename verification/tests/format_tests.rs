use gpu::{ColorFormat, ComponentFormat, TextureFormat};

#[test]
fn element_size_is_width_times_channels() {
    let colors = [
        (ColorFormat::R, 1usize),
        (ColorFormat::RG, 2),
        (ColorFormat::RGB, 3),
        (ColorFormat::RGBA, 4),
    ];
    let components = [
        (ComponentFormat::U8, 1usize),
        (ComponentFormat::I8, 1),
        (ComponentFormat::U16, 2),
        (ComponentFormat::I16, 2),
        (ComponentFormat::U32, 4),
        (ComponentFormat::I32, 4),
        (ComponentFormat::F32, 4),
    ];
    for (color, channels) in colors {
        assert_eq!(color.get_size(), channels);
        for (component, width) in components {
            assert_eq!(component.get_size(), width);
            let format = TextureFormat::new(color, component);
            assert_eq!(format.element_size(), channels * width);
        }
    }
}

#[test]
fn components_constructor_picks_channel_count() {
    for n in 1..=4usize {
        assert_eq!(ColorFormat::components(n).get_size(), n);
    }
    assert_eq!(ColorFormat::components(2), ColorFormat::RG);
}

#[test]
fn storage_codes_match_device_tables() {
    assert_eq!(TextureFormat(ColorFormat::R, ComponentFormat::F32).internal_format(), 0x822E);
    assert_eq!(TextureFormat(ColorFormat::RG, ComponentFormat::F32).internal_format(), 0x8230);
    assert_eq!(TextureFormat(ColorFormat::RGBA, ComponentFormat::F32).internal_format(), 0x8814);
    assert_eq!(TextureFormat(ColorFormat::RGBA, ComponentFormat::U8).internal_format(), 0x8D7C);
    assert_eq!(TextureFormat(ColorFormat::R, ComponentFormat::I16).internal_format(), 0x8233);
}

#[test]
fn transfer_codes_match_device_tables() {
    let (format, ty) = TextureFormat(ColorFormat::RG, ComponentFormat::F32).get_format_type();
    assert_eq!(format, gpu::format::GL_RG);
    assert_eq!(ty, gpu::format::GL_FLOAT);
    let (format, ty) = TextureFormat(ColorFormat::RGBA, ComponentFormat::U8).get_format_type();
    assert_eq!(format, gpu::format::GL_RGBA_INTEGER);
    assert_eq!(ty, gpu::format::GL_UNSIGNED_BYTE);
    let (format, ty) = TextureFormat(ColorFormat::R, ComponentFormat::I32).get_format_type();
    assert_eq!(format, gpu::format::GL_RED_INTEGER);
    assert_eq!(ty, gpu::format::GL_INT);
}
