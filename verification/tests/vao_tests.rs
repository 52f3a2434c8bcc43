use gpu::{Buffer, Device, VertexArrayObject};

#[test]
fn set_vertex_source_twice_equals_once() {
    let mut device = Device::new();
    let context = device.create_context();
    context.make_current(&mut device).unwrap();
    let buffer = Buffer::from_data(&mut device, &context, &[0u8; 36]);
    let mut vao = VertexArrayObject::new(&mut device, &context);
    vao.set_vertex_buffer(&mut device, &buffer, 0, 3);
    let once = vao.get_vertex_buffer(&device, 0);
    vao.set_vertex_buffer(&mut device, &buffer, 0, 3);
    let twice = vao.get_vertex_buffer(&device, 0);
    assert_eq!(once, twice);
    assert_eq!(twice, Some((buffer.resource(), 3)));
}

#[test]
fn attribute_slots_are_independent() {
    let mut device = Device::new();
    let context = device.create_context();
    context.make_current(&mut device).unwrap();
    let positions = Buffer::from_data(&mut device, &context, &[0u8; 48]);
    let colors = Buffer::from_data(&mut device, &context, &[0u8; 64]);
    let mut vao = VertexArrayObject::new(&mut device, &context);
    vao.set_vertex_buffer(&mut device, &positions, 0, 3);
    vao.set_vertex_buffer(&mut device, &colors, 1, 4);
    assert_eq!(vao.get_vertex_buffer(&device, 0), Some((positions.resource(), 3)));
    assert_eq!(vao.get_vertex_buffer(&device, 1), Some((colors.resource(), 4)));
    assert_eq!(vao.get_vertex_buffer(&device, 2), None);
}

#[test]
fn vertex_count_is_bookkeeping_only() {
    let mut device = Device::new();
    let context = device.create_context();
    context.make_current(&mut device).unwrap();
    let mut vao = VertexArrayObject::new(&mut device, &context);
    assert_eq!(vao.get_vertices(), 0);
    vao.set_vertices(42);
    assert_eq!(vao.get_vertices(), 42);
    let buffer = Buffer::from_data(&mut device, &context, &[0u8; 1024]);
    vao.set_vertex_buffer(&mut device, &buffer, 0, 4);
    assert_eq!(vao.get_vertices(), 42);
}

#[test]
fn vao_release_follows_context_liveness() {
    let mut device = Device::new();
    let context = device.create_context();
    context.make_current(&mut device).unwrap();
    let released = VertexArrayObject::new(&mut device, &context);
    assert!(released.release(&mut device));
    let kept = VertexArrayObject::new(&mut device, &context);
    context.destroy(&mut device);
    assert!(!kept.release(&mut device));
}
