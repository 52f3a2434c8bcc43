use gpu::{Buffer, ContextError, Device, Renderbuffer, Texture3D};
use gpu::{ColorFormat, ComponentFormat, TextureFormat};

#[test]
fn release_before_destroy_issues_one_delete() {
    let mut device = Device::new();
    let context = device.create_context();
    context.make_current(&mut device).unwrap();
    let buffer = Buffer::from_data(&mut device, &context, &[1, 2, 3, 4]);
    assert!(buffer.release(&mut device));
    context.destroy(&mut device);
}

#[test]
fn destroy_before_release_skips_the_delete() {
    let mut device = Device::new();
    let context = device.create_context();
    context.make_current(&mut device).unwrap();
    let buffer = Buffer::from_data(&mut device, &context, &[1, 2, 3, 4]);
    let weak = context.weak_ref();
    context.destroy(&mut device);
    assert!(!weak.is_alive(&device));
    assert!(!buffer.release(&mut device));
}

#[test]
fn texture_release_follows_context_liveness() {
    let mut device = Device::new();
    let context = device.create_context();
    context.make_current(&mut device).unwrap();
    let format = TextureFormat(ColorFormat::R, ComponentFormat::U8);
    let kept = Texture3D::allocate(&mut device, &context, (2, 2, 2), &format);
    let released = Texture3D::allocate(&mut device, &context, (2, 2, 2), &format);
    assert!(released.release(&mut device));
    context.destroy(&mut device);
    assert!(!kept.release(&mut device));
}

#[test]
fn weak_reference_outlives_the_context() {
    let mut device = Device::new();
    let context = device.create_context();
    let weak = context.weak_ref();
    assert!(weak.is_alive(&device));
    let upgraded = weak.upgrade(&device);
    assert!(upgraded.is_some());
    context.destroy(&mut device);
    assert!(!weak.is_alive(&device));
    assert!(weak.upgrade(&device).is_none());
}

#[test]
fn make_current_fails_once_the_context_is_gone() {
    let mut device = Device::new();
    let context = device.create_context();
    let weak = context.weak_ref();
    let stale = weak.upgrade(&device).unwrap();
    context.destroy(&mut device);
    let result = stale.make_current(&mut device);
    assert!(matches!(result, Err(ContextError::ContextUnavailable)));
}

#[test]
fn renderbuffer_placeholder_never_touches_the_device() {
    let mut device = Device::new();
    let context = device.create_context();
    context.make_current(&mut device).unwrap();
    let placeholder = Renderbuffer::default(&context);
    assert_eq!(placeholder.resource(), 0);
    assert!(!placeholder.release(&mut device));
    context.destroy(&mut device);
}

#[test]
fn renderbuffer_release_follows_context_liveness() {
    let mut device = Device::new();
    let context = device.create_context();
    context.make_current(&mut device).unwrap();
    let released = Renderbuffer::new(&mut device, &context, 640, 480);
    assert_ne!(released.resource(), 0);
    assert!(released.release(&mut device));
    let kept = Renderbuffer::new(&mut device, &context, 320, 200);
    context.destroy(&mut device);
    assert!(!kept.release(&mut device));
}

#[test]
fn contexts_are_independent() {
    let mut device = Device::new();
    let first = device.create_context();
    let second = device.create_context();
    first.make_current(&mut device).unwrap();
    let buffer = Buffer::from_data(&mut device, &first, &[5, 6, 7]);
    let weak_second = second.weak_ref();
    second.destroy(&mut device);
    assert!(!weak_second.is_alive(&device));
    assert!(first.weak_ref().is_alive(&device));
    assert_eq!(buffer.data(&mut device, 1), vec![5, 6, 7]);
    assert!(buffer.release(&mut device));
}
