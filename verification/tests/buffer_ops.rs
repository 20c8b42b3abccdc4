use gl_context::buffer::{Buffer, BufferType};
use gl_context::context::{GlContext, ARRAY_BUFFER, ELEMENT_ARRAY_BUFFER};

#[test]
fn buffer_type_codes_match_the_backend_numbering() {
    assert_eq!(BufferType::Array.gl_type(), ARRAY_BUFFER);
    assert_eq!(BufferType::IndexArray.gl_type(), ELEMENT_ARRAY_BUFFER);
    assert_eq!(ARRAY_BUFFER, 0x8892);
    assert_eq!(ELEMENT_ARRAY_BUFFER, 0x8893);
}

#[test]
fn create_then_destroy_leaves_live_handle_count_unchanged() {
    let mut ctx = GlContext::new();
    let keeper: Buffer<f32> = Buffer::new(&mut ctx, BufferType::Array);
    let before = ctx.live_handles();

    let buf: Buffer<f32> = Buffer::new(&mut ctx, BufferType::Array);
    assert_eq!(ctx.live_handles(), before + 1);
    buf.destroy(&mut ctx);
    assert_eq!(ctx.live_handles(), before);

    // The same holds when the buffer was actually used in between.
    let mut buf: Buffer<f32> = Buffer::new(&mut ctx, BufferType::Array);
    buf.push(&[1.0, 2.0]);
    buf.upload_data(&mut ctx, 0, 2, true);
    buf.destroy(&mut ctx);
    assert_eq!(ctx.live_handles(), before);

    keeper.destroy(&mut ctx);
    assert_eq!(ctx.live_handles(), 0);
}

#[test]
fn append_then_upload_publishes_exactly_the_appended_values() {
    let mut ctx = GlContext::new();
    let mut buf: Buffer<f32> = Buffer::new(&mut ctx, BufferType::Array);

    buf.push(&[1.5, 2.5, 3.5]);
    assert_eq!(buf.len(), 3);
    let len = buf.len();
    buf.upload_data(&mut ctx, 0, len, true);
    assert_eq!(buf.device_contents(), &[1.5, 2.5, 3.5]);

    // A further append must not alter what the device holds until the
    // next upload.
    buf.push(&[9.0]);
    assert_eq!(buf.len(), 4);
    assert_eq!(buf.device_contents(), &[1.5, 2.5, 3.5]);

    // The next upload publishes the full mirror again.
    let len = buf.len();
    buf.upload_data(&mut ctx, 0, len, false);
    assert_eq!(buf.device_contents(), &[1.5, 2.5, 3.5, 9.0]);

    buf.destroy(&mut ctx);
}

#[test]
fn replace_overwrites_the_mirror_wholesale() {
    let mut ctx = GlContext::new();
    let mut buf: Buffer<u16> = Buffer::new(&mut ctx, BufferType::IndexArray);

    buf.push(&[7, 7, 7, 7, 7]);
    buf.set_data(&[10, 20, 30]);
    assert_eq!(buf.len(), 3);
    assert_eq!(buf.get(0), 10);
    assert_eq!(buf.get(1), 20);
    assert_eq!(buf.get(2), 30);

    buf.destroy(&mut ctx);
}

#[test]
fn indexed_writes_hit_only_the_mirror() {
    let mut ctx = GlContext::new();
    let mut buf: Buffer<u16> = Buffer::new(&mut ctx, BufferType::Array);

    buf.set_data(&[1, 2, 3]);
    let len = buf.len();
    buf.upload_data(&mut ctx, 0, len, true);
    buf.set(1, 42);
    assert_eq!(buf.get(1), 42);
    assert_eq!(buf.device_contents(), &[1, 2, 3]);

    buf.destroy(&mut ctx);
}

#[test]
fn resize_truncates_or_fills_with_the_default() {
    let mut ctx = GlContext::new();
    let mut buf: Buffer<u16> = Buffer::new(&mut ctx, BufferType::Array);

    buf.set_data(&[1, 2, 3, 4]);
    buf.resize(2, 0);
    assert_eq!(buf.len(), 2);
    assert_eq!(buf.get(0), 1);
    assert_eq!(buf.get(1), 2);

    buf.resize(5, 9);
    assert_eq!(buf.len(), 5);
    assert_eq!(buf.get(1), 2);
    assert_eq!(buf.get(2), 9);
    assert_eq!(buf.get(4), 9);
    assert!(!buf.is_empty());
    buf.clear();
    assert!(buf.is_empty());

    buf.destroy(&mut ctx);
}

#[test]
fn upload_window_transfers_only_the_requested_range() {
    let mut ctx = GlContext::new();
    let mut buf: Buffer<u16> = Buffer::new(&mut ctx, BufferType::Array);

    buf.set_data(&[5, 6, 7, 8]);
    buf.upload_data(&mut ctx, 1, 3, false);
    assert_eq!(buf.device_contents(), &[6, 7]);

    buf.destroy(&mut ctx);
}
