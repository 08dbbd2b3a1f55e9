use render_math::buffer::{create_buffer_with_data, BufferUsage};

#[test]
fn staged_buffer_copies_bytes_and_records_size() {
    let data: Vec<u8> = vec![7, 0, 255, 42, 1];
    let usage = BufferUsage { bits: 0b101 };
    let b = create_buffer_with_data(&data, usage, Some(String::from("vertices")));
    assert_eq!(b.data, data);
    assert_eq!(b.size, 5);
    assert_eq!(b.usage, usage);
    assert_eq!(b.label.as_deref(), Some("vertices"));
}

#[test]
fn staged_buffer_of_no_bytes_is_empty() {
    let b = create_buffer_with_data(&[], BufferUsage { bits: 0 }, None);
    assert_eq!(b.data.len(), 0);
    assert_eq!(b.size, 0);
    assert!(b.label.is_none());
}
