use rust_text_editor::client::editor_client::EditorClient;
use rust_text_editor::server::events::{BufferId, EditMode};

#[test]
fn test_client_creation() {
    let client = EditorClient::new().unwrap();
    assert_eq!(client.buffer_count(), 0);
}

#[test]
fn test_create_buffer() {
    let mut client = EditorClient::new().unwrap();

    let buffer_id = client.create_buffer(None).unwrap();
    assert_eq!(client.buffer_count(), 1);

    let content = client.get_content(buffer_id).unwrap();
    assert_eq!(content, "");
}

#[test]
fn test_create_buffer_with_content() {
    let mut client = EditorClient::new().unwrap();

    let buffer_id = client
        .create_buffer(Some("hello world".to_string()))
        
        .unwrap();
    let content = client.get_content(buffer_id).unwrap();
    assert_eq!(content, "hello world");
}

#[test]
fn test_basic_editing() {
    let mut client = EditorClient::new().unwrap();
    let buffer_id = client.create_buffer(Some("abc".to_string())).unwrap();

    // Insert character at position
    client.insert_char(buffer_id, 1, 'X').unwrap();
    let content = client.get_content(buffer_id).unwrap();
    assert_eq!(content, "aXbc");

    // Delete character
    client.delete_char(buffer_id, 1).unwrap();
    let content = client.get_content(buffer_id).unwrap();
    assert_eq!(content, "abc");
}

#[test]
fn editor_client_tests_test_cursor_operations() {
    let mut client = EditorClient::new().unwrap();
    let buffer_id = client
        .create_buffer(Some("hello".to_string()))
        
        .unwrap();

    // Test cursor position
    client.set_cursor_position(buffer_id, 2).unwrap();
    let pos = client.get_cursor_position(buffer_id).unwrap();
    assert_eq!(pos, 2);

    // Test cursor movement
    client.move_cursor_right(buffer_id).unwrap();
    let pos = client.get_cursor_position(buffer_id).unwrap();
    assert_eq!(pos, 3);
}

#[test]
fn test_mode_operations() {
    let mut client = EditorClient::new().unwrap();
    let buffer_id = client.create_buffer(None).unwrap();

    // Default mode should be Normal
    let mode = client.get_mode(buffer_id).unwrap();
    assert_eq!(mode, EditMode::Normal);

    // Switch to Insert mode
    client.set_mode(buffer_id, EditMode::Insert).unwrap();
    let mode = client.get_mode(buffer_id).unwrap();
    assert_eq!(mode, EditMode::Insert);
}

#[test]
fn test_multiple_buffers() {
    let mut client = EditorClient::new().unwrap();

    let buffer1 = client
        .create_buffer(Some("buffer1".to_string()))
        
        .unwrap();
    let buffer2 = client
        .create_buffer(Some("buffer2".to_string()))
        
        .unwrap();

    assert_eq!(client.buffer_count(), 2);

    let content1 = client.get_content(buffer1).unwrap();
    let content2 = client.get_content(buffer2).unwrap();

    assert_eq!(content1, "buffer1");
    assert_eq!(content2, "buffer2");
}

#[test]
fn editor_client_tests_test_error_handling() {
    let mut client = EditorClient::new().unwrap();

    // Try to operate on non-existent buffer
    let fake_buffer_id = BufferId::new();
    assert!(client.get_content(fake_buffer_id).is_err());
    assert!(client.insert_char(fake_buffer_id, 0, 'X').is_err());
}
