use rust_text_editor::text_buffer::TextBuffer;

#[test]
fn test_new_buffer_is_empty() {
    let buffer = TextBuffer::new();
    assert_eq!(buffer.get_content(), "");
    assert_eq!(buffer.get_cursor_position(), 0);
}

#[test]
fn test_insert_single_char() {
    let mut buffer = TextBuffer::new();
    buffer.insert_char('a');

    assert_eq!(buffer.get_content(), "a");
    assert_eq!(buffer.get_cursor_position(), 1);
}

#[test]
fn test_insert_multiple_chars() {
    let mut buffer = TextBuffer::new();
    buffer.insert_char('h');
    buffer.insert_char('e');
    buffer.insert_char('l');
    buffer.insert_char('l');
    buffer.insert_char('o');

    assert_eq!(buffer.get_content(), "hello");
    assert_eq!(buffer.get_cursor_position(), 5);
}

#[test]
fn test_delete_char() {
    let mut buffer = TextBuffer::from_string("hello".to_string());
    buffer.delete_char();

    assert_eq!(buffer.get_content(), "hell");
    assert_eq!(buffer.get_cursor_position(), 4);
}

#[test]
fn test_delete_char_empty_buffer() {
    let mut buffer = TextBuffer::new();
    buffer.delete_char(); // Should not panic

    assert_eq!(buffer.get_content(), "");
    assert_eq!(buffer.get_cursor_position(), 0);
}

#[test]
fn test_cursor_movement_left() {
    let mut buffer = TextBuffer::from_string("hello".to_string());
    buffer.move_cursor_left();

    assert_eq!(buffer.get_cursor_position(), 4);

    buffer.move_cursor_left();
    assert_eq!(buffer.get_cursor_position(), 3);
}

#[test]
fn text_buffer_test_cursor_movement_up() {
    let mut buffer = TextBuffer::from_string("hello\nworld".to_string());
    buffer.set_cursor_position(9).unwrap(); // After the r
    buffer.move_cursor_up();
    assert_eq!(buffer.get_cursor_position(), 3);

    buffer.move_cursor_up();
    assert_eq!(buffer.get_cursor_position(), 3);
}

#[test]
fn text_buffer_test_cursor_movement_down() {
    let mut buffer = TextBuffer::from_string("hello\nworld".to_string());
    buffer.set_cursor_position(3).unwrap(); // After the r
    buffer.move_cursor_down();
    assert_eq!(buffer.get_cursor_position(), 9);

    buffer.move_cursor_down();
    assert_eq!(buffer.get_cursor_position(), 9);
}
#[test]
fn test_cursor_movement_right() {
    let mut buffer = TextBuffer::from_string("hello".to_string());
    buffer.set_cursor_position(0).unwrap(); // Move to start

    buffer.move_cursor_right();
    assert_eq!(buffer.get_cursor_position(), 1);

    buffer.move_cursor_right();
    assert_eq!(buffer.get_cursor_position(), 2);
}

#[test]
fn test_cursor_boundaries() {
    let mut buffer = TextBuffer::new();

    // Can't move left when at start
    buffer.move_cursor_left();
    assert_eq!(buffer.get_cursor_position(), 0);

    // Can't move right when at end
    buffer.move_cursor_right();
    assert_eq!(buffer.get_cursor_position(), 0);
}

#[test]
fn test_unicode_support() {
    let mut buffer = TextBuffer::new();
    buffer.insert_char('🦀'); // Rust crab emoji
    buffer.insert_char('é'); // Accented character

    assert_eq!(buffer.get_content(), "🦀é");
    assert_eq!(buffer.get_cursor_position(), 2);
}

#[test]
fn test_cursor_display_position_single_line() {
    let buffer = TextBuffer::from_string("hello".to_string());
    let (row, col) = buffer.get_cursor_display_position();

    assert_eq!(row, 0);
    assert_eq!(col, 5);
}

#[test]
fn test_cursor_display_position_empty_buffer() {
    let buffer = TextBuffer::new();
    let (row, col) = buffer.get_cursor_display_position();

    assert_eq!(row, 0);
    assert_eq!(col, 0);
}

#[test]
fn test_cursor_display_position_multiple_lines() {
    let mut buffer = TextBuffer::from_string("hello\nworld".to_string());
    let (row, col) = buffer.get_cursor_display_position();

    assert_eq!(row, 1); // Second line
    assert_eq!(col, 5); // "world".len()
}

#[test]
fn test_insert_at_middle() {
    let mut buffer = TextBuffer::from_string("hllo".to_string());
    buffer.set_cursor_position(1).unwrap(); // Position between 'h' and 'l'
    buffer.insert_char('e');

    assert_eq!(buffer.get_content(), "hello");
    assert_eq!(buffer.get_cursor_position(), 2);
}

#[test]
fn test_modified_hash() {
    let mut buffer = TextBuffer::from_string("hello".to_string());
    buffer.insert_char(' ');
    assert!(buffer.is_modified());
    buffer.delete_char();
    assert!(!buffer.is_modified());
}

#[test]
fn test_modified_hash_with_save() {
    let mut buffer = TextBuffer::from_string("hello".to_string());
    buffer.insert_char(' ');
    assert!(buffer.is_modified());
    buffer.mark_buffer_as_saved();
    assert!(!buffer.is_modified());
}

#[test]
fn test_long_modified_hash() {
    let mut buffer = TextBuffer::from_string("hello".to_string());
    for char in 'a'..'z' {
        buffer.insert_char(char);
        assert!(buffer.is_modified());
    }

    for char in 'a'..'z' {
        assert!(buffer.is_modified());
        buffer.delete_char();
    }

    assert!(!buffer.is_modified());
}

#[test]
fn test_reset_buffer() {
    let mut buffer = TextBuffer::from_string("hello".to_string());
    for char in 'a'..'z' {
        buffer.insert_char(char);
        assert!(buffer.is_modified());
    }

    buffer.reset_buffer();

    assert!(!buffer.is_modified());
    assert_eq!(buffer.get_content(), "hello");
}

#[test]
fn test_set_cursor_position_valid() {
    let mut buffer = TextBuffer::from_string("hello".to_string());

    // Should succeed for valid positions
    assert!(buffer.set_cursor_position(0).is_ok());
    assert_eq!(buffer.get_cursor_position(), 0);

    assert!(buffer.set_cursor_position(3).is_ok());
    assert_eq!(buffer.get_cursor_position(), 3);

    assert!(buffer.set_cursor_position(5).is_ok()); // End of string
    assert_eq!(buffer.get_cursor_position(), 5);
}

#[test]
fn test_set_cursor_position_invalid() {
    let mut buffer = TextBuffer::from_string("hello".to_string());

    // Should fail for out of bounds
    assert!(buffer.set_cursor_position(6).is_err());

    // Cursor should remain unchanged after failed set
    let original_pos = buffer.get_cursor_position();
    let _ = buffer.set_cursor_position(10);
    assert_eq!(buffer.get_cursor_position(), original_pos);
}

#[test]
fn test_insert_char_at_position_beginning() {
    let mut buffer = TextBuffer::from_string("hello".to_string());
    buffer.set_cursor_position(3).unwrap(); // Cursor at 'l'

    buffer.insert_char_at_position(0, 'X');

    assert_eq!(buffer.get_content(), "Xhello");
    assert_eq!(buffer.get_cursor_position(), 4); // Cursor moved right
}

#[test]
fn test_insert_char_at_position_middle() {
    let mut buffer = TextBuffer::from_string("hello".to_string());
    buffer.set_cursor_position(1).unwrap(); // Cursor at 'e'

    buffer.insert_char_at_position(3, 'X'); // Insert after cursor

    assert_eq!(buffer.get_content(), "helXlo");
    assert_eq!(buffer.get_cursor_position(), 1); // Cursor unchanged
}

#[test]
fn test_insert_char_at_position_before_cursor() {
    let mut buffer = TextBuffer::from_string("hello".to_string());
    buffer.set_cursor_position(3).unwrap(); // Cursor at first 'l'

    buffer.insert_char_at_position(2, 'X'); // Insert before cursor

    assert_eq!(buffer.get_content(), "heXllo");
    assert_eq!(buffer.get_cursor_position(), 4); // Cursor moved right
}

#[test]
fn test_insert_char_at_position_at_cursor() {
    let mut buffer = TextBuffer::from_string("hello".to_string());
    buffer.set_cursor_position(2).unwrap(); // Cursor at first 'l'

    buffer.insert_char_at_position(2, 'X'); // Insert exactly at cursor

    assert_eq!(buffer.get_content(), "heXllo");
    // What should happen to cursor when inserting AT cursor position?
    // Your current logic: position <= cursor_position, so cursor moves right
    assert_eq!(buffer.get_cursor_position(), 3);
}

#[test]
fn test_delete_char_at_position_before_cursor() {
    let mut buffer = TextBuffer::from_string("hello".to_string());
    buffer.set_cursor_position(3).unwrap(); // Cursor at first 'l'

    let _ = buffer.delete_char_at_position(1); // Delete 'e'

    assert_eq!(buffer.get_content(), "hllo");
    assert_eq!(buffer.get_cursor_position(), 2); // Cursor moved left
}

#[test]
fn test_delete_char_at_position_after_cursor() {
    let mut buffer = TextBuffer::from_string("hello".to_string());
    buffer.set_cursor_position(1).unwrap(); // Cursor at 'e'

    let _ = buffer.delete_char_at_position(3); // Delete first 'l'

    assert_eq!(buffer.get_content(), "helo");
    assert_eq!(buffer.get_cursor_position(), 1); // Cursor unchanged
}

#[test]
fn test_delete_char_at_position_at_cursor() {
    let mut buffer = TextBuffer::from_string("hello".to_string());
    buffer.set_cursor_position(2).unwrap(); // Cursor at first 'l'

    let _ = buffer.delete_char_at_position(2); // Delete character AT cursor

    assert_eq!(buffer.get_content(), "helo");
    // What should cursor position be after deleting AT cursor?
    // Your current logic: position < cursor_position (false), so no change
    assert_eq!(buffer.get_cursor_position(), 2);
}


#[test]
fn test_delete_char_out_of_bounds() {
    let mut buffer = TextBuffer::from_string("hi".to_string());

    // Should this panic, or gracefully handle?
    let _ = buffer.delete_char_at_position(5);
}

#[test]
fn test_position_methods_with_unicode() {
    let mut buffer = TextBuffer::from_string("🦀é".to_string());
    buffer.set_cursor_position(1).unwrap(); // After crab emoji

    buffer.insert_char_at_position(0, 'A');
    assert_eq!(buffer.get_content(), "A🦀é");
    assert_eq!(buffer.get_cursor_position(), 2); // Cursor moved right

    let _ = buffer.delete_char_at_position(0); // Delete 'A'
    assert_eq!(buffer.get_content(), "🦀é");
    assert_eq!(buffer.get_cursor_position(), 1); // Cursor moved left
}
