use crossterm::style::{Color, ContentStyle, Stylize};
use ropey::Rope;
use rust_text_editor::client::editor_client::{ClientError, EditorClient};
use rust_text_editor::editor::{
    Editor, EditorError, KeyCode, KeyInput, KeyKind, KeyOutcome, SaveKind, highlight_segments,
};
use rust_text_editor::mode_manager::{CommandAction, ModeManager, NormalModeAction};
use rust_text_editor::server::editor_server::EditorServer;
use rust_text_editor::server::events::{BufferId, EditMode, EditorEvent, ServerError};
use rust_text_editor::server::server_client::Client;
use rust_text_editor::syntax::{HighlightColor, HighlightType, SyntaxHighlighter};
use rust_text_editor::text_buffer::TextBuffer;

fn press(code: KeyCode) -> KeyInput {
    KeyInput { kind: KeyKind::Press, code }
}

fn type_command(editor: &mut Editor, command: &str) -> KeyOutcome {
    editor.handle_key_event(press(KeyCode::Char(':'))).unwrap();
    for ch in command.chars() {
        editor.handle_key_event(press(KeyCode::Char(ch))).unwrap();
    }
    editor.handle_key_event(press(KeyCode::Enter)).unwrap()
}

// Text buffer

#[test]
fn buffer_insert_then_backspace_restores_text() {
    let mut buffer = TextBuffer::from_string("hello".to_string());
    buffer.set_cursor_position(2).unwrap();
    buffer.insert_char('X');
    assert_eq!(buffer.get_content(), "heXllo");
    buffer.delete_char();
    assert_eq!(buffer.get_content(), "hello");
    assert_eq!(buffer.get_cursor_position(), 2);
    assert!(!buffer.is_modified());
}

#[test]
fn buffer_horizontal_moves_undo_each_other() {
    let mut buffer = TextBuffer::from_string("abc".to_string());
    buffer.set_cursor_position(1).unwrap();
    buffer.move_cursor_right();
    buffer.move_cursor_left();
    assert_eq!(buffer.get_cursor_position(), 1);
}

#[test]
fn buffer_vertical_moves_keep_column_within_line_text() {
    let mut buffer = TextBuffer::from_string("hello world\nhi\nhello again".to_string());
    buffer.set_cursor_position(8).unwrap();
    buffer.move_cursor_down();
    assert_eq!(buffer.get_cursor_position(), 14);
    assert_eq!(buffer.get_cursor_display_position(), (1, 2));
}

#[test]
fn buffer_saved_state_is_unmodified_and_reset_restores_it() {
    let mut buffer = TextBuffer::from_string("abc".to_string());
    buffer.insert_char('d');
    buffer.mark_buffer_as_saved();
    assert!(!buffer.is_modified());
    buffer.insert_char('e');
    assert!(buffer.is_modified());
    buffer.reset_buffer();
    assert_eq!(buffer.get_content(), "abcd");
    assert_eq!(buffer.get_cursor_position(), 4);
    assert!(!buffer.is_modified());
}

#[test]
fn buffer_delete_past_end_is_refused() {
    let mut buffer = TextBuffer::from_string("hi".to_string());
    assert!(buffer.delete_char_at_position(2).is_err());
    assert_eq!(buffer.delete_char_at_position(1).unwrap(), 'i');
    assert_eq!(buffer.get_content(), "h");
}

#[test]
fn buffer_rope_statistics() {
    let buffer = TextBuffer::from_string("héllo\nworld".to_string());
    let st = buffer.rope_statistics();
    assert_eq!(st.chars, 11);
    assert_eq!(st.bytes, 12);
    assert_eq!(st.lines, 2);
    assert!(st.chunks >= 1);
    assert_eq!(st.avg_chunk_size, st.bytes / st.chunks);
}

#[test]
fn buffer_display_position_after_line_break() {
    let buffer = TextBuffer::from_string("ab\r\ncd\n".to_string());
    assert_eq!(buffer.get_cursor_display_position(), (2, 0));
}

// Mode manager

#[test]
fn commands_ignore_surrounding_whitespace() {
    let mut m = ModeManager::new();
    for ch in "  wq  ".chars() {
        m.add_to_command_buffer(ch);
    }
    assert_eq!(m.execute_command(), Some(CommandAction::Save));
    for ch in " w  out.txt ".chars() {
        m.add_to_command_buffer(ch);
    }
    assert_eq!(m.execute_command(), Some(CommandAction::SaveAs("out.txt".to_string())));
}

#[test]
fn pending_sequences_complete_nothing() {
    let mut m = ModeManager::new();
    m.add_key_to_sequence('d');
    assert!(m.is_sequence_pending());
    assert_eq!(m.process_normal_mode_keys(), None);
    assert_eq!(m.get_key_sequence(), &['d']);
    m.add_key_to_sequence('x');
    assert!(!m.is_sequence_pending());
    assert_eq!(m.process_normal_mode_keys(), None);
    assert_eq!(m.get_key_sequence(), &['d', 'x']);
    m.add_key_to_sequence('a');
    m.add_key_to_sequence('b');
    assert_eq!(m.process_normal_mode_keys(), None);
    assert!(m.get_key_sequence().is_empty());
}

#[test]
fn goto_line_overflow_is_no_command() {
    let mut m = ModeManager::new();
    for ch in "99999999999999999999999".chars() {
        m.add_to_command_buffer(ch);
    }
    assert_eq!(m.execute_command(), None);
    m.add_key_to_sequence('x');
    assert_eq!(m.process_normal_mode_keys(), Some(NormalModeAction::DeleteChar));
}

// Server

#[test]
fn server_insert_then_delete_restores() {
    let mut server = EditorServer::new();
    let client = server.connect_client().unwrap();
    let buffer = server.create_buffer(client, Some("abc".to_string())).unwrap();
    server.insert_char(buffer, 3, 'Z').unwrap();
    assert_eq!(server.get_cursor_position(buffer).unwrap(), 4);
    server.delete_char(buffer, 3).unwrap();
    assert_eq!(server.get_buffer_content(buffer).unwrap(), "abc");
    assert_eq!(server.get_cursor_position(buffer).unwrap(), 3);
}

#[test]
fn server_refuses_positions_outside_the_text() {
    let mut server = EditorServer::new();
    let client = server.connect_client().unwrap();
    let buffer = server.create_buffer(client, Some("abc".to_string())).unwrap();
    assert!(matches!(server.insert_char(buffer, 4, 'x'), Err(ServerError::InvalidOperation)));
    assert!(matches!(server.insert_char(buffer, -1, 'x'), Err(ServerError::InvalidOperation)));
    assert!(matches!(server.delete_char(buffer, 3), Err(ServerError::InvalidOperation)));
    assert!(matches!(server.set_cursor_position(buffer, -2), Err(ServerError::InvalidOperation)));
    assert_eq!(server.get_buffer_content(buffer).unwrap(), "abc");
    server.set_cursor_position(buffer, 500).unwrap();
    assert_eq!(server.get_cursor_position(buffer).unwrap(), 3);
}

#[test]
fn server_events_reach_only_followers_and_are_handed_out_once() {
    let mut server = EditorServer::new();
    let follower = server.connect_client().unwrap();
    let other = server.connect_client().unwrap();
    let buffer = server.create_buffer(follower, Some("ab".to_string())).unwrap();
    server.subscribe_to_buffer(follower, buffer).unwrap();
    server.delete_char(buffer, 0).unwrap();
    server.set_edit_mode(buffer, EditMode::Insert).unwrap();
    server.move_cursor_left(buffer).unwrap();

    let events = server.get_client_events(follower).unwrap();
    assert_eq!(events.len(), 3);
    match &events[0] {
        EditorEvent::BufferChanged { buffer_id, changes } => {
            assert_eq!(*buffer_id, buffer);
            assert_eq!(changes.len(), 1);
            assert_eq!(changes[0].position, 0);
            assert_eq!(changes[0].deleted_text, "a");
            assert_eq!(changes[0].inserted_text, "");
        },
        _ => panic!("expected a buffer change"),
    }
    assert!(matches!(events[1], EditorEvent::ModeChanged { mode: EditMode::Insert, .. }));
    assert!(matches!(events[2], EditorEvent::CursorMoved { position: 0, .. }));
    assert!(server.get_client_events(follower).unwrap().is_empty());
    assert!(server.get_client_events(other).unwrap().is_empty());
}

#[test]
fn server_disconnect_keeps_buffers_of_others() {
    let mut server = EditorServer::new();
    let a = server.connect_client().unwrap();
    let b = server.connect_client().unwrap();
    let buffer_a = server.create_buffer(a, None).unwrap();
    let buffer_b = server.create_buffer(b, Some("kept".to_string())).unwrap();
    server.disconnect_client(a).unwrap();
    assert!(server.get_buffer_content(buffer_a).is_err());
    assert_eq!(server.get_buffer_content(buffer_b).unwrap(), "kept");
    assert!(matches!(server.disconnect_client(a), Err(ServerError::ClientNotFound)));
    assert!(matches!(server.subscribe_to_buffer(a, buffer_b), Err(ServerError::ClientNotFound)));
    assert!(matches!(server.subscribe_to_buffer(b, buffer_a), Err(ServerError::BufferNotFound)));
    assert!(matches!(server.get_client_events(a), Err(ServerError::ClientNotFound)));
}

#[test]
fn identifiers_are_random() {
    assert_ne!(BufferId::new(), BufferId::new());
}

#[test]
fn server_error_messages() {
    assert_eq!(ServerError::ClientNotFound.message(), "Client not found");
    assert_eq!(ServerError::BufferNotFound.message(), "Buffer not found");
    assert_eq!(ServerError::InvalidOperation.message(), "Invalid operation");
    assert_eq!(ServerError::InternalError("boom".to_string()).message(), "Internal error: boom");
}

#[test]
fn error_debug_texts() {
    assert_eq!(EditorError::NoFilePath.debug_text(), format!("{:?}", EditorError::NoFilePath));
    let e = EditorError::ClientError(ClientError::ServerError(ServerError::BufferNotFound));
    assert_eq!(e.debug_text(), "ClientError(ServerError(BufferNotFound))");
    let e = ServerError::InternalError("a\"b".to_string());
    assert_eq!(e.debug_text(), format!("{:?}", e));
    assert_eq!(e.debug_text(), "InternalError(\"a\\\"b\")");
    let io = EditorError::IoError(std::io::Error::other("disk full"));
    assert_eq!(io.debug_text(), format!("{:?}", io));
}

// Client

#[test]
fn client_clamps_cursor_and_refuses_large_positions() {
    let mut client = EditorClient::new().unwrap();
    let buffer = client.create_buffer(Some("abc".to_string())).unwrap();
    client.set_cursor_position(buffer, usize::MAX).unwrap();
    assert_eq!(client.get_cursor_position(buffer).unwrap(), 3);
    assert!(matches!(
        client.insert_char(buffer, usize::MAX, 'x'),
        Err(ClientError::ServerError(ServerError::InvalidOperation))
    ));
    assert_eq!(client.get_content(buffer).unwrap(), "abc");
}

// Editor

#[test]
fn editor_starts_with_greeting() {
    let editor = Editor::new().unwrap();
    assert_eq!(editor.get_status_message(), "Hello from rust-text-editor");
    assert!(matches!(editor.get_current_mode(), Err(EditorError::NoActiveBuffer)));
}

#[test]
fn editor_missing_current_buffer() {
    let mut editor = Editor::with_content("abc".to_string()).unwrap();
    editor.switch_to_buffer(BufferId(7)).unwrap();
    assert!(matches!(
        editor.get_current_buffer_content(),
        Err(EditorError::ClientError(ClientError::ServerError(ServerError::BufferNotFound)))
    ));
    // Typing nothing still counts as an edit, and the reparse finds no buffer.
    assert!(editor.insert_text_at_cursor("").is_err());
    assert!(editor.is_modified());
}

#[test]
fn editor_insert_text_and_typing_then_backspace() {
    let mut editor = Editor::with_content("ac".to_string()).unwrap();
    editor.set_cursor_position(1).unwrap();
    editor.insert_text_at_cursor("bb").unwrap();
    assert_eq!(editor.get_current_buffer_content().unwrap(), "abbc");
    editor.enter_insert_mode().unwrap();
    editor.handle_key_event(press(KeyCode::Char('Z'))).unwrap();
    assert_eq!(editor.get_current_buffer_content().unwrap(), "abbZc");
    editor.handle_key_event(press(KeyCode::Backspace)).unwrap();
    assert_eq!(editor.get_current_buffer_content().unwrap(), "abbc");
    assert_eq!(editor.get_cursor_position().unwrap(), 3);
    editor.handle_key_event(press(KeyCode::Enter)).unwrap();
    assert_eq!(editor.get_current_buffer_content().unwrap(), "abb\nc");
    editor.handle_key_event(press(KeyCode::Esc)).unwrap();
    assert_eq!(editor.get_current_mode().unwrap(), EditMode::Normal);
    assert_eq!(editor.get_status_message(), "");
}

#[test]
fn editor_backspace_in_empty_buffer_is_refused() {
    let mut editor = Editor::with_content(String::new()).unwrap();
    assert!(matches!(
        editor.handle_insert_mode_backspace(),
        Err(EditorError::ClientError(ClientError::ServerError(ServerError::InvalidOperation)))
    ));
    assert!(!editor.is_modified());
}

#[test]
fn editor_key_release_is_ignored() {
    let mut editor = Editor::with_content("abc".to_string()).unwrap();
    let key = KeyInput { kind: KeyKind::Release, code: KeyCode::Char('i') };
    assert!(matches!(editor.handle_key_event(key).unwrap(), KeyOutcome::Continue));
    assert_eq!(editor.get_current_mode().unwrap(), EditMode::Normal);
}

#[test]
fn editor_visual_mode_keys() {
    let mut editor = Editor::with_content("abc".to_string()).unwrap();
    editor.handle_key_event(press(KeyCode::Char('v'))).unwrap();
    assert_eq!(editor.get_current_mode().unwrap(), EditMode::Visual);
    editor.handle_key_event(press(KeyCode::Char('h'))).unwrap();
    assert_eq!(editor.get_cursor_position().unwrap(), 2);
    editor.handle_key_event(press(KeyCode::Char('x'))).unwrap();
    assert_eq!(editor.get_status_message(), "Visual mode - ESC to return to Normal");
    editor.handle_key_event(press(KeyCode::Esc)).unwrap();
    assert_eq!(editor.get_current_mode().unwrap(), EditMode::Normal);
}

#[test]
fn editor_quit_keeps_unsaved_changes() {
    let mut editor = Editor::with_content("abc".to_string()).unwrap();
    editor.insert_char_at_cursor('d').unwrap();
    assert!(matches!(type_command(&mut editor, "q"), KeyOutcome::Continue));
    assert_eq!(editor.get_status_message(), "File modified! Use :q! to quit without saving");
    assert_eq!(editor.get_current_mode().unwrap(), EditMode::Normal);
    // The warning survives normal-mode keys.
    editor.handle_key_event(press(KeyCode::Char('h'))).unwrap();
    assert_eq!(editor.get_status_message(), "File modified! Use :q! to quit without saving");
    assert!(matches!(type_command(&mut editor, "q!"), KeyOutcome::Exit));
}

#[test]
fn editor_quit_without_changes_exits() {
    let mut editor = Editor::with_content("abc".to_string()).unwrap();
    assert!(matches!(type_command(&mut editor, "q"), KeyOutcome::Exit));
}

#[test]
fn editor_command_line_editing() {
    let mut editor = Editor::with_content("abc".to_string()).unwrap();
    editor.handle_key_event(press(KeyCode::Char(':'))).unwrap();
    assert_eq!(editor.get_current_mode().unwrap(), EditMode::Command);
    assert_eq!(editor.get_status_message(), ":");
    editor.handle_key_event(press(KeyCode::Backspace)).unwrap();
    assert_eq!(editor.get_status_message(), ":");
    editor.handle_key_event(press(KeyCode::Char('x'))).unwrap();
    editor.handle_key_event(press(KeyCode::Char('y'))).unwrap();
    editor.handle_key_event(press(KeyCode::Backspace)).unwrap();
    assert_eq!(editor.get_status_message(), ":x");
    editor.handle_key_event(press(KeyCode::Enter)).unwrap();
    assert_eq!(editor.get_status_message(), "Unknown command: x");
    assert_eq!(editor.get_current_mode().unwrap(), EditMode::Normal);
}

#[test]
fn editor_write_without_file_fails() {
    let mut editor = Editor::with_content("abc".to_string()).unwrap();
    assert!(matches!(type_command(&mut editor, "w"), KeyOutcome::Continue));
    assert_eq!(editor.get_status_message(), "Save failed: NoFilePath");
    assert!(matches!(editor.save(), Err(EditorError::NoFilePath)));
    let empty = Editor::new().unwrap();
    assert!(matches!(empty.save(), Err(EditorError::NoActiveBuffer)));
    assert!(matches!(empty.save_as("x".to_string()), Err(EditorError::NoActiveBuffer)));
}

#[test]
fn editor_write_as_then_write_and_quit() {
    let mut editor = Editor::with_content("abc".to_string()).unwrap();
    editor.insert_char_at_cursor('!').unwrap();
    let (kind, write) = match type_command(&mut editor, "w  out.txt ") {
        KeyOutcome::Write(kind, write) => (kind, write),
        _ => panic!("expected a write"),
    };
    assert_eq!(kind, SaveKind::SaveAs);
    assert_eq!(write.path, "out.txt");
    assert_eq!(write.content, "abc!");
    assert!(!editor.finish_write(kind, &write, Ok(())).unwrap());
    assert_eq!(editor.get_status_message(), "Saved as out.txt");
    assert_eq!(editor.current_file_path(), Some(&"out.txt".to_string()));
    assert!(!editor.is_modified());
    assert_eq!(editor.get_current_mode().unwrap(), EditMode::Normal);

    editor.insert_char_at_cursor('?').unwrap();
    let (kind, write) = match type_command(&mut editor, "wq") {
        KeyOutcome::Write(kind, write) => (kind, write),
        _ => panic!("expected a write"),
    };
    assert_eq!(kind, SaveKind::SaveAndQuit);
    assert_eq!(write.content, "abc!?");
    assert!(editor.finish_write(kind, &write, Ok(())).unwrap());
    assert_eq!(editor.get_status_message(), "Saved: out.txt");
    assert!(!editor.is_modified());
}

#[test]
fn editor_failed_write_reports_the_error() {
    let (mut editor, _) = Editor::open_file("f.txt".to_string(), "abc".to_string()).unwrap();
    assert_eq!(editor.get_status_message(), "Opened file: f.txt");
    let (kind, write) = match type_command(&mut editor, "w") {
        KeyOutcome::Write(kind, write) => (kind, write),
        _ => panic!("expected a write"),
    };
    assert_eq!(kind, SaveKind::Save);
    assert_eq!(write.path, "f.txt");
    let err = std::io::Error::other("disk full");
    let expected = format!("Save failed: {:?}", EditorError::IoError(std::io::Error::other("disk full")));
    assert!(!editor.finish_write(kind, &write, Err(err)).unwrap());
    assert_eq!(editor.get_status_message(), expected);
    let (kind, write) = match type_command(&mut editor, "w") {
        KeyOutcome::Write(kind, write) => (kind, write),
        _ => panic!("expected a write"),
    };
    assert!(!editor.finish_write(kind, &write, Ok(())).unwrap());
    assert_eq!(editor.get_status_message(), "File saved");
}

#[test]
fn editor_status_lines() {
    let mut editor = Editor::with_content("hello\nworld".to_string()).unwrap();
    let (first, second) = editor.status_lines().unwrap();
    assert_eq!(
        first,
        "Cursor: (2:6) | Mode: \"NORMAL\" | Status: Hello from rust-text-editor | [No Name]"
    );
    assert_eq!(second, "2:6 | i=Insert, v=Visual, :=Command");
    editor.enter_insert_mode().unwrap();
    editor.insert_char_at_cursor('!').unwrap();
    let (first, second) = editor.status_lines().unwrap();
    assert!(first.ends_with(" | [No Name] [+]"));
    assert!(first.contains("\"INSERT\""));
    assert_eq!(second, "2:7 | ESC=Normal");
}

#[test]
fn editor_scrolling_follows_the_cursor() {
    let content = (0..20).map(|i| format!("{}", i)).collect::<Vec<_>>().join("\n");
    let mut editor = Editor::with_content(content).unwrap();
    editor.set_viewport_size(3);
    editor.update_scroll_for_cursor().unwrap();
    assert_eq!(editor.get_scroll_offset(), 17);
    assert_eq!(editor.get_cursor_viewport_position().unwrap(), (2, 2));
    editor.set_cursor_position(5).unwrap();
    editor.update_scroll_for_cursor().unwrap();
    assert_eq!(editor.get_scroll_offset(), 2);
    assert_eq!(editor.get_visible_lines().unwrap(), vec!["2", "3", "4"]);
    editor.set_scroll_offset(1);
    editor.update_scroll_for_cursor().unwrap();
    assert_eq!(editor.get_scroll_offset(), 1);
}

#[test]
fn editor_visible_lines_follow_str_lines() {
    let mut editor = Editor::with_content("a\r\nb\n\nc\n".to_string()).unwrap();
    editor.set_viewport_size(10);
    assert_eq!(editor.get_visible_lines().unwrap(), vec!["a", "b", "", "c"]);
    editor.set_scroll_offset(9);
    assert!(editor.get_visible_lines().unwrap().is_empty());
}

#[test]
fn segments_of_a_highlighted_line() {
    let hs = vec![(0, 2, HighlightType::Keyword), (3, 7, HighlightType::Function)];
    let segments = highlight_segments(10, &hs);
    assert_eq!(
        segments,
        vec![
            (0, 2, Some(HighlightType::Keyword)),
            (2, 3, None),
            (3, 7, Some(HighlightType::Function)),
            (7, 10, None),
        ]
    );
    assert_eq!(highlight_segments(4, &Vec::new()), vec![(0, 4, None)]);
    assert!(highlight_segments(0, &Vec::new()).is_empty());
}

// Syntax

#[test]
fn rust_highlighting_marks_keywords() {
    let mut highlighter = SyntaxHighlighter::new();
    highlighter.set_language_for_extension("rs").unwrap();
    let text = "fn main() {}";
    let tree = highlighter.parse(text).unwrap();
    let rope = Rope::from_str(text);
    let hs = highlighter.highlight_line(&rope, 0, &tree);
    assert!(hs.contains(&(0, 2, HighlightType::Keyword)));
    for w in hs.windows(2) {
        assert!(w[0].0 <= w[1].0);
    }
}

#[test]
fn unknown_extensions_highlight_nothing() {
    let mut highlighter = SyntaxHighlighter::new();
    highlighter.set_language_for_extension("txt").unwrap();
    let tree = highlighter.parse("fn main() {}");
    assert!(tree.is_none());
    assert_eq!(HighlightType::Keyword.color(), HighlightColor::Blue);
    assert_eq!(HighlightType::Function.color(), HighlightColor::DarkCyan);
}

#[test]
fn server_side_client_queue_and_subscriptions() {
    let mut client = Client::new();
    let buffer = BufferId(1);
    assert!(!client.is_subscribed_to_buffer(buffer));
    client.subscribe_to_buffer(buffer);
    assert!(client.is_subscribed_to_buffer(buffer));
    client.push_to_event_queue(EditorEvent::CursorMoved { buffer_id: buffer, position: 3 });
    client.push_to_event_queue(EditorEvent::ModeChanged { buffer_id: buffer, mode: EditMode::Visual });
    let events = client.get_event_queue();
    assert_eq!(events.len(), 2);
    assert!(matches!(events[0], EditorEvent::CursorMoved { position: 3, .. }));
    assert!(client.get_event_queue().is_empty());
    client.unsubscribe_from_buffer(buffer);
    assert!(!client.is_subscribed_to_buffer(buffer));
}

#[test]
fn highlight_styles_use_their_colours() {
    assert_eq!(HighlightType::Keyword.to_style(), ContentStyle::new().with(Color::Blue));
    assert_eq!(HighlightType::Comment.to_style(), ContentStyle::new().with(Color::Green));
    assert_eq!(HighlightType::String.to_style(), ContentStyle::new().with(Color::Red));
    assert_eq!(HighlightType::Number.to_style(), ContentStyle::new().with(Color::Yellow));
    assert_eq!(HighlightType::Function.to_style(), ContentStyle::new().with(Color::DarkCyan));
    assert_eq!(HighlightType::FunctionMethod.to_style(), ContentStyle::new().with(Color::Blue));
}

#[test]
fn opening_a_rust_file_highlights_it() {
    let (editor, syntax) = Editor::open_file("src/main.rs".to_string(), "fn main() {}".to_string()).unwrap();
    assert!(syntax.is_ok());
    let hs = editor.highlights_for_line(0).unwrap();
    assert!(hs.contains(&(0, 2, HighlightType::Keyword)));
    let (editor, syntax) = Editor::open_file("notes.txt".to_string(), "fn main() {}".to_string()).unwrap();
    assert!(syntax.is_ok());
    assert!(editor.highlights_for_line(0).unwrap().is_empty());
}

#[test]
fn language_follows_the_path_extension() {
    let mut highlighter = SyntaxHighlighter::new();
    highlighter.set_language_from_path("archive.rs.txt").unwrap();
    assert!(highlighter.parse("fn f() {}").is_none());
    highlighter.set_language_from_path(".rs").unwrap();
    assert!(highlighter.parse("fn f() {}").is_none());
    highlighter.set_language_from_path("dir/lib.rs").unwrap();
    assert!(highlighter.parse("fn f() {}").is_some());
}

#[test]
fn identifiers_are_version_4_uuids() {
    for _ in 0..8 {
        let v = BufferId::new().0;
        assert_eq!((v >> 76) & 0xF, 4);
        assert_eq!((v >> 62) & 0x3, 2);
        let c = rust_text_editor::server::events::ClientId::new().0;
        assert_eq!((c >> 76) & 0xF, 4);
        assert_eq!((c >> 62) & 0x3, 2);
    }
}

#[test]
fn editor_without_parse_has_no_highlights() {
    let mut editor = Editor::with_content("fn main() {}".to_string()).unwrap();
    assert!(editor.highlights_for_line(0).unwrap().is_empty());
    editor.switch_to_buffer(BufferId(3)).unwrap();
    assert!(editor.highlights_for_line(0).unwrap().is_empty());
    let (mut editor, _) = Editor::open_file("a.rs".to_string(), "fn main() {}".to_string()).unwrap();
    editor.switch_to_buffer(BufferId(3)).unwrap();
    assert!(matches!(
        editor.highlights_for_line(0),
        Err(EditorError::ClientError(ClientError::ServerError(ServerError::BufferNotFound)))
    ));
}

#[test]
fn redo_takes_any_key() {
    let mut m = ModeManager::new();
    m.add_key_to_sequence('r');
    m.add_key_to_sequence('é');
    assert_eq!(m.process_normal_mode_keys(), Some(NormalModeAction::Redo));
    assert!(m.get_key_sequence().is_empty());
}

#[test]
fn a_bare_carriage_return_stays_on_the_last_line() {
    let mut editor = Editor::with_content("a\r".to_string()).unwrap();
    editor.set_viewport_size(5);
    assert_eq!(editor.get_visible_lines().unwrap(), vec!["a\r"]);
    let mut editor = Editor::with_content("a\r\nb\r".to_string()).unwrap();
    editor.set_viewport_size(5);
    assert_eq!(editor.get_visible_lines().unwrap(), "a\r\nb\r".lines().collect::<Vec<_>>());
}

#[test]
fn highlights_are_sorted_and_ordered() {
    let mut highlighter = SyntaxHighlighter::new();
    highlighter.set_language_for_extension("rs").unwrap();
    let text = "fn main() { let s = \"x\"; // c\n}";
    let tree = highlighter.parse(text).unwrap();
    let rope = Rope::from_str(text);
    let hs = highlighter.highlight_line(&rope, 0, &tree);
    assert!(!hs.is_empty());
    for w in hs.windows(2) {
        assert!(w[0].0 <= w[1].0);
    }
    for h in &hs {
        assert!(h.0 <= h.1);
    }
}

#[test]
fn disconnect_counts() {
    let mut server = EditorServer::new();
    let a = server.connect_client().unwrap();
    let b = server.connect_client().unwrap();
    server.create_buffer(a, None).unwrap();
    server.create_buffer(a, None).unwrap();
    server.create_buffer(b, None).unwrap();
    server.disconnect_client(a).unwrap();
    assert_eq!(server.client_count(), 1);
    assert_eq!(server.buffer_count(), 1);
}
