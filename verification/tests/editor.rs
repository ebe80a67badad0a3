use translit_tui::editor::{ClipboardBackend, EditCommand, EditorState};

fn type_text(st: &mut EditorState, text: &str) {
    for c in text.chars() {
        st.insert(c);
    }
}

fn input_text(st: &EditorState) -> String {
    st.input().iter().collect()
}

#[test]
fn new_state_is_empty() {
    let st = EditorState::new(ClipboardBackend::Arboard);
    assert_eq!(input_text(&st), "");
    assert_eq!(st.cursor(), 0);
    assert_eq!(st.output(), "");
    assert_eq!(st.backend(), ClipboardBackend::Arboard);
}

#[test]
fn cursor_stays_in_bounds_through_mixed_commands() {
    let mut st = EditorState::new(ClipboardBackend::Xclip);
    let cmds = [
        EditCommand::MoveLeft,
        EditCommand::InsertChar('a'),
        EditCommand::InsertChar('b'),
        EditCommand::MoveRight,
        EditCommand::DeleteBackward,
        EditCommand::MoveLeft,
        EditCommand::MoveLeft,
        EditCommand::MoveLeft,
        EditCommand::DeleteBackward,
        EditCommand::InsertChar('c'),
        EditCommand::Commit,
        EditCommand::MoveRight,
        EditCommand::DeleteBackward,
    ];
    for cmd in cmds {
        let _ = st.apply(cmd);
        assert!(st.cursor() <= st.input().len());
    }
}

#[test]
fn delete_at_left_edge_is_a_no_op() {
    let mut st = EditorState::new(ClipboardBackend::Xclip);
    st.delete_before_cursor();
    assert_eq!(input_text(&st), "");
    assert_eq!(st.cursor(), 0);

    type_text(&mut st, "ab");
    st.reset_cursor();
    for _ in 0..3 {
        st.delete_before_cursor();
        assert_eq!(input_text(&st), "ab");
        assert_eq!(st.cursor(), 0);
    }
}

#[test]
fn typing_from_empty_buffer_round_trips() {
    let mut st = EditorState::new(ClipboardBackend::Xclip);
    type_text(&mut st, "privet");
    assert_eq!(input_text(&st), "privet");
    assert_eq!(st.cursor(), 6);
}

#[test]
fn output_tracks_input_after_every_edit() {
    let mut st = EditorState::new(ClipboardBackend::Xclip);
    st.insert('m');
    assert_eq!(st.output(), "м");
    st.insert('i');
    assert_eq!(st.output(), "ми");
    st.insert('r');
    assert_eq!(st.output(), "мир");
    st.delete_before_cursor();
    assert_eq!(st.output(), "ми");
    st.delete_before_cursor();
    st.delete_before_cursor();
    assert_eq!(st.output(), "");
}

#[test]
fn extension_rules_apply() {
    let mut st = EditorState::new(ClipboardBackend::Xclip);
    st.insert('w');
    assert_eq!(st.output(), "в");
    let req = st.commit();
    assert_eq!(req.text, "в");
    st.insert('h');
    assert_eq!(st.output(), "х");
}

#[test]
fn digraph_takes_precedence_over_single_letter() {
    let mut st = EditorState::new(ClipboardBackend::Xclip);
    type_text(&mut st, "e'");
    assert_eq!(st.output(), "э");
    let mut st2 = EditorState::new(ClipboardBackend::Xclip);
    type_text(&mut st2, "zh");
    assert_eq!(st2.output(), "ж");
}

#[test]
fn commit_sends_output_and_resets() {
    let mut st = EditorState::new(ClipboardBackend::Xclip);
    type_text(&mut st, "privet");
    assert_eq!(st.output(), "привет");
    let req = st.commit();
    assert_eq!(req.text, "привет");
    assert_eq!(req.backend, ClipboardBackend::Xclip);
    assert_eq!(input_text(&st), "");
    assert_eq!(st.cursor(), 0);
    assert_eq!(st.output(), "");
}

#[test]
fn commit_uses_the_configured_backend() {
    let mut st = EditorState::new(ClipboardBackend::WlClipboard);
    type_text(&mut st, "da");
    let req = st.commit();
    assert_eq!(req.backend, ClipboardBackend::WlClipboard);
    assert_eq!(req.text, "да");

    let mut st2 = EditorState::new(ClipboardBackend::Arboard);
    let req2 = st2.commit();
    assert_eq!(req2.backend, ClipboardBackend::Arboard);
    assert_eq!(req2.text, "");
}

#[test]
fn cursor_saturates_at_both_ends() {
    let mut st = EditorState::new(ClipboardBackend::Xclip);
    type_text(&mut st, "abc");
    assert_eq!(st.cursor(), 3);
    st.move_right();
    assert_eq!(st.cursor(), 3);
    st.move_left();
    st.move_left();
    st.move_left();
    assert_eq!(st.cursor(), 0);
    st.move_left();
    assert_eq!(st.cursor(), 0);
}

#[test]
fn mid_string_insertion_lands_at_the_cursor() {
    let mut st = EditorState::new(ClipboardBackend::Xclip);
    type_text(&mut st, "mama");
    st.move_left();
    st.move_left();
    assert_eq!(st.cursor(), 2);
    st.insert('X');
    assert_eq!(input_text(&st), "maXma");
    assert_eq!(st.cursor(), 3);
}

#[test]
fn deleting_a_multibyte_codepoint_restores_the_buffer() {
    let mut st = EditorState::new(ClipboardBackend::Xclip);
    st.insert('ю');
    st.delete_before_cursor();
    assert_eq!(input_text(&st), "");
    assert_eq!(st.cursor(), 0);

    let mut st2 = EditorState::new(ClipboardBackend::Xclip);
    type_text(&mut st2, "ab");
    st2.move_left();
    st2.insert('я');
    assert_eq!(input_text(&st2), "aяb");
    st2.delete_before_cursor();
    assert_eq!(input_text(&st2), "ab");
    assert_eq!(st2.cursor(), 1);
}

#[test]
fn byte_index_counts_whole_codepoints() {
    let mut st = EditorState::new(ClipboardBackend::Xclip);
    st.insert('a');
    st.insert('ю');
    st.insert('€');
    st.insert('b');
    assert_eq!(st.byte_index(), 7);
    st.move_left();
    assert_eq!(st.byte_index(), 6);
    st.move_left();
    assert_eq!(st.byte_index(), 3);
    st.move_left();
    assert_eq!(st.byte_index(), 1);
    st.move_left();
    assert_eq!(st.byte_index(), 0);
    assert_eq!(input_text(&st).len(), 7);
}

#[test]
fn clamp_cursor_bounds_into_the_buffer() {
    let mut st = EditorState::new(ClipboardBackend::Xclip);
    type_text(&mut st, "abc");
    assert_eq!(st.clamp_cursor(0), 0);
    assert_eq!(st.clamp_cursor(2), 2);
    assert_eq!(st.clamp_cursor(3), 3);
    assert_eq!(st.clamp_cursor(5), 3);
}

#[test]
fn apply_dispatches_and_only_commit_requests_the_clipboard() {
    let mut st = EditorState::new(ClipboardBackend::WlClipboard);
    assert!(st.apply(EditCommand::InsertChar('m')).is_none());
    assert_eq!(st.output(), "м");
    assert!(st.apply(EditCommand::MoveLeft).is_none());
    assert_eq!(st.cursor(), 0);
    assert!(st.apply(EditCommand::MoveRight).is_none());
    assert_eq!(st.cursor(), 1);
    assert!(st.apply(EditCommand::DeleteBackward).is_none());
    assert_eq!(input_text(&st), "");
    let _ = st.apply(EditCommand::InsertChar('a'));
    let req = st.apply(EditCommand::Commit).expect("commit hands back a request");
    assert_eq!(req.text, "а");
    assert_eq!(req.backend, ClipboardBackend::WlClipboard);
    assert_eq!(input_text(&st), "");
    assert_eq!(st.output(), "");
}

#[test]
fn char_utf8_len_matches_encoding_width() {
    assert_eq!(translit_tui::editor::char_utf8_len('a'), 1);
    assert_eq!(translit_tui::editor::char_utf8_len('ю'), 2);
    assert_eq!(translit_tui::editor::char_utf8_len('€'), 3);
    assert_eq!(translit_tui::editor::char_utf8_len('\u{1F600}'), 4);
    assert_eq!('\u{1F600}'.len_utf8(), 4);
}
