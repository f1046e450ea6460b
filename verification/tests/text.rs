use throbber::text::{
    clear_line, fail_line, frame_line, success_line, CLEAR_LINE, FAIL_MARK, SUCCESS_MARK,
};

#[test]
fn clear_line_erases_and_returns() {
    assert_eq!(CLEAR_LINE, "\x1B[2K\r");
    assert_eq!(clear_line(), "\x1B[2K\r");
}

#[test]
fn marks_end_in_a_space() {
    assert_eq!(SUCCESS_MARK, "✔ ");
    assert_eq!(FAIL_MARK, "✖ ");
}

#[test]
fn frame_line_joins_glyph_and_message() {
    assert_eq!(frame_line("|", "work"), "\x1B[2K\r| work");
}

#[test]
fn frame_line_has_no_line_break() {
    assert!(!frame_line("⠋", "calculating stuff").ends_with('\n'));
}

#[test]
fn frame_line_with_empty_message_keeps_the_space() {
    assert_eq!(frame_line("⠋", ""), "\x1B[2K\r⠋ ");
}

#[test]
fn success_line_is_marked_and_ended() {
    assert_eq!(success_line("Success"), "\x1B[2K\r✔ Success\n");
}

#[test]
fn fail_line_is_marked_and_ended() {
    assert_eq!(fail_line("boom"), "\x1B[2K\r✖ boom\n");
}

#[test]
fn status_lines_keep_the_message_as_given() {
    let message = "  two  spaces\tand a tab ✔ ";
    assert_eq!(success_line(message), format!("\x1B[2K\r✔ {}\n", message));
    assert_eq!(fail_line(message), format!("\x1B[2K\r✖ {}\n", message));
}
