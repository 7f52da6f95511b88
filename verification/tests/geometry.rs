use lineedit::DefaultValidator;
use lineedit::DrawOp;
use lineedit::Painter;
use lineedit::PromptLines;
use lineedit::ValidationResult;
use lineedit::Validator;

#[test]
fn validator_unbalanced_quote_is_incomplete() {
    let v = DefaultValidator;
    assert!(matches!(v.validate("\"a"), ValidationResult::Incomplete));
}

#[test]
fn validator_balanced_quotes_are_complete() {
    let v = DefaultValidator;
    assert!(matches!(v.validate("\"a\""), ValidationResult::Complete));
}

#[test]
fn validator_is_idempotent() {
    let v = DefaultValidator;
    let first = v.validate("say \"hi");
    let second = v.validate("say \"hi");
    assert!(matches!(first, ValidationResult::Incomplete));
    assert!(matches!(second, ValidationResult::Incomplete));
}

#[test]
fn delete_range_clamps_cursor_to_boundaries() {
    let mut buffer = lineedit::LineBuffer::new();
    buffer.insert_str("hello world");
    // The cursor sits at the end; removing "lo wo" pulls it up with the
    // remaining text.
    buffer.delete_range(3, 8);
    assert_eq!(buffer.get_buffer(), "helrld");
    assert_eq!(buffer.insertion_point(), 6);

    // A cursor inside the removed range lands at its start.
    buffer.set_insertion_point(4);
    buffer.delete_range(2, 6);
    assert_eq!(buffer.get_buffer(), "he");
    assert_eq!(buffer.insertion_point(), 2);
}

#[test]
fn line_local_motions_stay_on_the_line() {
    let mut buffer = lineedit::LineBuffer::new();
    buffer.insert_str("one\ntwo\nthree");
    buffer.set_insertion_point(5);
    buffer.move_to_line_start();
    assert_eq!(buffer.insertion_point(), 4);
    buffer.move_to_line_end();
    assert_eq!(buffer.insertion_point(), 7);
}

#[test]
fn required_lines_counts_shared_row() {
    let mut painter = Painter::new();
    painter.init_terminal_size(80, 24);
    let lines = PromptLines::new(
        String::from("first\nsecond"),
        String::from("tail"),
        String::from("hint one\nhint two"),
    );
    // before = 2 lines, max(after, hint) = 2, so 2 + 2 - 1 = 3 rows; the
    // cursor sits on the prompt row, so nothing is already consumed.
    let (required, distance) = painter.required_lines(&lines, 0);
    assert_eq!(required, 3);
    assert_eq!(distance, 0);
}

#[test]
fn required_lines_never_negative() {
    let mut painter = Painter::new();
    painter.init_terminal_size(80, 24);
    let lines = PromptLines::new(String::new(), String::new(), String::new());
    let (required, distance) = painter.required_lines(&lines, 5);
    assert_eq!(required, 0);
    assert_eq!(distance, 5);
}

#[test]
fn prompt_lines_counts() {
    let lines = PromptLines::new(
        String::from("a\nb\nc"),
        String::from("trailing\n"),
        String::new(),
    );
    assert_eq!(lines.before_cursor_lines(), 3);
    assert_eq!(lines.after_cursor_lines(), 1);
    assert_eq!(lines.hint_lines(), 0);
}

#[test]
fn resize_growth_shifts_prompt_down_by_delta() {
    let mut painter = Painter::new();
    painter.init_terminal_size(80, 24);
    let pads = painter.initialize_prompt_position(0, 10);
    assert_eq!(pads, 0);
    assert_eq!(painter.get_prompt_start(), (0, 10));

    painter.handle_resize(80, 30);
    assert_eq!(painter.get_prompt_start(), (0, 16));
}

#[test]
fn resize_shrink_clamps_prompt_near_bottom() {
    let mut painter = Painter::new();
    painter.init_terminal_size(80, 24);
    painter.initialize_prompt_position(0, 10);

    painter.handle_resize(80, 8);
    assert_eq!(painter.get_prompt_start(), (0, 6));
}

#[test]
fn initialize_prompt_position_reserves_bottom_rows() {
    let mut painter = Painter::new();
    painter.init_terminal_size(80, 24);

    // A dirty column forces the next row; the last row needs two pads.
    let pads = painter.initialize_prompt_position(5, 23);
    assert_eq!(pads, 2);
    assert_eq!(painter.get_prompt_start(), (0, 22));

    // The second-to-last row needs one pad.
    let mut painter2 = Painter::new();
    painter2.init_terminal_size(80, 24);
    let pads2 = painter2.initialize_prompt_position(0, 23);
    assert_eq!(pads2, 1);
    assert_eq!(painter2.get_prompt_start(), (0, 22));
}

#[test]
fn estimated_rows_follow_display_width() {
    // Three logical lines at 4 columns: "abcdef" wraps to 2 rows,
    // "" still takes 1 row, "xyz" takes 1 row.
    let rows = lineedit::estimated_buffer_rows("abcdef\n\nxyz", 4);
    assert_eq!(rows, 4);
}

#[test]
fn estimated_rows_count_wide_glyphs_per_column() {
    // Eight ideographs are sixteen columns wide: at ten columns they wrap
    // onto a second row even though there are only eight characters.
    let rows = lineedit::estimated_buffer_rows("一二三四五六七八", 10);
    assert_eq!(rows, 2);
}

#[test]
fn adjust_prompt_position_scrolls_overflow() {
    let mut painter = Painter::new();
    painter.init_terminal_size(10, 5);
    painter.initialize_prompt_position(0, 4);
    assert_eq!(painter.get_prompt_start(), (0, 3));
    painter.set_input_start(0, 4);

    // Twelve narrow characters at ten columns estimate two rows; from row
    // four they spill one row past a five-row screen.
    let scroll = painter.adjust_prompt_position("abcdefghijkl");
    assert_eq!(scroll, 1);
    assert_eq!(painter.get_input_start(), (0, 3));
    assert_eq!(painter.get_prompt_start(), (0, 2));
}

#[test]
fn adjust_prompt_position_discounts_trailing_newline() {
    let mut painter = Painter::new();
    painter.init_terminal_size(10, 5);
    painter.initialize_prompt_position(0, 2);
    painter.set_input_start(0, 4);

    // Two logical lines from row four spill one row, but the trailing
    // newline has already fed one, so nothing is left to scroll; the
    // origins still move up by the spill.
    let scroll = painter.adjust_prompt_position("ab\ncd\n");
    assert_eq!(scroll, 0);
    assert_eq!(painter.get_input_start(), (0, 3));
    assert_eq!(painter.get_prompt_start(), (0, 1));
}

#[test]
fn repaint_hides_draws_and_restores() {
    let mut painter = Painter::new();
    painter.init_terminal_size(80, 24);
    painter.initialize_prompt_position(0, 3);
    let lines = PromptLines::new(
        String::from("typed"),
        String::new(),
        String::from(" hint"),
    );
    let ops = painter.repaint_everything("prompt〉", "", &lines, 3, false);

    assert!(matches!(ops[0], DrawOp::HideCursor));
    assert!(matches!(ops[1], DrawOp::MoveTo(0, 3)));
    assert!(matches!(ops[2], DrawOp::MoveToColumn(0)));
    assert!(matches!(ops[3], DrawOp::ClearFromCursorDown));
    match &ops[4] {
        DrawOp::Print(s) => assert_eq!(s.as_str(), "prompt〉"),
        other => panic!("expected the prompt text, got {:?}", other),
    }
    match &ops[6] {
        DrawOp::Print(s) => assert_eq!(s.as_str(), "typed"),
        other => panic!("expected the before-cursor text, got {:?}", other),
    }
    assert!(matches!(ops[7], DrawOp::SavePosition));
    match &ops[8] {
        DrawOp::Print(s) => assert_eq!(s.as_str(), " hint"),
        other => panic!("expected the hint text, got {:?}", other),
    }
    assert!(matches!(ops[10], DrawOp::RestorePosition));
    assert!(matches!(ops[11], DrawOp::ShowCursor));
    assert_eq!(ops.len(), 12);
}

#[test]
fn repaint_scrolls_when_prompt_outgrows_screen() {
    let mut painter = Painter::new();
    painter.init_terminal_size(80, 6);
    painter.initialize_prompt_position(0, 4);
    assert_eq!(painter.get_prompt_start(), (0, 4));
    let lines = PromptLines::new(
        String::from("1\n2\n3\n4\n5"),
        String::new(),
        String::new(),
    );
    // Five lines need four rows beyond the first but only two remain below
    // row four; the origin absorbs the scroll.
    let ops = painter.repaint_everything("p", "", &lines, 4, false);
    assert!(matches!(ops[1], DrawOp::ScrollUp(4)));
    assert_eq!(painter.get_prompt_start(), (0, 0));
    drop(ops);
}

#[test]
fn repaint_scroll_saturates_prompt_at_top_row() {
    let mut painter = Painter::new();
    painter.init_terminal_size(80, 6);
    painter.initialize_prompt_position(0, 2);
    assert_eq!(painter.get_prompt_start(), (0, 2));
    let lines = PromptLines::new(
        String::from("1\n2\n3\n4\n5\n6"),
        String::new(),
        String::new(),
    );
    // Six lines need five rows beyond the first but only four remain below
    // row two; the full requirement scrolls in and the origin stops at the
    // top row.
    let ops = painter.repaint_everything("p", "", &lines, 2, false);
    assert!(matches!(ops[1], DrawOp::ScrollUp(5)));
    assert_eq!(painter.get_prompt_start(), (0, 0));
    drop(ops);
}

#[test]
fn paint_line_feeds_and_rehomes() {
    let painter = Painter::new();
    let ops = painter.paint_line("We processed: Hello World!");
    match &ops[0] {
        DrawOp::Print(s) => assert_eq!(s.as_str(), "We processed: Hello World!"),
        other => panic!("expected the line text, got {:?}", other),
    }
    match &ops[1] {
        DrawOp::Print(s) => assert_eq!(s.as_str(), "\n"),
        other => panic!("expected a line feed, got {:?}", other),
    }
    assert!(matches!(ops[2], DrawOp::MoveToColumn(0)));
}

#[test]
fn clear_screen_pushes_content_into_scrollback() {
    let mut painter = Painter::new();
    painter.init_terminal_size(80, 3);
    let ops = painter.clear_screen();
    assert_eq!(ops.len(), 7);
    for op in ops.iter().take(6) {
        match op {
            DrawOp::Print(s) => assert_eq!(s.as_str(), "\n"),
            other => panic!("expected a line feed, got {:?}", other),
        }
    }
    assert!(matches!(ops[6], DrawOp::MoveTo(0, 0)));
}

#[test]
fn history_search_result_parks_cursor_at_offset() {
    let painter = Painter::new();
    let ops = painter.queue_history_search_result("hello world", 5);
    match &ops[0] {
        DrawOp::Print(s) => assert_eq!(s.as_str(), "hello"),
        other => panic!("expected the head, got {:?}", other),
    }
    assert!(matches!(ops[1], DrawOp::SavePosition));
    match &ops[2] {
        DrawOp::Print(s) => assert_eq!(s.as_str(), " world"),
        other => panic!("expected the tail, got {:?}", other),
    }
    assert!(matches!(ops[3], DrawOp::ClearUntilNewline));
    assert!(matches!(ops[4], DrawOp::RestorePosition));
}
