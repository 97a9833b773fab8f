use douglas::DrawOp;
use douglas::diff_ops;
use douglas::frame_ops;
use douglas::split_lines;

#[test]
fn split_lines_empty_text_is_one_empty_line() {
    assert_eq!(split_lines(""), vec![String::new()]);
}

#[test]
fn split_lines_splits_on_newlines() {
    assert_eq!(split_lines("a\nb"), vec!["a".to_string(), "b".to_string()]);
    assert_eq!(split_lines("one line"), vec!["one line".to_string()]);
}

#[test]
fn split_lines_keeps_a_trailing_empty_line() {
    assert_eq!(split_lines("a\n"), vec!["a".to_string(), String::new()]);
    assert_eq!(
        split_lines("\n"),
        vec![String::new(), String::new()],
    );
}

#[test]
fn identical_frames_issue_no_operations() {
    let last = Some("count: 2\nquit with q\n".to_string());
    let (ops, _) = frame_ops(&last, "count: 2\nquit with q\n");
    assert_eq!(ops, Vec::<DrawOp>::new());
}

#[test]
fn first_frame_is_printed_without_clearing() {
    let (ops, lines) = frame_ops(&None, "hello");
    assert_eq!(ops, vec![DrawOp::PutLine(0)]);
    assert_eq!(lines, vec!["hello".to_string()]);
}

#[test]
fn changed_line_is_cleared_and_unchanged_line_is_kept() {
    let last = Some("ab\ncd".to_string());
    let (ops, _) = frame_ops(&last, "ab\nxy");
    assert_eq!(
        ops,
        vec![
            DrawOp::ClearLine,
            DrawOp::CursorUp,
            DrawOp::PutLine(0),
            DrawOp::LineBreak,
            DrawOp::PutLine(1),
        ],
    );
}

#[test]
fn shrinking_frame_clears_every_previous_line() {
    let last = Some("a\nb\nc".to_string());
    let (ops, _) = frame_ops(&last, "a");
    assert_eq!(
        ops,
        vec![
            DrawOp::ClearLine,
            DrawOp::CursorUp,
            DrawOp::ClearLine,
            DrawOp::CursorUp,
            DrawOp::ClearLine,
            DrawOp::PutLine(0),
        ],
    );
}

#[test]
fn growing_frame_keeps_identical_prefix_lines() {
    let old_lines = vec!["a".to_string(), "b".to_string()];
    let new_lines = vec!["a".to_string(), "b".to_string(), "c".to_string()];
    let ops = diff_ops(&old_lines, &new_lines);
    assert_eq!(
        ops,
        vec![
            DrawOp::CursorUp,
            DrawOp::PutLine(0),
            DrawOp::LineBreak,
            DrawOp::PutLine(1),
            DrawOp::LineBreak,
            DrawOp::PutLine(2),
        ],
    );
}
