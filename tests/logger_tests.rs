use omobab_terminal::display::Color;
use omobab_terminal::paint::PaintOp;
use omobab_terminal::terminal_logger::{TerminalLogWriter, TerminalLogger};

fn text(ops: &[PaintOp]) -> String {
    ops.iter()
        .filter_map(|o| match o {
            PaintOp::PrintChar(c) => Some(*c),
            _ => None,
        })
        .collect()
}

#[test]
fn log_keeps_the_latest_entries() {
    let mut l = TerminalLogger::new(2);
    l.log("INFO", "one".to_string());
    l.log("WARN", "two".to_string());
    l.log("ERROR", "three".to_string());
    let recent = l.get_recent_logs(10);
    assert_eq!(recent.len(), 2);
    assert_eq!(recent[0].level, "WARN");
    assert_eq!(recent[0].message, "two");
    assert_eq!(recent[1].level, "ERROR");
    assert_eq!(recent[1].message, "three");
    let last = l.get_recent_logs(1);
    assert_eq!(last.len(), 1);
    assert_eq!(last[0].message, "three");
    assert!(l.get_recent_logs(0).is_empty());
}

#[test]
fn zero_capacity_keeps_nothing() {
    let mut l = TerminalLogger::new(0);
    l.log("INFO", "gone".to_string());
    assert!(l.get_recent_logs(5).is_empty());
}

#[test]
fn clear_empties_the_log() {
    let mut l = TerminalLogger::new(5);
    l.log("INFO", "a".to_string());
    l.clear();
    assert!(l.get_recent_logs(5).is_empty());
    l.log("DEBUG", "b".to_string());
    assert_eq!(l.get_recent_logs(5).len(), 1);
}

#[test]
fn log_strip_paints_tags_and_messages() {
    let mut l = TerminalLogger::new(10);
    l.log("ERROR", "bad".to_string());
    l.log("custom", "x".to_string());
    let ops = l.render_logs(40, 10, 3);
    let mut expected = vec![
        PaintOp::MoveTo(0, 7),
        PaintOp::ClearLine,
        PaintOp::MoveTo(0, 8),
        PaintOp::ClearLine,
        PaintOp::MoveTo(0, 9),
        PaintOp::ClearLine,
        PaintOp::MoveTo(0, 7),
        PaintOp::SetColor(Color::Red),
    ];
    expected.extend("[ERROR]".chars().map(PaintOp::PrintChar));
    expected.push(PaintOp::SetColor(Color::White));
    expected.extend(" bad".chars().map(PaintOp::PrintChar));
    expected.push(PaintOp::MoveTo(0, 8));
    expected.push(PaintOp::SetColor(Color::White));
    expected.extend("[custom]".chars().map(PaintOp::PrintChar));
    expected.push(PaintOp::SetColor(Color::White));
    expected.extend(" x".chars().map(PaintOp::PrintChar));
    expected.push(PaintOp::ResetColor);
    assert_eq!(ops, expected);
}

#[test]
fn level_colours() {
    let mut l = TerminalLogger::new(10);
    for level in ["WARN", "INFO", "DEBUG"] {
        l.log(level, "m".to_string());
    }
    let ops = l.render_logs(40, 10, 3);
    let colours: Vec<Color> = ops
        .iter()
        .filter_map(|o| match o {
            PaintOp::SetColor(c) => Some(*c),
            _ => None,
        })
        .collect();
    assert_eq!(
        colours,
        vec![Color::Yellow, Color::White, Color::Green, Color::White, Color::Blue, Color::White]
    );
}

#[test]
fn long_messages_are_cut_to_the_width() {
    let mut l = TerminalLogger::new(10);
    l.log("INFO", "abcdefghijklmnop".to_string());
    // Width 20 leaves 12 cells: 9 characters and "...".
    let ops = l.render_logs(20, 5, 1);
    assert_eq!(text(&ops), "[INFO] abcdefghi...");
    // A message that fits is shown whole.
    let ops = l.render_logs(24, 5, 1);
    assert_eq!(text(&ops), "[INFO] abcdefghijklmnop");
    // Narrow terminal: nothing of the message is left.
    let ops = l.render_logs(5, 5, 1);
    assert_eq!(text(&ops), "[INFO] ...");
}

#[test]
fn strip_taller_than_screen_starts_at_top() {
    let mut l = TerminalLogger::new(10);
    l.log("INFO", "a".to_string());
    let ops = l.render_logs(40, 1, 2);
    assert_eq!(&ops[..4], &[PaintOp::MoveTo(0, 0), PaintOp::ClearLine, PaintOp::MoveTo(0, 1), PaintOp::ClearLine]);
    assert_eq!(ops[4], PaintOp::MoveTo(0, 0));
}

#[test]
fn formatted_lines_become_entries() {
    let (level, msg) = TerminalLogWriter::classify_line("2024-01-01T00:00:00Z [WARN] client] low health");
    assert_eq!(level, "WARN");
    assert_eq!(msg, "low health");
    let (level, msg) = TerminalLogWriter::classify_line("plain message");
    assert_eq!(level, "INFO");
    assert_eq!(msg, "plain message");
    let (level, _) = TerminalLogWriter::classify_line("[DEBUG] [ERROR] both");
    assert_eq!(level, "ERROR");

    let mut l = TerminalLogger::new(5);
    TerminalLogWriter.write_line(&mut l, "   \n");
    assert!(l.get_recent_logs(5).is_empty());
    TerminalLogWriter.write_line(&mut l, "  [ERROR] disk] full  \n");
    let recent = l.get_recent_logs(5);
    assert_eq!(recent.len(), 1);
    assert_eq!(recent[0].level, "ERROR");
    assert_eq!(recent[0].message, "full");
}
