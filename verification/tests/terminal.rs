use marshmallow_fm::glyph::{GlyphCell, Rgb};
use marshmallow_fm::terminal::{paint_commands, TerminalCommand, TerminalGuard};

#[test]
fn terminal_is_taken_over_once_and_given_back_once() {
    let mut guard = TerminalGuard::new();
    assert!(!guard.is_held());
    assert!(guard.release().is_empty());
    assert_eq!(
        guard.acquire(),
        vec![
            TerminalCommand::EnterAlternateScreen,
            TerminalCommand::EnableRawMode,
            TerminalCommand::HideCursor,
        ]
    );
    assert!(guard.is_held());
    assert!(guard.acquire().is_empty());
    assert!(guard.is_held());
    assert_eq!(
        guard.release(),
        vec![
            TerminalCommand::LeaveAlternateScreen,
            TerminalCommand::DisableRawMode,
            TerminalCommand::ShowCursor,
        ]
    );
    assert!(!guard.is_held());
    assert!(guard.release().is_empty());
    assert_eq!(guard.acquire().len(), 3);
}

#[test]
fn paint_starts_at_the_origin_and_ends_with_a_flush() {
    let a = GlyphCell { character: 'o', color: Rgb { r: 1, g: 2, b: 3 } };
    let b = GlyphCell { character: '/', color: Rgb { r: 4, g: 5, b: 6 } };
    assert_eq!(
        paint_commands(&vec![a, b, a]),
        vec![
            TerminalCommand::MoveTo { column: 0, row: 0 },
            TerminalCommand::Print(a),
            TerminalCommand::Print(b),
            TerminalCommand::Print(a),
            TerminalCommand::Flush,
        ]
    );
    assert_eq!(
        paint_commands(&Vec::new()),
        vec![TerminalCommand::MoveTo { column: 0, row: 0 }, TerminalCommand::Flush]
    );
}
