use terminal_grid::cells::CellBuffer;
use terminal_grid::engine::{accepts_char, CharEffect, TerminalGridEngine};
use terminal_grid::{COLS, ROWS};

fn occupied(e: &TerminalGridEngine<u64>) -> usize {
    let mut n = 0;
    for row in 0..ROWS {
        for col in 0..COLS {
            if e.cell(col, row).is_some() {
                n += 1;
            }
        }
    }
    n
}

#[test]
fn type_two_then_erase_both() {
    let mut e: TerminalGridEngine<u64> = TerminalGridEngine::new();
    let mut destroyed = 0;
    for (i, c) in "HI".chars().enumerate() {
        match e.handle_char(c, i as u64 + 1) {
            CharEffect::Placed { displaced, .. } => {
                if displaced.is_some() {
                    destroyed += 1;
                }
            }
            CharEffect::Rejected { .. } => panic!("rejected"),
        }
    }
    assert_eq!(e.cursor_position(), (2, 0));
    assert_eq!(e.handle_backspace(), Some(2));
    destroyed += 1;
    assert_eq!(e.handle_backspace(), Some(1));
    destroyed += 1;
    assert_eq!(e.cursor_position(), (0, 0));
    assert_eq!(occupied(&e), 0);
    assert_eq!(destroyed, 2);
    assert_eq!(e.handle_backspace(), None);
}

#[test]
fn fill_grid_then_overwrite_last_cell() {
    let mut e: TerminalGridEngine<u64> = TerminalGridEngine::new();
    let mut destroyed = 0;
    for i in 0..(COLS * ROWS) as u64 {
        match e.handle_char('x', i) {
            CharEffect::Placed { displaced, .. } => {
                assert_eq!(displaced, None);
            }
            CharEffect::Rejected { .. } => panic!("rejected"),
        }
    }
    assert_eq!(e.cursor_position(), (79, 39));
    assert_eq!(occupied(&e), 3200);
    match e.handle_char('y', 9999) {
        CharEffect::Placed { col, row, displaced } => {
            assert_eq!((col, row), (79, 39));
            assert_eq!(displaced, Some(3199));
            destroyed += 1;
        }
        CharEffect::Rejected { .. } => panic!("rejected"),
    }
    assert_eq!(destroyed, 1);
    assert_eq!(e.cursor_position(), (79, 39));
    let cell = e.cell(79, 39).unwrap();
    assert_eq!(cell.ch(), 'y');
    assert_eq!(*cell.glyph(), 9999);
    assert_eq!(occupied(&e), 3200);
}

#[test]
fn control_and_non_ascii_are_rejected() {
    let mut e: TerminalGridEngine<u64> = TerminalGridEngine::new();
    for (i, c) in ['\n', '\t', '\u{7f}', '\u{0}', 'é', '日'].into_iter().enumerate() {
        match e.handle_char(c, i as u64) {
            CharEffect::Rejected { glyph } => assert_eq!(glyph, i as u64),
            CharEffect::Placed { .. } => panic!("placed {:?}", c),
        }
    }
    assert_eq!(e.cursor_position(), (0, 0));
    assert_eq!(occupied(&e), 0);
}

#[test]
fn printable_ascii_is_accepted() {
    assert!(accepts_char(' '));
    assert!(accepts_char('~'));
    assert!(accepts_char('A'));
    assert!(!accepts_char('\u{1f}'));
    assert!(!accepts_char('\u{7f}'));
    assert!(!accepts_char('ü'));
}

#[test]
fn placed_glyph_has_fresh_pulse() {
    let mut e: TerminalGridEngine<u64> = TerminalGridEngine::new();
    e.handle_char('a', 7);
    let cell = e.cell(0, 0).unwrap();
    assert_eq!(cell.ch(), 'a');
    assert_eq!(*cell.glyph(), 7);
    assert_eq!(cell.pulse().elapsed_micros(), 0);
}

#[test]
fn newline_moves_cursor_without_touching_cells() {
    let mut e: TerminalGridEngine<u64> = TerminalGridEngine::new();
    e.handle_char('a', 1);
    e.handle_newline();
    assert_eq!(e.cursor_position(), (0, 1));
    assert_eq!(occupied(&e), 1);
    e.handle_char('b', 2);
    assert_eq!(e.cell(0, 1).map(|c| c.ch()), Some('b'));
    assert_eq!(e.handle_backspace(), Some(2));
    assert_eq!(e.handle_backspace(), None);
    assert_eq!(e.cursor_position(), (79, 0));
    assert_eq!(e.cell(0, 0).map(|c| c.ch()), Some('a'));
}

#[test]
fn tick_advances_every_live_pulse() {
    let mut e: TerminalGridEngine<u64> = TerminalGridEngine::new();
    e.handle_char('a', 1);
    e.tick_animations(100_000);
    e.handle_char('b', 2);
    e.tick_animations(50_000);
    assert_eq!(e.cell(0, 0).unwrap().pulse().elapsed_micros(), 150_000);
    assert_eq!(e.cell(1, 0).unwrap().pulse().elapsed_micros(), 50_000);
    e.tick_animations(100_000);
    assert!(e.cell(0, 0).unwrap().pulse().is_settled());
    assert_eq!(e.cell(1, 0).unwrap().pulse().elapsed_micros(), 150_000);
    assert_eq!(e.cursor_position(), (2, 0));
    assert!(e.cell(2, 0).is_none());
}

#[test]
fn cursor_label_shows_position() {
    let mut e: TerminalGridEngine<u64> = TerminalGridEngine::new();
    assert_eq!(e.cursor_label(), "cursor: (0,0)");
    for _ in 0..3 {
        e.handle_newline();
    }
    for i in 0..12 {
        e.handle_char('z', i);
    }
    assert_eq!(e.cursor_label(), "cursor: (12,3)");
}

#[test]
fn buffer_overwrite_hands_back_prior_glyph_once() {
    let mut b: CellBuffer<u64> = CellBuffer::new();
    assert_eq!(b.write(4, 2, 'a', 10), None);
    assert_eq!(b.write(4, 2, 'b', 11), Some(10));
    assert_eq!(b.write(4, 2, 'c', 12), Some(11));
    assert_eq!(b.clear(4, 2), Some(12));
    assert_eq!(b.clear(4, 2), None);
    assert!(b.get(4, 2).is_none());
}

#[test]
fn buffer_uses_row_major_cells() {
    let mut b: CellBuffer<u64> = CellBuffer::new();
    b.write(79, 0, 'p', 1);
    b.write(0, 1, 'q', 2);
    assert_eq!(b.get(79, 0).map(|c| c.ch()), Some('p'));
    assert_eq!(b.get(0, 1).map(|c| c.ch()), Some('q'));
    assert!(b.get(1, 0).is_none());
}
