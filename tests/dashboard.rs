use build_dashboard::classify::{classify_output, classify_stderr_text, Classification, DiagnosticItem};
use build_dashboard::layout::{pane_areas, Area};
use build_dashboard::selection::NavigableList;
use build_dashboard::session::{poll_timeout, tick_due, Frame, Key, SessionState, TICK_RATE_MS};

fn item(text: &str, classification: Classification) -> DiagnosticItem {
    DiagnosticItem { raw_text: text.to_string(), classification }
}

fn numbers(n: usize) -> NavigableList<usize> {
    NavigableList::with_items((0..n).collect())
}

fn panes(frame: &Frame) -> (Vec<String>, Option<usize>, String) {
    match frame {
        Frame::Panes(p) => (p.rows.clone(), p.selected, p.detail.clone()),
        Frame::Empty => panic!("expected the two panes"),
    }
}

#[test]
fn next_from_nothing_selects_first() {
    let mut l = numbers(3);
    assert_eq!(l.selected(), None);
    l.next();
    assert_eq!(l.selected(), Some(0));
}

#[test]
fn next_wraps_after_last() {
    let mut l = numbers(3);
    l.next();
    l.next();
    l.next();
    assert_eq!(l.selected(), Some(2));
    l.next();
    assert_eq!(l.selected(), Some(0));
}

#[test]
fn full_cycle_returns_to_start() {
    for n in 1..6usize {
        for start in 0..n {
            let mut l = numbers(n);
            l.selected = Some(start);
            for _ in 0..n {
                l.next();
            }
            assert_eq!(l.selected(), Some(start));
        }
        let mut l = numbers(n);
        for _ in 0..n {
            l.next();
        }
        assert_eq!(l.selected(), Some(n - 1));
        l.next();
        assert_eq!(l.selected(), Some(0));
    }
}

#[test]
fn single_item_list_cycles_in_one_step() {
    let mut l = numbers(1);
    l.next();
    assert_eq!(l.selected(), Some(0));
}

#[test]
fn previous_wraps_before_first() {
    let mut l = numbers(4);
    l.previous();
    assert_eq!(l.selected(), Some(0));
    l.previous();
    assert_eq!(l.selected(), Some(3));
    l.previous();
    assert_eq!(l.selected(), Some(2));
}

#[test]
fn previous_undoes_next() {
    for n in 1..6usize {
        for start in 0..n {
            let mut l = numbers(n);
            l.selected = Some(start);
            l.next();
            l.previous();
            assert_eq!(l.selected(), Some(start));
            l.previous();
            l.next();
            assert_eq!(l.selected(), Some(start));
        }
    }
}

#[test]
fn unselect_then_moves_match_fresh_list() {
    let mut used = numbers(5);
    used.next();
    used.next();
    used.previous();
    used.previous();
    used.previous();
    used.unselect();
    assert_eq!(used.selected(), None);
    let mut fresh = numbers(5);
    for step in [true, false, false, true, true, true] {
        if step {
            used.next();
            fresh.next();
        } else {
            used.previous();
            fresh.previous();
        }
        assert_eq!(used.selected(), fresh.selected());
    }
}

#[test]
fn moves_on_empty_list_do_nothing() {
    let mut l = numbers(0);
    l.next();
    assert_eq!(l.selected(), None);
    l.previous();
    assert_eq!(l.selected(), None);
    l.unselect();
    assert_eq!(l.len(), 0);
}

#[test]
fn add_item_keeps_selection() {
    let mut l = numbers(2);
    l.next();
    l.add_item(7);
    assert_eq!(l.len(), 3);
    assert_eq!(l.selected(), Some(0));
    assert_eq!(l.items[2], 7);
}

#[test]
fn stderr_warning_is_classified_warning() {
    let items = classify_output(b"", b"warning: unused variable");
    assert_eq!(items.len(), 2);
    assert_eq!(items[1].classification, Classification::Warning);
    assert_eq!(items[1].raw_text, "warning: unused variable");
    let s = SessionState::new(items);
    assert_eq!(s.list.len(), 1);
}

#[test]
fn stderr_error_is_classified_error() {
    let items = classify_output(b"", b"error: mismatched types");
    assert_eq!(items[1].classification, Classification::Error);
    assert!(items[1].is_visible());
}

#[test]
fn stderr_without_keywords_is_ignored_and_hidden() {
    let items = classify_output(b"", b"all good");
    assert_eq!(items[1].classification, Classification::Ignored);
    assert!(!items[1].is_visible());
    let s = SessionState::new(items);
    assert_eq!(s.list.len(), 0);
    assert_eq!(s.items.len(), 2);
}

#[test]
fn error_takes_precedence_over_warning() {
    assert_eq!(classify_stderr_text("warning: a\nerror: b"), Classification::Error);
    assert_eq!(classify_stderr_text("a warning"), Classification::Warning);
    assert_eq!(classify_stderr_text("Error: capital"), Classification::Ignored);
    assert_eq!(classify_stderr_text("err or"), Classification::Ignored);
    assert_eq!(classify_stderr_text(""), Classification::Ignored);
    assert_eq!(classify_stderr_text("été error"), Classification::Error);
}

#[test]
fn stdout_is_success_and_hidden() {
    let items = classify_output(b"error in stdout", b"");
    assert_eq!(items[0].classification, Classification::Success);
    assert_eq!(items[0].raw_text, "error in stdout");
    assert!(!items[0].is_visible());
    assert_eq!(items[1].classification, Classification::Ignored);
}

#[test]
fn undecodable_stream_becomes_error_item() {
    let items = classify_output(&[0x66, 0xff, 0x67], &[0xc3]);
    assert_eq!(items[0].classification, Classification::Error);
    assert!(!items[0].raw_text.is_empty());
    assert_ne!(items[0].raw_text, "f\u{fffd}g");
    assert_eq!(items[1].classification, Classification::Error);
    let s = SessionState::new(items);
    assert_eq!(s.list.len(), 2);
}

#[test]
fn empty_warning_text_is_not_visible() {
    let it = item("", Classification::Warning);
    assert!(!it.is_visible());
    let it = item("x", Classification::Success);
    assert!(!it.is_visible());
}

#[test]
fn drawing_twice_gives_the_same_frame() {
    let mut s = SessionState::new(vec![
        item("error: a", Classification::Error),
        item("done", Classification::Success),
        item("warning: b", Classification::Warning),
    ]);
    s.handle(Some(Key::Down));
    s.handle(Some(Key::Down));
    let first = s.draw();
    let second = s.draw();
    assert!(!first.notice);
    assert!(!second.notice);
    assert_eq!(panes(&first.frame), panes(&second.frame));
    let (rows, selected, detail) = panes(&first.frame);
    assert_eq!(rows, vec!["error: a".to_string(), "warning: b".to_string()]);
    assert_eq!(selected, Some(1));
    assert_eq!(detail, "warning: b");
}

#[test]
fn detail_is_empty_without_selection() {
    let mut s = SessionState::new(vec![item("error: a", Classification::Error)]);
    let (_, selected, detail) = panes(&s.draw().frame);
    assert_eq!(selected, None);
    assert_eq!(detail, "");
}

#[test]
fn nothing_to_show_notices_once_and_stops() {
    let mut s = SessionState::from_output(b"build finished", b"");
    assert_eq!(s.list.len(), 0);
    let first = s.draw();
    assert!(matches!(first.frame, Frame::Empty));
    assert!(first.notice);
    assert!(!s.is_stopped());
    s.handle(None);
    assert!(s.is_stopped());
    let second = s.draw();
    assert!(matches!(second.frame, Frame::Empty));
    assert!(!second.notice);
}

#[test]
fn single_block_wraps_on_down() {
    let mut s = SessionState::from_output(b"", b"warning: foo\nerror: bar");
    assert_eq!(s.items[1].classification, Classification::Error);
    assert_eq!(s.list.len(), 1);
    s.handle(Some(Key::Down));
    assert_eq!(s.list.selected(), Some(0));
    s.handle(Some(Key::Down));
    assert_eq!(s.list.selected(), Some(0));
    assert!(!s.is_stopped());
    let (rows, _, detail) = panes(&s.draw().frame);
    assert_eq!(rows.len(), 1);
    assert_eq!(detail, "warning: foo\nerror: bar");
}

#[test]
fn quit_stops_from_any_selection() {
    for moves in 0..4usize {
        let mut s = SessionState::new(vec![
            item("error: a", Classification::Error),
            item("warning: b", Classification::Warning),
        ]);
        for _ in 0..moves {
            s.handle(Some(Key::Up));
        }
        assert!(!s.is_stopped());
        s.handle(Some(Key::Char('q')));
        assert!(s.is_stopped());
    }
}

#[test]
fn left_clears_and_other_keys_are_ignored() {
    let mut s = SessionState::new(vec![
        item("error: a", Classification::Error),
        item("warning: b", Classification::Warning),
    ]);
    s.handle(Some(Key::Up));
    assert_eq!(s.list.selected(), Some(0));
    s.handle(Some(Key::Up));
    assert_eq!(s.list.selected(), Some(1));
    s.handle(Some(Key::Char('x')));
    s.handle(Some(Key::Other));
    s.handle(None);
    assert_eq!(s.list.selected(), Some(1));
    assert!(!s.is_stopped());
    s.handle(Some(Key::Left));
    assert_eq!(s.list.selected(), None);
}

#[test]
fn stopped_session_ignores_keys() {
    let mut s = SessionState::new(vec![item("error: a", Classification::Error)]);
    s.handle(Some(Key::Char('q')));
    s.handle(Some(Key::Down));
    assert_eq!(s.list.selected(), None);
    assert!(s.is_stopped());
}

#[test]
fn timeout_is_what_is_left_of_the_tick() {
    assert_eq!(TICK_RATE_MS, 250);
    assert_eq!(poll_timeout(250, 0), 250);
    assert_eq!(poll_timeout(250, 100), 150);
    assert_eq!(poll_timeout(250, 250), 0);
    assert_eq!(poll_timeout(250, 400), 0);
    assert!(!tick_due(250, 249));
    assert!(tick_due(250, 250));
    assert!(tick_due(250, 1000));
}

#[test]
fn panes_split_the_width_in_halves() {
    let area = Area { x: 0, y: 0, width: 100, height: 40 };
    let (left, right) = pane_areas(area).unwrap();
    assert_eq!(left, Area { x: 0, y: 0, width: 50, height: 40 });
    assert_eq!(right, Area { x: 50, y: 0, width: 50, height: 40 });
    let area = Area { x: 0, y: 0, width: 2000, height: 40 };
    assert_eq!(pane_areas(area), None);
}

#[test]
fn panes_need_edges_within_range() {
    assert_eq!(pane_areas(Area { x: 0, y: 65535, width: 10, height: 1 }), None);
    assert_eq!(pane_areas(Area { x: 65530, y: 0, width: 10, height: 1 }), None);
    let (left, right) = pane_areas(Area { x: 10, y: 5, width: 11, height: 3 }).unwrap();
    assert_eq!(left.x, 10);
    assert_eq!(right.x + right.width, 21);
    assert_eq!(left.width + right.width, 11);
}

#[test]
fn undecodable_streams_are_listed() {
    let s = SessionState::from_output(&[0xff], &[0xfe, 0x41]);
    assert_eq!(s.list.len(), 2);
    assert!(!s.list.items[0].raw_text.is_empty());
    assert!(!s.list.items[1].raw_text.is_empty());
}
