use rshell::editor::Editor;
use rshell::event::Classifier;
use rshell::Event;

fn vs(v: &Vec<char>) -> String {
    v.iter().collect()
}

#[test]
fn classifier_literals() {
    let mut c = Classifier::new();
    assert_eq!(c.step(b'l'), Some(Event::Literal('l')));
    assert_eq!(c.step(b's'), Some(Event::Literal('s')));
    assert_eq!(c.step(0x0D), Some(Event::Enter));
}

#[test]
fn classifier_backspace_bytes() {
    let mut c = Classifier::new();
    assert_eq!(c.step(0x08), Some(Event::Backspace));
    assert_eq!(c.step(0x7F), Some(Event::Backspace));
}

#[test]
fn classifier_up_arrow() {
    let mut c = Classifier::new();
    assert_eq!(c.step(0x1B), None);
    assert_eq!(c.step(b'['), None);
    assert_eq!(c.step(b'A'), Some(Event::HistoryUp));
}

#[test]
fn classifier_down_arrow() {
    let mut c = Classifier::new();
    assert_eq!(c.step(0x1B), None);
    assert_eq!(c.step(b'['), None);
    assert_eq!(c.step(b'B'), Some(Event::HistoryDown));
}

#[test]
fn classifier_unknown_sequence_dropped() {
    let mut c = Classifier::new();
    assert_eq!(c.step(0x1B), None);
    assert_eq!(c.step(b'['), None);
    assert_eq!(c.step(b'C'), None);
    // Back to idle: the next byte is an ordinary literal again.
    assert_eq!(c.step(b'x'), Some(Event::Literal('x')));
}

#[test]
fn classifier_collects_any_three_bytes_after_escape() {
    let mut c = Classifier::new();
    assert_eq!(c.step(0x1B), None);
    // Even an Enter byte is swallowed into a pending escape sequence.
    assert_eq!(c.step(0x0D), None);
    assert_eq!(c.step(b'A'), None);
    assert_eq!(c.step(b'y'), Some(Event::Literal('y')));
}

#[test]
fn append_concatenates_in_order() {
    let mut e = Editor::new();
    e.appendbuf('a');
    e.appendbuf('b');
    e.appendbuf('c');
    assert_eq!(vs(e.buffer_chars()), "abc");
}

#[test]
fn backspace_removes_last() {
    let mut e = Editor::new();
    e.appendbuf('a');
    e.appendbuf('b');
    assert!(e.backspace());
    assert_eq!(vs(e.buffer_chars()), "a");
}

#[test]
fn backspace_on_empty_is_noop() {
    let mut e = Editor::new();
    assert!(!e.backspace());
    assert_eq!(vs(e.buffer_chars()), "");
    assert!(!e.backspace());
    assert_eq!(vs(e.buffer_chars()), "");
}

fn type_line(e: &mut Editor, line: &str) {
    for c in line.chars() {
        e.appendbuf(c);
    }
}

#[test]
fn commit_records_trimmed_line_once() {
    let mut e = Editor::new();
    type_line(&mut e, "  ls -l  ");
    e.commit();
    assert_eq!(e.history_len(), 1);
    assert_eq!(vs(e.history_entry(0)), "ls -l");
    assert_eq!(vs(e.buffer_chars()), "");
}

#[test]
fn commit_records_blank_and_exit_lines() {
    let mut e = Editor::new();
    type_line(&mut e, "   ");
    e.commit();
    type_line(&mut e, "exit");
    e.commit();
    assert_eq!(e.history_len(), 2);
    assert_eq!(vs(e.history_entry(0)), "");
    assert_eq!(vs(e.history_entry(1)), "exit");
}

#[test]
fn recall_is_clamped_at_oldest() {
    let mut e = Editor::new();
    type_line(&mut e, "one");
    e.commit();
    type_line(&mut e, "two");
    e.commit();
    assert!(e.historyup());
    assert_eq!(vs(e.buffer_chars()), "two");
    assert!(e.historyup());
    assert_eq!(vs(e.buffer_chars()), "one");
    // Further ups stay at the oldest entry.
    assert!(e.historyup());
    assert_eq!(vs(e.buffer_chars()), "one");
    assert!(e.historyup());
    assert_eq!(vs(e.buffer_chars()), "one");
}

#[test]
fn recall_is_clamped_at_newest() {
    let mut e = Editor::new();
    type_line(&mut e, "one");
    e.commit();
    type_line(&mut e, "two");
    e.commit();
    assert!(e.historydown());
    assert_eq!(vs(e.buffer_chars()), "two");
    assert!(e.historydown());
    assert_eq!(vs(e.buffer_chars()), "two");
}

#[test]
fn recall_on_empty_history_is_noop() {
    let mut e = Editor::new();
    type_line(&mut e, "ab");
    assert!(!e.historyup());
    assert_eq!(vs(e.buffer_chars()), "ab");
    assert!(!e.historydown());
    assert_eq!(vs(e.buffer_chars()), "ab");
}

#[test]
fn editing_after_recall_keeps_history_intact() {
    let mut e = Editor::new();
    type_line(&mut e, "echo a");
    e.commit();
    assert!(e.historyup());
    assert_eq!(vs(e.buffer_chars()), "echo a");
    e.appendbuf('!');
    assert_eq!(vs(e.buffer_chars()), "echo a!");
    assert!(e.backspace());
    assert!(e.backspace());
    assert_eq!(vs(e.buffer_chars()), "echo ");
    // The stored entry is immutable once appended.
    assert_eq!(e.history_len(), 1);
    assert_eq!(vs(e.history_entry(0)), "echo a");
}

#[test]
fn up_up_down_walks_history() {
    let mut e = Editor::new();
    type_line(&mut e, "echo a");
    e.commit();
    type_line(&mut e, "echo b");
    e.commit();
    assert!(e.historyup());
    assert_eq!(vs(e.buffer_chars()), "echo b");
    assert!(e.historyup());
    assert_eq!(vs(e.buffer_chars()), "echo a");
    assert!(e.historydown());
    assert_eq!(vs(e.buffer_chars()), "echo b");
}

#[test]
fn whole_byte_stream_drives_the_editor() {
    // Empty history, the user types "ls" and presses Enter.
    let mut cl = Classifier::new();
    let mut e = Editor::new();
    let mut committed = None;
    for b in [b'l', b's', 0x0D] {
        match cl.step(b) {
            Some(Event::Literal(c)) => e.appendbuf(c),
            Some(Event::Backspace) => {
                e.backspace();
            }
            Some(Event::HistoryUp) => {
                e.historyup();
            }
            Some(Event::HistoryDown) => {
                e.historydown();
            }
            Some(Event::Enter) => committed = Some(e.commit()),
            None => {}
        }
    }
    let action = committed.expect("Enter should commit");
    match action {
        rshell::dispatch::Action::Run(p, args) => {
            assert_eq!(vs(&p), "ls");
            assert!(args.is_empty());
        }
        other => panic!("expected Run, got {:?}", other),
    }
    assert_eq!(e.history_len(), 1);
    assert_eq!(vs(e.history_entry(0)), "ls");
}

#[test]
fn arrow_recall_in_a_byte_stream() {
    let mut cl = Classifier::new();
    let mut e = Editor::new();
    for b in b"echo hi\r".iter().copied() {
        match cl.step(b) {
            Some(Event::Literal(c)) => e.appendbuf(c),
            Some(Event::Enter) => {
                e.commit();
            }
            _ => {}
        }
    }
    // Up arrow: ESC [ A
    let mut recalled = false;
    for b in [0x1B, b'[', b'A'] {
        if let Some(Event::HistoryUp) = cl.step(b) {
            recalled = e.historyup();
        }
    }
    assert!(recalled);
    assert_eq!(vs(e.buffer_chars()), "echo hi");
}
