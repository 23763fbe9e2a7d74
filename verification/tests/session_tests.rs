use walkplay::keys::{key_event_of_byte, KeyEvent};
use walkplay::make_idx;
use walkplay::postincrement;
use walkplay::session::{Session, Step, CHANNEL_COUNT};

fn new_session(paths: &[&str]) -> Session {
    let files: Vec<String> = paths.iter().map(|p| p.to_string()).collect();
    Session::try_new(files).expect("session over a non-empty file list")
}

fn key(c: char) -> KeyEvent {
    KeyEvent::Character(c)
}

fn expect_played(step: Step) -> (usize, String, String, String) {
    match step {
        Step::Played { channel, path, status } => (channel, path, status.top, status.bottom),
        _ => panic!("expected a play-issuing step"),
    }
}

#[test]
fn make_idx_formats_one_based_position() {
    assert_eq!(make_idx(0, 3), "[1/3]");
    assert_eq!(make_idx(2, 3), "[3/3]");
    assert_eq!(make_idx(9, 123), "[10/123]");
    assert_eq!(make_idx(0, 1), "[1/1]");
}

#[test]
fn postincrement_returns_old_value_and_wraps() {
    let mut x: usize = 0;
    assert_eq!(postincrement(&mut x, 16), 0);
    assert_eq!(x, 1);
    let mut y: usize = 15;
    assert_eq!(postincrement(&mut y, 16), 15);
    assert_eq!(y, 0);
}

#[test]
fn byte_three_is_interrupt_and_four_is_end_of_input() {
    assert!(matches!(key_event_of_byte(3), KeyEvent::Interrupt));
    assert!(matches!(key_event_of_byte(4), KeyEvent::EndOfInput));
    assert!(matches!(key_event_of_byte(b'j'), KeyEvent::Character('j')));
    assert!(matches!(key_event_of_byte(b'q'), KeyEvent::Character('q')));
}

#[test]
fn empty_file_list_gives_no_session() {
    assert!(Session::try_new(Vec::new()).is_none());
}

#[test]
fn fresh_session_starts_at_first_file_with_unset_slots() {
    let s = new_session(&["a", "b"]);
    assert_eq!(s.cursor, 0);
    assert_eq!(s.selector, 0);
    assert_eq!(s.slots.len(), 4);
    assert!(s.slots.iter().all(|slot| slot.target.is_none()));
    assert_eq!(s.channels.len(), CHANNEL_COUNT);
    assert!(s.channels.iter().all(|c| c.is_none()));
}

#[test]
fn three_files_walkthrough() {
    let mut s = new_session(&["a", "b", "c"]);
    let (ch, path, top, bottom) = expect_played(s.play_current());
    assert_eq!(ch, 0);
    assert_eq!(path, "a");
    assert_eq!(top, "z[ ] x[ ] c[ ] v[ ]");
    assert_eq!(bottom, "[1/3] a");

    let (ch, path, _, bottom) = expect_played(s.handle_event(key('j')));
    assert_eq!((ch, path.as_str(), bottom.as_str()), (1, "b", "[2/3] b"));

    let (ch, path, _, bottom) = expect_played(s.handle_event(key('j')));
    assert_eq!((ch, path.as_str(), bottom.as_str()), (2, "c", "[3/3] c"));

    let (ch, path, _, bottom) = expect_played(s.handle_event(key('j')));
    assert_eq!((ch, path.as_str(), bottom.as_str()), (3, "a", "[1/3] a"));
    assert_eq!(s.cursor, 0);
}

#[test]
fn next_n_times_returns_cursor_to_start() {
    let mut s = new_session(&["a", "b", "c", "d", "e"]);
    s.handle_event(key('j'));
    s.handle_event(key('j'));
    let start = s.cursor;
    for _ in 0..5 {
        s.handle_event(key('j'));
    }
    assert_eq!(s.cursor, start);
    for _ in 0..5 {
        s.handle_event(key('k'));
    }
    assert_eq!(s.cursor, start);
}

#[test]
fn prev_undoes_next_and_next_undoes_prev() {
    for start in 0..3 {
        let mut s = new_session(&["a", "b", "c"]);
        for _ in 0..start {
            s.handle_event(key('j'));
        }
        let here = s.cursor;
        s.handle_event(key('i'));
        s.handle_event(key('o'));
        assert_eq!(s.cursor, here);
        s.handle_event(key('k'));
        s.handle_event(key('j'));
        assert_eq!(s.cursor, here);
    }
}

#[test]
fn prev_wraps_from_first_to_last() {
    let mut s = new_session(&["a", "b", "c"]);
    let (_, path, _, bottom) = expect_played(s.handle_event(key('k')));
    assert_eq!(path, "c");
    assert_eq!(bottom, "[3/3] c");
    assert_eq!(s.cursor, 2);
}

#[test]
fn program_then_recall_replays_frozen_target() {
    let mut s = new_session(&["a", "b", "c"]);
    let (ch, path, top, bottom) = expect_played(s.handle_event(key('Z')));
    assert_eq!(ch, 0);
    assert_eq!(path, "a");
    assert_eq!(top, "z[x] x[ ] c[ ] v[ ]");
    assert_eq!(bottom, "[1/3] a");
    assert_eq!(s.slots[0].target.as_deref(), Some("a"));
    assert_eq!(s.slots[0].label, "[1/3]");

    s.handle_event(key('j'));
    assert_eq!(s.cursor, 1);

    let (ch, path, top, bottom) = expect_played(s.handle_event(key('z')));
    assert_eq!(ch, 2);
    assert_eq!(path, "a");
    assert_eq!(top, "z[x] x[ ] c[ ] v[ ]");
    assert_eq!(bottom, "[1/3] a");
    assert_eq!(s.cursor, 1, "recall must not move the cursor");
}

#[test]
fn programming_overwrites_prior_target_and_label() {
    let mut s = new_session(&["a", "b", "c"]);
    s.handle_event(key('X'));
    assert_eq!(s.slots[1].target.as_deref(), Some("a"));
    assert_eq!(s.slots[1].label, "[1/3]");
    s.handle_event(key('j'));
    s.handle_event(key('X'));
    assert_eq!(s.slots[1].target.as_deref(), Some("b"));
    assert_eq!(s.slots[1].label, "[2/3]");
}

#[test]
fn each_slot_key_programs_its_own_slot() {
    let mut s = new_session(&["a", "b", "c", "d"]);
    s.handle_event(key('Z'));
    s.handle_event(key('j'));
    s.handle_event(key('X'));
    s.handle_event(key('j'));
    s.handle_event(key('C'));
    s.handle_event(key('j'));
    s.handle_event(key('V'));
    assert_eq!(s.slots[0].target.as_deref(), Some("a"));
    assert_eq!(s.slots[1].target.as_deref(), Some("b"));
    assert_eq!(s.slots[2].target.as_deref(), Some("c"));
    assert_eq!(s.slots[3].target.as_deref(), Some("d"));
}

#[test]
fn unset_recall_changes_nothing_and_plays_nothing() {
    let mut s = new_session(&["a", "b"]);
    s.handle_event(key('j'));
    let cursor = s.cursor;
    let selector = s.selector;
    let channels = s.channels.clone();
    let step = s.handle_event(key('c'));
    match step {
        Step::Rendered { status } => {
            assert_eq!(status.top, "z[ ] x[ ] c[?] v[ ]");
            assert_eq!(status.bottom, "[2/2] b");
        }
        _ => panic!("an unset recall must not issue a play"),
    }
    assert_eq!(s.cursor, cursor);
    assert_eq!(s.selector, selector);
    assert_eq!(s.channels, channels);
    assert!(s.slots.iter().all(|slot| slot.target.is_none()));
}

#[test]
fn stop_all_halts_channels_and_keeps_navigation_state() {
    let mut s = new_session(&["a", "b"]);
    s.play_current();
    s.handle_event(key('j'));
    s.handle_event(key('Z'));
    let cursor = s.cursor;
    let selector = s.selector;
    let target = s.slots[0].target.clone();
    assert!(s.channels.iter().any(|c| c.is_some()));
    let step = s.handle_event(key('s'));
    assert!(matches!(step, Step::Halted));
    assert!(s.channels.iter().all(|c| c.is_none()));
    assert_eq!(s.cursor, cursor);
    assert_eq!(s.selector, selector);
    assert_eq!(s.slots[0].target, target);
}

#[test]
fn plays_cycle_channels_round_robin_and_overwrite() {
    let mut s = new_session(&["a", "b", "c"]);
    let mut used = Vec::new();
    for k in 0..CHANNEL_COUNT + 1 {
        let (ch, path, _, _) = expect_played(s.handle_event(key('j')));
        used.push(ch);
        if k == 0 {
            assert_eq!(s.channels[0].as_deref(), Some(path.as_str()));
        }
    }
    for (k, ch) in used.iter().enumerate() {
        assert_eq!(*ch, k % CHANNEL_COUNT, "request {} must use channel {}", k + 1, k % CHANNEL_COUNT);
    }
    assert_eq!(used[0], used[CHANNEL_COUNT]);
    // The first play put "b" on channel 0; the seventeenth play (cursor back
    // on "c" after wrapping the three files) replaced it.
    assert_eq!(s.channels[0].as_deref(), Some("c"));
}

#[test]
fn quit_interrupt_and_end_of_input_end_the_loop() {
    let mut s = new_session(&["a"]);
    assert!(matches!(s.handle_event(key('q')), Step::Quit));
    assert!(matches!(s.handle_event(KeyEvent::Interrupt), Step::Quit));
    assert!(matches!(s.handle_event(KeyEvent::EndOfInput), Step::Quit));
    assert_eq!(s.cursor, 0);
    assert_eq!(s.selector, 0);
}

#[test]
fn unrecognized_key_replays_current_file() {
    let mut s = new_session(&["a", "b"]);
    let (ch, path, top, bottom) = expect_played(s.handle_event(key('?')));
    assert_eq!(ch, 0);
    assert_eq!(path, "a");
    assert_eq!(top, "z[ ] x[ ] c[ ] v[ ]");
    assert_eq!(bottom, "[1/2] a");
    assert_eq!(s.cursor, 0);
    assert_eq!(s.selector, 1);
}

#[test]
fn summary_lists_programmed_slots_in_fixed_order() {
    let mut s = new_session(&["a", "b", "c"]);
    assert!(s.summary_lines().is_empty());
    s.handle_event(key('C'));
    s.handle_event(key('j'));
    s.handle_event(key('Z'));
    let lines = s.summary_lines();
    assert_eq!(lines, vec!["z: b".to_string(), "c: a".to_string()]);
}

#[test]
fn summary_with_all_slots_set() {
    let mut s = new_session(&["a", "b"]);
    s.handle_event(key('Z'));
    s.handle_event(key('X'));
    s.handle_event(key('j'));
    s.handle_event(key('C'));
    s.handle_event(key('V'));
    let lines = s.summary_lines();
    assert_eq!(
        lines,
        vec![
            "z: a".to_string(),
            "x: a".to_string(),
            "c: b".to_string(),
            "v: b".to_string(),
        ]
    );
}
