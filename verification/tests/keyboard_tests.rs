use step_sequencer::keyboard::{
    match_key, CodeKey, FunctionKey, Key, Keyboard, ModifierKey, NavKey,
};
use step_sequencer::track::Note;

fn scan(pressed_positions: &[usize]) -> [bool; 18] {
    let mut grid = [false; 18];
    for &p in pressed_positions {
        grid[p] = true;
    }
    grid
}

#[test]
fn new_keyboard_has_empty_event() {
    let kb = Keyboard::new();
    assert_eq!(kb.key_event.code, None);
    assert_eq!(kb.key_event.nav, None);
    assert_eq!(kb.key_event.modifier, None);
    assert_eq!(kb.key_event.function, None);
}

#[test]
fn read_empty_scan_leaves_all_slots_empty() {
    let mut kb = Keyboard::new();
    kb.read(&scan(&[]));
    assert_eq!(kb.key_event.code, None);
    assert_eq!(kb.key_event.nav, None);
    assert_eq!(kb.key_event.modifier, None);
    assert_eq!(kb.key_event.function, None);
}

#[test]
fn read_decodes_each_slot() {
    let mut kb = Keyboard::new();
    // FN1 at (0,0), SHIFT at (0,1), FORWARD at (5,2), KEY3 at (2,1)
    kb.read(&scan(&[0, 1, 17, 7]));
    assert_eq!(kb.key_event.function, Some(FunctionKey::FN1));
    assert_eq!(kb.key_event.modifier, Some(ModifierKey::SHIFT));
    assert_eq!(kb.key_event.nav, Some(NavKey::FORWARD));
    assert_eq!(kb.key_event.code, Some(CodeKey::KEY3));
}

#[test]
fn read_clears_stale_slots() {
    let mut kb = Keyboard::new();
    kb.read(&scan(&[0, 1]));
    kb.read(&scan(&[16]));
    assert_eq!(kb.key_event.function, None);
    assert_eq!(kb.key_event.modifier, None);
    assert_eq!(kb.key_event.nav, Some(NavKey::BACK));
    assert_eq!(kb.key_event.code, None);
}

#[test]
fn read_fn2_never_overrides_fn1() {
    let mut kb = Keyboard::new();
    // the matrix can report FN2 (position 15) spuriously while FN1 is held
    kb.read(&scan(&[0, 15]));
    assert_eq!(kb.key_event.function, Some(FunctionKey::FN1));
    kb.read(&scan(&[15]));
    assert_eq!(kb.key_event.function, Some(FunctionKey::FN2));
}

#[test]
fn read_later_scan_position_wins_per_slot() {
    let mut kb = Keyboard::new();
    // KEY0 at position 2, KEY7 at position 14: KEY7 is scanned later
    kb.read(&scan(&[2, 14]));
    assert_eq!(kb.key_event.code, Some(CodeKey::KEY7));
    // BACK at 16, FORWARD at 17: FORWARD wins
    kb.read(&scan(&[16, 17]));
    assert_eq!(kb.key_event.nav, Some(NavKey::FORWARD));
}

#[test]
fn match_key_table() {
    assert_eq!(match_key(0, 0), Some(Key::FunctionKey(FunctionKey::FN1)));
    assert_eq!(match_key(0, 1), Some(Key::ModifierKey(ModifierKey::SHIFT)));
    assert_eq!(match_key(0, 2), Some(Key::CodeKey(CodeKey::KEY0)));
    assert_eq!(match_key(1, 0), Some(Key::CodeKey(CodeKey::KEY8)));
    assert_eq!(match_key(4, 1), Some(Key::CodeKey(CodeKey::KEY12)));
    assert_eq!(match_key(4, 2), Some(Key::CodeKey(CodeKey::KEY7)));
    assert_eq!(match_key(5, 0), Some(Key::FunctionKey(FunctionKey::FN2)));
    assert_eq!(match_key(5, 1), Some(Key::NavKey(NavKey::BACK)));
    assert_eq!(match_key(5, 2), Some(Key::NavKey(NavKey::FORWARD)));
    assert_eq!(match_key(6, 0), None);
    assert_eq!(match_key(0, 3), None);
}

#[test]
fn match_note_table() {
    let kb = Keyboard::new();
    assert_eq!(kb.match_note(CodeKey::KEY0), Some(Note::C));
    assert_eq!(kb.match_note(CodeKey::KEY1), Some(Note::D));
    assert_eq!(kb.match_note(CodeKey::KEY2), Some(Note::E));
    assert_eq!(kb.match_note(CodeKey::KEY3), Some(Note::F));
    assert_eq!(kb.match_note(CodeKey::KEY4), Some(Note::G));
    assert_eq!(kb.match_note(CodeKey::KEY5), Some(Note::A));
    assert_eq!(kb.match_note(CodeKey::KEY6), Some(Note::B));
    assert_eq!(kb.match_note(CodeKey::KEY7), Some(Note::C));
    assert_eq!(kb.match_note(CodeKey::KEY8), Some(Note::Db));
    assert_eq!(kb.match_note(CodeKey::KEY9), Some(Note::Eb));
    assert_eq!(kb.match_note(CodeKey::KEY10), Some(Note::Gb));
    assert_eq!(kb.match_note(CodeKey::KEY11), Some(Note::Ab));
    assert_eq!(kb.match_note(CodeKey::KEY12), Some(Note::Bb));
}

#[test]
fn match_step_table() {
    let kb = Keyboard::new();
    let keys = [
        CodeKey::KEY0,
        CodeKey::KEY1,
        CodeKey::KEY2,
        CodeKey::KEY3,
        CodeKey::KEY4,
        CodeKey::KEY5,
        CodeKey::KEY6,
        CodeKey::KEY7,
        CodeKey::KEY8,
        CodeKey::KEY9,
        CodeKey::KEY10,
        CodeKey::KEY11,
        CodeKey::KEY12,
    ];
    for (i, k) in keys.iter().enumerate() {
        assert_eq!(kb.match_step(*k), Some(i));
    }
}
