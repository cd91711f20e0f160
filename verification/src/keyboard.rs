//! The chorded keyboard: a scan snapshot of the 6-by-3 key matrix is
//! decoded into one logical event with four independent optional slots
//! (function, modifier, nav, code), at most one value per slot per scan.
//!
//! The electrical scan itself is the keyboard collaborator's business;
//! this module consumes a snapshot of 18 pressed flags, one per matrix
//! position in row-major order.

use vstd::prelude::*;

use crate::constants::KEYBOARD_KEY_COUNT;
use crate::track::Note;

verus! {

/// A numbered key, `KEY0` through `KEY12`.
#[derive(Copy, Clone, PartialEq, Eq, Structural, Debug)]
pub enum CodeKey {
    KEY0,
    KEY1,
    KEY10,
    KEY11,
    KEY12,
    KEY2,
    KEY3,
    KEY4,
    KEY5,
    KEY6,
    KEY7,
    KEY8,
    KEY9,
}

/// The modifier key.
#[derive(Copy, Clone, PartialEq, Eq, Structural, Debug)]
pub enum ModifierKey {
    SHIFT,
}

/// The two function keys.
#[derive(Copy, Clone, PartialEq, Eq, Structural, Debug)]
pub enum FunctionKey {
    FN1,
    FN2,
}

/// The two navigation keys.
#[derive(Copy, Clone, PartialEq, Eq, Structural, Debug)]
pub enum NavKey {
    BACK,
    FORWARD,
}

/// Any key of the matrix, tagged by its kind.
#[derive(Copy, Clone, PartialEq, Eq, Structural, Debug)]
pub enum Key {
    NavKey(NavKey),
    CodeKey(CodeKey),
    FunctionKey(FunctionKey),
    ModifierKey(ModifierKey),
}

/// One decoded chord: four independent optional slots.
#[derive(Copy, Clone, PartialEq, Eq, Structural, Debug)]
pub struct KeyEvent {
    pub code: Option<CodeKey>,
    pub nav: Option<NavKey>,
    pub modifier: Option<ModifierKey>,
    pub function: Option<FunctionKey>,
}

/// A chord with every slot empty.
pub open spec fn spec_empty_event() -> KeyEvent {
    KeyEvent { code: None, nav: None, modifier: None, function: None }
}

/// The key at matrix position (`row`, `col`), or `None` outside the
/// 6-by-3 grid.
pub open spec fn spec_match_key(row: int, col: int) -> Option<Key> {
    if row == 0 && col == 0 {
        Some(Key::FunctionKey(FunctionKey::FN1))
    } else if row == 0 && col == 1 {
        Some(Key::ModifierKey(ModifierKey::SHIFT))
    } else if row == 0 && col == 2 {
        Some(Key::CodeKey(CodeKey::KEY0))
    } else if row == 1 && col == 0 {
        Some(Key::CodeKey(CodeKey::KEY8))
    } else if row == 1 && col == 1 {
        Some(Key::CodeKey(CodeKey::KEY1))
    } else if row == 1 && col == 2 {
        Some(Key::CodeKey(CodeKey::KEY2))
    } else if row == 2 && col == 0 {
        Some(Key::CodeKey(CodeKey::KEY9))
    } else if row == 2 && col == 1 {
        Some(Key::CodeKey(CodeKey::KEY3))
    } else if row == 2 && col == 2 {
        Some(Key::CodeKey(CodeKey::KEY4))
    } else if row == 3 && col == 0 {
        Some(Key::CodeKey(CodeKey::KEY10))
    } else if row == 3 && col == 1 {
        Some(Key::CodeKey(CodeKey::KEY5))
    } else if row == 3 && col == 2 {
        Some(Key::CodeKey(CodeKey::KEY6))
    } else if row == 4 && col == 0 {
        Some(Key::CodeKey(CodeKey::KEY11))
    } else if row == 4 && col == 1 {
        Some(Key::CodeKey(CodeKey::KEY12))
    } else if row == 4 && col == 2 {
        Some(Key::CodeKey(CodeKey::KEY7))
    } else if row == 5 && col == 0 {
        Some(Key::FunctionKey(FunctionKey::FN2))
    } else if row == 5 && col == 1 {
        Some(Key::NavKey(NavKey::BACK))
    } else if row == 5 && col == 2 {
        Some(Key::NavKey(NavKey::FORWARD))
    } else {
        None
    }
}

/// The key at matrix position (`row`, `col`), or `None` outside the grid.
pub fn match_key(row: usize, col: usize) -> (k: Option<Key>)
    ensures
        k == spec_match_key(row as int, col as int),
{
    match (row, col) {
        (0, 0) => Some(Key::FunctionKey(FunctionKey::FN1)),
        (0, 1) => Some(Key::ModifierKey(ModifierKey::SHIFT)),
        (0, 2) => Some(Key::CodeKey(CodeKey::KEY0)),
        (1, 0) => Some(Key::CodeKey(CodeKey::KEY8)),
        (1, 1) => Some(Key::CodeKey(CodeKey::KEY1)),
        (1, 2) => Some(Key::CodeKey(CodeKey::KEY2)),
        (2, 0) => Some(Key::CodeKey(CodeKey::KEY9)),
        (2, 1) => Some(Key::CodeKey(CodeKey::KEY3)),
        (2, 2) => Some(Key::CodeKey(CodeKey::KEY4)),
        (3, 0) => Some(Key::CodeKey(CodeKey::KEY10)),
        (3, 1) => Some(Key::CodeKey(CodeKey::KEY5)),
        (3, 2) => Some(Key::CodeKey(CodeKey::KEY6)),
        (4, 0) => Some(Key::CodeKey(CodeKey::KEY11)),
        (4, 1) => Some(Key::CodeKey(CodeKey::KEY12)),
        (4, 2) => Some(Key::CodeKey(CodeKey::KEY7)),
        (5, 0) => Some(Key::FunctionKey(FunctionKey::FN2)),
        (5, 1) => Some(Key::NavKey(NavKey::BACK)),
        (5, 2) => Some(Key::NavKey(NavKey::FORWARD)),
        (_, _) => None,
    }
}

/// The function slot a scan decodes to.  `FN1` sits at position 0.  The
/// matrix can report a spurious `FN2` (position 15) while `FN1` is held
/// together with a navigation key, so `FN2` never overrides `FN1`.
pub open spec fn spec_scan_function(p: Seq<bool>) -> Option<FunctionKey> {
    if p[0] {
        Some(FunctionKey::FN1)
    } else if p[15] {
        Some(FunctionKey::FN2)
    } else {
        None
    }
}

/// The modifier slot a scan decodes to: `SHIFT` sits at position 1.
pub open spec fn spec_scan_modifier(p: Seq<bool>) -> Option<ModifierKey> {
    if p[1] {
        Some(ModifierKey::SHIFT)
    } else {
        None
    }
}

/// The nav slot a scan decodes to: `BACK` at position 16, `FORWARD` at
/// position 17; with both pressed the later position wins.
pub open spec fn spec_scan_nav(p: Seq<bool>) -> Option<NavKey> {
    if p[17] {
        Some(NavKey::FORWARD)
    } else if p[16] {
        Some(NavKey::BACK)
    } else {
        None
    }
}

/// The code slot a scan decodes to.  With several code keys pressed the
/// one latest in row-major scan order wins.
pub open spec fn spec_scan_code(p: Seq<bool>) -> Option<CodeKey> {
    if p[14] {
        Some(CodeKey::KEY7)
    } else if p[13] {
        Some(CodeKey::KEY12)
    } else if p[12] {
        Some(CodeKey::KEY11)
    } else if p[11] {
        Some(CodeKey::KEY6)
    } else if p[10] {
        Some(CodeKey::KEY5)
    } else if p[9] {
        Some(CodeKey::KEY10)
    } else if p[8] {
        Some(CodeKey::KEY4)
    } else if p[7] {
        Some(CodeKey::KEY3)
    } else if p[6] {
        Some(CodeKey::KEY9)
    } else if p[5] {
        Some(CodeKey::KEY2)
    } else if p[4] {
        Some(CodeKey::KEY1)
    } else if p[3] {
        Some(CodeKey::KEY8)
    } else if p[2] {
        Some(CodeKey::KEY0)
    } else {
        None
    }
}

/// The chord a whole scan decodes to.
pub open spec fn spec_scan(p: Seq<bool>) -> KeyEvent {
    KeyEvent {
        code: spec_scan_code(p),
        nav: spec_scan_nav(p),
        modifier: spec_scan_modifier(p),
        function: spec_scan_function(p),
    }
}

/// The chord decoder.  It keeps the chord of the latest scan.
pub struct Keyboard {
    pub key_event: KeyEvent,
}

impl Keyboard {
    pub fn new() -> (kb: Keyboard)
        ensures
            kb.key_event == spec_empty_event(),
    {
        Keyboard { key_event: KeyEvent { code: None, nav: None, modifier: None, function: None } }
    }

    /// The note a code key stands for while recording.
    pub fn match_note(&self, key: CodeKey) -> (n: Option<Note>)
        ensures
            n == Some(spec_match_note(key)),
    {
        match key {
            CodeKey::KEY0 => Some(Note::C),
            CodeKey::KEY1 => Some(Note::D),
            CodeKey::KEY2 => Some(Note::E),
            CodeKey::KEY3 => Some(Note::F),
            CodeKey::KEY4 => Some(Note::G),
            CodeKey::KEY5 => Some(Note::A),
            CodeKey::KEY6 => Some(Note::B),
            CodeKey::KEY7 => Some(Note::C),
            CodeKey::KEY8 => Some(Note::Db),
            CodeKey::KEY9 => Some(Note::Eb),
            CodeKey::KEY10 => Some(Note::Gb),
            CodeKey::KEY11 => Some(Note::Ab),
            CodeKey::KEY12 => Some(Note::Bb),
        }
    }

    /// The step or track index a code key stands for.
    pub fn match_step(&self, key: CodeKey) -> (s: Option<usize>)
        ensures
            s == Some(spec_match_step(key)),
    {
        match key {
            CodeKey::KEY0 => Some(0),
            CodeKey::KEY1 => Some(1),
            CodeKey::KEY2 => Some(2),
            CodeKey::KEY3 => Some(3),
            CodeKey::KEY4 => Some(4),
            CodeKey::KEY5 => Some(5),
            CodeKey::KEY6 => Some(6),
            CodeKey::KEY7 => Some(7),
            CodeKey::KEY8 => Some(8),
            CodeKey::KEY9 => Some(9),
            CodeKey::KEY10 => Some(10),
            CodeKey::KEY11 => Some(11),
            CodeKey::KEY12 => Some(12),
        }
    }

    /// Decode one matrix scan.  `pressed[3 * row + col]` tells whether the
    /// key at (`row`, `col`) is down.  Each slot takes the pressed key
    /// latest in row-major scan order, except that a spurious `FN2` never
    /// overrides a held `FN1`.
    pub fn read(&mut self, pressed: &[bool; 18])
        ensures
            final(self).key_event == spec_scan(pressed@),
    {
        let function = if pressed[0] {
            Some(FunctionKey::FN1)
        } else if pressed[15] {
            // the spurious-FN2 glitch: FN2 never overrides FN1
            Some(FunctionKey::FN2)
        } else {
            None
        };
        let modifier = if pressed[1] {
            Some(ModifierKey::SHIFT)
        } else {
            None
        };
        let nav = if pressed[17] {
            Some(NavKey::FORWARD)
        } else if pressed[16] {
            Some(NavKey::BACK)
        } else {
            None
        };
        let code = if pressed[14] {
            Some(CodeKey::KEY7)
        } else if pressed[13] {
            Some(CodeKey::KEY12)
        } else if pressed[12] {
            Some(CodeKey::KEY11)
        } else if pressed[11] {
            Some(CodeKey::KEY6)
        } else if pressed[10] {
            Some(CodeKey::KEY5)
        } else if pressed[9] {
            Some(CodeKey::KEY10)
        } else if pressed[8] {
            Some(CodeKey::KEY4)
        } else if pressed[7] {
            Some(CodeKey::KEY3)
        } else if pressed[6] {
            Some(CodeKey::KEY9)
        } else if pressed[5] {
            Some(CodeKey::KEY2)
        } else if pressed[4] {
            Some(CodeKey::KEY1)
        } else if pressed[3] {
            Some(CodeKey::KEY8)
        } else if pressed[2] {
            Some(CodeKey::KEY0)
        } else {
            None
        };
        self.key_event = KeyEvent { code, nav, modifier, function };
    }
}

/// The note each code key stands for.
pub open spec fn spec_match_note(key: CodeKey) -> Note {
    match key {
        CodeKey::KEY0 => Note::C,
        CodeKey::KEY1 => Note::D,
        CodeKey::KEY2 => Note::E,
        CodeKey::KEY3 => Note::F,
        CodeKey::KEY4 => Note::G,
        CodeKey::KEY5 => Note::A,
        CodeKey::KEY6 => Note::B,
        CodeKey::KEY7 => Note::C,
        CodeKey::KEY8 => Note::Db,
        CodeKey::KEY9 => Note::Eb,
        CodeKey::KEY10 => Note::Gb,
        CodeKey::KEY11 => Note::Ab,
        CodeKey::KEY12 => Note::Bb,
    }
}

/// The step or track index each code key stands for.
pub open spec fn spec_match_step(key: CodeKey) -> usize {
    match key {
        CodeKey::KEY0 => 0,
        CodeKey::KEY1 => 1,
        CodeKey::KEY2 => 2,
        CodeKey::KEY3 => 3,
        CodeKey::KEY4 => 4,
        CodeKey::KEY5 => 5,
        CodeKey::KEY6 => 6,
        CodeKey::KEY7 => 7,
        CodeKey::KEY8 => 8,
        CodeKey::KEY9 => 9,
        CodeKey::KEY10 => 10,
        CodeKey::KEY11 => 11,
        CodeKey::KEY12 => 12,
    }
}

} // verus!
