//! The keymap: a fixed, case-sensitive mapping from raw key identifiers to
//! the sixteen keypad indices of the emulated input device. The sixteen
//! one-character identifiers mirror the keypad's 4x4 layout onto a QWERTY
//! block; every other identifier maps to nothing. The letter entries are
//! lowercase only, as key events deliver them without a shift: no case
//! folding is applied, so an uppercase letter deliberately misses the
//! table - a boundary to preserve, not a defect.

use vstd::prelude::*;
use vstd::string::StrSliceExecFns;

verus! {

/// The keypad index a single character stands for, if any.
pub open spec fn btn_of_char(c: char) -> Option<usize> {
    match c {
        '1' => Some(0x1usize),
        '2' => Some(0x2usize),
        '3' => Some(0x3usize),
        '4' => Some(0xCusize),
        'q' => Some(0x4usize),
        'w' => Some(0x5usize),
        'e' => Some(0x6usize),
        'r' => Some(0xDusize),
        'a' => Some(0x7usize),
        's' => Some(0x8usize),
        'd' => Some(0x9usize),
        'f' => Some(0xEusize),
        'z' => Some(0xAusize),
        'x' => Some(0x0usize),
        'c' => Some(0xBusize),
        'v' => Some(0xFusize),
        _ => None,
    }
}

/// The keypad index a raw key identifier stands for: exactly the
/// one-character identifiers of the table map to a button, and only
/// case-sensitively; everything else maps to nothing.
pub open spec fn key2btn_spec(s: Seq<char>) -> Option<usize> {
    if s.len() == 1 {
        btn_of_char(s[0])
    } else {
        None
    }
}

/// Translates a raw key identifier into a keypad index in [0, 15], or
/// `None` for any identifier outside the sixteen-entry table.
pub fn key2btn(key: &str) -> (r: Option<usize>)
    ensures
        r == key2btn_spec(key@),
        r is Some ==> r->0 <= 0xF,
{
    if key.unicode_len() == 1 {
        let c = key.get_char(0);
        match c {
            '1' => Some(0x1),
            '2' => Some(0x2),
            '3' => Some(0x3),
            '4' => Some(0xC),
            'q' => Some(0x4),
            'w' => Some(0x5),
            'e' => Some(0x6),
            'r' => Some(0xD),
            'a' => Some(0x7),
            's' => Some(0x8),
            'd' => Some(0x9),
            'f' => Some(0xE),
            'z' => Some(0xA),
            'x' => Some(0x0),
            'c' => Some(0xB),
            'v' => Some(0xF),
            _ => None,
        }
    } else {
        None
    }
}

/// The keymap table, entry by entry: each of the sixteen identifiers
/// maps to its documented keypad index.
pub proof fn lemma_keymap_table()
    ensures
        key2btn_spec("1"@) == Some(0x1usize),
        key2btn_spec("2"@) == Some(0x2usize),
        key2btn_spec("3"@) == Some(0x3usize),
        key2btn_spec("4"@) == Some(0xCusize),
        key2btn_spec("q"@) == Some(0x4usize),
        key2btn_spec("w"@) == Some(0x5usize),
        key2btn_spec("e"@) == Some(0x6usize),
        key2btn_spec("r"@) == Some(0xDusize),
        key2btn_spec("a"@) == Some(0x7usize),
        key2btn_spec("s"@) == Some(0x8usize),
        key2btn_spec("d"@) == Some(0x9usize),
        key2btn_spec("f"@) == Some(0xEusize),
        key2btn_spec("z"@) == Some(0xAusize),
        key2btn_spec("x"@) == Some(0x0usize),
        key2btn_spec("c"@) == Some(0xBusize),
        key2btn_spec("v"@) == Some(0xFusize),
{
    reveal_strlit("1");
    reveal_strlit("2");
    reveal_strlit("3");
    reveal_strlit("4");
    reveal_strlit("q");
    reveal_strlit("w");
    reveal_strlit("e");
    reveal_strlit("r");
    reveal_strlit("a");
    reveal_strlit("s");
    reveal_strlit("d");
    reveal_strlit("f");
    reveal_strlit("z");
    reveal_strlit("x");
    reveal_strlit("c");
    reveal_strlit("v");
}

} // verus!
