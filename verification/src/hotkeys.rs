//! Global hotkeys written as text, such as `Ctrl+Alt+N`: their modifiers,
//! their primary key, and the combinations the system keeps for itself.
use vstd::prelude::*;
use crate::security::{contains_injection_patterns, spec_contains_injection};
use crate::text::{
    append_str, char_is_alphanumeric, chars_of, copy_str, spec_char_is_alphanumeric,
    spec_str_to_uppercase, spec_trim, str_eq, str_to_uppercase, string_of, trim_chars,
};

verus! {

/// The modifier keys of a hotkey.
#[derive(Clone, Copy, Debug, PartialEq, Eq, Structural)]
pub struct HotkeyModifiers {
    pub control: bool,
    pub alt: bool,
    pub shift: bool,
    pub super_key: bool,
}

/// The state of reading a hotkey: the modifiers met and the last key named.
pub type HotkeyScan = (HotkeyModifiers, Seq<char>);

/// Reads one `+`-separated piece (trimmed, upper-cased): a modifier name
/// adds the modifier, anything else becomes the primary key.
pub open spec fn apply_piece(st: HotkeyScan, piece: Seq<char>) -> HotkeyScan {
    let u = spec_str_to_uppercase(spec_trim(piece));
    let m = st.0;
    if u == "CTRL"@ || u == "CONTROL"@ {
        (HotkeyModifiers { control: true, ..m }, st.1)
    } else if u == "ALT"@ {
        (HotkeyModifiers { alt: true, ..m }, st.1)
    } else if u == "SHIFT"@ {
        (HotkeyModifiers { shift: true, ..m }, st.1)
    } else if u == "SUPER"@ || u == "WIN"@ || u == "META"@ {
        (HotkeyModifiers { super_key: true, ..m }, st.1)
    } else {
        (m, u)
    }
}

/// No modifier and no key yet.
pub open spec fn scan_start() -> HotkeyScan {
    (HotkeyModifiers { control: false, alt: false, shift: false, super_key: false }, seq![])
}

/// Reading `s` left to right: the state after the pieces ended by `+`, and
/// the characters of the piece being read.
pub open spec fn hotkey_scan(s: Seq<char>) -> (HotkeyScan, Seq<char>)
    decreases s.len(),
{
    if s.len() == 0 {
        (scan_start(), seq![])
    } else {
        let (st, cur) = hotkey_scan(s.drop_last());
        if s.last() == '+' {
            (apply_piece(st, cur), seq![])
        } else {
            (st, cur.push(s.last()))
        }
    }
}

/// The modifiers and the primary key a hotkey text names.
pub open spec fn hotkey_parts(s: Seq<char>) -> HotkeyScan {
    apply_piece(hotkey_scan(s).0, hotkey_scan(s).1)
}

/// The names of the modifier keys, upper-cased.
pub open spec fn is_modifier_name(u: Seq<char>) -> bool {
    u == "CTRL"@ || u == "CONTROL"@ || u == "ALT"@ || u == "SHIFT"@ || u == "SUPER"@ || u
        == "WIN"@ || u == "META"@
}

/// The piece, trimmed and upper-cased, names a modifier key.
pub open spec fn is_modifier_piece(piece: Seq<char>) -> bool {
    is_modifier_name(spec_str_to_uppercase(spec_trim(piece)))
}

/// Every piece of `s` that a `+` ends names a modifier key.
pub open spec fn leading_pieces_are_modifiers(s: Seq<char>) -> bool
    decreases s.len(),
{
    if s.len() == 0 {
        true
    } else {
        let prev = leading_pieces_are_modifiers(s.drop_last());
        if s.last() == '+' {
            prev && is_modifier_piece(hotkey_scan(s.drop_last()).1)
        } else {
            prev
        }
    }
}

/// The last piece is a plain key name: once trimmed it is not blank, holds
/// letters and digits only, is no modifier and holds no injection pattern.
pub open spec fn is_key_piece(piece: Seq<char>) -> bool {
    let t = spec_trim(piece);
    &&& t.len() > 0
    &&& forall|i: int| 0 <= i < t.len() ==> spec_char_is_alphanumeric(#[trigger] t[i])
    &&& !is_modifier_piece(piece)
    &&& !spec_contains_injection(t)
}

/// A well-formed hotkey: modifier keys joined by `+`, then one key name, as
/// in `Ctrl+Shift+M`.
pub open spec fn well_formed_hotkey(s: Seq<char>) -> bool {
    leading_pieces_are_modifiers(s) && is_key_piece(hotkey_scan(s).1)
}

fn is_modifier_piece_exec(piece: &Vec<char>) -> (r: bool)
    ensures
        r == is_modifier_piece(piece@),
{
    let u = str_to_uppercase(string_of(&trim_chars(piece)).as_str());
    let s = u.as_str();
    str_eq(s, "CTRL") || str_eq(s, "CONTROL") || str_eq(s, "ALT") || str_eq(s, "SHIFT")
        || str_eq(s, "SUPER") || str_eq(s, "WIN") || str_eq(s, "META")
}

fn is_key_piece_exec(piece: &Vec<char>) -> (r: bool)
    ensures
        r == is_key_piece(piece@),
{
    let t = trim_chars(piece);
    if t.len() == 0 {
        return false;
    }
    let mut i: usize = 0;
    while i < t.len()
        invariant
            i <= t.len(),
            t@ == spec_trim(piece@),
            forall|k: int| 0 <= k < i ==> spec_char_is_alphanumeric(#[trigger] t@[k]),
        decreases t.len() - i,
    {
        if !char_is_alphanumeric(t[i]) {
            proof {
                assert(!spec_char_is_alphanumeric(t@[i as int]));
            }
            return false;
        }
        i = i + 1;
    }
    if is_modifier_piece_exec(piece) {
        return false;
    }
    let ts = string_of(&t);
    !contains_injection_patterns(ts.as_str())
}

/// Whether a hotkey is well formed (see `well_formed_hotkey`).
pub fn is_well_formed_hotkey(hotkey: &str) -> (r: bool)
    ensures
        r == well_formed_hotkey(hotkey@),
{
    let s = chars_of(hotkey);
    let mut ok = true;
    let mut cur: Vec<char> = Vec::new();
    let mut i: usize = 0;
    while i < s.len()
        invariant
            i <= s.len(),
            s@ == hotkey@,
            cur@ == hotkey_scan(s@.take(i as int)).1,
            ok == leading_pieces_are_modifiers(s@.take(i as int)),
        decreases s.len() - i,
    {
        proof {
            assert(s@.take(i + 1).drop_last() =~= s@.take(i as int));
            assert(s@.take(i + 1).last() == s@[i as int]);
        }
        if s[i] == '+' {
            let m = is_modifier_piece_exec(&cur);
            ok = ok && m;
            cur = Vec::new();
        } else {
            cur.push(s[i]);
        }
        i = i + 1;
    }
    proof {
        assert(s@.take(s.len() as int) =~= s@);
    }
    ok && is_key_piece_exec(&cur)
}

/// The canonical form of a hotkey: `CTRL`, `ALT`, `SHIFT`, `WIN` (those
/// present, in this order) and the key, joined by `+`.
pub open spec fn canonical_hotkey(m: HotkeyModifiers, key: Seq<char>) -> Seq<char> {
    (if m.control { "CTRL+"@ } else { seq![] }) + (if m.alt { "ALT+"@ } else { seq![] }) + (if m.shift {
        "SHIFT+"@
    } else {
        seq![]
    }) + (if m.super_key { "WIN+"@ } else { seq![] }) + key
}

/// Hotkeys the system keeps: security, navigation and the universal editing
/// shortcuts, in canonical form.
pub open spec fn reserved_hotkeys() -> Seq<Seq<char>> {
    seq![
        "CTRL+ALT+DEL"@, "CTRL+SHIFT+ESC"@, "WIN+L"@, "ALT+F4"@, "CTRL+ESC"@, "ALT+TAB"@,
        "ALT+SHIFT+TAB"@, "WIN+TAB"@, "CTRL+ALT+TAB"@, "WIN+E"@, "WIN+R"@, "WIN+S"@, "WIN+Q"@,
        "WIN+I"@, "WIN+A"@, "WIN+K"@, "WIN+P"@, "WIN+U"@, "WIN+V"@, "SHIFT+WIN+S"@,
        "WIN+SPACE"@, "CTRL+WIN+D"@, "CTRL+WIN+LEFT"@, "CTRL+WIN+RIGHT"@, "ALT+SPACE"@,
        "CTRL+C"@, "CTRL+V"@, "CTRL+X"@, "CTRL+Z"@, "CTRL+Y"@, "CTRL+A"@, "CTRL+S"@,
        "CTRL+O"@, "CTRL+N"@, "CTRL+P"@, "CTRL+W"@, "CTRL+Q"@, "CTRL+F"@, "CTRL+H"@,
        "CTRL+SHIFT+DEL"@, "CTRL+SHIFT+N"@, "CTRL+SHIFT+T"@, "CTRL+R"@, "CTRL+SHIFT+R"@,
        "ALT+LEFT"@, "ALT+RIGHT"@,
    ]
}

/// Modifier keys held: Ctrl, Alt, Shift, Win.
pub open spec fn modifiers(control: bool, alt: bool, shift: bool, super_key: bool) -> HotkeyModifiers {
    HotkeyModifiers { control, alt, shift, super_key }
}

/// The combinations Windows keeps for itself, by modifiers and key: the
/// security keys (Ctrl+Alt+Del, Ctrl+Shift+Esc, Win+L, Alt+F4), task
/// switching, the Win shortcuts of the shell, and the universal editing and
/// file shortcuts of applications.
pub open spec fn system_keeps(m: HotkeyModifiers, key: Seq<char>) -> bool {
    ||| m == modifiers(true, true, false, false) && (key == "DEL"@ || key == "TAB"@)
    ||| m == modifiers(true, false, true, false) && (key == "ESC"@ || key == "DEL"@ || key == "N"@ || key == "T"@ || key == "R"@)
    ||| m == modifiers(false, false, false, true) && (key == "L"@ || key == "TAB"@ || key == "E"@ || key == "R"@ || key == "S"@ || key == "Q"@ || key == "I"@ || key == "A"@ || key == "K"@ || key == "P"@ || key == "U"@ || key == "V"@ || key == "SPACE"@)
    ||| m == modifiers(false, true, false, false) && (key == "F4"@ || key == "TAB"@ || key == "SPACE"@ || key == "LEFT"@ || key == "RIGHT"@)
    ||| m == modifiers(true, false, false, false) && (key == "ESC"@ || key == "C"@ || key == "V"@ || key == "X"@ || key == "Z"@ || key == "Y"@ || key == "A"@ || key == "S"@ || key == "O"@ || key == "N"@ || key == "P"@ || key == "W"@ || key == "Q"@ || key == "F"@ || key == "H"@ || key == "R"@)
    ||| m == modifiers(false, true, true, false) && (key == "TAB"@)
    ||| m == modifiers(false, false, true, true) && (key == "S"@)
    ||| m == modifiers(true, false, false, true) && (key == "D"@ || key == "LEFT"@ || key == "RIGHT"@)
}

proof fn lemma_reserved_ctrl_alt(key: Seq<char>)
    requires
        key == "DEL"@ || key == "TAB"@,
    ensures
        reserved_hotkeys().contains(canonical_hotkey(modifiers(true, true, false, false), key)),
        key.len() > 0,
{
    reveal_strlit("CTRL+");
    reveal_strlit("ALT+");
    if key == "DEL"@ {
        reveal_strlit("DEL");
        reveal_strlit("CTRL+ALT+DEL");
        assert(canonical_hotkey(modifiers(true, true, false, false), key) =~= "CTRL+ALT+DEL"@);
        assert(reserved_hotkeys()[0] == "CTRL+ALT+DEL"@);
    }
    if key == "TAB"@ {
        reveal_strlit("TAB");
        reveal_strlit("CTRL+ALT+TAB");
        assert(canonical_hotkey(modifiers(true, true, false, false), key) =~= "CTRL+ALT+TAB"@);
        assert(reserved_hotkeys()[8] == "CTRL+ALT+TAB"@);
    }
}

proof fn lemma_reserved_ctrl_shift(key: Seq<char>)
    requires
        key == "ESC"@ || key == "DEL"@ || key == "N"@ || key == "T"@ || key == "R"@,
    ensures
        reserved_hotkeys().contains(canonical_hotkey(modifiers(true, false, true, false), key)),
        key.len() > 0,
{
    reveal_strlit("CTRL+");
    reveal_strlit("SHIFT+");
    if key == "ESC"@ {
        reveal_strlit("ESC");
        reveal_strlit("CTRL+SHIFT+ESC");
        assert(canonical_hotkey(modifiers(true, false, true, false), key) =~= "CTRL+SHIFT+ESC"@);
        assert(reserved_hotkeys()[1] == "CTRL+SHIFT+ESC"@);
    }
    if key == "DEL"@ {
        reveal_strlit("DEL");
        reveal_strlit("CTRL+SHIFT+DEL");
        assert(canonical_hotkey(modifiers(true, false, true, false), key) =~= "CTRL+SHIFT+DEL"@);
        assert(reserved_hotkeys()[39] == "CTRL+SHIFT+DEL"@);
    }
    if key == "N"@ {
        reveal_strlit("N");
        reveal_strlit("CTRL+SHIFT+N");
        assert(canonical_hotkey(modifiers(true, false, true, false), key) =~= "CTRL+SHIFT+N"@);
        assert(reserved_hotkeys()[40] == "CTRL+SHIFT+N"@);
    }
    if key == "T"@ {
        reveal_strlit("T");
        reveal_strlit("CTRL+SHIFT+T");
        assert(canonical_hotkey(modifiers(true, false, true, false), key) =~= "CTRL+SHIFT+T"@);
        assert(reserved_hotkeys()[41] == "CTRL+SHIFT+T"@);
    }
    if key == "R"@ {
        reveal_strlit("R");
        reveal_strlit("CTRL+SHIFT+R");
        assert(canonical_hotkey(modifiers(true, false, true, false), key) =~= "CTRL+SHIFT+R"@);
        assert(reserved_hotkeys()[43] == "CTRL+SHIFT+R"@);
    }
}

proof fn lemma_reserved_win(key: Seq<char>)
    requires
        key == "L"@ || key == "TAB"@ || key == "E"@ || key == "R"@ || key == "S"@ || key == "Q"@ || key == "I"@ || key == "A"@ || key == "K"@ || key == "P"@ || key == "U"@ || key == "V"@ || key == "SPACE"@,
    ensures
        reserved_hotkeys().contains(canonical_hotkey(modifiers(false, false, false, true), key)),
        key.len() > 0,
{
    reveal_strlit("WIN+");
    if key == "L"@ {
        reveal_strlit("L");
        reveal_strlit("WIN+L");
        assert(canonical_hotkey(modifiers(false, false, false, true), key) =~= "WIN+L"@);
        assert(reserved_hotkeys()[2] == "WIN+L"@);
    }
    if key == "TAB"@ {
        reveal_strlit("TAB");
        reveal_strlit("WIN+TAB");
        assert(canonical_hotkey(modifiers(false, false, false, true), key) =~= "WIN+TAB"@);
        assert(reserved_hotkeys()[7] == "WIN+TAB"@);
    }
    if key == "E"@ {
        reveal_strlit("E");
        reveal_strlit("WIN+E");
        assert(canonical_hotkey(modifiers(false, false, false, true), key) =~= "WIN+E"@);
        assert(reserved_hotkeys()[9] == "WIN+E"@);
    }
    if key == "R"@ {
        reveal_strlit("R");
        reveal_strlit("WIN+R");
        assert(canonical_hotkey(modifiers(false, false, false, true), key) =~= "WIN+R"@);
        assert(reserved_hotkeys()[10] == "WIN+R"@);
    }
    if key == "S"@ {
        reveal_strlit("S");
        reveal_strlit("WIN+S");
        assert(canonical_hotkey(modifiers(false, false, false, true), key) =~= "WIN+S"@);
        assert(reserved_hotkeys()[11] == "WIN+S"@);
    }
    if key == "Q"@ {
        reveal_strlit("Q");
        reveal_strlit("WIN+Q");
        assert(canonical_hotkey(modifiers(false, false, false, true), key) =~= "WIN+Q"@);
        assert(reserved_hotkeys()[12] == "WIN+Q"@);
    }
    if key == "I"@ {
        reveal_strlit("I");
        reveal_strlit("WIN+I");
        assert(canonical_hotkey(modifiers(false, false, false, true), key) =~= "WIN+I"@);
        assert(reserved_hotkeys()[13] == "WIN+I"@);
    }
    if key == "A"@ {
        reveal_strlit("A");
        reveal_strlit("WIN+A");
        assert(canonical_hotkey(modifiers(false, false, false, true), key) =~= "WIN+A"@);
        assert(reserved_hotkeys()[14] == "WIN+A"@);
    }
    if key == "K"@ {
        reveal_strlit("K");
        reveal_strlit("WIN+K");
        assert(canonical_hotkey(modifiers(false, false, false, true), key) =~= "WIN+K"@);
        assert(reserved_hotkeys()[15] == "WIN+K"@);
    }
    if key == "P"@ {
        reveal_strlit("P");
        reveal_strlit("WIN+P");
        assert(canonical_hotkey(modifiers(false, false, false, true), key) =~= "WIN+P"@);
        assert(reserved_hotkeys()[16] == "WIN+P"@);
    }
    if key == "U"@ {
        reveal_strlit("U");
        reveal_strlit("WIN+U");
        assert(canonical_hotkey(modifiers(false, false, false, true), key) =~= "WIN+U"@);
        assert(reserved_hotkeys()[17] == "WIN+U"@);
    }
    if key == "V"@ {
        reveal_strlit("V");
        reveal_strlit("WIN+V");
        assert(canonical_hotkey(modifiers(false, false, false, true), key) =~= "WIN+V"@);
        assert(reserved_hotkeys()[18] == "WIN+V"@);
    }
    if key == "SPACE"@ {
        reveal_strlit("SPACE");
        reveal_strlit("WIN+SPACE");
        assert(canonical_hotkey(modifiers(false, false, false, true), key) =~= "WIN+SPACE"@);
        assert(reserved_hotkeys()[20] == "WIN+SPACE"@);
    }
}

proof fn lemma_reserved_alt(key: Seq<char>)
    requires
        key == "F4"@ || key == "TAB"@ || key == "SPACE"@ || key == "LEFT"@ || key == "RIGHT"@,
    ensures
        reserved_hotkeys().contains(canonical_hotkey(modifiers(false, true, false, false), key)),
        key.len() > 0,
{
    reveal_strlit("ALT+");
    if key == "F4"@ {
        reveal_strlit("F4");
        reveal_strlit("ALT+F4");
        assert(canonical_hotkey(modifiers(false, true, false, false), key) =~= "ALT+F4"@);
        assert(reserved_hotkeys()[3] == "ALT+F4"@);
    }
    if key == "TAB"@ {
        reveal_strlit("TAB");
        reveal_strlit("ALT+TAB");
        assert(canonical_hotkey(modifiers(false, true, false, false), key) =~= "ALT+TAB"@);
        assert(reserved_hotkeys()[5] == "ALT+TAB"@);
    }
    if key == "SPACE"@ {
        reveal_strlit("SPACE");
        reveal_strlit("ALT+SPACE");
        assert(canonical_hotkey(modifiers(false, true, false, false), key) =~= "ALT+SPACE"@);
        assert(reserved_hotkeys()[24] == "ALT+SPACE"@);
    }
    if key == "LEFT"@ {
        reveal_strlit("LEFT");
        reveal_strlit("ALT+LEFT");
        assert(canonical_hotkey(modifiers(false, true, false, false), key) =~= "ALT+LEFT"@);
        assert(reserved_hotkeys()[44] == "ALT+LEFT"@);
    }
    if key == "RIGHT"@ {
        reveal_strlit("RIGHT");
        reveal_strlit("ALT+RIGHT");
        assert(canonical_hotkey(modifiers(false, true, false, false), key) =~= "ALT+RIGHT"@);
        assert(reserved_hotkeys()[45] == "ALT+RIGHT"@);
    }
}

proof fn lemma_reserved_ctrl(key: Seq<char>)
    requires
        key == "ESC"@ || key == "C"@ || key == "V"@ || key == "X"@ || key == "Z"@ || key == "Y"@ || key == "A"@ || key == "S"@ || key == "O"@ || key == "N"@ || key == "P"@ || key == "W"@ || key == "Q"@ || key == "F"@ || key == "H"@ || key == "R"@,
    ensures
        reserved_hotkeys().contains(canonical_hotkey(modifiers(true, false, false, false), key)),
        key.len() > 0,
{
    reveal_strlit("CTRL+");
    if key == "ESC"@ {
        reveal_strlit("ESC");
        reveal_strlit("CTRL+ESC");
        assert(canonical_hotkey(modifiers(true, false, false, false), key) =~= "CTRL+ESC"@);
        assert(reserved_hotkeys()[4] == "CTRL+ESC"@);
    }
    if key == "C"@ {
        reveal_strlit("C");
        reveal_strlit("CTRL+C");
        assert(canonical_hotkey(modifiers(true, false, false, false), key) =~= "CTRL+C"@);
        assert(reserved_hotkeys()[25] == "CTRL+C"@);
    }
    if key == "V"@ {
        reveal_strlit("V");
        reveal_strlit("CTRL+V");
        assert(canonical_hotkey(modifiers(true, false, false, false), key) =~= "CTRL+V"@);
        assert(reserved_hotkeys()[26] == "CTRL+V"@);
    }
    if key == "X"@ {
        reveal_strlit("X");
        reveal_strlit("CTRL+X");
        assert(canonical_hotkey(modifiers(true, false, false, false), key) =~= "CTRL+X"@);
        assert(reserved_hotkeys()[27] == "CTRL+X"@);
    }
    if key == "Z"@ {
        reveal_strlit("Z");
        reveal_strlit("CTRL+Z");
        assert(canonical_hotkey(modifiers(true, false, false, false), key) =~= "CTRL+Z"@);
        assert(reserved_hotkeys()[28] == "CTRL+Z"@);
    }
    if key == "Y"@ {
        reveal_strlit("Y");
        reveal_strlit("CTRL+Y");
        assert(canonical_hotkey(modifiers(true, false, false, false), key) =~= "CTRL+Y"@);
        assert(reserved_hotkeys()[29] == "CTRL+Y"@);
    }
    if key == "A"@ {
        reveal_strlit("A");
        reveal_strlit("CTRL+A");
        assert(canonical_hotkey(modifiers(true, false, false, false), key) =~= "CTRL+A"@);
        assert(reserved_hotkeys()[30] == "CTRL+A"@);
    }
    if key == "S"@ {
        reveal_strlit("S");
        reveal_strlit("CTRL+S");
        assert(canonical_hotkey(modifiers(true, false, false, false), key) =~= "CTRL+S"@);
        assert(reserved_hotkeys()[31] == "CTRL+S"@);
    }
    if key == "O"@ {
        reveal_strlit("O");
        reveal_strlit("CTRL+O");
        assert(canonical_hotkey(modifiers(true, false, false, false), key) =~= "CTRL+O"@);
        assert(reserved_hotkeys()[32] == "CTRL+O"@);
    }
    if key == "N"@ {
        reveal_strlit("N");
        reveal_strlit("CTRL+N");
        assert(canonical_hotkey(modifiers(true, false, false, false), key) =~= "CTRL+N"@);
        assert(reserved_hotkeys()[33] == "CTRL+N"@);
    }
    if key == "P"@ {
        reveal_strlit("P");
        reveal_strlit("CTRL+P");
        assert(canonical_hotkey(modifiers(true, false, false, false), key) =~= "CTRL+P"@);
        assert(reserved_hotkeys()[34] == "CTRL+P"@);
    }
    if key == "W"@ {
        reveal_strlit("W");
        reveal_strlit("CTRL+W");
        assert(canonical_hotkey(modifiers(true, false, false, false), key) =~= "CTRL+W"@);
        assert(reserved_hotkeys()[35] == "CTRL+W"@);
    }
    if key == "Q"@ {
        reveal_strlit("Q");
        reveal_strlit("CTRL+Q");
        assert(canonical_hotkey(modifiers(true, false, false, false), key) =~= "CTRL+Q"@);
        assert(reserved_hotkeys()[36] == "CTRL+Q"@);
    }
    if key == "F"@ {
        reveal_strlit("F");
        reveal_strlit("CTRL+F");
        assert(canonical_hotkey(modifiers(true, false, false, false), key) =~= "CTRL+F"@);
        assert(reserved_hotkeys()[37] == "CTRL+F"@);
    }
    if key == "H"@ {
        reveal_strlit("H");
        reveal_strlit("CTRL+H");
        assert(canonical_hotkey(modifiers(true, false, false, false), key) =~= "CTRL+H"@);
        assert(reserved_hotkeys()[38] == "CTRL+H"@);
    }
    if key == "R"@ {
        reveal_strlit("R");
        reveal_strlit("CTRL+R");
        assert(canonical_hotkey(modifiers(true, false, false, false), key) =~= "CTRL+R"@);
        assert(reserved_hotkeys()[42] == "CTRL+R"@);
    }
}

proof fn lemma_reserved_alt_shift(key: Seq<char>)
    requires
        key == "TAB"@,
    ensures
        reserved_hotkeys().contains(canonical_hotkey(modifiers(false, true, true, false), key)),
        key.len() > 0,
{
    reveal_strlit("ALT+");
    reveal_strlit("SHIFT+");
    if key == "TAB"@ {
        reveal_strlit("TAB");
        reveal_strlit("ALT+SHIFT+TAB");
        assert(canonical_hotkey(modifiers(false, true, true, false), key) =~= "ALT+SHIFT+TAB"@);
        assert(reserved_hotkeys()[6] == "ALT+SHIFT+TAB"@);
    }
}

proof fn lemma_reserved_shift_win(key: Seq<char>)
    requires
        key == "S"@,
    ensures
        reserved_hotkeys().contains(canonical_hotkey(modifiers(false, false, true, true), key)),
        key.len() > 0,
{
    reveal_strlit("SHIFT+");
    reveal_strlit("WIN+");
    if key == "S"@ {
        reveal_strlit("S");
        reveal_strlit("SHIFT+WIN+S");
        assert(canonical_hotkey(modifiers(false, false, true, true), key) =~= "SHIFT+WIN+S"@);
        assert(reserved_hotkeys()[19] == "SHIFT+WIN+S"@);
    }
}

proof fn lemma_reserved_ctrl_win(key: Seq<char>)
    requires
        key == "D"@ || key == "LEFT"@ || key == "RIGHT"@,
    ensures
        reserved_hotkeys().contains(canonical_hotkey(modifiers(true, false, false, true), key)),
        key.len() > 0,
{
    reveal_strlit("CTRL+");
    reveal_strlit("WIN+");
    if key == "D"@ {
        reveal_strlit("D");
        reveal_strlit("CTRL+WIN+D");
        assert(canonical_hotkey(modifiers(true, false, false, true), key) =~= "CTRL+WIN+D"@);
        assert(reserved_hotkeys()[21] == "CTRL+WIN+D"@);
    }
    if key == "LEFT"@ {
        reveal_strlit("LEFT");
        reveal_strlit("CTRL+WIN+LEFT");
        assert(canonical_hotkey(modifiers(true, false, false, true), key) =~= "CTRL+WIN+LEFT"@);
        assert(reserved_hotkeys()[22] == "CTRL+WIN+LEFT"@);
    }
    if key == "RIGHT"@ {
        reveal_strlit("RIGHT");
        reveal_strlit("CTRL+WIN+RIGHT");
        assert(canonical_hotkey(modifiers(true, false, false, true), key) =~= "CTRL+WIN+RIGHT"@);
        assert(reserved_hotkeys()[23] == "CTRL+WIN+RIGHT"@);
    }
}

/// Every combination Windows keeps is refused: whatever the text, when it
/// names such a combination (in any order or case of its pieces), reading it
/// fails with the reserved-hotkey answer.
pub proof fn lemma_system_hotkeys_refused(hotkey: Seq<char>, r: Result<(HotkeyModifiers, String), String>)
    requires
        system_keeps(hotkey_parts(hotkey).0, hotkey_parts(hotkey).1),
        hotkey_parse_result(hotkey, r),
    ensures
        r matches Err(e) && e@ == reserved_error(hotkey),
{
    let (m, key) = hotkey_parts(hotkey);
    if m == modifiers(true, true, false, false) {
        lemma_reserved_ctrl_alt(key);
    } else if m == modifiers(true, false, true, false) {
        lemma_reserved_ctrl_shift(key);
    } else if m == modifiers(false, false, false, true) {
        lemma_reserved_win(key);
    } else if m == modifiers(false, true, false, false) {
        lemma_reserved_alt(key);
    } else if m == modifiers(true, false, false, false) {
        lemma_reserved_ctrl(key);
    } else if m == modifiers(false, true, true, false) {
        lemma_reserved_alt_shift(key);
    } else if m == modifiers(false, false, true, true) {
        lemma_reserved_shift_win(key);
    } else if m == modifiers(true, false, false, true) {
        lemma_reserved_ctrl_win(key);
    }
}

/// The answer when a hotkey names no primary key.
pub open spec fn no_key_error() -> Seq<char> {
    "No primary key found in hotkey string"@
}

/// The answer when a hotkey is reserved by the system.
pub open spec fn reserved_error(hotkey: Seq<char>) -> Seq<char> {
    "Hotkey '"@ + hotkey + "' is reserved by the operating system and cannot be used"@
}

fn apply_piece_exec(m: &mut HotkeyModifiers, key: &mut String, piece: &Vec<char>)
    ensures
        (*final(m), final(key)@) == apply_piece((*old(m), old(key)@), piece@),
{
    let u = str_to_uppercase(string_of(&trim_chars(piece)).as_str());
    let s = u.as_str();
    if str_eq(s, "CTRL") || str_eq(s, "CONTROL") {
        m.control = true;
    } else if str_eq(s, "ALT") {
        m.alt = true;
    } else if str_eq(s, "SHIFT") {
        m.shift = true;
    } else if str_eq(s, "SUPER") || str_eq(s, "WIN") || str_eq(s, "META") {
        m.super_key = true;
    } else {
        *key = u;
    }
}

/// The canonical form of a hotkey (see `canonical_hotkey`).
pub fn canonical_form(m: HotkeyModifiers, key: &str) -> (r: String)
    ensures
        r@ == canonical_hotkey(m, key@),
{
    let mut r = String::new();
    if m.control {
        append_str(&mut r, "CTRL+");
    }
    if m.alt {
        append_str(&mut r, "ALT+");
    }
    if m.shift {
        append_str(&mut r, "SHIFT+");
    }
    if m.super_key {
        append_str(&mut r, "WIN+");
    }
    append_str(&mut r, key);
    proof {
        assert(r@ =~= canonical_hotkey(m, key@));
    }
    r
}

fn is_reserved(canonical: &str) -> (r: bool)
    ensures
        r == reserved_hotkeys().contains(canonical@),
{
    let list: Vec<&str> = vec![
        "CTRL+ALT+DEL", "CTRL+SHIFT+ESC", "WIN+L", "ALT+F4", "CTRL+ESC", "ALT+TAB",
        "ALT+SHIFT+TAB", "WIN+TAB", "CTRL+ALT+TAB", "WIN+E", "WIN+R", "WIN+S", "WIN+Q",
        "WIN+I", "WIN+A", "WIN+K", "WIN+P", "WIN+U", "WIN+V", "SHIFT+WIN+S",
        "WIN+SPACE", "CTRL+WIN+D", "CTRL+WIN+LEFT", "CTRL+WIN+RIGHT", "ALT+SPACE",
        "CTRL+C", "CTRL+V", "CTRL+X", "CTRL+Z", "CTRL+Y", "CTRL+A", "CTRL+S",
        "CTRL+O", "CTRL+N", "CTRL+P", "CTRL+W", "CTRL+Q", "CTRL+F", "CTRL+H",
        "CTRL+SHIFT+DEL", "CTRL+SHIFT+N", "CTRL+SHIFT+T", "CTRL+R", "CTRL+SHIFT+R",
        "ALT+LEFT", "ALT+RIGHT",
    ];
    let ghost views = list@.map_values(|x: &str| x@);
    proof {
        assert(views =~= reserved_hotkeys());
    }
    let mut i: usize = 0;
    while i < list.len()
        invariant
            i <= list.len(),
            views == list@.map_values(|x: &str| x@),
            views == reserved_hotkeys(),
            forall|k: int| 0 <= k < i ==> views[k] != canonical@,
        decreases list.len() - i,
    {
        if str_eq(list[i], canonical) {
            proof {
                assert(views[i as int] == canonical@);
            }
            return true;
        }
        i = i + 1;
    }
    false
}

/// What reading a hotkey gives: its modifiers and primary key when a key is
/// named and the combination is not reserved; else the matching error.
pub open spec fn hotkey_parse_result(hotkey: Seq<char>, r: Result<(HotkeyModifiers, String), String>) -> bool {
    match r {
        Ok((m, key)) => (m, key@) == hotkey_parts(hotkey) && key@.len() > 0
            && !reserved_hotkeys().contains(canonical_hotkey(m, key@)),
        Err(e) => {
            let (m, key) = hotkey_parts(hotkey);
            if key.len() == 0 {
                e@ == no_key_error()
            } else {
                reserved_hotkeys().contains(canonical_hotkey(m, key)) && e@ == reserved_error(hotkey)
            }
        },
    }
}

/// Reads a hotkey text: its modifiers and its primary key (upper-cased).
/// Fails when no primary key is named, or when the combination is reserved
/// by the system.
pub fn parse_hotkey_for_v2(hotkey: &str) -> (r: Result<(HotkeyModifiers, String), String>)
    ensures
        hotkey_parse_result(hotkey@, r),
{
    let s = chars_of(hotkey);
    let mut m = HotkeyModifiers { control: false, alt: false, shift: false, super_key: false };
    let mut key = String::new();
    let mut cur: Vec<char> = Vec::new();
    let mut i: usize = 0;
    while i < s.len()
        invariant
            i <= s.len(),
            s@ == hotkey@,
            ((m, key@), cur@) == hotkey_scan(s@.take(i as int)),
        decreases s.len() - i,
    {
        proof {
            assert(s@.take(i + 1).drop_last() =~= s@.take(i as int));
            assert(s@.take(i + 1).last() == s@[i as int]);
        }
        if s[i] == '+' {
            apply_piece_exec(&mut m, &mut key, &cur);
            cur = Vec::new();
        } else {
            cur.push(s[i]);
        }
        i = i + 1;
    }
    proof {
        assert(s@.take(s.len() as int) =~= s@);
    }
    apply_piece_exec(&mut m, &mut key, &cur);
    if key.as_str().is_empty() {
        return Err(copy_str("No primary key found in hotkey string"));
    }
    let canonical = canonical_form(m, key.as_str());
    if is_reserved(canonical.as_str()) {
        let mut e = copy_str("Hotkey '");
        append_str(&mut e, hotkey);
        append_str(&mut e, "' is reserved by the operating system and cannot be used");
        return Err(e);
    }
    Ok((m, key))
}

/// Whether the hotkey registered before has to be unregistered first: it
/// exists and differs from the new one.
pub fn must_unregister_previous(previous: &Option<String>, hotkey: &str) -> (r: bool)
    ensures
        r == match previous {
            Some(p) => p@ != hotkey@,
            None => false,
        },
{
    match previous {
        Some(p) => !str_eq(p.as_str(), hotkey),
        None => false,
    }
}

} // verus!
