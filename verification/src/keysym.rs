//! The closed vocabulary of key symbols and modifier columns, and the
//! conversions between symbols, their textual names and printable
//! characters.

use vstd::prelude::*;

use crate::text::str_eq;

verus! {

/// One modifier-combination column of a keyboard-mapping entry.
#[derive(PartialEq, Eq, Structural, Clone, Copy, Debug, Hash)]
pub enum Modifier {
    Key,
    ShiftKey,
    ModeSwitchKey,
    ModeSwitchShiftKey,
    ISOLevel3ShiftKey,
    ISOLevel3ShiftShiftKey,
}

/// A symbolic key identity, including the sentinel `KEY_NONE` for an
/// absent or unrecognized symbol.
#[allow(non_camel_case_types)]
#[derive(PartialEq, Eq, Structural, Clone, Copy, Debug, Hash)]
pub enum KeySym {
    KEY_NONE,
    KEY_a,
    KEY_b,
    KEY_c,
    KEY_d,
    KEY_e,
    KEY_f,
    KEY_g,
    KEY_h,
    KEY_i,
    KEY_j,
    KEY_k,
    KEY_l,
    KEY_m,
    KEY_n,
    KEY_o,
    KEY_p,
    KEY_q,
    KEY_r,
    KEY_s,
    KEY_t,
    KEY_u,
    KEY_v,
    KEY_w,
    KEY_x,
    KEY_y,
    KEY_z,
    KEY_A,
    KEY_B,
    KEY_C,
    KEY_D,
    KEY_E,
    KEY_F,
    KEY_G,
    KEY_H,
    KEY_I,
    KEY_J,
    KEY_K,
    KEY_L,
    KEY_M,
    KEY_N,
    KEY_O,
    KEY_P,
    KEY_Q,
    KEY_R,
    KEY_S,
    KEY_T,
    KEY_U,
    KEY_V,
    KEY_W,
    KEY_X,
    KEY_Y,
    KEY_Z,
    KEY_SPACE,
    KEY_RETURN,
    KEY_BACKSPACE,
    KEY_TAB,
    KEY_ESCAPE,
    KEY_GRAVE,
    KEY_TILDE,
    KEY_0,
    KEY_1,
    KEY_2,
    KEY_3,
    KEY_4,
    KEY_5,
    KEY_6,
    KEY_7,
    KEY_8,
    KEY_9,
    KEY_EXCLAMATION,
    KEY_AT,
    KEY_NUMBERSIGN,
    KEY_DOLLAR,
    KEY_PERCENT,
    KEY_CIRCUM,
    KEY_AMPERSAND,
    KEY_ASTERISK,
    KEY_PARENLEFT,
    KEY_PARENRIGHT,
    KEY_MINUS,
    KEY_UNDERSCORE,
    KEY_PLUS,
    KEY_EQUAL,
    KEY_BRACKETLEFT,
    KEY_BRACKETRIGHT,
    KEY_BRACELEFT,
    KEY_BRACERIGHT,
    KEY_SEMICOLON,
    KEY_COLON,
    KEY_APOSTROPHE,
    KEY_DOUBLEQUOTE,
    KEY_BACKSLASH,
    KEY_BAR,
    KEY_COMMA,
    KEY_LESS,
    KEY_PERIOD,
    KEY_GREATER,
    KEY_SLASH,
    KEY_QUESTION,
    KEY_F1,
    KEY_F2,
    KEY_F3,
    KEY_F4,
    KEY_F5,
    KEY_F6,
    KEY_F7,
    KEY_F8,
    KEY_F9,
    KEY_F10,
    KEY_F11,
    KEY_F12,
}

/// The symbol a keyboard-mapping name denotes, or nothing for a name
/// outside the recognized vocabulary.
pub open spec fn keysym_of_name(s: Seq<char>) -> Option<KeySym> {
    if s == "a"@ {
        Some(KeySym::KEY_a)
    } else if s == "b"@ {
        Some(KeySym::KEY_b)
    } else if s == "c"@ {
        Some(KeySym::KEY_c)
    } else if s == "d"@ {
        Some(KeySym::KEY_d)
    } else if s == "e"@ {
        Some(KeySym::KEY_e)
    } else if s == "f"@ {
        Some(KeySym::KEY_f)
    } else if s == "g"@ {
        Some(KeySym::KEY_g)
    } else if s == "h"@ {
        Some(KeySym::KEY_h)
    } else if s == "i"@ {
        Some(KeySym::KEY_i)
    } else if s == "j"@ {
        Some(KeySym::KEY_j)
    } else if s == "k"@ {
        Some(KeySym::KEY_k)
    } else if s == "l"@ {
        Some(KeySym::KEY_l)
    } else if s == "m"@ {
        Some(KeySym::KEY_m)
    } else if s == "n"@ {
        Some(KeySym::KEY_n)
    } else if s == "o"@ {
        Some(KeySym::KEY_o)
    } else if s == "p"@ {
        Some(KeySym::KEY_p)
    } else if s == "q"@ {
        Some(KeySym::KEY_q)
    } else if s == "r"@ {
        Some(KeySym::KEY_r)
    } else if s == "s"@ {
        Some(KeySym::KEY_s)
    } else if s == "t"@ {
        Some(KeySym::KEY_t)
    } else if s == "u"@ {
        Some(KeySym::KEY_u)
    } else if s == "v"@ {
        Some(KeySym::KEY_v)
    } else if s == "w"@ {
        Some(KeySym::KEY_w)
    } else if s == "x"@ {
        Some(KeySym::KEY_x)
    } else if s == "y"@ {
        Some(KeySym::KEY_y)
    } else if s == "z"@ {
        Some(KeySym::KEY_z)
    } else if s == "A"@ {
        Some(KeySym::KEY_A)
    } else if s == "B"@ {
        Some(KeySym::KEY_B)
    } else if s == "C"@ {
        Some(KeySym::KEY_C)
    } else if s == "D"@ {
        Some(KeySym::KEY_D)
    } else if s == "E"@ {
        Some(KeySym::KEY_E)
    } else if s == "F"@ {
        Some(KeySym::KEY_F)
    } else if s == "G"@ {
        Some(KeySym::KEY_G)
    } else if s == "H"@ {
        Some(KeySym::KEY_H)
    } else if s == "I"@ {
        Some(KeySym::KEY_I)
    } else if s == "J"@ {
        Some(KeySym::KEY_J)
    } else if s == "K"@ {
        Some(KeySym::KEY_K)
    } else if s == "L"@ {
        Some(KeySym::KEY_L)
    } else if s == "M"@ {
        Some(KeySym::KEY_M)
    } else if s == "N"@ {
        Some(KeySym::KEY_N)
    } else if s == "O"@ {
        Some(KeySym::KEY_O)
    } else if s == "P"@ {
        Some(KeySym::KEY_P)
    } else if s == "Q"@ {
        Some(KeySym::KEY_Q)
    } else if s == "R"@ {
        Some(KeySym::KEY_R)
    } else if s == "S"@ {
        Some(KeySym::KEY_S)
    } else if s == "T"@ {
        Some(KeySym::KEY_T)
    } else if s == "U"@ {
        Some(KeySym::KEY_U)
    } else if s == "V"@ {
        Some(KeySym::KEY_V)
    } else if s == "W"@ {
        Some(KeySym::KEY_W)
    } else if s == "X"@ {
        Some(KeySym::KEY_X)
    } else if s == "Y"@ {
        Some(KeySym::KEY_Y)
    } else if s == "Z"@ {
        Some(KeySym::KEY_Z)
    } else if s == "0"@ {
        Some(KeySym::KEY_0)
    } else if s == "1"@ {
        Some(KeySym::KEY_1)
    } else if s == "2"@ {
        Some(KeySym::KEY_2)
    } else if s == "3"@ {
        Some(KeySym::KEY_3)
    } else if s == "4"@ {
        Some(KeySym::KEY_4)
    } else if s == "5"@ {
        Some(KeySym::KEY_5)
    } else if s == "6"@ {
        Some(KeySym::KEY_6)
    } else if s == "7"@ {
        Some(KeySym::KEY_7)
    } else if s == "8"@ {
        Some(KeySym::KEY_8)
    } else if s == "9"@ {
        Some(KeySym::KEY_9)
    } else if s == "exclam"@ {
        Some(KeySym::KEY_EXCLAMATION)
    } else if s == "at"@ {
        Some(KeySym::KEY_AT)
    } else if s == "numbersign"@ {
        Some(KeySym::KEY_NUMBERSIGN)
    } else if s == "dollar"@ {
        Some(KeySym::KEY_DOLLAR)
    } else if s == "percent"@ {
        Some(KeySym::KEY_PERCENT)
    } else if s == "asciicircum"@ {
        Some(KeySym::KEY_CIRCUM)
    } else if s == "ampersand"@ {
        Some(KeySym::KEY_AMPERSAND)
    } else if s == "asterisk"@ {
        Some(KeySym::KEY_ASTERISK)
    } else if s == "parenleft"@ {
        Some(KeySym::KEY_PARENLEFT)
    } else if s == "parenright"@ {
        Some(KeySym::KEY_PARENRIGHT)
    } else if s == "minus"@ {
        Some(KeySym::KEY_MINUS)
    } else if s == "underscore"@ {
        Some(KeySym::KEY_UNDERSCORE)
    } else if s == "plus"@ {
        Some(KeySym::KEY_PLUS)
    } else if s == "equal"@ {
        Some(KeySym::KEY_EQUAL)
    } else if s == "bracketleft"@ {
        Some(KeySym::KEY_BRACKETLEFT)
    } else if s == "bracketright"@ {
        Some(KeySym::KEY_BRACKETRIGHT)
    } else if s == "braceleft"@ {
        Some(KeySym::KEY_BRACELEFT)
    } else if s == "braceright"@ {
        Some(KeySym::KEY_BRACERIGHT)
    } else if s == "semicolon"@ {
        Some(KeySym::KEY_SEMICOLON)
    } else if s == "colon"@ {
        Some(KeySym::KEY_COLON)
    } else if s == "apostrophe"@ {
        Some(KeySym::KEY_APOSTROPHE)
    } else if s == "quotedbl"@ {
        Some(KeySym::KEY_DOUBLEQUOTE)
    } else if s == "backslash"@ {
        Some(KeySym::KEY_BACKSLASH)
    } else if s == "bar"@ {
        Some(KeySym::KEY_BAR)
    } else if s == "comma"@ {
        Some(KeySym::KEY_COMMA)
    } else if s == "less"@ {
        Some(KeySym::KEY_LESS)
    } else if s == "period"@ {
        Some(KeySym::KEY_PERIOD)
    } else if s == "greater"@ {
        Some(KeySym::KEY_GREATER)
    } else if s == "slash"@ {
        Some(KeySym::KEY_SLASH)
    } else if s == "question"@ {
        Some(KeySym::KEY_QUESTION)
    } else if s == "grave"@ {
        Some(KeySym::KEY_GRAVE)
    } else if s == "asciitilde"@ {
        Some(KeySym::KEY_TILDE)
    } else if s == "space"@ {
        Some(KeySym::KEY_SPACE)
    } else if s == "Return"@ {
        Some(KeySym::KEY_RETURN)
    } else if s == "BackSpace"@ {
        Some(KeySym::KEY_BACKSPACE)
    } else if s == "Tab"@ {
        Some(KeySym::KEY_TAB)
    } else if s == "Escape"@ {
        Some(KeySym::KEY_ESCAPE)
    } else if s == "NoSymbol"@ {
        Some(KeySym::KEY_NONE)
    } else if s == "F1"@ {
        Some(KeySym::KEY_F1)
    } else if s == "F2"@ {
        Some(KeySym::KEY_F2)
    } else if s == "F3"@ {
        Some(KeySym::KEY_F3)
    } else if s == "F4"@ {
        Some(KeySym::KEY_F4)
    } else if s == "F5"@ {
        Some(KeySym::KEY_F5)
    } else if s == "F6"@ {
        Some(KeySym::KEY_F6)
    } else if s == "F7"@ {
        Some(KeySym::KEY_F7)
    } else if s == "F8"@ {
        Some(KeySym::KEY_F8)
    } else if s == "F9"@ {
        Some(KeySym::KEY_F9)
    } else if s == "F10"@ {
        Some(KeySym::KEY_F10)
    } else if s == "F11"@ {
        Some(KeySym::KEY_F11)
    } else if s == "F12"@ {
        Some(KeySym::KEY_F12)
    } else {
        None
    }
}

/// The symbol standing for a printable character, or nothing for a
/// character outside the supported subset.
pub open spec fn keysym_of_char(c: char) -> Option<KeySym> {
    if c == ' ' {
        Some(KeySym::KEY_SPACE)
    } else if c == 'a' {
        Some(KeySym::KEY_a)
    } else if c == 'b' {
        Some(KeySym::KEY_b)
    } else if c == 'c' {
        Some(KeySym::KEY_c)
    } else if c == 'd' {
        Some(KeySym::KEY_d)
    } else if c == 'e' {
        Some(KeySym::KEY_e)
    } else if c == 'f' {
        Some(KeySym::KEY_f)
    } else if c == 'g' {
        Some(KeySym::KEY_g)
    } else if c == 'h' {
        Some(KeySym::KEY_h)
    } else if c == 'i' {
        Some(KeySym::KEY_i)
    } else if c == 'j' {
        Some(KeySym::KEY_j)
    } else if c == 'k' {
        Some(KeySym::KEY_k)
    } else if c == 'l' {
        Some(KeySym::KEY_l)
    } else if c == 'm' {
        Some(KeySym::KEY_m)
    } else if c == 'n' {
        Some(KeySym::KEY_n)
    } else if c == 'o' {
        Some(KeySym::KEY_o)
    } else if c == 'p' {
        Some(KeySym::KEY_p)
    } else if c == 'q' {
        Some(KeySym::KEY_q)
    } else if c == 'r' {
        Some(KeySym::KEY_r)
    } else if c == 's' {
        Some(KeySym::KEY_s)
    } else if c == 't' {
        Some(KeySym::KEY_t)
    } else if c == 'u' {
        Some(KeySym::KEY_u)
    } else if c == 'v' {
        Some(KeySym::KEY_v)
    } else if c == 'w' {
        Some(KeySym::KEY_w)
    } else if c == 'x' {
        Some(KeySym::KEY_x)
    } else if c == 'y' {
        Some(KeySym::KEY_y)
    } else if c == 'z' {
        Some(KeySym::KEY_z)
    } else if c == 'A' {
        Some(KeySym::KEY_A)
    } else if c == 'B' {
        Some(KeySym::KEY_B)
    } else if c == 'C' {
        Some(KeySym::KEY_C)
    } else if c == 'D' {
        Some(KeySym::KEY_D)
    } else if c == 'E' {
        Some(KeySym::KEY_E)
    } else if c == 'F' {
        Some(KeySym::KEY_F)
    } else if c == 'G' {
        Some(KeySym::KEY_G)
    } else if c == 'H' {
        Some(KeySym::KEY_H)
    } else if c == 'I' {
        Some(KeySym::KEY_I)
    } else if c == 'J' {
        Some(KeySym::KEY_J)
    } else if c == 'K' {
        Some(KeySym::KEY_K)
    } else if c == 'L' {
        Some(KeySym::KEY_L)
    } else if c == 'M' {
        Some(KeySym::KEY_M)
    } else if c == 'N' {
        Some(KeySym::KEY_N)
    } else if c == 'O' {
        Some(KeySym::KEY_O)
    } else if c == 'P' {
        Some(KeySym::KEY_P)
    } else if c == 'Q' {
        Some(KeySym::KEY_Q)
    } else if c == 'R' {
        Some(KeySym::KEY_R)
    } else if c == 'S' {
        Some(KeySym::KEY_S)
    } else if c == 'T' {
        Some(KeySym::KEY_T)
    } else if c == 'U' {
        Some(KeySym::KEY_U)
    } else if c == 'V' {
        Some(KeySym::KEY_V)
    } else if c == 'W' {
        Some(KeySym::KEY_W)
    } else if c == 'X' {
        Some(KeySym::KEY_X)
    } else if c == 'Y' {
        Some(KeySym::KEY_Y)
    } else if c == 'Z' {
        Some(KeySym::KEY_Z)
    } else if c == '0' {
        Some(KeySym::KEY_0)
    } else if c == '1' {
        Some(KeySym::KEY_1)
    } else if c == '2' {
        Some(KeySym::KEY_2)
    } else if c == '3' {
        Some(KeySym::KEY_3)
    } else if c == '4' {
        Some(KeySym::KEY_4)
    } else if c == '5' {
        Some(KeySym::KEY_5)
    } else if c == '6' {
        Some(KeySym::KEY_6)
    } else if c == '7' {
        Some(KeySym::KEY_7)
    } else if c == '8' {
        Some(KeySym::KEY_8)
    } else if c == '9' {
        Some(KeySym::KEY_9)
    } else if c == '!' {
        Some(KeySym::KEY_EXCLAMATION)
    } else if c == '@' {
        Some(KeySym::KEY_AT)
    } else if c == '#' {
        Some(KeySym::KEY_NUMBERSIGN)
    } else if c == '$' {
        Some(KeySym::KEY_DOLLAR)
    } else if c == '%' {
        Some(KeySym::KEY_PERCENT)
    } else if c == '^' {
        Some(KeySym::KEY_CIRCUM)
    } else if c == '&' {
        Some(KeySym::KEY_AMPERSAND)
    } else if c == '*' {
        Some(KeySym::KEY_ASTERISK)
    } else if c == '(' {
        Some(KeySym::KEY_PARENLEFT)
    } else if c == ')' {
        Some(KeySym::KEY_PARENRIGHT)
    } else if c == '-' {
        Some(KeySym::KEY_MINUS)
    } else if c == '_' {
        Some(KeySym::KEY_UNDERSCORE)
    } else if c == '+' {
        Some(KeySym::KEY_PLUS)
    } else if c == '=' {
        Some(KeySym::KEY_EQUAL)
    } else if c == '[' {
        Some(KeySym::KEY_BRACKETLEFT)
    } else if c == ']' {
        Some(KeySym::KEY_BRACKETRIGHT)
    } else if c == '{' {
        Some(KeySym::KEY_BRACELEFT)
    } else if c == '}' {
        Some(KeySym::KEY_BRACERIGHT)
    } else if c == ';' {
        Some(KeySym::KEY_SEMICOLON)
    } else if c == ':' {
        Some(KeySym::KEY_COLON)
    } else if c == '\'' {
        Some(KeySym::KEY_APOSTROPHE)
    } else if c == '"' {
        Some(KeySym::KEY_DOUBLEQUOTE)
    } else if c == '\\' {
        Some(KeySym::KEY_BACKSLASH)
    } else if c == '|' {
        Some(KeySym::KEY_BAR)
    } else if c == ',' {
        Some(KeySym::KEY_COMMA)
    } else if c == '<' {
        Some(KeySym::KEY_LESS)
    } else if c == '.' {
        Some(KeySym::KEY_PERIOD)
    } else if c == '>' {
        Some(KeySym::KEY_GREATER)
    } else if c == '/' {
        Some(KeySym::KEY_SLASH)
    } else if c == '?' {
        Some(KeySym::KEY_QUESTION)
    } else if c == '`' {
        Some(KeySym::KEY_GRAVE)
    } else if c == '~' {
        Some(KeySym::KEY_TILDE)
    } else {
        None
    }
}

/// The printable character a symbol denotes, or nothing for a symbol
/// outside the supported subset.
pub open spec fn char_of_keysym(sym: KeySym) -> Option<char> {
    match sym {
        KeySym::KEY_BACKSPACE => Some('\u{8}'),
        KeySym::KEY_TAB => Some('\u{9}'),
        KeySym::KEY_ESCAPE => Some('\u{1b}'),
        KeySym::KEY_SPACE => Some('\u{20}'),
        KeySym::KEY_EXCLAMATION => Some('\u{21}'),
        KeySym::KEY_DOUBLEQUOTE => Some('\u{22}'),
        KeySym::KEY_NUMBERSIGN => Some('\u{23}'),
        KeySym::KEY_DOLLAR => Some('\u{24}'),
        KeySym::KEY_PERCENT => Some('\u{25}'),
        KeySym::KEY_AMPERSAND => Some('\u{26}'),
        KeySym::KEY_APOSTROPHE => Some('\u{27}'),
        KeySym::KEY_PARENLEFT => Some('\u{28}'),
        KeySym::KEY_PARENRIGHT => Some('\u{29}'),
        KeySym::KEY_ASTERISK => Some('\u{2a}'),
        KeySym::KEY_PLUS => Some('\u{2b}'),
        KeySym::KEY_COMMA => Some('\u{2c}'),
        KeySym::KEY_MINUS => Some('\u{2d}'),
        KeySym::KEY_PERIOD => Some('\u{2e}'),
        KeySym::KEY_SLASH => Some('\u{2f}'),
        KeySym::KEY_0 => Some('\u{30}'),
        KeySym::KEY_1 => Some('\u{31}'),
        KeySym::KEY_2 => Some('\u{32}'),
        KeySym::KEY_3 => Some('\u{33}'),
        KeySym::KEY_4 => Some('\u{34}'),
        KeySym::KEY_5 => Some('\u{35}'),
        KeySym::KEY_6 => Some('\u{36}'),
        KeySym::KEY_7 => Some('\u{37}'),
        KeySym::KEY_8 => Some('\u{38}'),
        KeySym::KEY_9 => Some('\u{39}'),
        KeySym::KEY_COLON => Some('\u{3a}'),
        KeySym::KEY_SEMICOLON => Some('\u{3b}'),
        KeySym::KEY_LESS => Some('\u{3c}'),
        KeySym::KEY_EQUAL => Some('\u{3d}'),
        KeySym::KEY_GREATER => Some('\u{3e}'),
        KeySym::KEY_QUESTION => Some('\u{3f}'),
        KeySym::KEY_AT => Some('\u{40}'),
        KeySym::KEY_A => Some('\u{41}'),
        KeySym::KEY_B => Some('\u{42}'),
        KeySym::KEY_C => Some('\u{43}'),
        KeySym::KEY_D => Some('\u{44}'),
        KeySym::KEY_E => Some('\u{45}'),
        KeySym::KEY_F => Some('\u{46}'),
        KeySym::KEY_G => Some('\u{47}'),
        KeySym::KEY_H => Some('\u{48}'),
        KeySym::KEY_I => Some('\u{49}'),
        KeySym::KEY_J => Some('\u{4a}'),
        KeySym::KEY_K => Some('\u{4b}'),
        KeySym::KEY_L => Some('\u{4c}'),
        KeySym::KEY_M => Some('\u{4d}'),
        KeySym::KEY_N => Some('\u{4e}'),
        KeySym::KEY_O => Some('\u{4f}'),
        KeySym::KEY_P => Some('\u{50}'),
        KeySym::KEY_Q => Some('\u{51}'),
        KeySym::KEY_R => Some('\u{52}'),
        KeySym::KEY_S => Some('\u{53}'),
        KeySym::KEY_T => Some('\u{54}'),
        KeySym::KEY_U => Some('\u{55}'),
        KeySym::KEY_V => Some('\u{56}'),
        KeySym::KEY_W => Some('\u{57}'),
        KeySym::KEY_X => Some('\u{58}'),
        KeySym::KEY_Y => Some('\u{59}'),
        KeySym::KEY_Z => Some('\u{5a}'),
        KeySym::KEY_a => Some('\u{61}'),
        KeySym::KEY_b => Some('\u{62}'),
        KeySym::KEY_c => Some('\u{63}'),
        KeySym::KEY_d => Some('\u{64}'),
        KeySym::KEY_e => Some('\u{65}'),
        KeySym::KEY_f => Some('\u{66}'),
        KeySym::KEY_g => Some('\u{67}'),
        KeySym::KEY_h => Some('\u{68}'),
        KeySym::KEY_i => Some('\u{69}'),
        KeySym::KEY_j => Some('\u{6a}'),
        KeySym::KEY_k => Some('\u{6b}'),
        KeySym::KEY_l => Some('\u{6c}'),
        KeySym::KEY_m => Some('\u{6d}'),
        KeySym::KEY_n => Some('\u{6e}'),
        KeySym::KEY_o => Some('\u{6f}'),
        KeySym::KEY_p => Some('\u{70}'),
        KeySym::KEY_q => Some('\u{71}'),
        KeySym::KEY_r => Some('\u{72}'),
        KeySym::KEY_s => Some('\u{73}'),
        KeySym::KEY_t => Some('\u{74}'),
        KeySym::KEY_u => Some('\u{75}'),
        KeySym::KEY_v => Some('\u{76}'),
        KeySym::KEY_w => Some('\u{77}'),
        KeySym::KEY_x => Some('\u{78}'),
        KeySym::KEY_y => Some('\u{79}'),
        KeySym::KEY_z => Some('\u{7a}'),
        KeySym::KEY_BRACELEFT => Some('\u{7b}'),
        KeySym::KEY_BAR => Some('\u{7c}'),
        KeySym::KEY_BRACERIGHT => Some('\u{7d}'),
        KeySym::KEY_TILDE => Some('\u{7e}'),
        _ => None,
    }
}

impl KeySym {
    /// Parses a keyboard-mapping symbol name.
    pub fn from_str(s: &str) -> (r: Result<KeySym, ()>)
        ensures
            (match keysym_of_name(s@) {
                Some(k) => r == Ok::<KeySym, ()>(k),
                None => r == Err::<KeySym, ()>(()),
            }),
    {
        if str_eq(s, "a") {
            Ok(KeySym::KEY_a)
        } else if str_eq(s, "b") {
            Ok(KeySym::KEY_b)
        } else if str_eq(s, "c") {
            Ok(KeySym::KEY_c)
        } else if str_eq(s, "d") {
            Ok(KeySym::KEY_d)
        } else if str_eq(s, "e") {
            Ok(KeySym::KEY_e)
        } else if str_eq(s, "f") {
            Ok(KeySym::KEY_f)
        } else if str_eq(s, "g") {
            Ok(KeySym::KEY_g)
        } else if str_eq(s, "h") {
            Ok(KeySym::KEY_h)
        } else if str_eq(s, "i") {
            Ok(KeySym::KEY_i)
        } else if str_eq(s, "j") {
            Ok(KeySym::KEY_j)
        } else if str_eq(s, "k") {
            Ok(KeySym::KEY_k)
        } else if str_eq(s, "l") {
            Ok(KeySym::KEY_l)
        } else if str_eq(s, "m") {
            Ok(KeySym::KEY_m)
        } else if str_eq(s, "n") {
            Ok(KeySym::KEY_n)
        } else if str_eq(s, "o") {
            Ok(KeySym::KEY_o)
        } else if str_eq(s, "p") {
            Ok(KeySym::KEY_p)
        } else if str_eq(s, "q") {
            Ok(KeySym::KEY_q)
        } else if str_eq(s, "r") {
            Ok(KeySym::KEY_r)
        } else if str_eq(s, "s") {
            Ok(KeySym::KEY_s)
        } else if str_eq(s, "t") {
            Ok(KeySym::KEY_t)
        } else if str_eq(s, "u") {
            Ok(KeySym::KEY_u)
        } else if str_eq(s, "v") {
            Ok(KeySym::KEY_v)
        } else if str_eq(s, "w") {
            Ok(KeySym::KEY_w)
        } else if str_eq(s, "x") {
            Ok(KeySym::KEY_x)
        } else if str_eq(s, "y") {
            Ok(KeySym::KEY_y)
        } else if str_eq(s, "z") {
            Ok(KeySym::KEY_z)
        } else if str_eq(s, "A") {
            Ok(KeySym::KEY_A)
        } else if str_eq(s, "B") {
            Ok(KeySym::KEY_B)
        } else if str_eq(s, "C") {
            Ok(KeySym::KEY_C)
        } else if str_eq(s, "D") {
            Ok(KeySym::KEY_D)
        } else if str_eq(s, "E") {
            Ok(KeySym::KEY_E)
        } else if str_eq(s, "F") {
            Ok(KeySym::KEY_F)
        } else if str_eq(s, "G") {
            Ok(KeySym::KEY_G)
        } else if str_eq(s, "H") {
            Ok(KeySym::KEY_H)
        } else if str_eq(s, "I") {
            Ok(KeySym::KEY_I)
        } else if str_eq(s, "J") {
            Ok(KeySym::KEY_J)
        } else if str_eq(s, "K") {
            Ok(KeySym::KEY_K)
        } else if str_eq(s, "L") {
            Ok(KeySym::KEY_L)
        } else if str_eq(s, "M") {
            Ok(KeySym::KEY_M)
        } else if str_eq(s, "N") {
            Ok(KeySym::KEY_N)
        } else if str_eq(s, "O") {
            Ok(KeySym::KEY_O)
        } else if str_eq(s, "P") {
            Ok(KeySym::KEY_P)
        } else if str_eq(s, "Q") {
            Ok(KeySym::KEY_Q)
        } else if str_eq(s, "R") {
            Ok(KeySym::KEY_R)
        } else if str_eq(s, "S") {
            Ok(KeySym::KEY_S)
        } else if str_eq(s, "T") {
            Ok(KeySym::KEY_T)
        } else if str_eq(s, "U") {
            Ok(KeySym::KEY_U)
        } else if str_eq(s, "V") {
            Ok(KeySym::KEY_V)
        } else if str_eq(s, "W") {
            Ok(KeySym::KEY_W)
        } else if str_eq(s, "X") {
            Ok(KeySym::KEY_X)
        } else if str_eq(s, "Y") {
            Ok(KeySym::KEY_Y)
        } else if str_eq(s, "Z") {
            Ok(KeySym::KEY_Z)
        } else if str_eq(s, "0") {
            Ok(KeySym::KEY_0)
        } else if str_eq(s, "1") {
            Ok(KeySym::KEY_1)
        } else if str_eq(s, "2") {
            Ok(KeySym::KEY_2)
        } else if str_eq(s, "3") {
            Ok(KeySym::KEY_3)
        } else if str_eq(s, "4") {
            Ok(KeySym::KEY_4)
        } else if str_eq(s, "5") {
            Ok(KeySym::KEY_5)
        } else if str_eq(s, "6") {
            Ok(KeySym::KEY_6)
        } else if str_eq(s, "7") {
            Ok(KeySym::KEY_7)
        } else if str_eq(s, "8") {
            Ok(KeySym::KEY_8)
        } else if str_eq(s, "9") {
            Ok(KeySym::KEY_9)
        } else if str_eq(s, "exclam") {
            Ok(KeySym::KEY_EXCLAMATION)
        } else if str_eq(s, "at") {
            Ok(KeySym::KEY_AT)
        } else if str_eq(s, "numbersign") {
            Ok(KeySym::KEY_NUMBERSIGN)
        } else if str_eq(s, "dollar") {
            Ok(KeySym::KEY_DOLLAR)
        } else if str_eq(s, "percent") {
            Ok(KeySym::KEY_PERCENT)
        } else if str_eq(s, "asciicircum") {
            Ok(KeySym::KEY_CIRCUM)
        } else if str_eq(s, "ampersand") {
            Ok(KeySym::KEY_AMPERSAND)
        } else if str_eq(s, "asterisk") {
            Ok(KeySym::KEY_ASTERISK)
        } else if str_eq(s, "parenleft") {
            Ok(KeySym::KEY_PARENLEFT)
        } else if str_eq(s, "parenright") {
            Ok(KeySym::KEY_PARENRIGHT)
        } else if str_eq(s, "minus") {
            Ok(KeySym::KEY_MINUS)
        } else if str_eq(s, "underscore") {
            Ok(KeySym::KEY_UNDERSCORE)
        } else if str_eq(s, "plus") {
            Ok(KeySym::KEY_PLUS)
        } else if str_eq(s, "equal") {
            Ok(KeySym::KEY_EQUAL)
        } else if str_eq(s, "bracketleft") {
            Ok(KeySym::KEY_BRACKETLEFT)
        } else if str_eq(s, "bracketright") {
            Ok(KeySym::KEY_BRACKETRIGHT)
        } else if str_eq(s, "braceleft") {
            Ok(KeySym::KEY_BRACELEFT)
        } else if str_eq(s, "braceright") {
            Ok(KeySym::KEY_BRACERIGHT)
        } else if str_eq(s, "semicolon") {
            Ok(KeySym::KEY_SEMICOLON)
        } else if str_eq(s, "colon") {
            Ok(KeySym::KEY_COLON)
        } else if str_eq(s, "apostrophe") {
            Ok(KeySym::KEY_APOSTROPHE)
        } else if str_eq(s, "quotedbl") {
            Ok(KeySym::KEY_DOUBLEQUOTE)
        } else if str_eq(s, "backslash") {
            Ok(KeySym::KEY_BACKSLASH)
        } else if str_eq(s, "bar") {
            Ok(KeySym::KEY_BAR)
        } else if str_eq(s, "comma") {
            Ok(KeySym::KEY_COMMA)
        } else if str_eq(s, "less") {
            Ok(KeySym::KEY_LESS)
        } else if str_eq(s, "period") {
            Ok(KeySym::KEY_PERIOD)
        } else if str_eq(s, "greater") {
            Ok(KeySym::KEY_GREATER)
        } else if str_eq(s, "slash") {
            Ok(KeySym::KEY_SLASH)
        } else if str_eq(s, "question") {
            Ok(KeySym::KEY_QUESTION)
        } else if str_eq(s, "grave") {
            Ok(KeySym::KEY_GRAVE)
        } else if str_eq(s, "asciitilde") {
            Ok(KeySym::KEY_TILDE)
        } else if str_eq(s, "space") {
            Ok(KeySym::KEY_SPACE)
        } else if str_eq(s, "Return") {
            Ok(KeySym::KEY_RETURN)
        } else if str_eq(s, "BackSpace") {
            Ok(KeySym::KEY_BACKSPACE)
        } else if str_eq(s, "Tab") {
            Ok(KeySym::KEY_TAB)
        } else if str_eq(s, "Escape") {
            Ok(KeySym::KEY_ESCAPE)
        } else if str_eq(s, "NoSymbol") {
            Ok(KeySym::KEY_NONE)
        } else if str_eq(s, "F1") {
            Ok(KeySym::KEY_F1)
        } else if str_eq(s, "F2") {
            Ok(KeySym::KEY_F2)
        } else if str_eq(s, "F3") {
            Ok(KeySym::KEY_F3)
        } else if str_eq(s, "F4") {
            Ok(KeySym::KEY_F4)
        } else if str_eq(s, "F5") {
            Ok(KeySym::KEY_F5)
        } else if str_eq(s, "F6") {
            Ok(KeySym::KEY_F6)
        } else if str_eq(s, "F7") {
            Ok(KeySym::KEY_F7)
        } else if str_eq(s, "F8") {
            Ok(KeySym::KEY_F8)
        } else if str_eq(s, "F9") {
            Ok(KeySym::KEY_F9)
        } else if str_eq(s, "F10") {
            Ok(KeySym::KEY_F10)
        } else if str_eq(s, "F11") {
            Ok(KeySym::KEY_F11)
        } else if str_eq(s, "F12") {
            Ok(KeySym::KEY_F12)
        } else {
            Err(())
        }
    }

    /// The symbol standing for a printable character.
    pub fn from_char(c: char) -> (r: Result<KeySym, ()>)
        ensures
            (match keysym_of_char(c) {
                Some(k) => r == Ok::<KeySym, ()>(k),
                None => r == Err::<KeySym, ()>(()),
            }),
    {
        match c {
            ' ' => Ok(KeySym::KEY_SPACE),
            'a' => Ok(KeySym::KEY_a),
            'b' => Ok(KeySym::KEY_b),
            'c' => Ok(KeySym::KEY_c),
            'd' => Ok(KeySym::KEY_d),
            'e' => Ok(KeySym::KEY_e),
            'f' => Ok(KeySym::KEY_f),
            'g' => Ok(KeySym::KEY_g),
            'h' => Ok(KeySym::KEY_h),
            'i' => Ok(KeySym::KEY_i),
            'j' => Ok(KeySym::KEY_j),
            'k' => Ok(KeySym::KEY_k),
            'l' => Ok(KeySym::KEY_l),
            'm' => Ok(KeySym::KEY_m),
            'n' => Ok(KeySym::KEY_n),
            'o' => Ok(KeySym::KEY_o),
            'p' => Ok(KeySym::KEY_p),
            'q' => Ok(KeySym::KEY_q),
            'r' => Ok(KeySym::KEY_r),
            's' => Ok(KeySym::KEY_s),
            't' => Ok(KeySym::KEY_t),
            'u' => Ok(KeySym::KEY_u),
            'v' => Ok(KeySym::KEY_v),
            'w' => Ok(KeySym::KEY_w),
            'x' => Ok(KeySym::KEY_x),
            'y' => Ok(KeySym::KEY_y),
            'z' => Ok(KeySym::KEY_z),
            'A' => Ok(KeySym::KEY_A),
            'B' => Ok(KeySym::KEY_B),
            'C' => Ok(KeySym::KEY_C),
            'D' => Ok(KeySym::KEY_D),
            'E' => Ok(KeySym::KEY_E),
            'F' => Ok(KeySym::KEY_F),
            'G' => Ok(KeySym::KEY_G),
            'H' => Ok(KeySym::KEY_H),
            'I' => Ok(KeySym::KEY_I),
            'J' => Ok(KeySym::KEY_J),
            'K' => Ok(KeySym::KEY_K),
            'L' => Ok(KeySym::KEY_L),
            'M' => Ok(KeySym::KEY_M),
            'N' => Ok(KeySym::KEY_N),
            'O' => Ok(KeySym::KEY_O),
            'P' => Ok(KeySym::KEY_P),
            'Q' => Ok(KeySym::KEY_Q),
            'R' => Ok(KeySym::KEY_R),
            'S' => Ok(KeySym::KEY_S),
            'T' => Ok(KeySym::KEY_T),
            'U' => Ok(KeySym::KEY_U),
            'V' => Ok(KeySym::KEY_V),
            'W' => Ok(KeySym::KEY_W),
            'X' => Ok(KeySym::KEY_X),
            'Y' => Ok(KeySym::KEY_Y),
            'Z' => Ok(KeySym::KEY_Z),
            '0' => Ok(KeySym::KEY_0),
            '1' => Ok(KeySym::KEY_1),
            '2' => Ok(KeySym::KEY_2),
            '3' => Ok(KeySym::KEY_3),
            '4' => Ok(KeySym::KEY_4),
            '5' => Ok(KeySym::KEY_5),
            '6' => Ok(KeySym::KEY_6),
            '7' => Ok(KeySym::KEY_7),
            '8' => Ok(KeySym::KEY_8),
            '9' => Ok(KeySym::KEY_9),
            '!' => Ok(KeySym::KEY_EXCLAMATION),
            '@' => Ok(KeySym::KEY_AT),
            '#' => Ok(KeySym::KEY_NUMBERSIGN),
            '$' => Ok(KeySym::KEY_DOLLAR),
            '%' => Ok(KeySym::KEY_PERCENT),
            '^' => Ok(KeySym::KEY_CIRCUM),
            '&' => Ok(KeySym::KEY_AMPERSAND),
            '*' => Ok(KeySym::KEY_ASTERISK),
            '(' => Ok(KeySym::KEY_PARENLEFT),
            ')' => Ok(KeySym::KEY_PARENRIGHT),
            '-' => Ok(KeySym::KEY_MINUS),
            '_' => Ok(KeySym::KEY_UNDERSCORE),
            '+' => Ok(KeySym::KEY_PLUS),
            '=' => Ok(KeySym::KEY_EQUAL),
            '[' => Ok(KeySym::KEY_BRACKETLEFT),
            ']' => Ok(KeySym::KEY_BRACKETRIGHT),
            '{' => Ok(KeySym::KEY_BRACELEFT),
            '}' => Ok(KeySym::KEY_BRACERIGHT),
            ';' => Ok(KeySym::KEY_SEMICOLON),
            ':' => Ok(KeySym::KEY_COLON),
            '\'' => Ok(KeySym::KEY_APOSTROPHE),
            '"' => Ok(KeySym::KEY_DOUBLEQUOTE),
            '\\' => Ok(KeySym::KEY_BACKSLASH),
            '|' => Ok(KeySym::KEY_BAR),
            ',' => Ok(KeySym::KEY_COMMA),
            '<' => Ok(KeySym::KEY_LESS),
            '.' => Ok(KeySym::KEY_PERIOD),
            '>' => Ok(KeySym::KEY_GREATER),
            '/' => Ok(KeySym::KEY_SLASH),
            '?' => Ok(KeySym::KEY_QUESTION),
            '`' => Ok(KeySym::KEY_GRAVE),
            '~' => Ok(KeySym::KEY_TILDE),
            _ => Err(()),
        }
    }

    /// The printable character this symbol denotes.
    pub fn to_char(self) -> (r: Result<char, ()>)
        ensures
            (match char_of_keysym(self) {
                Some(c) => r == Ok::<char, ()>(c),
                None => r == Err::<char, ()>(()),
            }),
    {
        match self {
            KeySym::KEY_BACKSPACE => Ok('\u{8}'),
            KeySym::KEY_TAB => Ok('\u{9}'),
            KeySym::KEY_ESCAPE => Ok('\u{1b}'),
            KeySym::KEY_SPACE => Ok('\u{20}'),
            KeySym::KEY_EXCLAMATION => Ok('\u{21}'),
            KeySym::KEY_DOUBLEQUOTE => Ok('\u{22}'),
            KeySym::KEY_NUMBERSIGN => Ok('\u{23}'),
            KeySym::KEY_DOLLAR => Ok('\u{24}'),
            KeySym::KEY_PERCENT => Ok('\u{25}'),
            KeySym::KEY_AMPERSAND => Ok('\u{26}'),
            KeySym::KEY_APOSTROPHE => Ok('\u{27}'),
            KeySym::KEY_PARENLEFT => Ok('\u{28}'),
            KeySym::KEY_PARENRIGHT => Ok('\u{29}'),
            KeySym::KEY_ASTERISK => Ok('\u{2a}'),
            KeySym::KEY_PLUS => Ok('\u{2b}'),
            KeySym::KEY_COMMA => Ok('\u{2c}'),
            KeySym::KEY_MINUS => Ok('\u{2d}'),
            KeySym::KEY_PERIOD => Ok('\u{2e}'),
            KeySym::KEY_SLASH => Ok('\u{2f}'),
            KeySym::KEY_0 => Ok('\u{30}'),
            KeySym::KEY_1 => Ok('\u{31}'),
            KeySym::KEY_2 => Ok('\u{32}'),
            KeySym::KEY_3 => Ok('\u{33}'),
            KeySym::KEY_4 => Ok('\u{34}'),
            KeySym::KEY_5 => Ok('\u{35}'),
            KeySym::KEY_6 => Ok('\u{36}'),
            KeySym::KEY_7 => Ok('\u{37}'),
            KeySym::KEY_8 => Ok('\u{38}'),
            KeySym::KEY_9 => Ok('\u{39}'),
            KeySym::KEY_COLON => Ok('\u{3a}'),
            KeySym::KEY_SEMICOLON => Ok('\u{3b}'),
            KeySym::KEY_LESS => Ok('\u{3c}'),
            KeySym::KEY_EQUAL => Ok('\u{3d}'),
            KeySym::KEY_GREATER => Ok('\u{3e}'),
            KeySym::KEY_QUESTION => Ok('\u{3f}'),
            KeySym::KEY_AT => Ok('\u{40}'),
            KeySym::KEY_A => Ok('\u{41}'),
            KeySym::KEY_B => Ok('\u{42}'),
            KeySym::KEY_C => Ok('\u{43}'),
            KeySym::KEY_D => Ok('\u{44}'),
            KeySym::KEY_E => Ok('\u{45}'),
            KeySym::KEY_F => Ok('\u{46}'),
            KeySym::KEY_G => Ok('\u{47}'),
            KeySym::KEY_H => Ok('\u{48}'),
            KeySym::KEY_I => Ok('\u{49}'),
            KeySym::KEY_J => Ok('\u{4a}'),
            KeySym::KEY_K => Ok('\u{4b}'),
            KeySym::KEY_L => Ok('\u{4c}'),
            KeySym::KEY_M => Ok('\u{4d}'),
            KeySym::KEY_N => Ok('\u{4e}'),
            KeySym::KEY_O => Ok('\u{4f}'),
            KeySym::KEY_P => Ok('\u{50}'),
            KeySym::KEY_Q => Ok('\u{51}'),
            KeySym::KEY_R => Ok('\u{52}'),
            KeySym::KEY_S => Ok('\u{53}'),
            KeySym::KEY_T => Ok('\u{54}'),
            KeySym::KEY_U => Ok('\u{55}'),
            KeySym::KEY_V => Ok('\u{56}'),
            KeySym::KEY_W => Ok('\u{57}'),
            KeySym::KEY_X => Ok('\u{58}'),
            KeySym::KEY_Y => Ok('\u{59}'),
            KeySym::KEY_Z => Ok('\u{5a}'),
            KeySym::KEY_a => Ok('\u{61}'),
            KeySym::KEY_b => Ok('\u{62}'),
            KeySym::KEY_c => Ok('\u{63}'),
            KeySym::KEY_d => Ok('\u{64}'),
            KeySym::KEY_e => Ok('\u{65}'),
            KeySym::KEY_f => Ok('\u{66}'),
            KeySym::KEY_g => Ok('\u{67}'),
            KeySym::KEY_h => Ok('\u{68}'),
            KeySym::KEY_i => Ok('\u{69}'),
            KeySym::KEY_j => Ok('\u{6a}'),
            KeySym::KEY_k => Ok('\u{6b}'),
            KeySym::KEY_l => Ok('\u{6c}'),
            KeySym::KEY_m => Ok('\u{6d}'),
            KeySym::KEY_n => Ok('\u{6e}'),
            KeySym::KEY_o => Ok('\u{6f}'),
            KeySym::KEY_p => Ok('\u{70}'),
            KeySym::KEY_q => Ok('\u{71}'),
            KeySym::KEY_r => Ok('\u{72}'),
            KeySym::KEY_s => Ok('\u{73}'),
            KeySym::KEY_t => Ok('\u{74}'),
            KeySym::KEY_u => Ok('\u{75}'),
            KeySym::KEY_v => Ok('\u{76}'),
            KeySym::KEY_w => Ok('\u{77}'),
            KeySym::KEY_x => Ok('\u{78}'),
            KeySym::KEY_y => Ok('\u{79}'),
            KeySym::KEY_z => Ok('\u{7a}'),
            KeySym::KEY_BRACELEFT => Ok('\u{7b}'),
            KeySym::KEY_BAR => Ok('\u{7c}'),
            KeySym::KEY_BRACERIGHT => Ok('\u{7d}'),
            KeySym::KEY_TILDE => Ok('\u{7e}'),
            _ => Err(()),
        }
    }
}

/// Converting a supported printable character to its symbol and back is
/// the identity. The handful of characters whose symbol has no printable
/// counterpart in the table are left out.
pub proof fn lemma_char_round_trip(c: char)
    requires
        keysym_of_char(c) is Some,
        c != '^' && c != '_' && c != '[' && c != ']' && c != '\\' && c != '`',
    ensures
        char_of_keysym(keysym_of_char(c)->Some_0) == Some(c),
{
}

} // verus!
