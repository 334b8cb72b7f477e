//! Key names typed in the settings, and their virtual-key codes.
use vstd::prelude::*;
use crate::text::{
    ascii_lowercase, ascii_upper_char, ascii_uppercase, chars_eq, lemma_ascii_lowercase, lemma_trimmed_twice, chars_of, is_ascii_text, lemma_trim_ascii_uppercase,
    lemma_trimmed_ascii, string_of, to_uppercase, trim_chars, trimmed, uppercase, white_space,
};

verus! {

/// An ASCII letter.
pub open spec fn ascii_letter(c: char) -> bool {
    ('A' <= c && c <= 'Z') || ('a' <= c && c <= 'z')
}

/// An ASCII digit.
pub open spec fn ascii_digit(c: char) -> bool {
    '0' <= c && c <= '9'
}

/// The code of the ASCII uppercase form of a letter.
pub open spec fn ascii_upper_code(c: char) -> int {
    if 'a' <= c && c <= 'z' {
        c as int - 32
    } else {
        c as int
    }
}

/// The Windows virtual-key code of an uppercased key name: a one-byte name that
/// is a letter or digit maps to its VK code; `F1`..`F12`, `SPACE`/`ESPACE` and
/// `TAB` map to theirs; nothing else has one.
pub open spec fn virtual_key(u: Seq<char>) -> Option<i32> {
    if u.len() == 1 && (u[0] as u32) < 128 {
        if ascii_letter(u[0]) {
            Some((0x41 + ascii_upper_code(u[0]) - 0x41) as i32)
        } else if ascii_digit(u[0]) {
            Some((0x30 + (u[0] as int) - 0x30) as i32)
        } else {
            None
        }
    } else if u == seq!['F', '1'] {
        Some(0x70)
    } else if u == seq!['F', '2'] {
        Some(0x71)
    } else if u == seq!['F', '3'] {
        Some(0x72)
    } else if u == seq!['F', '4'] {
        Some(0x73)
    } else if u == seq!['F', '5'] {
        Some(0x74)
    } else if u == seq!['F', '6'] {
        Some(0x75)
    } else if u == seq!['F', '7'] {
        Some(0x76)
    } else if u == seq!['F', '8'] {
        Some(0x77)
    } else if u == seq!['F', '9'] {
        Some(0x78)
    } else if u == seq!['F', '1', '0'] {
        Some(0x79)
    } else if u == seq!['F', '1', '1'] {
        Some(0x7A)
    } else if u == seq!['F', '1', '2'] {
        Some(0x7B)
    } else if u == seq!['S', 'P', 'A', 'C', 'E'] || u == seq!['E', 'S', 'P', 'A', 'C', 'E'] {
        Some(0x20)
    } else if u == seq!['T', 'A', 'B'] {
        Some(0x09)
    } else {
        None
    }
}

/// The Windows virtual-key code of a key name, read after trimming white space
/// and uppercasing.
pub fn key_name_to_vk(name: &str) -> (r: Option<i32>)
    ensures
        r == virtual_key(uppercase(trimmed(name@))),
        is_ascii_text(name@) ==> r == virtual_key(ascii_uppercase(trimmed(name@))),
{
    proof {
        if is_ascii_text(name@) {
            lemma_trimmed_ascii(name@);
        }
    }
    let cs = chars_of(name);
    let t = trim_chars(&cs);
    let ts = string_of(&t);
    let upper = to_uppercase(ts.as_str());
    let u = chars_of(upper.as_str());
    let us = u.as_slice();
    if u.len() == 1 && (u[0] as u32) < 128 {
        let c = u[0];
        if ('A' <= c && c <= 'Z') || ('a' <= c && c <= 'z') {
            let up: u32 = if 'a' <= c && c <= 'z' { c as u32 - 32 } else { c as u32 };
            return Some((0x41 + up - 0x41) as i32);
        } else if '0' <= c && c <= '9' {
            return Some((0x30 + c as u32 - 0x30) as i32);
        } else {
            return None;
        }
    }
    if chars_eq(us, &['F', '1']) {
        Some(0x70)
    } else if chars_eq(us, &['F', '2']) {
        Some(0x71)
    } else if chars_eq(us, &['F', '3']) {
        Some(0x72)
    } else if chars_eq(us, &['F', '4']) {
        Some(0x73)
    } else if chars_eq(us, &['F', '5']) {
        Some(0x74)
    } else if chars_eq(us, &['F', '6']) {
        Some(0x75)
    } else if chars_eq(us, &['F', '7']) {
        Some(0x76)
    } else if chars_eq(us, &['F', '8']) {
        Some(0x77)
    } else if chars_eq(us, &['F', '9']) {
        Some(0x78)
    } else if chars_eq(us, &['F', '1', '0']) {
        Some(0x79)
    } else if chars_eq(us, &['F', '1', '1']) {
        Some(0x7A)
    } else if chars_eq(us, &['F', '1', '2']) {
        Some(0x7B)
    } else if chars_eq(us, &['S', 'P', 'A', 'C', 'E']) || chars_eq(us, &['E', 'S', 'P', 'A', 'C', 'E']) {
        Some(0x20)
    } else if chars_eq(us, &['T', 'A', 'B']) {
        Some(0x09)
    } else {
        None
    }
}

/// Key names ignore ASCII case and surrounding white space: two ASCII names
/// that agree once uppercased name the same key (or none).
pub proof fn key_names_ignore_ascii_case(s: Seq<char>, t: Seq<char>)
    requires
        is_ascii_text(s),
        is_ascii_text(t),
        ascii_uppercase(s) == ascii_uppercase(t),
    ensures
        virtual_key(ascii_uppercase(trimmed(s))) == virtual_key(ascii_uppercase(trimmed(t))),
{
    lemma_trim_ascii_uppercase(s);
    lemma_trim_ascii_uppercase(t);
}

/// A one-character name that is an ASCII letter or digit names the key whose
/// code is that character in uppercase.
pub proof fn single_character_key_names(c: char)
    requires
        ascii_letter(c) || ascii_digit(c),
    ensures
        virtual_key(ascii_uppercase(trimmed(seq![c]))) == Some(ascii_upper_char(c) as i32),
{
    let s = seq![c];
    assert(!white_space(c));
    assert(trimmed(s) == s) by {
        assert(s.last() == c);
    }
    let u = ascii_uppercase(s);
    assert(u.len() == 1);
    assert(u[0] == ascii_upper_char(c));
}

/// Every key code that a name maps to is Tab, Space, a digit, a letter or one
/// of F1..F12.
pub proof fn virtual_keys_are_known_keys(u: Seq<char>)
    ensures
        virtual_key(u) matches Some(v) ==> v == 0x09 || v == 0x20 || 0x30 <= v <= 0x39 || 0x41 <= v
            <= 0x5A || 0x70 <= v <= 0x7B,
{
}

/// For an ASCII name, the key is that of the name trimmed and lowercased in
/// ASCII: neither surrounding white space nor letter case matters.
pub proof fn key_names_read_trimmed_and_lowercased(s: Seq<char>)
    requires
        is_ascii_text(s),
    ensures
        is_ascii_text(ascii_lowercase(trimmed(s))),
        virtual_key(ascii_uppercase(trimmed(s))) == virtual_key(
            ascii_uppercase(trimmed(ascii_lowercase(trimmed(s)))),
        ),
{
    let r = trimmed(s);
    lemma_trimmed_ascii(s);
    lemma_ascii_lowercase(r);
    let t = ascii_lowercase(r);
    key_names_ignore_ascii_case(r, t);
    lemma_trimmed_twice(s);
}

/// The name of function key `n`: `F` then `n` in decimal.
pub open spec fn function_key_name(n: int) -> Seq<char> {
    if n < 10 {
        seq!['F', (48 + n) as char]
    } else {
        seq!['F', '1', (48 + n - 10) as char]
    }
}

/// Function keys: `F1` to `F12` map to consecutive codes from 0x70, so `Fn`
/// maps to 0x6F + n; `SPACE` and `ESPACE` map to 0x20 and `TAB` to 0x09.
pub proof fn function_and_named_keys(n: int)
    requires
        1 <= n <= 12,
    ensures
        virtual_key(function_key_name(n)) == Some((0x6F + n) as i32),
        virtual_key(seq!['S', 'P', 'A', 'C', 'E']) == Some(0x20i32),
        virtual_key(seq!['E', 'S', 'P', 'A', 'C', 'E']) == Some(0x20i32),
        virtual_key(seq!['T', 'A', 'B']) == Some(0x09i32),
{
    let u = function_key_name(n);
    if n == 1 { assert(u =~= seq!['F', '1']); }
    else if n == 2 { assert(u =~= seq!['F', '2']); }
    else if n == 3 { assert(u =~= seq!['F', '3']); }
    else if n == 4 { assert(u =~= seq!['F', '4']); }
    else if n == 5 { assert(u =~= seq!['F', '5']); }
    else if n == 6 { assert(u =~= seq!['F', '6']); }
    else if n == 7 { assert(u =~= seq!['F', '7']); }
    else if n == 8 { assert(u =~= seq!['F', '8']); }
    else if n == 9 { assert(u =~= seq!['F', '9']); }
    else if n == 10 { assert(u =~= seq!['F', '1', '0']); }
    else if n == 11 { assert(u =~= seq!['F', '1', '1']); }
    else { assert(u =~= seq!['F', '1', '2']); }
}

} // verus!
