//! The vocabulary of key codes that the remapping engine knows, shared by
//! validation and by completion of a partly typed key.

use crate::text::{chars_of, chars_eq, chars_start_with, lowercase_of, to_lowercase};
use vstd::prelude::*;

verus! {

/// The letters `a` to `z`.
pub open spec fn letter_codes() -> Seq<Seq<char>> {
    seq![
        "a"@, "b"@, "c"@, "d"@, "e"@, "f"@, "g"@, "h"@, "i"@, "j"@, "k"@, "l"@, "m"@, "n"@,
        "o"@, "p"@, "q"@, "r"@, "s"@, "t"@, "u"@, "v"@, "w"@, "x"@, "y"@, "z"@,
    ]
}

/// The digits `0` to `9`.
pub open spec fn number_codes() -> Seq<Seq<char>> {
    seq![
        "0"@, "1"@, "2"@, "3"@, "4"@, "5"@, "6"@, "7"@, "8"@, "9"@,
    ]
}

/// The function keys `f1` to `f20`.
pub open spec fn function_codes() -> Seq<Seq<char>> {
    seq![
        "f1"@, "f2"@, "f3"@, "f4"@, "f5"@, "f6"@, "f7"@, "f8"@, "f9"@, "f10"@, "f11"@, "f12"@,
        "f13"@, "f14"@, "f15"@, "f16"@, "f17"@, "f18"@, "f19"@, "f20"@,
    ]
}

/// Editing, punctuation and lock keys.
pub open spec fn special_codes() -> Seq<Seq<char>> {
    seq![
        "return_or_enter"@, "escape"@, "delete_or_backspace"@, "delete_forward"@, "tab"@,
        "spacebar"@, "hyphen"@, "equal_sign"@, "open_bracket"@, "close_bracket"@, "backslash"@,
        "non_us_pound"@, "semicolon"@, "quote"@, "grave_accent_and_tilde"@, "comma"@, "period"@,
        "slash"@, "caps_lock"@,
    ]
}

/// The four arrow keys.
pub open spec fn arrow_codes() -> Seq<Seq<char>> {
    seq![
        "up_arrow"@, "down_arrow"@, "left_arrow"@, "right_arrow"@,
    ]
}

/// Paging and positioning keys.
pub open spec fn navigation_codes() -> Seq<Seq<char>> {
    seq![
        "page_up"@, "page_down"@, "home"@, "end"@, "insert"@,
    ]
}

/// The keys of the numeric keypad.
pub open spec fn keypad_codes() -> Seq<Seq<char>> {
    seq![
        "keypad_num_lock"@, "keypad_slash"@, "keypad_asterisk"@, "keypad_hyphen"@,
        "keypad_plus"@, "keypad_enter"@, "keypad_1"@, "keypad_2"@, "keypad_3"@, "keypad_4"@,
        "keypad_5"@, "keypad_6"@, "keypad_7"@, "keypad_8"@, "keypad_9"@, "keypad_0"@,
        "keypad_period"@, "keypad_equal_sign"@,
    ]
}

/// Every key code, group by group: letters, digits, function keys, special
/// keys, arrows, navigation keys, keypad.
pub open spec fn key_codes() -> Seq<Seq<char>> {
    letter_codes() + number_codes() + function_codes() + special_codes() + arrow_codes()
        + navigation_codes() + keypad_codes()
}

/// The texts that `codes` names.
pub open spec fn texts(codes: Seq<&'static str>) -> Seq<Seq<char>> {
    codes.map_values(|s: &'static str| s@)
}

/// The completions of a typed text: every key code where nothing was typed,
/// else the key codes that begin with its lowercase form.
pub open spec fn completions(partial: Seq<char>) -> Seq<Seq<char>> {
    if partial.len() == 0 {
        key_codes()
    } else {
        with_prefix(lowercase_of(partial))
    }
}

/// The key codes that begin with `prefix`, in the vocabulary's order.
pub open spec fn with_prefix(prefix: Seq<char>) -> Seq<Seq<char>> {
    key_codes().filter(|k: Seq<char>| prefix.is_prefix_of(k))
}

/// The letters `a` to `z`.
pub fn letter_keys() -> (r: Vec<&'static str>)
    ensures
        texts(r@) == letter_codes(),
{
    let r = vec![
        "a", "b", "c", "d", "e", "f", "g", "h", "i", "j", "k", "l", "m", "n", "o", "p", "q",
        "r", "s", "t", "u", "v", "w", "x", "y", "z",
    ];
    assert(texts(r@) =~= letter_codes());
    r
}

/// The digits `0` to `9`.
pub fn number_keys() -> (r: Vec<&'static str>)
    ensures
        texts(r@) == number_codes(),
{
    let r = vec![
        "0", "1", "2", "3", "4", "5", "6", "7", "8", "9",
    ];
    assert(texts(r@) =~= number_codes());
    r
}

/// The function keys `f1` to `f20`.
pub fn function_keys() -> (r: Vec<&'static str>)
    ensures
        texts(r@) == function_codes(),
{
    let r = vec![
        "f1", "f2", "f3", "f4", "f5", "f6", "f7", "f8", "f9", "f10", "f11", "f12", "f13", "f14",
        "f15", "f16", "f17", "f18", "f19", "f20",
    ];
    assert(texts(r@) =~= function_codes());
    r
}

/// Editing, punctuation and lock keys.
pub fn special_keys() -> (r: Vec<&'static str>)
    ensures
        texts(r@) == special_codes(),
{
    let r = vec![
        "return_or_enter", "escape", "delete_or_backspace", "delete_forward", "tab", "spacebar",
        "hyphen", "equal_sign", "open_bracket", "close_bracket", "backslash", "non_us_pound",
        "semicolon", "quote", "grave_accent_and_tilde", "comma", "period", "slash", "caps_lock",
    ];
    assert(texts(r@) =~= special_codes());
    r
}

/// The four arrow keys.
pub fn arrow_keys() -> (r: Vec<&'static str>)
    ensures
        texts(r@) == arrow_codes(),
{
    let r = vec![
        "up_arrow", "down_arrow", "left_arrow", "right_arrow",
    ];
    assert(texts(r@) =~= arrow_codes());
    r
}

/// Paging and positioning keys.
pub fn navigation_keys() -> (r: Vec<&'static str>)
    ensures
        texts(r@) == navigation_codes(),
{
    let r = vec![
        "page_up", "page_down", "home", "end", "insert",
    ];
    assert(texts(r@) =~= navigation_codes());
    r
}

/// The keys of the numeric keypad.
pub fn keypad_keys() -> (r: Vec<&'static str>)
    ensures
        texts(r@) == keypad_codes(),
{
    let r = vec![
        "keypad_num_lock", "keypad_slash", "keypad_asterisk", "keypad_hyphen", "keypad_plus",
        "keypad_enter", "keypad_1", "keypad_2", "keypad_3", "keypad_4", "keypad_5", "keypad_6",
        "keypad_7", "keypad_8", "keypad_9", "keypad_0", "keypad_period", "keypad_equal_sign",
    ];
    assert(texts(r@) =~= keypad_codes());
    r
}

/// Every key code, in the order of `key_codes`.
pub fn all_key_codes() -> (r: Vec<&'static str>)
    ensures
        texts(r@) == key_codes(),
{
    let mut codes = letter_keys();
    let mut numbers = number_keys();
    let mut functions = function_keys();
    let mut specials = special_keys();
    let mut arrows = arrow_keys();
    let mut navigation = navigation_keys();
    let mut keypad = keypad_keys();
    codes.append(&mut numbers);
    codes.append(&mut functions);
    codes.append(&mut specials);
    codes.append(&mut arrows);
    codes.append(&mut navigation);
    codes.append(&mut keypad);
    assert(texts(codes@) =~= key_codes());
    codes
}

/// Whether `key` is a key code of the vocabulary.
pub fn is_valid_key(key: &str) -> (r: bool)
    ensures
        r == key_codes().contains(key@),
{
    let codes = all_key_codes();
    let wanted = chars_of(key);
    let mut i: usize = 0;
    while i < codes.len()
        invariant
            i <= codes.len(),
            texts(codes@) == key_codes(),
            wanted@ == key@,
            forall|j: int| 0 <= j < i ==> key_codes()[j] != key@,
        decreases codes.len() - i,
    {
        let code = chars_of(codes[i]);
        assert(texts(codes@)[i as int] == codes@[i as int]@);
        if chars_eq(&code, &wanted) {
            return true;
        }
        i += 1;
    }
    false
}

/// The key codes that begin with `prefix`, in the vocabulary's order.
pub fn keys_with_prefix(prefix: &str) -> (r: Vec<&'static str>)
    ensures
        texts(r@) == with_prefix(prefix@),
{
    let codes = all_key_codes();
    let wanted = chars_of(prefix);
    let ghost pred = |k: Seq<char>| prefix@.is_prefix_of(k);
    let mut out: Vec<&'static str> = Vec::new();
    let mut i: usize = 0;
    proof {
        reveal(Seq::filter);
        assert(key_codes().take(0) =~= Seq::<Seq<char>>::empty());
        assert(texts(out@) =~= key_codes().take(0).filter(pred));
    }
    while i < codes.len()
        invariant
            i <= codes.len(),
            texts(codes@) == key_codes(),
            wanted@ == prefix@,
            pred == (|k: Seq<char>| prefix@.is_prefix_of(k)),
            texts(out@) == key_codes().take(i as int).filter(pred),
        decreases codes.len() - i,
    {
        let code = chars_of(codes[i]);
        proof {
            reveal(Seq::filter);
            assert(texts(codes@)[i as int] == codes@[i as int]@);
            assert(key_codes().take(i + 1).drop_last() =~= key_codes().take(i as int));
            assert(key_codes().take(i + 1).last() == code@);
        }
        if chars_start_with(&code, &wanted) {
            out.push(codes[i]);
            assert(texts(out@) =~= key_codes().take(i as int).filter(pred).push(code@));
        }
        i += 1;
    }
    assert(key_codes().take(codes.len() as int) =~= key_codes());
    out
}

/// The key codes that complete a partly typed key: all of them where nothing
/// was typed, else those that begin with the lowercase form of what was typed.
pub fn autocomplete(partial: &str) -> (r: Vec<&'static str>)
    ensures
        texts(r@) == completions(partial@),
{
    if partial.is_empty() {
        return all_key_codes();
    }
    let lower = to_lowercase(partial);
    keys_with_prefix(lower.as_str())
}

} // verus!
