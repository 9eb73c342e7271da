//! Character-level helpers for the strings that the binder reads and builds.
//!
//! Every string is modelled by its sequence of characters. The functions here
//! are stated over those sequences, so that the rest of the crate can speak of
//! prefixes, substrings and orderings without looking at bytes.

use vstd::prelude::*;
use vstd::std_specs::iter::IteratorSpec;
use vstd::string::StringExecFns;

verus! {

/// The code point of `c`, with the ASCII capitals folded onto their small letters.
pub open spec fn ascii_fold(c: char) -> int {
    if 65 <= c as int <= 90 {
        c as int + 32
    } else {
        c as int
    }
}

/// Two texts that differ at most in the case of their ASCII letters.
pub open spec fn eq_ignoring_ascii_case(a: Seq<char>, b: Seq<char>) -> bool {
    a.len() == b.len() && forall|i: int| 0 <= i < a.len() ==> ascii_fold(a[i]) == ascii_fold(b[i])
}

/// `needle` stands in `hay` at offset `at`.
pub open spec fn occurs_at(hay: Seq<char>, needle: Seq<char>, at: int) -> bool {
    0 <= at && at + needle.len() <= hay.len() && hay.subrange(at, at + needle.len()) =~= needle
}

/// `needle` stands somewhere in `hay`.
pub open spec fn has_substring(hay: Seq<char>, needle: Seq<char>) -> bool {
    exists|at: int| occurs_at(hay, needle, at)
}

/// The order of strings: character by character, by code point, a proper
/// prefix before its extensions.
pub open spec fn lex_le(a: Seq<char>, b: Seq<char>) -> bool
    decreases a.len(),
{
    if a.len() == 0 {
        true
    } else if b.len() == 0 {
        false
    } else if a[0] != b[0] {
        (a[0] as u32) < (b[0] as u32)
    } else {
        lex_le(a.drop_first(), b.drop_first())
    }
}

/// The index of the last `c` in `s`, or -1 where `s` holds none.
pub open spec fn last_index_of(s: Seq<char>, c: char) -> int
    decreases s.len(),
{
    if s.len() == 0 {
        -1
    } else if s.last() == c {
        s.len() - 1
    } else {
        last_index_of(s.drop_last(), c)
    }
}

/// The character that writes the decimal digit `d`.
pub open spec fn digit_char(d: int) -> char {
    if d == 0 {
        '0'
    } else if d == 1 {
        '1'
    } else if d == 2 {
        '2'
    } else if d == 3 {
        '3'
    } else if d == 4 {
        '4'
    } else if d == 5 {
        '5'
    } else if d == 6 {
        '6'
    } else if d == 7 {
        '7'
    } else if d == 8 {
        '8'
    } else {
        '9'
    }
}

/// The decimal numeral of `n`, without leading zeros.
pub open spec fn decimal(n: nat) -> Seq<char>
    decreases n,
{
    if n < 10 {
        seq![digit_char(n as int)]
    } else {
        decimal(n / 10).push(digit_char((n % 10) as int))
    }
}

/// The parts of `parts`, with `sep` between each two neighbours.
pub open spec fn joined(parts: Seq<Seq<char>>, sep: Seq<char>) -> Seq<char>
    decreases parts.len(),
{
    if parts.len() == 0 {
        Seq::empty()
    } else if parts.len() == 1 {
        parts[0]
    } else {
        joined(parts.drop_last(), sep) + sep + parts.last()
    }
}

/// The texts that the rows of characters hold.
pub open spec fn rows(v: Seq<Vec<char>>) -> Seq<Seq<char>> {
    v.map_values(|row: Vec<char>| row@)
}

/// Whether `char::is_whitespace` counts the character as white space.
pub uninterp spec fn is_white_space(c: char) -> bool;

/// For each character of a text, whether it is white space.
pub open spec fn blanks(s: Seq<char>) -> Seq<bool> {
    s.map_values(|c: char| is_white_space(c))
}

/// The first index from `from` on that is not marked; the length of `blank`
/// where there is none.
pub open spec fn leading_blanks_end(blank: Seq<bool>, from: int) -> int
    decreases blank.len() - from,
{
    if from < 0 || from >= blank.len() {
        blank.len() as int
    } else if !blank[from] {
        from
    } else {
        leading_blanks_end(blank, from + 1)
    }
}

/// The index behind the last index before `to` that is not marked; 0 where
/// there is none.
pub open spec fn trailing_blanks_start(blank: Seq<bool>, to: int) -> int
    decreases to,
{
    if to <= 0 || to > blank.len() {
        0
    } else if !blank[to - 1] {
        to
    } else {
        trailing_blanks_start(blank, to - 1)
    }
}

/// The range that is left when the marked indices at the two ends are taken
/// away: from the first index that is not marked to behind the last one.
pub open spec fn kept_range(blank: Seq<bool>) -> (int, int) {
    if leading_blanks_end(blank, 0) >= blank.len() {
        (0, 0)
    } else {
        (leading_blanks_end(blank, 0), trailing_blanks_start(blank, blank.len() as int))
    }
}

/// The text without the white space at its two ends.
pub open spec fn trimmed(s: Seq<char>) -> Seq<char> {
    s.subrange(kept_range(blanks(s)).0, kept_range(blanks(s)).1)
}

/// The first index from `from` on that holds `c`; the length of `s` where
/// there is none.
pub open spec fn first_index_from(s: Seq<char>, c: char, from: int) -> int
    decreases s.len() - from,
{
    if from < 0 || from >= s.len() {
        s.len() as int
    } else if s[from] == c {
        from
    } else {
        first_index_from(s, c, from + 1)
    }
}

/// The fields that `sep` parts `s` into, from the field that begins at
/// `start` on, where the text up to `i` has been looked at.
pub open spec fn fields_from(s: Seq<char>, sep: char, start: int, i: int) -> Seq<Seq<char>>
    decreases s.len() - i,
{
    if i < 0 || i >= s.len() {
        seq![s.subrange(start, s.len() as int)]
    } else if s[i] == sep {
        seq![s.subrange(start, i)] + fields_from(s, sep, i + 1, i + 1)
    } else {
        fields_from(s, sep, start, i + 1)
    }
}

/// The fields that `sep` parts `s` into. A text without `sep` is one field.
pub open spec fn fields(s: Seq<char>, sep: char) -> Seq<Seq<char>> {
    fields_from(s, sep, 0, 0)
}

/// The text without the copies of `suffix` at its end.
pub open spec fn without_suffix(s: Seq<char>, suffix: Seq<char>) -> Seq<char>
    decreases s.len(),
{
    if suffix.len() > 0 && suffix.is_suffix_of(s) {
        without_suffix(s.take(s.len() - suffix.len()), suffix)
    } else {
        s
    }
}

/// The first `max` characters of a text that has more than `max`, less
/// three, and an ellipsis; a shorter text as it is.
pub open spec fn shortened(s: Seq<char>, max: nat) -> Seq<char> {
    if s.len() <= max {
        s
    } else if max >= 3 {
        s.take(max - 3) + "..."@
    } else {
        "..."@
    }
}

/// What `str::to_lowercase` makes of a text.
pub uninterp spec fn lowercase_of(s: Seq<char>) -> Seq<char>;

/// Different characters have different code points.
pub proof fn lemma_code_points_differ(x: char, y: char)
    requires
        x != y,
    ensures
        (x as u32) != (y as u32),
{
    vstd::utf8::char_u32_cast(x, x as u32);
    vstd::utf8::char_u32_cast(y, y as u32);
}

/// `lex_le` is reflexive.
pub proof fn lemma_lex_le_refl(a: Seq<char>)
    ensures
        lex_le(a, a),
    decreases a.len(),
{
    if a.len() > 0 {
        lemma_lex_le_refl(a.drop_first());
    }
}

/// Of two texts, one comes no later than the other.
pub proof fn lemma_lex_le_total(a: Seq<char>, b: Seq<char>)
    ensures
        lex_le(a, b) || lex_le(b, a),
    decreases a.len(),
{
    if a.len() > 0 && b.len() > 0 {
        if a[0] == b[0] {
            lemma_lex_le_total(a.drop_first(), b.drop_first());
        } else {
            lemma_code_points_differ(a[0], b[0]);
        }
    }
}

/// `lex_le` is transitive.
pub proof fn lemma_lex_le_trans(a: Seq<char>, b: Seq<char>, c: Seq<char>)
    requires
        lex_le(a, b),
        lex_le(b, c),
    ensures
        lex_le(a, c),
    decreases a.len(),
{
    if a.len() > 0 && b.len() > 0 && c.len() > 0 && a[0] == b[0] && b[0] == c[0] {
        lemma_lex_le_trans(a.drop_first(), b.drop_first(), c.drop_first());
    }
}

/// Two texts that each come no later than the other are the same text.
pub proof fn lemma_lex_le_antisym(a: Seq<char>, b: Seq<char>)
    requires
        lex_le(a, b),
        lex_le(b, a),
    ensures
        a == b,
    decreases a.len(),
{
    if a.len() == 0 {
        assert(a =~= b);
    } else {
        lemma_lex_le_antisym(a.drop_first(), b.drop_first());
        assert(a =~= seq![a[0]] + a.drop_first());
        assert(b =~= seq![b[0]] + b.drop_first());
    }
}

/// `String::push`: the character is added at the end.
#[verifier::external_body]
pub(crate) fn push_char(s: &mut String, c: char)
    ensures
        final(s)@ == old(s)@.push(c),
{
    s.push(c)
}

/// `String::pop`: the last character leaves and is returned; an empty string
/// stays empty and gives `None`.
#[verifier::external_body]
pub(crate) fn pop_char(s: &mut String) -> (r: Option<char>)
    ensures
        old(s)@.len() == 0 ==> r is None && final(s)@ == old(s)@,
        old(s)@.len() > 0 ==> r == Some(old(s)@.last()) && final(s)@ == old(s)@.drop_last(),
{
    s.pop()
}

/// `str::to_lowercase`: the lowercase form that Unicode defines for the text.
#[verifier::external_body]
pub(crate) fn to_lowercase(s: &str) -> (r: String)
    ensures
        r@ == lowercase_of(s@),
{
    s.to_lowercase()
}

/// The characters of `s`, in order.
pub fn chars_of(s: &str) -> (r: Vec<char>)
    ensures
        r@ == s@,
{
    let mut out: Vec<char> = Vec::new();
    let mut it = s.chars();
    loop
        invariant
            out@ + it.remaining() == s@,
            it.obeys_prophetic_iter_laws(),
        ensures
            out@ == s@,
        decreases s@.len() - out@.len(),
    {
        match it.next() {
            Some(c) => {
                out.push(c);
            },
            None => {
                break ;
            },
        }
    }
    out
}

/// The string made of `chars[from..to]`.
pub fn text_of(chars: &Vec<char>, from: usize, to: usize) -> (r: String)
    requires
        from <= to <= chars.len(),
    ensures
        r@ == chars@.subrange(from as int, to as int),
{
    let mut out = String::new();
    let mut i: usize = from;
    while i < to
        invariant
            from <= i <= to <= chars.len(),
            out@ == chars@.subrange(from as int, i as int),
        decreases to - i,
    {
        push_char(&mut out, chars[i]);
        i += 1;
    }
    out
}

/// Whether the two sequences hold the same characters.
pub fn chars_eq(a: &Vec<char>, b: &Vec<char>) -> (r: bool)
    ensures
        r == (a@ == b@),
{
    if a.len() != b.len() {
        return false;
    }
    let mut i: usize = 0;
    while i < a.len()
        invariant
            i <= a.len(),
            a.len() == b.len(),
            a@.take(i as int) == b@.take(i as int),
        decreases a.len() - i,
    {
        if a[i] != b[i] {
            return false;
        }
        assert(a@.take(i + 1) =~= a@.take(i as int).push(a@[i as int]));
        assert(b@.take(i + 1) =~= b@.take(i as int).push(b@[i as int]));
        i += 1;
    }
    assert(a@ =~= a@.take(a.len() as int));
    assert(b@ =~= b@.take(b.len() as int));
    true
}

/// Whether `a` and `b` are the same text.
pub fn str_eq(a: &str, b: &str) -> (r: bool)
    ensures
        r == (a@ == b@),
{
    let x = chars_of(a);
    let y = chars_of(b);
    chars_eq(&x, &y)
}

/// Whether `needle` stands in `hay` at offset `at`.
pub fn chars_match_at(hay: &Vec<char>, needle: &Vec<char>, at: usize) -> (r: bool)
    ensures
        r == occurs_at(hay@, needle@, at as int),
{
    if at > hay.len() || needle.len() > hay.len() - at {
        return false;
    }
    let mut i: usize = 0;
    while i < needle.len()
        invariant
            i <= needle.len(),
            at + needle.len() <= hay.len(),
            forall|j: int| 0 <= j < i ==> hay@[at + j] == needle@[j],
        decreases needle.len() - i,
    {
        if hay[at + i] != needle[i] {
            assert(hay@.subrange(at as int, at + needle.len())[i as int] != needle@[i as int]);
            return false;
        }
        i += 1;
    }
    true
}

/// Whether `s` begins with `prefix`.
pub fn chars_start_with(s: &Vec<char>, prefix: &Vec<char>) -> (r: bool)
    ensures
        r == prefix@.is_prefix_of(s@),
{
    chars_match_at(s, prefix, 0)
}

/// Whether `s` begins with `prefix`.
pub fn starts_with(s: &str, prefix: &str) -> (r: bool)
    ensures
        r == prefix@.is_prefix_of(s@),
{
    let x = chars_of(s);
    let y = chars_of(prefix);
    chars_start_with(&x, &y)
}

/// Whether `needle` stands somewhere in `hay`.
pub fn chars_contain(hay: &Vec<char>, needle: &Vec<char>) -> (r: bool)
    ensures
        r == has_substring(hay@, needle@),
{
    if needle.len() > hay.len() {
        return false;
    }
    let last: usize = hay.len() - needle.len();
    let mut at: usize = 0;
    while at <= last
        invariant
            at <= last + 1,
            last == hay.len() - needle.len(),
            forall|k: int| 0 <= k < at ==> !occurs_at(hay@, needle@, k),
        decreases last + 1 - at,
    {
        if chars_match_at(hay, needle, at) {
            return true;
        }
        at += 1;
    }
    false
}

/// Whether `needle` stands somewhere in `hay`.
pub fn contains(hay: &str, needle: &str) -> (r: bool)
    ensures
        r == has_substring(hay@, needle@),
{
    let x = chars_of(hay);
    let y = chars_of(needle);
    chars_contain(&x, &y)
}

/// The code point of `c`, with the ASCII capitals folded onto their small letters.
pub fn fold_ascii(c: char) -> (r: u32)
    ensures
        r == ascii_fold(c),
{
    let n: u32 = c as u32;
    if 65 <= n && n <= 90 {
        n + 32
    } else {
        n
    }
}

/// Whether `a` and `b` differ at most in the case of their ASCII letters.
pub fn eq_ignore_ascii_case(a: &str, b: &str) -> (r: bool)
    ensures
        r == eq_ignoring_ascii_case(a@, b@),
{
    let x = chars_of(a);
    let y = chars_of(b);
    if x.len() != y.len() {
        return false;
    }
    let mut i: usize = 0;
    while i < x.len()
        invariant
            i <= x.len(),
            x.len() == y.len(),
            x@ == a@,
            y@ == b@,
            forall|j: int| 0 <= j < i ==> ascii_fold(x@[j]) == ascii_fold(y@[j]),
        decreases x.len() - i,
    {
        if fold_ascii(x[i]) != fold_ascii(y[i]) {
            return false;
        }
        i += 1;
    }
    true
}

/// Whether `a` comes no later than `b` in the order of strings.
pub fn chars_le(a: &Vec<char>, b: &Vec<char>) -> (r: bool)
    ensures
        r == lex_le(a@, b@),
{
    let mut i: usize = 0;
    assert(a@.skip(0) =~= a@ && b@.skip(0) =~= b@);
    while i < a.len() && i < b.len()
        invariant
            i <= a.len(),
            i <= b.len(),
            lex_le(a@, b@) == lex_le(a@.skip(i as int), b@.skip(i as int)),
        decreases a.len() - i,
    {
        proof {
            assert(a@.skip(i as int)[0] == a@[i as int]);
            assert(b@.skip(i as int)[0] == b@[i as int]);
            assert(a@.skip(i as int).drop_first() =~= a@.skip(i + 1));
            assert(b@.skip(i as int).drop_first() =~= b@.skip(i + 1));
        }
        if a[i] != b[i] {
            let x: u32 = a[i] as u32;
            let y: u32 = b[i] as u32;
            return x < y;
        }
        i += 1;
    }
    proof {
        assert(a@.skip(i as int).len() == a.len() - i);
        assert(b@.skip(i as int).len() == b.len() - i);
    }
    i == a.len()
}

/// The index of the last `c` among the first `end` characters; `None` where
/// there is none.
pub fn find_last(chars: &Vec<char>, end: usize, c: char) -> (r: Option<usize>)
    requires
        end <= chars.len(),
    ensures
        match r {
            Some(i) => i < end && chars@[i as int] == c && i == last_index_of(
                chars@.take(end as int),
                c,
            ),
            None => last_index_of(chars@.take(end as int), c) == -1,
        },
{
    let mut i: usize = end;
    while i > 0
        invariant
            i <= end <= chars.len(),
            last_index_of(chars@.take(end as int), c) == last_index_of(chars@.take(i as int), c),
        decreases i,
    {
        proof {
            assert(chars@.take(i as int).last() == chars@[i - 1]);
            assert(chars@.take(i as int).drop_last() =~= chars@.take(i - 1));
        }
        if chars[i - 1] == c {
            return Some(i - 1);
        }
        i -= 1;
    }
    None
}

/// The character that writes the decimal digit `d`.
pub fn digit(d: u8) -> (r: char)
    requires
        d < 10,
    ensures
        r == digit_char(d as int),
{
    if d == 0 {
        '0'
    } else if d == 1 {
        '1'
    } else if d == 2 {
        '2'
    } else if d == 3 {
        '3'
    } else if d == 4 {
        '4'
    } else if d == 5 {
        '5'
    } else if d == 6 {
        '6'
    } else if d == 7 {
        '7'
    } else if d == 8 {
        '8'
    } else {
        '9'
    }
}

/// The decimal numeral of `n`.
pub fn decimal_text(n: usize) -> (r: String)
    ensures
        r@ == decimal(n as nat),
    decreases n,
{
    if n < 10 {
        let mut out = String::new();
        push_char(&mut out, digit(n as u8));
        assert(out@ =~= seq![digit_char(n as int)]);
        out
    } else {
        let mut out = decimal_text(n / 10);
        push_char(&mut out, digit((n % 10) as u8));
        out
    }
}

/// `char::is_whitespace`: whether the character has the Unicode property
/// White_Space.
#[verifier::external_body]
pub(crate) fn char_is_whitespace(c: char) -> (r: bool)
    ensures
        r == is_white_space(c),
{
    c.is_whitespace()
}

/// For each character, whether it is white space.
pub fn blank_marks(chars: &Vec<char>) -> (r: Vec<bool>)
    ensures
        r@ == blanks(chars@),
{
    let mut out: Vec<bool> = Vec::new();
    let mut i: usize = 0;
    while i < chars.len()
        invariant
            i <= chars.len(),
            out.len() == i,
            forall|j: int| 0 <= j < i ==> out[j] == is_white_space(chars[j]),
        decreases chars.len() - i,
    {
        out.push(char_is_whitespace(chars[i]));
        i += 1;
    }
    assert(out@ =~= blanks(chars@));
    out
}

/// The range that is left when the marked indices at the two ends are taken
/// away.
pub fn trim_range(blank: &Vec<bool>) -> (r: (usize, usize))
    ensures
        r.0 == kept_range(blank@).0,
        r.1 == kept_range(blank@).1,
        r.0 <= r.1 <= blank.len(),
{
    let mut begin: usize = 0;
    while begin < blank.len() && blank[begin]
        invariant
            begin <= blank.len(),
            leading_blanks_end(blank@, 0) == leading_blanks_end(blank@, begin as int),
        decreases blank.len() - begin,
    {
        begin += 1;
    }
    if begin >= blank.len() {
        return (0, 0);
    }
    let mut end: usize = blank.len();
    while end > 0 && blank[end - 1]
        invariant
            begin < end <= blank.len(),
            !blank@[begin as int],
            trailing_blanks_start(blank@, blank.len() as int) == trailing_blanks_start(
                blank@,
                end as int,
            ),
        decreases end,
    {
        end -= 1;
    }
    (begin, end)
}

/// The text without the white space at its two ends.
pub fn trim(s: &str) -> (r: String)
    ensures
        r@ == trimmed(s@),
{
    let chars = chars_of(s);
    let marks = blank_marks(&chars);
    let (begin, end) = trim_range(&marks);
    text_of(&chars, begin, end)
}

/// The first index from `from` on that holds `c`; the length where there is none.
pub fn find_first(chars: &Vec<char>, from: usize, c: char) -> (r: usize)
    requires
        from <= chars.len(),
    ensures
        r == first_index_from(chars@, c, from as int),
        from <= r <= chars.len(),
{
    let mut i: usize = from;
    while i < chars.len() && chars[i] != c
        invariant
            from <= i <= chars.len(),
            first_index_from(chars@, c, from as int) == first_index_from(chars@, c, i as int),
        decreases chars.len() - i,
    {
        i += 1;
    }
    i
}

/// The fields that `sep` parts `s` into.
pub fn split_fields(s: &str, sep: char) -> (r: Vec<String>)
    ensures
        r.deep_view() == fields(s@, sep),
{
    let chars = chars_of(s);
    let mut out: Vec<String> = Vec::new();
    let mut start: usize = 0;
    let mut i: usize = 0;
    assert(out.deep_view() =~= Seq::empty());
    while i < chars.len()
        invariant
            start <= i <= chars.len(),
            chars@ == s@,
            fields(s@, sep) == out.deep_view() + fields_from(s@, sep, start as int, i as int),
        decreases chars.len() - i,
    {
        if chars[i] == sep {
            let ghost before = out.deep_view();
            out.push(text_of(&chars, start, i));
            assert(out.deep_view() =~= before.push(s@.subrange(start as int, i as int)));
            assert(before + (seq![s@.subrange(start as int, i as int)] + fields_from(
                s@,
                sep,
                i + 1,
                i + 1,
            )) =~= out.deep_view() + fields_from(s@, sep, i + 1, i + 1));
            start = i + 1;
        }
        i += 1;
    }
    let ghost before = out.deep_view();
    out.push(text_of(&chars, start, chars.len()));
    assert(out.deep_view() =~= before + seq![s@.subrange(start as int, s@.len() as int)]);
    out
}

/// Whether `s` ends with `suffix`.
pub fn chars_end_with(s: &Vec<char>, end: usize, suffix: &Vec<char>) -> (r: bool)
    requires
        end <= s.len(),
    ensures
        r == suffix@.is_suffix_of(s@.take(end as int)),
{
    if suffix.len() > end {
        return false;
    }
    let at: usize = end - suffix.len();
    let r = chars_match_at(s, suffix, at);
    proof {
        let head = s@.take(end as int);
        assert(head.subrange(at as int, end as int) =~= s@.subrange(at as int, end as int));
        assert(head.subrange(head.len() - suffix.len(), head.len() as int) =~= s@.subrange(
            at as int,
            end as int,
        ));
    }
    r
}

/// Whether `s` ends with `suffix`.
pub fn ends_with(s: &str, suffix: &str) -> (r: bool)
    ensures
        r == suffix@.is_suffix_of(s@),
{
    let x = chars_of(s);
    let y = chars_of(suffix);
    assert(x@.take(x.len() as int) =~= x@);
    chars_end_with(&x, x.len(), &y)
}

/// The text without the copies of `suffix` at its end.
pub fn strip_suffix(s: &str, suffix: &str) -> (r: String)
    ensures
        r@ == without_suffix(s@, suffix@),
{
    let chars = chars_of(s);
    let tail = chars_of(suffix);
    let mut end: usize = chars.len();
    assert(chars@.take(end as int) =~= chars@);
    if tail.len() == 0 {
        return text_of(&chars, 0, end);
    }
    while chars_end_with(&chars, end, &tail)
        invariant
            end <= chars.len(),
            tail.len() > 0,
            tail@ == suffix@,
            without_suffix(s@, suffix@) == without_suffix(chars@.take(end as int), suffix@),
        decreases end,
    {
        assert(chars@.take(end as int).take(end - tail.len()) =~= chars@.take(end - tail.len()));
        end -= tail.len();
    }
    text_of(&chars, 0, end)
}

/// Shortens a text to at most `max_len` characters for display: a longer
/// one is cut three characters earlier and ends in an ellipsis.
pub fn truncate(s: &str, max_len: usize) -> (r: String)
    ensures
        r@ == shortened(s@, max_len as nat),
{
    let chars = chars_of(s);
    if chars.len() <= max_len {
        assert(chars@.subrange(0, chars.len() as int) =~= chars@);
        return text_of(&chars, 0, chars.len());
    }
    let kept: usize = if max_len >= 3 {
        max_len - 3
    } else {
        0
    };
    let mut out = text_of(&chars, 0, kept);
    out.append("...");
    proof {
        if max_len < 3 {
            assert(out@ =~= "..."@);
        }
    }
    out
}

} // verus!
