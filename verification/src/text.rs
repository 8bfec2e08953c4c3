//! What the library needs of text: joining, splitting, prefixes and
//! suffixes, and the change of case.

use vstd::prelude::*;

verus! {

/// The upper-case form of a text, as `str::to_uppercase` gives it.
pub uninterp spec fn uppercase(text: Seq<char>) -> Seq<char>;

/// The lower-case form of a text, as `str::to_lowercase` gives it.
pub uninterp spec fn lowercase(text: Seq<char>) -> Seq<char>;

/// The upper-case form of a character among the ASCII letters; every other
/// character is its own.
pub open spec fn ascii_upper_char(c: char) -> char {
    if 'a' <= c && c <= 'z' {
        ((c as int) - 32) as char
    } else {
        c
    }
}

/// The text with its ASCII letters in upper case.
pub open spec fn ascii_uppercase(text: Seq<char>) -> Seq<char> {
    Seq::new(text.len(), |i: int| ascii_upper_char(text[i]))
}

/// `str::to_ascii_uppercase`: a copy of the text in which the ASCII letters
/// `a` to `z` are replaced by `A` to `Z` and every other character is as it
/// was.
#[verifier::external_body]
pub(crate) fn to_ascii_upper(text: &str) -> (upper: String)
    ensures
        upper@ == ascii_uppercase(text@),
{
    text.to_ascii_uppercase()
}

/// `str::to_uppercase`: the text with each character replaced by its
/// upper-case form in Unicode. Named, not spelled out.
#[verifier::external_body]
pub(crate) fn to_upper(text: &str) -> (upper: String)
    ensures
        upper@ == uppercase(text@),
{
    text.to_uppercase()
}

/// `str::to_lowercase`: the text with each character replaced by its
/// lower-case form in Unicode. Named, not spelled out.
#[verifier::external_body]
pub(crate) fn to_lower(text: &str) -> (lower: String)
    ensures
        lower@ == lowercase(text@),
{
    text.to_lowercase()
}

/// The texts that a list of strings holds.
pub open spec fn texts(strings: Seq<String>) -> Seq<Seq<char>> {
    Seq::new(strings.len(), |i: int| strings[i]@)
}

/// The texts that a list of string slices holds.
pub open spec fn str_texts<'a>(list: Seq<&'a str>) -> Seq<Seq<char>> {
    Seq::new(list.len(), |i: int| list[i]@)
}

/// Each text with its ASCII letters in upper case.
pub open spec fn uppercased(list: Seq<Seq<char>>) -> Seq<Seq<char>> {
    Seq::new(list.len(), |i: int| ascii_uppercase(list[i]))
}

/// The parts of a text between the occurrences of a separator. A text
/// without the separator is its own single part; two separators in a row,
/// or one at either end, bound an empty part.
pub open spec fn split_on(text: Seq<char>, sep: char) -> Seq<Seq<char>>
    decreases text.len(),
{
    if text.len() == 0 {
        seq![Seq::empty()]
    } else {
        let before = split_on(text.drop_last(), sep);
        if text.last() == sep {
            before.push(Seq::empty())
        } else {
            before.drop_last().push(before.last().push(text.last()))
        }
    }
}

/// The text begins with `prefix`.
pub open spec fn starts_with(text: Seq<char>, prefix: Seq<char>) -> bool {
    prefix.len() <= text.len() && text.subrange(0, prefix.len() as int) == prefix
}

/// The text ends with `suffix`.
pub open spec fn ends_with(text: Seq<char>, suffix: Seq<char>) -> bool {
    suffix.len() <= text.len() && text.subrange(text.len() - suffix.len(), text.len() as int)
        == suffix
}

/// `pattern` stands in the text at position `at`.
pub open spec fn occurs_at(text: Seq<char>, pattern: Seq<char>, at: int) -> bool {
    0 <= at && at + pattern.len() <= text.len() && text.subrange(at, at + pattern.len())
        == pattern
}

/// `pattern` stands somewhere in the text.
pub open spec fn has_pattern(text: Seq<char>, pattern: Seq<char>) -> bool {
    exists|at: int| occurs_at(text, pattern, at)
}

/// Two texts joined end to end.
pub fn concat2(a: &str, b: &str) -> (text: String)
    ensures
        text@ == a@ + b@,
{
    let mut text = String::from_str(a);
    text.append(b);
    text
}

/// Three texts joined end to end.
pub fn concat3(a: &str, b: &str, c: &str) -> (text: String)
    ensures
        text@ == a@ + b@ + c@,
{
    let mut text = String::from_str(a);
    text.append(b);
    text.append(c);
    text
}

/// The characters of a text.
pub fn chars_of(text: &str) -> (chars: Vec<char>)
    ensures
        chars@ == text@,
{
    let mut chars: Vec<char> = Vec::new();
    for c in it: text.chars()
        invariant
            it.seq() == text@,
            chars@ == it.seq().take(it.index()),
    {
        chars.push(c);
    }
    chars
}

/// Whether two texts are the same.
pub fn text_eq(a: &str, b: &str) -> (same: bool)
    ensures
        same == (a@ == b@),
{
    let left = chars_of(a);
    let right = chars_of(b);
    if left.len() != right.len() {
        return false;
    }
    let mut i: usize = 0;
    while i < left.len()
        invariant
            i <= left.len(),
            left.len() == right.len(),
            left@ == a@,
            right@ == b@,
            left@.take(i as int) == right@.take(i as int),
        decreases left.len() - i,
    {
        if left[i] != right[i] {
            proof {
                assert(a@[i as int] != b@[i as int]);
            }
            return false;
        }
        proof {
            assert(left@.take(i + 1) =~= left@.take(i as int).push(left@[i as int]));
            assert(right@.take(i + 1) =~= right@.take(i as int).push(right@[i as int]));
        }
        i += 1;
    }
    proof {
        assert(left@.take(i as int) == left@);
        assert(right@.take(i as int) == right@);
    }
    true
}

/// Whether `pattern` stands at position `at` in `text`.
fn matches_at(text: &Vec<char>, pattern: &Vec<char>, at: usize) -> (found: bool)
    requires
        at + pattern.len() <= text.len(),
    ensures
        found == occurs_at(text@, pattern@, at as int),
{
    let mut j: usize = 0;
    while j < pattern.len()
        invariant
            j <= pattern.len(),
            at + pattern.len() <= text.len(),
            text@.subrange(at as int, at + j) == pattern@.take(j as int),
        decreases pattern.len() - j,
    {
        if text[at + j] != pattern[j] {
            proof {
                let slice = text@.subrange(at as int, at + pattern.len());
                assert(slice[j as int] != pattern@[j as int]);
            }
            return false;
        }
        proof {
            assert(text@.subrange(at as int, at + j + 1) =~= text@.subrange(at as int, at + j).push(
                text@[at + j],
            ));
            assert(pattern@.take(j + 1) =~= pattern@.take(j as int).push(pattern@[j as int]));
        }
        j += 1;
    }
    proof {
        assert(pattern@.take(j as int) == pattern@);
    }
    true
}

/// Whether the text begins with `prefix`.
pub fn has_prefix(text: &str, prefix: &str) -> (found: bool)
    ensures
        found == starts_with(text@, prefix@),
{
    let chars = chars_of(text);
    let wanted = chars_of(prefix);
    if wanted.len() > chars.len() {
        return false;
    }
    matches_at(&chars, &wanted, 0)
}

/// What follows `prefix` in the text, if the text begins with it.
pub fn strip_prefix(text: &str, prefix: &str) -> (rest: Option<String>)
    ensures
        rest is Some <==> starts_with(text@, prefix@),
        rest matches Some(tail) ==> tail@ == text@.subrange(
            prefix@.len() as int,
            text@.len() as int,
        ),
{
    let chars = chars_of(text);
    let wanted = chars_of(prefix);
    if wanted.len() > chars.len() {
        return None;
    }
    if matches_at(&chars, &wanted, 0) {
        Some(String::from_str(text.substring_char(wanted.len(), chars.len())))
    } else {
        None
    }
}

/// What precedes `suffix` in the text, if the text ends with it.
pub fn strip_suffix(text: &str, suffix: &str) -> (rest: Option<String>)
    ensures
        rest is Some <==> ends_with(text@, suffix@),
        rest matches Some(head) ==> head@ == text@.subrange(0, text@.len() - suffix@.len()),
{
    let chars = chars_of(text);
    let wanted = chars_of(suffix);
    if wanted.len() > chars.len() {
        return None;
    }
    let at: usize = chars.len() - wanted.len();
    if matches_at(&chars, &wanted, at) {
        Some(String::from_str(text.substring_char(0, at)))
    } else {
        None
    }
}

/// Whether `pattern` stands somewhere in the text.
pub fn contains(text: &str, pattern: &str) -> (found: bool)
    ensures
        found == has_pattern(text@, pattern@),
{
    let chars = chars_of(text);
    let wanted = chars_of(pattern);
    if wanted.len() > chars.len() {
        proof {
            assert forall|at: int| !occurs_at(text@, pattern@, at) by {}
        }
        return false;
    }
    let last: usize = chars.len() - wanted.len();
    let mut at: usize = 0;
    loop
        invariant
            at <= last,
            last == chars.len() - wanted.len(),
            chars@ == text@,
            wanted@ == pattern@,
            forall|before: int| 0 <= before < at ==> !occurs_at(text@, pattern@, before),
        decreases last - at,
    {
        if matches_at(&chars, &wanted, at) {
            return true;
        }
        if at == last {
            proof {
                assert forall|any: int| !occurs_at(text@, pattern@, any) by {}
            }
            return false;
        }
        at += 1;
    }
}

/// The parts of a text between the occurrences of a separator.
pub fn split(text: &str, sep: char) -> (parts: Vec<String>)
    ensures
        texts(parts@) == split_on(text@, sep),
        parts.len() >= 1,
{
    let chars = chars_of(text);
    let mut parts: Vec<String> = Vec::new();
    let mut start: usize = 0;
    let mut i: usize = 0;
    proof {
        assert(text@.take(0) =~= Seq::empty());
        assert(texts(parts@).push(text@.subrange(0, 0)) =~= seq![Seq::<char>::empty()]);
    }
    while i < chars.len()
        invariant
            start <= i <= chars.len(),
            chars@ == text@,
            texts(parts@).push(text@.subrange(start as int, i as int)) == split_on(
                text@.take(i as int),
                sep,
            ),
        decreases chars.len() - i,
    {
        let ghost before = split_on(text@.take(i as int), sep);
        let ghost done = texts(parts@);
        proof {
            assert(text@.take(i + 1).drop_last() =~= text@.take(i as int));
            assert(text@.take(i + 1).last() == text@[i as int]);
            assert(before.last() == text@.subrange(start as int, i as int));
            assert(before.drop_last() =~= done);
        }
        if chars[i] == sep {
            parts.push(String::from_str(text.substring_char(start, i)));
            start = i + 1;
            proof {
                assert(texts(parts@) =~= before);
                assert(text@.subrange(start as int, i + 1) =~= Seq::empty());
            }
        } else {
            proof {
                assert(text@.subrange(start as int, i + 1) =~= text@.subrange(
                    start as int,
                    i as int,
                ).push(text@[i as int]));
            }
        }
        i += 1;
    }
    proof {
        assert(text@.take(i as int) == text@);
    }
    let ghost done = texts(parts@);
    parts.push(String::from_str(text.substring_char(start, i)));
    proof {
        assert(texts(parts@) =~= done.push(text@.subrange(start as int, i as int)));
    }
    parts
}

/// The value of a decimal digit.
pub open spec fn digit(c: char) -> Option<nat> {
    if '0' <= c && c <= '9' {
        Some((c as nat - '0' as nat) as nat)
    } else {
        None
    }
}

/// The number that a run of decimal digits writes; `None` where a character
/// is no digit.
pub open spec fn digits_value(digits: Seq<char>) -> Option<nat>
    decreases digits.len(),
{
    if digits.len() == 0 {
        Some(0)
    } else {
        match (digits_value(digits.drop_last()), digit(digits.last())) {
            (Some(value), Some(d)) => Some(10 * value + d),
            _ => None,
        }
    }
}

/// The number below `2^32` that a text writes in decimal: digits, at least
/// one, after at most one plus sign. Nothing else may stand in the text.
pub open spec fn decimal_u32(text: Seq<char>) -> Option<u32> {
    let digits = if text.len() > 0 && text[0] == '+' {
        text.subrange(1, text.len() as int)
    } else {
        text
    };
    if digits.len() == 0 {
        None
    } else {
        match digits_value(digits) {
            Some(value) => if value <= u32::MAX {
                Some(value as u32)
            } else {
                None
            },
            None => None,
        }
    }
}

/// The character of a decimal digit.
pub open spec fn digit_char(d: nat) -> char {
    if d == 0 {
        '0'
    } else if d == 1 {
        '1'
    } else if d == 2 {
        '2'
    } else if d == 3 {
        '3'
    } else if d == 4 {
        '4'
    } else if d == 5 {
        '5'
    } else if d == 6 {
        '6'
    } else if d == 7 {
        '7'
    } else if d == 8 {
        '8'
    } else {
        '9'
    }
}

/// A number written in decimal, without a sign or leading zeros.
pub open spec fn decimal_text(n: nat) -> Seq<char>
    decreases n,
{
    if n < 10 {
        seq![digit_char(n)]
    } else {
        decimal_text(n / 10).push(digit_char(n % 10))
    }
}

/// A run of digits that has a character that is no digit writes no number,
/// however it goes on; and the number written only grows as it goes on.
proof fn lemma_digits_prefix(digits: Seq<char>, upto: int)
    requires
        0 <= upto <= digits.len(),
    ensures
        digits_value(digits.take(upto)) is None ==> digits_value(digits) is None,
        digits_value(digits) matches Some(whole) ==> digits_value(digits.take(upto)) matches Some(
            part,
        ) && part <= whole,
    decreases digits.len() - upto,
{
    if upto < digits.len() {
        assert(digits.take(upto + 1).drop_last() =~= digits.take(upto));
        lemma_digits_prefix(digits, upto + 1);
    } else {
        assert(digits.take(upto) == digits);
    }
}

/// The number below `2^32` that a text writes in decimal.
pub fn parse_u32(text: &str) -> (number: Option<u32>)
    ensures
        number == decimal_u32(text@),
{
    let chars = chars_of(text);
    let start: usize = if chars.len() > 0 && chars[0] == '+' {
        1
    } else {
        0
    };
    if start == chars.len() {
        return None;
    }
    let ghost digits = text@.subrange(start as int, text@.len() as int);
    let mut value: u64 = 0;
    let mut i: usize = start;
    proof {
        assert(digits.take(0) =~= Seq::empty());
        assert(digits.len() > 0);
        assert(text@.subrange(0, text@.len() as int) =~= text@);
    }
    while i < chars.len()
        invariant
            start <= i <= chars.len(),
            chars@ == text@,
            digits == text@.subrange(start as int, text@.len() as int),
            decimal_u32(text@) == match digits_value(digits) {
                Some(whole) => if whole <= u32::MAX {
                    Some(whole as u32)
                } else {
                    None
                },
                None => None,
            },
            digits_value(digits.take(i - start)) == Some(value as nat),
            value <= u32::MAX,
        decreases chars.len() - i,
    {
        let c: char = chars[i];
        proof {
            assert(digits.take(i - start + 1).drop_last() =~= digits.take(i - start));
            assert(digits.take(i - start + 1).last() == c);
            lemma_digits_prefix(digits, i - start + 1);
        }
        if c < '0' || c > '9' {
            return None;
        }
        let d: u64 = (c as u32 - '0' as u32) as u64;
        value = 10 * value + d;
        if value > 0xffff_ffff {
            return None;
        }
        i += 1;
    }
    proof {
        assert(digits.take(i - start) == digits);
    }
    Some(value as u32)
}

/// The text of one decimal digit.
fn digit_text(d: u32) -> (text: &'static str)
    requires
        d < 10,
    ensures
        text@ == seq![digit_char(d as nat)],
{
    proof {
        reveal_strlit("0");
        reveal_strlit("1");
        reveal_strlit("2");
        reveal_strlit("3");
        reveal_strlit("4");
        reveal_strlit("5");
        reveal_strlit("6");
        reveal_strlit("7");
        reveal_strlit("8");
        reveal_strlit("9");
    }
    let text: &'static str = if d == 0 {
        "0"
    } else if d == 1 {
        "1"
    } else if d == 2 {
        "2"
    } else if d == 3 {
        "3"
    } else if d == 4 {
        "4"
    } else if d == 5 {
        "5"
    } else if d == 6 {
        "6"
    } else if d == 7 {
        "7"
    } else if d == 8 {
        "8"
    } else {
        "9"
    };
    assert(text@ =~= seq![digit_char(d as nat)]);
    text
}

/// A number written in decimal.
pub fn decimal(n: u32) -> (text: String)
    ensures
        text@ == decimal_text(n as nat),
    decreases n,
{
    if n < 10 {
        String::from_str(digit_text(n))
    } else {
        let mut text = decimal(n / 10);
        let ghost before = text@;
        text.append(digit_text(n % 10));
        proof {
            assert(text@ =~= before.push(digit_char((n % 10) as nat)));
        }
        text
    }
}

} // verus!
