//! Text that the library renders and inspects: decimal numbers, substring
//! search, trimming and the parsing of numbers.

use vstd::prelude::*;
use vstd::string::*;

verus! {

/// The character of one decimal digit.
pub open spec fn digit_char(d: nat) -> char {
    if d == 0 {
        '0'
    } else if d == 1 {
        '1'
    } else if d == 2 {
        '2'
    } else if d == 3 {
        '3'
    } else if d == 4 {
        '4'
    } else if d == 5 {
        '5'
    } else if d == 6 {
        '6'
    } else if d == 7 {
        '7'
    } else if d == 8 {
        '8'
    } else {
        '9'
    }
}

/// The decimal digits of `n`, most significant first, without padding.
pub open spec fn decimal(n: nat) -> Seq<char>
    decreases n,
{
    if n < 10 {
        seq![digit_char(n)]
    } else {
        decimal(n / 10).push(digit_char(n % 10))
    }
}

fn digit_str(d: u64) -> (s: &'static str)
    requires
        d < 10,
    ensures
        s@ == seq![digit_char(d as nat)],
{
    proof {
        reveal_strlit("0");
        reveal_strlit("1");
        reveal_strlit("2");
        reveal_strlit("3");
        reveal_strlit("4");
        reveal_strlit("5");
        reveal_strlit("6");
        reveal_strlit("7");
        reveal_strlit("8");
        reveal_strlit("9");
    }
    if d == 0 {
        "0"
    } else if d == 1 {
        "1"
    } else if d == 2 {
        "2"
    } else if d == 3 {
        "3"
    } else if d == 4 {
        "4"
    } else if d == 5 {
        "5"
    } else if d == 6 {
        "6"
    } else if d == 7 {
        "7"
    } else if d == 8 {
        "8"
    } else {
        "9"
    }
}

/// Appends the decimal digits of `n` to `out`.
pub fn push_decimal(out: &mut String, n: u64)
    ensures
        final(out)@ == old(out)@ + decimal(n as nat),
    decreases n,
{
    if n >= 10 {
        push_decimal(out, n / 10);
    }
    out.append(digit_str(n % 10));
}

/// Whether `needle` occurs in `text` at position `at`.
pub open spec fn occurs_at(text: Seq<char>, needle: Seq<char>, at: int) -> bool {
    0 <= at && at + needle.len() <= text.len() && text.subrange(at, at + needle.len()) == needle
}

/// Whether `needle` occurs somewhere in `text`.
pub open spec fn contains_text(text: Seq<char>, needle: Seq<char>) -> bool {
    exists|at: int| occurs_at(text, needle, at)
}

/// The characters of `s`, in order.
pub fn chars_of(s: &str) -> (v: Vec<char>)
    ensures
        v@ == s@,
{
    let mut v: Vec<char> = Vec::new();
    for c in it: s.chars()
        invariant
            v@ == it.seq().take(it.index() as int),
    {
        v.push(c);
    }
    v
}

/// Whether `text` holds `needle` at index `at`, character by character.
fn matches_at(text: &Vec<char>, needle: &Vec<char>, at: usize) -> (found: bool)
    requires
        at + needle.len() <= text.len(),
    ensures
        found == occurs_at(text@, needle@, at as int),
{
    let mut k: usize = 0;
    while k < needle.len()
        invariant
            k <= needle.len(),
            at + needle.len() <= text.len(),
            forall|j: int| 0 <= j < k ==> text@[at + j] == needle@[j],
        decreases needle.len() - k,
    {
        if text[at + k] != needle[k] {
            proof {
                let window = text@.subrange(at as int, at + needle.len());
                assert(window[k as int] == text@[at + k]);
            }
            return false;
        }
        k += 1;
    }
    assert(text@.subrange(at as int, at + needle.len()) =~= needle@);
    true
}

/// Whether `needle` occurs somewhere in `text`.
pub fn contains(text: &str, needle: &str) -> (found: bool)
    ensures
        found == contains_text(text@, needle@),
{
    let hay = chars_of(text);
    let pat = chars_of(needle);
    if pat.len() > hay.len() {
        return false;
    }
    let last: usize = hay.len() - pat.len();
    let mut at: usize = 0;
    loop
        invariant
            hay@ == text@,
            pat@ == needle@,
            last == hay.len() - pat.len(),
            at <= last,
            forall|k: int| 0 <= k < at ==> !occurs_at(hay@, pat@, k),
        decreases last - at,
    {
        if matches_at(&hay, &pat, at) {
            return true;
        }
        if at == last {
            return false;
        }
        at += 1;
    }
}

/// What is left of `text` behind `prefix`, where it begins with it.
pub open spec fn stripped(text: Seq<char>, prefix: Seq<char>) -> Option<Seq<char>> {
    if occurs_at(text, prefix, 0) {
        Some(text.subrange(prefix.len() as int, text.len() as int))
    } else {
        None
    }
}

/// What is left of `text` behind `prefix`, where it begins with it.
pub fn strip_prefix<'a>(text: &'a str, prefix: &str) -> (rest: Option<&'a str>)
    ensures
        match rest {
            Some(rest) => stripped(text@, prefix@) == Some(rest@),
            None => stripped(text@, prefix@) is None,
        },
{
    let hay = chars_of(text);
    let pat = chars_of(prefix);
    if pat.len() > hay.len() {
        return None;
    }
    if matches_at(&hay, &pat, 0) {
        Some(text.substring_char(pat.len(), hay.len()))
    } else {
        None
    }
}

/// Whether two texts hold the same characters.
pub fn equal(a: &str, b: &str) -> (same: bool)
    ensures
        same == (a@ == b@),
{
    let left = chars_of(a);
    let right = chars_of(b);
    if left.len() != right.len() {
        return false;
    }
    let found = matches_at(&left, &right, 0);
    assert(left@.subrange(0, left@.len() as int) =~= left@);
    found
}

/// Whether Unicode counts `c` as white space.
pub open spec fn white_space(c: char) -> bool {
    let n = c as u32;
    ||| 0x09 <= n <= 0x0D
    ||| n == 0x20
    ||| n == 0x85
    ||| n == 0xA0
    ||| n == 0x1680
    ||| 0x2000 <= n <= 0x200A
    ||| n == 0x2028
    ||| n == 0x2029
    ||| n == 0x202F
    ||| n == 0x205F
    ||| n == 0x3000
}

/// Whether Unicode counts `c` as white space.
pub fn is_whitespace(c: char) -> (white: bool)
    ensures
        white == white_space(c),
{
    let n: u32 = c as u32;
    (0x09 <= n && n <= 0x0D) || n == 0x20 || n == 0x85 || n == 0xA0 || n == 0x1680 || (0x2000 <= n
        && n <= 0x200A) || n == 0x2028 || n == 0x2029 || n == 0x202F || n == 0x205F || n == 0x3000
}

/// Whether `c` is trimmed away: white space where `what` is `None`, else
/// the character that `what` holds.
pub open spec fn trims(what: Option<char>, c: char) -> bool {
    match what {
        None => white_space(c),
        Some(unwanted) => c == unwanted,
    }
}

/// `text` without the characters to trim at its start.
pub open spec fn trim_start_of(text: Seq<char>, what: Option<char>) -> Seq<char>
    decreases text.len(),
{
    if text.len() > 0 && trims(what, text[0]) {
        trim_start_of(text.drop_first(), what)
    } else {
        text
    }
}

/// `text` without the characters to trim at its end.
pub open spec fn trim_end_of(text: Seq<char>, what: Option<char>) -> Seq<char>
    decreases text.len(),
{
    if text.len() > 0 && trims(what, text.last()) {
        trim_end_of(text.drop_last(), what)
    } else {
        text
    }
}

/// `text` without the white space at its start and at its end.
pub open spec fn trimmed(text: Seq<char>) -> Seq<char> {
    trim_end_of(trim_start_of(text, None), None)
}

/// `text` without the occurrences of `unwanted` at its start and at its
/// end.
pub open spec fn trimmed_of(text: Seq<char>, unwanted: char) -> Seq<char> {
    trim_end_of(trim_start_of(text, Some(unwanted)), Some(unwanted))
}

fn is_trimmed(what: Option<char>, c: char) -> (away: bool)
    ensures
        away == trims(what, c),
{
    match what {
        None => is_whitespace(c),
        Some(unwanted) => c == unwanted,
    }
}

/// The bounds of what is left of `chars[from..to]` when it is trimmed at
/// both ends.
fn trim_within(chars: &Vec<char>, from: usize, to: usize, what: Option<char>) -> (bounds: (
    usize,
    usize,
))
    requires
        from <= to <= chars.len(),
    ensures
        from <= bounds.0 <= bounds.1 <= to,
        chars@.subrange(bounds.0 as int, bounds.1 as int) == trim_end_of(
            trim_start_of(chars@.subrange(from as int, to as int), what),
            what,
        ),
{
    let mut start: usize = from;
    while start < to && is_trimmed(what, chars[start])
        invariant
            from <= start <= to <= chars.len(),
            trim_start_of(chars@.subrange(from as int, to as int), what) == trim_start_of(
                chars@.subrange(start as int, to as int),
                what,
            ),
        decreases to - start,
    {
        assert(chars@.subrange(start as int, to as int).drop_first() =~= chars@.subrange(
            start + 1,
            to as int,
        ));
        start += 1;
    }
    let mut end: usize = to;
    while end > start && is_trimmed(what, chars[end - 1])
        invariant
            start <= end <= to <= chars.len(),
            trim_end_of(chars@.subrange(start as int, to as int), what) == trim_end_of(
                chars@.subrange(start as int, end as int),
                what,
            ),
        decreases end - start,
    {
        assert(chars@.subrange(start as int, end as int).drop_last() =~= chars@.subrange(
            start as int,
            end - 1,
        ));
        end -= 1;
    }
    (start, end)
}

/// `text` without the white space at its start and at its end.
pub fn trim(text: &str) -> (rest: &str)
    ensures
        rest@ == trimmed(text@),
{
    let chars = chars_of(text);
    let (start, end) = trim_within(&chars, 0, chars.len(), None);
    assert(chars@.subrange(0, chars@.len() as int) =~= chars@);
    text.substring_char(start, end)
}

/// `text` without the occurrences of `unwanted` at its start and at its
/// end.
pub fn trim_matches(text: &str, unwanted: char) -> (rest: &str)
    ensures
        rest@ == trimmed_of(text@, unwanted),
{
    let chars = chars_of(text);
    let (start, end) = trim_within(&chars, 0, chars.len(), Some(unwanted));
    assert(chars@.subrange(0, chars@.len() as int) =~= chars@);
    text.substring_char(start, end)
}

/// The fields of a text between its commas. A text without a comma is one
/// field, and so is the empty text.
pub open spec fn split_commas(text: Seq<char>) -> Seq<Seq<char>>
    decreases text.len(),
{
    if text.len() == 0 {
        seq![Seq::empty()]
    } else {
        let before = split_commas(text.drop_last());
        if text.last() == ',' {
            before.push(Seq::empty())
        } else {
            before.drop_last().push(before.last().push(text.last()))
        }
    }
}

/// The fields of a list that is written with commas, each without the
/// white space around it. The empty text is the empty list.
pub open spec fn comma_list(text: Seq<char>) -> Seq<Seq<char>> {
    if text.len() == 0 {
        Seq::empty()
    } else {
        split_commas(text).map_values(|field: Seq<char>| trimmed(field))
    }
}

/// The texts that a sequence of strings holds.
pub open spec fn texts(strings: Seq<String>) -> Seq<Seq<char>> {
    strings.map_values(|string: String| string@)
}

/// The fields of a list that is written with commas, each without the
/// white space around it. The empty text is the empty list.
pub fn split_list(text: &str) -> (fields: Vec<String>)
    ensures
        texts(fields@) == comma_list(text@),
{
    let chars = chars_of(text);
    let mut fields: Vec<String> = Vec::new();
    if chars.len() == 0 {
        assert(texts(fields@) =~= comma_list(text@));
        return fields;
    }
    let mut field_start: usize = 0;
    let mut at: usize = 0;
    proof {
        assert(chars@.take(0) =~= Seq::<char>::empty());
        assert(chars@.subrange(0, 0) =~= Seq::<char>::empty());
    }
    while at < chars.len()
        invariant
            chars@ == text@,
            field_start <= at <= chars.len(),
            split_commas(chars@.take(at as int)).len() == fields@.len() + 1,
            split_commas(chars@.take(at as int)).last() == chars@.subrange(
                field_start as int,
                at as int,
            ),
            forall|k: int|
                0 <= k < fields@.len() ==> (#[trigger] fields@[k])@ == trimmed(
                    split_commas(chars@.take(at as int))[k],
                ),
        decreases chars.len() - at,
    {
        let ghost before = split_commas(chars@.take(at as int));
        proof {
            assert(chars@.take(at + 1).drop_last() =~= chars@.take(at as int));
            assert(chars@.take(at + 1).last() == chars@[at as int]);
        }
        if chars[at] == ',' {
            let (start, end) = trim_within(&chars, field_start, at, None);
            fields.push(text.substring_char(start, end).to_owned());
            field_start = at + 1;
            proof {
                assert(chars@.subrange(at + 1, at + 1) =~= Seq::<char>::empty());
                assert(split_commas(chars@.take(at + 1)) == before.push(Seq::empty()));
            }
        } else {
            proof {
                assert(chars@.subrange(field_start as int, at as int).push(chars@[at as int])
                    =~= chars@.subrange(field_start as int, at + 1));
                assert(split_commas(chars@.take(at + 1)) == before.drop_last().push(
                    before.last().push(chars@[at as int]),
                ));
            }
        }
        at += 1;
    }
    let (start, end) = trim_within(&chars, field_start, at, None);
    fields.push(text.substring_char(start, end).to_owned());
    proof {
        assert(chars@.take(at as int) =~= chars@);
        let all = split_commas(text@);
        assert forall|k: int| 0 <= k < fields@.len() implies (#[trigger] texts(fields@)[k])
            == comma_list(text@)[k] by {
            assert(fields@[k]@ == trimmed(all[k]));
        }
        assert(texts(fields@) =~= comma_list(text@));
    }
    fields
}

/// Whether `c` is one of the ten digits.
pub open spec fn is_digit(c: char) -> bool {
    0x30 <= c as u32 <= 0x39
}

/// The value of the digit `c`.
pub open spec fn digit_of(c: char) -> nat {
    (c as u32 - 0x30) as nat
}

/// The number that a text of digits writes, in decimal.
pub open spec fn digits_value(digits: Seq<char>) -> nat
    decreases digits.len(),
{
    if digits.len() == 0 {
        0
    } else {
        digits_value(digits.drop_last()) * 10 + digit_of(digits.last())
    }
}

/// The digits of a text that writes a number: the text itself, or what
/// follows its plus sign.
pub open spec fn digits_of(text: Seq<char>) -> Seq<char> {
    if text.len() > 0 && text[0] == '+' {
        text.drop_first()
    } else {
        text
    }
}

/// The number that a text writes: at least one digit and nothing but
/// digits, after a plus sign or without one.
pub open spec fn number(text: Seq<char>) -> Option<nat> {
    let digits = digits_of(text);
    if digits.len() > 0 && (forall|i: int|
        0 <= i < digits.len() ==> is_digit(#[trigger] digits[i])) {
        Some(digits_value(digits))
    } else {
        None
    }
}

/// The number that a text writes, where it is `max` at most.
pub open spec fn number_within(text: Seq<char>, max: nat) -> Option<nat> {
    match number(text) {
        Some(n) => if n <= max {
            Some(n)
        } else {
            None
        },
        None => None,
    }
}

/// More digits never write a smaller number.
proof fn lemma_digits_value_grows(digits: Seq<char>, k: int)
    requires
        0 <= k <= digits.len(),
    ensures
        digits_value(digits.take(k)) <= digits_value(digits),
    decreases digits.len() - k,
{
    if k == digits.len() {
        assert(digits.take(k) =~= digits);
    } else {
        lemma_digits_value_grows(digits, k + 1);
        assert(digits.take(k + 1).drop_last() =~= digits.take(k));
    }
}

/// The number that a text writes, where it fits into 64 bits.
pub fn parse_u64(text: &str) -> (parsed: Option<u64>)
    ensures
        match parsed {
            Some(n) => number_within(text@, u64::MAX as nat) == Some(n as nat),
            None => number_within(text@, u64::MAX as nat) is None,
        },
{
    let chars = chars_of(text);
    let start: usize = if chars.len() > 0 && chars[0] == '+' {
        1
    } else {
        0
    };
    if start == chars.len() {
        return None;
    }
    let ghost digits = digits_of(text@);
    proof {
        assert(digits =~= chars@.subrange(start as int, chars@.len() as int));
        assert(digits.take(0) =~= Seq::<char>::empty());
    }
    let mut value: u64 = 0;
    let mut at: usize = start;
    while at < chars.len()
        invariant
            chars@ == text@,
            start <= at <= chars.len(),
            digits == digits_of(text@),
            digits == chars@.subrange(start as int, chars@.len() as int),
            forall|i: int| 0 <= i < at - start ==> is_digit(#[trigger] digits[i]),
            value == digits_value(digits.take(at - start)),
        decreases chars.len() - at,
    {
        let c = chars[at];
        let code: u32 = c as u32;
        proof {
            assert(digits[at - start] == c);
            assert(digits.take(at - start + 1).drop_last() =~= digits.take(at - start));
            assert(digits.take(at - start + 1).last() == c);
        }
        if code < 0x30 || code > 0x39 {
            return None;
        }
        let digit: u64 = (code - 0x30) as u64;
        if value > (u64::MAX - digit) / 10 {
            proof {
                lemma_digits_value_grows(digits, at - start + 1);
            }
            return None;
        }
        value = value * 10 + digit;
        at += 1;
    }
    proof {
        assert(digits.take(at - start) =~= digits);
    }
    Some(value)
}

/// The number that a text writes, where it fits into 16 bits.
pub fn parse_u16(text: &str) -> (parsed: Option<u16>)
    ensures
        match parsed {
            Some(n) => number_within(text@, u16::MAX as nat) == Some(n as nat),
            None => number_within(text@, u16::MAX as nat) is None,
        },
{
    match parse_u64(text) {
        Some(n) => if n <= 0xFFFF {
            Some(n as u16)
        } else {
            None
        },
        None => None,
    }
}

/// The number that a text writes, where it fits into a `usize`.
pub fn parse_usize(text: &str) -> (parsed: Option<usize>)
    ensures
        match parsed {
            Some(n) => number_within(text@, usize::MAX as nat) == Some(n as nat),
            None => number_within(text@, usize::MAX as nat) is None,
        },
{
    match parse_u64(text) {
        Some(n) => if n <= usize::MAX as u64 {
            Some(n as usize)
        } else {
            None
        },
        None => None,
    }
}

/// What `str::to_lowercase` makes of a text.
pub uninterp spec fn lowercased(text: Seq<char>) -> Seq<char>;

/// `str::to_lowercase`: the text with each character in lower case, as
/// Unicode defines it. The result is a function of the text alone, named
/// `lowercased`.
#[verifier::external_body]
pub(crate) fn to_lowercase(text: &str) -> (lowered: String)
    ensures
        lowered@ == lowercased(text@),
{
    text.to_lowercase()
}

/// What `Debug` formatting makes of a text: the text in double quotes,
/// with its special characters escaped.
pub uninterp spec fn debug_quoted(text: Seq<char>) -> Seq<char>;

/// `Debug` formatting of `str`, by `format!`: the result is a function of
/// the text alone, named `debug_quoted`.
#[verifier::external_body]
pub(crate) fn quote(text: &str) -> (quoted: String)
    ensures
        quoted@ == debug_quoted(text@),
{
    format!("{text:?}")
}

} // verus!
