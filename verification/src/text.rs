//! Text primitives, each with its meaning stated over the characters of the text.

use vstd::prelude::*;
use vstd::utf8::*;

verus! {

/// The characters with the Unicode `White_Space` property.
pub open spec fn is_white(c: char) -> bool {
    let code: int = c as int;
    ||| 0x09 <= code <= 0x0d
    ||| code == 0x20
    ||| code == 0x85
    ||| code == 0xa0
    ||| code == 0x1680
    ||| 0x2000 <= code <= 0x200a
    ||| code == 0x2028
    ||| code == 0x2029
    ||| code == 0x202f
    ||| code == 0x205f
    ||| code == 0x3000
}

/// `text` without its leading whitespace.
pub open spec fn trimmed_front(text: Seq<char>) -> Seq<char>
    decreases text.len(),
{
    if text.len() > 0 && is_white(text[0]) {
        trimmed_front(text.drop_first())
    } else {
        text
    }
}

/// `text` without its trailing whitespace.
pub open spec fn trimmed_back(text: Seq<char>) -> Seq<char>
    decreases text.len(),
{
    if text.len() > 0 && is_white(text.last()) {
        trimmed_back(text.drop_last())
    } else {
        text
    }
}

/// `text` without leading and trailing whitespace.
pub open spec fn trimmed(text: Seq<char>) -> Seq<char> {
    trimmed_back(trimmed_front(text))
}

/// A text without whitespace is its own trimmed text.
pub proof fn lemma_trimmed_without_white(text: Seq<char>)
    requires
        forall|i: int| 0 <= i < text.len() ==> !is_white(#[trigger] text[i]),
    ensures
        trimmed(text) == text,
{
    if text.len() > 0 {
        assert(!is_white(text[0]));
        assert(trimmed_front(text) == text);
        assert(!is_white(text[text.len() - 1]));
        assert(trimmed_back(text) == text);
    }
}

/// Whether `text` holds nothing but whitespace.
pub open spec fn is_blank_text(text: Seq<char>) -> bool {
    trimmed(text).len() == 0
}

/// `text` without any run of `c` at its end.
pub open spec fn without_trailing(text: Seq<char>, c: char) -> Seq<char>
    decreases text.len(),
{
    if text.len() > 0 && text.last() == c {
        without_trailing(text.drop_last(), c)
    } else {
        text
    }
}

/// Whether `text` begins with `prefix`.
pub open spec fn begins_with(text: Seq<char>, prefix: Seq<char>) -> bool {
    prefix.len() <= text.len() && text.take(prefix.len() as int) == prefix
}

/// The position of the first `c` in `text`, or its length where there is none.
pub open spec fn position_of(text: Seq<char>, c: char) -> nat
    decreases text.len(),
{
    if text.len() == 0 || text[0] == c {
        0
    } else {
        1 + position_of(text.drop_first(), c)
    }
}

/// `text` parted at the first `c`, which belongs to neither part.
pub open spec fn parted(text: Seq<char>, c: char) -> Option<(Seq<char>, Seq<char>)> {
    let at = position_of(text, c) as int;
    if at < text.len() {
        Some((text.take(at), text.skip(at + 1)))
    } else {
        None
    }
}

/// Whether `part` stands in `text` at position `at`.
pub open spec fn occurs_at(text: Seq<char>, part: Seq<char>, at: int) -> bool {
    0 <= at && at + part.len() <= text.len() && text.subrange(at, at + part.len()) == part
}

/// Whether `part` stands anywhere in `text`.
pub open spec fn contains_text(text: Seq<char>, part: Seq<char>) -> bool {
    exists|at: int| #[trigger] occurs_at(text, part, at)
}

/// The text that `text` holds, when there is one.
pub open spec fn held(text: Option<String>) -> Option<Seq<char>> {
    match text {
        Some(text) => Some(text@),
        None => None,
    }
}

/// The decimal digit with the value `d`.
pub open spec fn digit(d: int) -> char {
    ('0' as int + d) as char
}

/// `n` written in decimal, without leading zeros.
pub open spec fn decimal_text(n: nat) -> Seq<char>
    decreases n,
{
    if n < 10 {
        seq![digit(n as int)]
    } else {
        decimal_text(n / 10).push(digit((n % 10) as int))
    }
}

/// Whether every character of `text` is a decimal digit.
pub open spec fn all_digits(text: Seq<char>) -> bool {
    forall|i: int| 0 <= i < text.len() ==> '0' <= #[trigger] text[i] <= '9'
}

/// The number that a run of decimal digits stands for.
pub open spec fn digits_value(text: Seq<char>) -> nat
    decreases text.len(),
{
    if text.len() == 0 {
        0
    } else {
        digits_value(text.drop_last()) * 10 + (text.last() as int - '0' as int) as nat
    }
}

/// The unsigned 32-bit number that `text` spells: digits, after an optional `+`.
pub open spec fn u32_text(text: Seq<char>) -> Option<u32> {
    let digits = if text.len() > 0 && text[0] == '+' {
        text.drop_first()
    } else {
        text
    };
    if digits.len() > 0 && all_digits(digits) && digits_value(digits) <= u32::MAX {
        Some(digits_value(digits) as u32)
    } else {
        None
    }
}

/// Two texts with the same UTF-8 bytes are the same text.
proof fn lemma_same_bytes_same_text(a: Seq<char>, b: Seq<char>)
    requires
        encode_utf8(a) == encode_utf8(b),
    ensures
        a == b,
{
    encode_utf8_decode_utf8(a);
    encode_utf8_decode_utf8(b);
}

/// Whether two byte strings are equal.
pub fn same_bytes(a: &[u8], b: &[u8]) -> (same: bool)
    ensures
        same == (a@ == b@),
{
    if a.len() != b.len() {
        return false;
    }
    let mut i: usize = 0;
    while i < a.len()
        invariant
            a@.len() == b@.len(),
            i <= a@.len(),
            forall|k: int| 0 <= k < i ==> a@[k] == b@[k],
        decreases a@.len() - i,
    {
        if a[i] != b[i] {
            return false;
        }
        i += 1;
    }
    assert(a@ =~= b@);
    true
}

/// Whether two texts are equal.
pub fn same_text(a: &str, b: &str) -> (same: bool)
    ensures
        same == (a@ == b@),
{
    let same: bool = same_bytes(a.as_bytes(), b.as_bytes());
    proof {
        if same {
            lemma_same_bytes_same_text(a@, b@);
        }
    }
    same
}

/// The characters of `text`, in order.
pub fn characters(text: &str) -> (chars: Vec<char>)
    ensures
        chars@ == text@,
{
    let mut chars: Vec<char> = Vec::new();
    for c in it: text.chars()
        invariant
            chars@ == it.seq().take(it.index()),
            it.seq() == text@,
    {
        chars.push(c);
    }
    assert(text@.take(text@.len() as int) =~= text@);
    chars
}

/// Whether `c` has the Unicode `White_Space` property.
pub fn is_whitespace(c: char) -> (white: bool)
    ensures
        white == is_white(c),
{
    let code: u32 = c as u32;
    (0x09 <= code && code <= 0x0d) || code == 0x20 || code == 0x85 || code == 0xa0 || code
        == 0x1680 || (0x2000 <= code && code <= 0x200a) || code == 0x2028 || code == 0x2029
        || code == 0x202f || code == 0x205f || code == 0x3000
}

/// `text` without leading and trailing whitespace.
pub fn trim(text: &str) -> (inner: &str)
    ensures
        inner@ == trimmed(text@),
{
    let chars: Vec<char> = characters(text);
    let mut start: usize = 0;
    assert(chars@.skip(0) =~= chars@);
    while start < chars.len() && is_whitespace(chars[start])
        invariant
            start <= chars@.len(),
            trimmed_front(chars@) == trimmed_front(chars@.skip(start as int)),
        decreases chars@.len() - start,
    {
        assert(chars@.skip(start as int).drop_first() =~= chars@.skip(start + 1));
        start += 1;
    }
    let mut end: usize = chars.len();
    let ghost front = chars@.skip(start as int);
    assert(front == trimmed_front(chars@));
    assert(front.take(front.len() as int) =~= front);
    while end > start && is_whitespace(chars[end - 1])
        invariant
            start <= end <= chars@.len(),
            front == chars@.skip(start as int),
            trimmed_back(front) == trimmed_back(front.take(end - start)),
        decreases end,
    {
        assert(front.take(end - start).drop_last() =~= front.take(end - 1 - start));
        end -= 1;
    }
    assert(front.take(end - start) =~= text@.subrange(start as int, end as int));
    text.substring_char(start, end)
}

/// Whether `text` holds nothing but whitespace.
pub fn is_blank(text: &str) -> (blank: bool)
    ensures
        blank == is_blank_text(text@),
{
    trim(text).is_empty()
}

/// `text` without any run of `c` at its end.
pub fn trim_end(text: &str, c: char) -> (rest: &str)
    ensures
        rest@ == without_trailing(text@, c),
{
    let chars: Vec<char> = characters(text);
    let mut end: usize = chars.len();
    assert(chars@.take(chars@.len() as int) =~= chars@);
    while end > 0 && chars[end - 1] == c
        invariant
            end <= chars@.len(),
            without_trailing(chars@, c) == without_trailing(chars@.take(end as int), c),
        decreases end,
    {
        assert(chars@.take(end as int).drop_last() =~= chars@.take(end - 1));
        end -= 1;
    }
    assert(chars@.take(end as int) =~= text@.subrange(0, end as int));
    text.substring_char(0, end)
}

/// What follows `prefix` in `text`, when `text` begins with it.
pub fn strip_prefix<'a>(text: &'a str, prefix: &str) -> (rest: Option<&'a str>)
    ensures
        match rest {
            Some(tail) => begins_with(text@, prefix@) && tail@ == text@.skip(prefix@.len() as int),
            None => !begins_with(text@, prefix@),
        },
{
    let chars: Vec<char> = characters(text);
    let head: Vec<char> = characters(prefix);
    if head.len() > chars.len() {
        return None;
    }
    let mut i: usize = 0;
    while i < head.len()
        invariant
            i <= head@.len() <= chars@.len(),
            chars@ == text@,
            head@ == prefix@,
            forall|k: int| 0 <= k < i ==> chars@[k] == head@[k],
        decreases head@.len() - i,
    {
        if chars[i] != head[i] {
            assert(text@.take(prefix@.len() as int)[i as int] != prefix@[i as int]);
            return None;
        }
        i += 1;
    }
    assert(text@.take(prefix@.len() as int) =~= prefix@);
    assert(text@.skip(prefix@.len() as int) =~= text@.subrange(
        prefix@.len() as int,
        text@.len() as int,
    ));
    Some(text.substring_char(head.len(), chars.len()))
}

/// `text` parted at the first `c`, which belongs to neither part.
pub fn split_once(text: &str, c: char) -> (parts: Option<(&str, &str)>)
    ensures
        match parts {
            Some((left, right)) => parted(text@, c) == Some((left@, right@)),
            None => parted(text@, c) is None,
        },
{
    let chars: Vec<char> = characters(text);
    let mut i: usize = 0;
    assert(text@.skip(0) =~= text@);
    while i < chars.len()
        invariant
            i <= chars@.len(),
            chars@ == text@,
            position_of(text@, c) == i + position_of(text@.skip(i as int), c),
        decreases chars@.len() - i,
    {
        if chars[i] == c {
            let left: &str = text.substring_char(0, i);
            let right: &str = text.substring_char(i + 1, chars.len());
            assert(left@ =~= text@.take(i as int));
            assert(right@ =~= text@.skip(i + 1));
            return Some((left, right));
        }
        assert(text@.skip(i as int).drop_first() =~= text@.skip(i + 1));
        i += 1;
    }
    None
}

/// Whether `part` stands anywhere in `text`.
pub fn contains(text: &str, part: &str) -> (found: bool)
    ensures
        found == contains_text(text@, part@),
{
    let chars: Vec<char> = characters(text);
    let needle: Vec<char> = characters(part);
    if needle.len() > chars.len() {
        return false;
    }
    let total: usize = chars.len();
    let last: usize = total - needle.len();
    let mut at: usize = 0;
    loop
        invariant
            total == chars@.len(),
            chars@ == text@,
            needle@ == part@,
            last == chars@.len() - needle@.len(),
            at <= last,
            forall|k: int| 0 <= k < at ==> !#[trigger] occurs_at(text@, part@, k),
        decreases last - at,
    {
        let mut i: usize = 0;
        while i < needle.len() && chars[at + i] == needle[i]
            invariant
                total == chars@.len(),
                chars@ == text@,
                needle@ == part@,
                last == chars@.len() - needle@.len(),
                at <= last,
                i <= needle@.len(),
                forall|k: int| 0 <= k < i ==> chars@[at + k] == needle@[k],
            decreases needle@.len() - i,
        {
            i += 1;
        }
        if i == needle.len() {
            assert(text@.subrange(at as int, at + part@.len()) =~= part@);
            assert(occurs_at(text@, part@, at as int));
            return true;
        }
        assert(!occurs_at(text@, part@, at as int)) by {
            if occurs_at(text@, part@, at as int) {
                assert(text@.subrange(at as int, at + part@.len())[i as int] == part@[i as int]);
            }
        }
        if at == last {
            return false;
        }
        at += 1;
    }
}

/// The decimal digit with the value `d`, as a text of its own.
fn digit_text(d: u128) -> (text: &'static str)
    requires
        d < 10,
    ensures
        text@ == seq![digit(d as int)],
{
    proof {
        reveal_strlit("0");
        reveal_strlit("1");
        reveal_strlit("2");
        reveal_strlit("3");
        reveal_strlit("4");
        reveal_strlit("5");
        reveal_strlit("6");
        reveal_strlit("7");
        reveal_strlit("8");
        reveal_strlit("9");
    }
    let text: &'static str = if d == 0 {
        "0"
    } else if d == 1 {
        "1"
    } else if d == 2 {
        "2"
    } else if d == 3 {
        "3"
    } else if d == 4 {
        "4"
    } else if d == 5 {
        "5"
    } else if d == 6 {
        "6"
    } else if d == 7 {
        "7"
    } else if d == 8 {
        "8"
    } else {
        "9"
    };
    assert(text@ =~= seq![digit(d as int)]);
    text
}

/// `n` written in decimal, without leading zeros.
pub fn decimal(n: u128) -> (text: String)
    ensures
        text@ == decimal_text(n as nat),
    decreases n,
{
    if n < 10 {
        digit_text(n).to_owned()
    } else {
        let mut text: String = decimal(n / 10);
        text.append(digit_text(n % 10));
        assert(text@ =~= decimal_text(n as nat));
        text
    }
}

/// A number's digits are digits, at least one.
pub proof fn lemma_decimal_digits(n: nat)
    ensures
        decimal_text(n).len() > 0,
        all_digits(decimal_text(n)),
    decreases n,
{
    if n >= 10 {
        lemma_decimal_digits(n / 10);
    }
}

/// A number's digits stand for the number.
pub proof fn lemma_decimal_value(n: nat)
    ensures
        digits_value(decimal_text(n)) == n,
    decreases n,
{
    let text = decimal_text(n);
    if n < 10 {
        assert(text.drop_last() =~= Seq::empty());
        assert(digits_value(Seq::<char>::empty()) == 0);
        assert(text.last() as int == '0' as int + n);
    } else {
        lemma_decimal_value(n / 10);
        assert(text.drop_last() =~= decimal_text(n / 10));
        assert(text.last() as int == '0' as int + n % 10);
        assert(n == 10 * (n / 10) + n % 10);
    }
}

/// A longer run of digits never stands for a smaller number.
proof fn lemma_digits_value_grows(text: Seq<char>, n: int)
    requires
        all_digits(text),
        0 <= n <= text.len(),
    ensures
        digits_value(text.take(n)) <= digits_value(text),
    decreases text.len() - n,
{
    if n < text.len() {
        assert(text.take(n + 1).drop_last() =~= text.take(n));
        lemma_digits_value_grows(text, n + 1);
    } else {
        assert(text.take(n) =~= text);
    }
}

/// The unsigned 32-bit number that `text` spells: digits, after an optional `+`.
pub fn parse_u32(text: &str) -> (number: Option<u32>)
    ensures
        number == u32_text(text@),
{
    let chars: Vec<char> = characters(text);
    let start: usize = if chars.len() > 0 && chars[0] == '+' {
        1
    } else {
        0
    };
    let ghost digits = chars@.skip(start as int);
    assert(start == 1 ==> digits =~= text@.drop_first());
    assert(start == 0 ==> digits =~= text@);
    if start == chars.len() {
        return None;
    }
    let mut value: u32 = 0;
    let mut i: usize = start;
    while i < chars.len()
        invariant
            start <= i <= chars@.len(),
            digits == chars@.skip(start as int),
            u32_text(text@) == (if digits.len() > 0 && all_digits(digits) && digits_value(digits)
                <= u32::MAX {
                Some(digits_value(digits) as u32)
            } else {
                None
            }),
            forall|k: int| 0 <= k < i - start ==> '0' <= #[trigger] digits[k] <= '9',
            value == digits_value(digits.take(i - start)),
        decreases chars@.len() - i,
    {
        let c: char = chars[i];
        assert(c == digits[i - start]);
        if c < '0' || '9' < c {
            return None;
        }
        let step: u64 = value as u64 * 10 + (c as u32 - '0' as u32) as u64;
        proof {
            assert(digits.take(i + 1 - start).drop_last() =~= digits.take(i - start));
            assert(step == digits_value(digits.take(i + 1 - start)));
            if all_digits(digits) {
                lemma_digits_value_grows(digits, i + 1 - start);
            }
        }
        if step > 0xffff_ffff {
            return None;
        }
        value = step as u32;
        i += 1;
    }
    assert(digits.take(i - start) =~= digits);
    Some(value)
}

/// `std::str::from_utf8`: bytes are read as text exactly when they are valid UTF-8, and the
/// text then has those bytes.
#[verifier::external_body]
pub(crate) fn utf8_text(bytes: &[u8]) -> (text: Option<&str>)
    ensures
        match text {
            Some(text) => valid_utf8(bytes@) && encode_utf8(text@) == bytes@,
            None => !valid_utf8(bytes@),
        },
{
    std::str::from_utf8(bytes).ok()
}

// ---------------------------------------------------------------------------------------------
// What the primitives mean
// ---------------------------------------------------------------------------------------------

/// Whitespace is the tab, the line feed, the vertical tab, the form feed, the carriage return, the
/// space, and the wider spaces and separators of Unicode; no other character is.
pub proof fn law_whitespace(c: char)
    ensures
        is_white(c) <==> {
            ||| '\u{9}' <= c <= '\u{d}'
            ||| c == ' '
            ||| c == '\u{85}'
            ||| c == '\u{a0}'
            ||| c == '\u{1680}'
            ||| '\u{2000}' <= c <= '\u{200a}'
            ||| c == '\u{2028}'
            ||| c == '\u{2029}'
            ||| c == '\u{202f}'
            ||| c == '\u{205f}'
            ||| c == '\u{3000}'
        },
{
}

/// Trimming takes off the whitespace around a text and nothing of the text itself: whatever
/// whitespace is put before and after a text that neither begins nor ends with any, the text is
/// what trimming leaves.
pub proof fn law_trimming(before: Seq<char>, inner: Seq<char>, after: Seq<char>)
    requires
        forall|i: int| 0 <= i < before.len() ==> is_white(#[trigger] before[i]),
        forall|i: int| 0 <= i < after.len() ==> is_white(#[trigger] after[i]),
        inner.len() > 0 ==> !is_white(inner[0]) && !is_white(inner[inner.len() - 1]),
    ensures
        trimmed(before + inner + after) == inner,
    decreases before.len(), after.len(),
{
    let text = before + inner + after;
    if before.len() > 0 {
        assert(is_white(before[0]));
        assert(text[0] == before[0]);
        let rest = before.drop_first();
        assert(text.drop_first() =~= rest + inner + after);
        assert forall|i: int| 0 <= i < rest.len() implies is_white(#[trigger] rest[i]) by {
            assert(rest[i] == before[i + 1]);
        }
        law_trimming(rest, inner, after);
    } else if inner.len() > 0 {
        assert(text[0] == inner[0]);
        assert(trimmed_front(text) == text);
        assert(text =~= inner + after);
        lemma_trimmed_back(inner, after);
    } else {
        assert(text =~= after);
        lemma_trimmed_white(after);
    }
}

proof fn lemma_trimmed_back(inner: Seq<char>, after: Seq<char>)
    requires
        forall|i: int| 0 <= i < after.len() ==> is_white(#[trigger] after[i]),
        inner.len() > 0,
        !is_white(inner[inner.len() - 1]),
    ensures
        trimmed_back(inner + after) == inner,
    decreases after.len(),
{
    if after.len() > 0 {
        assert(is_white(after[after.len() - 1]));
        assert((inner + after).last() == after.last());
        assert((inner + after).drop_last() =~= inner + after.drop_last());
        lemma_trimmed_back(inner, after.drop_last());
    } else {
        assert(inner + after =~= inner);
    }
}

proof fn lemma_trimmed_white(text: Seq<char>)
    requires
        forall|i: int| 0 <= i < text.len() ==> is_white(#[trigger] text[i]),
    ensures
        trimmed_front(text).len() == 0,
        trimmed(text) == Seq::<char>::empty(),
    decreases text.len(),
{
    if text.len() > 0 {
        assert(is_white(text[0]));
        let rest = text.drop_first();
        assert forall|i: int| 0 <= i < rest.len() implies is_white(#[trigger] rest[i]) by {
            assert(rest[i] == text[i + 1]);
        }
        lemma_trimmed_white(rest);
    }
    assert(trimmed_front(text) =~= Seq::empty());
    assert(trimmed(text) =~= Seq::empty());
}

/// A text is blank exactly where every character of it is whitespace.
pub proof fn law_blank(text: Seq<char>)
    ensures
        is_blank_text(text) <==> forall|i: int|
            0 <= i < text.len() ==> is_white(#[trigger] text[i]),
{
    if forall|i: int| 0 <= i < text.len() ==> is_white(#[trigger] text[i]) {
        lemma_trimmed_white(text);
    } else {
        let i = choose|i: int| 0 <= i < text.len() && !is_white(#[trigger] text[i]);
        lemma_trimmed_front_keeps(text, i);
        let front = trimmed_front(text);
        let k = choose|k: int| 0 <= k < front.len() && !is_white(#[trigger] front[k]);
        lemma_trimmed_back_keeps(front, k);
    }
}

proof fn lemma_trimmed_front_keeps(text: Seq<char>, i: int)
    requires
        0 <= i < text.len(),
        !is_white(text[i]),
    ensures
        exists|k: int|
            0 <= k < trimmed_front(text).len() && !is_white(#[trigger] trimmed_front(text)[k]),
    decreases text.len(),
{
    if is_white(text[0]) {
        assert(text.drop_first()[i - 1] == text[i]);
        lemma_trimmed_front_keeps(text.drop_first(), i - 1);
        assert(trimmed_front(text) == trimmed_front(text.drop_first()));
    } else {
        assert(trimmed_front(text) == text);
        assert(!is_white(trimmed_front(text)[i]));
    }
}

proof fn lemma_trimmed_back_keeps(text: Seq<char>, i: int)
    requires
        0 <= i < text.len(),
        !is_white(text[i]),
    ensures
        trimmed_back(text).len() > 0,
    decreases text.len(),
{
    if is_white(text.last()) {
        assert(text.drop_last()[i] == text[i]);
        lemma_trimmed_back_keeps(text.drop_last(), i);
    }
}

/// Taking off a run at the end takes off that run, however long, and nothing before it.
pub proof fn law_without_trailing(text: Seq<char>, c: char, n: nat)
    requires
        text.len() > 0 ==> text[text.len() - 1] != c,
    ensures
        without_trailing(text + Seq::new(n, |i: int| c), c) == text,
    decreases n,
{
    let whole = text + Seq::new(n, |i: int| c);
    if n > 0 {
        assert(whole.last() == c);
        assert(whole.drop_last() =~= text + Seq::new((n - 1) as nat, |i: int| c));
        law_without_trailing(text, c, (n - 1) as nat);
    } else {
        assert(whole =~= text);
    }
}

/// A text begins with a prefix exactly where it is the prefix and what follows.
pub proof fn law_begins_with(prefix: Seq<char>, rest: Seq<char>, text: Seq<char>)
    ensures
        begins_with(prefix + rest, prefix),
        begins_with(text, prefix) ==> text == prefix + text.skip(prefix.len() as int),
{
    assert((prefix + rest).take(prefix.len() as int) =~= prefix);
    if begins_with(text, prefix) {
        assert(text =~= text.take(prefix.len() as int) + text.skip(prefix.len() as int));
    }
}

/// A text is parted at the first of a character: what stands before it holds none, and a text
/// without any is not parted.
pub proof fn law_parting(head: Seq<char>, c: char, tail: Seq<char>, text: Seq<char>)
    ensures
        !head.contains(c) ==> parted(head + seq![c] + tail, c) == Some((head, tail)),
        parted(text, c) is None <==> !text.contains(c),
{
    if !head.contains(c) {
        lemma_position_after(head, c, tail);
        let whole = head + seq![c] + tail;
        assert(whole.take(head.len() as int) =~= head);
        assert(whole.skip(head.len() as int + 1) =~= tail);
    }
    lemma_position_in(text, c);
}

proof fn lemma_position_after(head: Seq<char>, c: char, tail: Seq<char>)
    requires
        !head.contains(c),
    ensures
        position_of(head + seq![c] + tail, c) == head.len(),
    decreases head.len(),
{
    let whole = head + seq![c] + tail;
    if head.len() > 0 {
        assert(head.contains(head[0]));
        let rest = head.drop_first();
        assert forall|i: int| 0 <= i < rest.len() implies rest[i] != c by {
            assert(head.contains(head[i + 1]));
        }
        lemma_position_after(rest, c, tail);
        assert(whole.drop_first() =~= rest + seq![c] + tail);
    }
}

proof fn lemma_position_in(text: Seq<char>, c: char)
    ensures
        position_of(text, c) <= text.len(),
        position_of(text, c) < text.len() <==> text.contains(c),
    decreases text.len(),
{
    if text.len() > 0 {
        let rest = text.drop_first();
        lemma_position_in(rest, c);
        if text[0] == c {
            assert(text.contains(c));
        } else if rest.contains(c) {
            let i = choose|i: int| 0 <= i < rest.len() && rest[i] == c;
            assert(text[i + 1] == c);
        } else if text.contains(c) {
            let i = choose|i: int| 0 <= i < text.len() && text[i] == c;
            assert(rest[i - 1] == c);
            assert(rest.contains(c));
        }
    }
}

/// A text contains a part exactly where it is the part with something before and after it.
pub proof fn law_containing(before: Seq<char>, part: Seq<char>, after: Seq<char>, text: Seq<char>)
    ensures
        contains_text(before + part + after, part),
        contains_text(text, part) ==> exists|head: Seq<char>, tail: Seq<char>|
            text == #[trigger] (head + part + tail),
{
    let whole = before + part + after;
    let at = before.len() as int;
    assert(whole.subrange(at, at + part.len()) =~= part);
    assert(occurs_at(whole, part, at));
    if contains_text(text, part) {
        let at = choose|at: int| #[trigger] occurs_at(text, part, at);
        let head = text.take(at);
        let tail = text.skip(at + part.len());
        assert(text =~= head + text.subrange(at, at + part.len()) + tail);
        assert(text == head + part + tail);
    }
}

/// Numbers are written in decimal: ten digits, and a further digit for ten times as much.
pub proof fn law_decimal(n: nat, d: nat)
    requires
        d < 10,
    ensures
        decimal_text(d).len() == 1,
        decimal_text(d)[0] as int == '0' as int + d,
        n > 0 ==> decimal_text(10 * n + d) == decimal_text(n) + decimal_text(d),
{
    if n > 0 {
        assert((10 * n + d) / 10 == n);
        assert((10 * n + d) % 10 == d);
        assert(decimal_text(10 * n + d) =~= decimal_text(n) + decimal_text(d));
    }
}

/// A number is read from the text that it is written as, with or without a plus sign and with
/// zeros before it; one that does not fit, and a text with anything but digits, is read as none.
pub proof fn law_numbers_read_back(n: nat, text: Seq<char>, i: int)
    ensures
        n <= u32::MAX ==> u32_text(decimal_text(n)) == Some(n as u32),
        n <= u32::MAX ==> u32_text(seq!['+'] + decimal_text(n)) == Some(n as u32),
        n > u32::MAX ==> u32_text(decimal_text(n)) is None,
        0 < i < text.len() && !('0' <= text[i] <= '9') ==> u32_text(text) is None,
        text.len() > 0 && text[0] != '+' && !('0' <= text[0] <= '9') ==> u32_text(text) is None,
        text.len() == 0 ==> u32_text(text) is None,
        text.len() > 0 && '0' <= text[0] <= '9' ==> u32_text(seq!['0'] + text) == u32_text(text),
{
    let digits = decimal_text(n);
    lemma_decimal_digits(n);
    lemma_decimal_value(n);
    assert('0' <= digits[0] <= '9');
    assert((seq!['+'] + digits).drop_first() =~= digits);
    if 0 < i < text.len() {
        assert(text.drop_first()[i - 1] == text[i]);
    }
    if text.len() > 0 && '0' <= text[0] <= '9' {
        let longer = seq!['0'] + text;
        if all_digits(text) {
            lemma_leading_zero(text);
            assert(all_digits(longer));
        } else {
            let k = choose|k: int| 0 <= k < text.len() && !('0' <= #[trigger] text[k] <= '9');
            assert(longer[k + 1] == text[k]);
            assert(!all_digits(longer));
        }
    }
}

proof fn lemma_leading_zero(text: Seq<char>)
    ensures
        digits_value(seq!['0'] + text) == digits_value(text),
    decreases text.len(),
{
    let longer = seq!['0'] + text;
    if text.len() > 0 {
        assert(longer.drop_last() =~= seq!['0'] + text.drop_last());
        assert(longer.last() == text.last());
        lemma_leading_zero(text.drop_last());
    } else {
        assert(longer =~= seq!['0']);
        assert(longer.drop_last() =~= Seq::empty());
        reveal_with_fuel(digits_value, 2);
    }
}

} // verus!
