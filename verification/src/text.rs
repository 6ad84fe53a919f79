//! Text as sequences of characters: decimal numbers, white space, lines.

use vstd::prelude::*;
use vstd::utf8::{decode_utf8, valid_utf8};

verus! {

/// How `text` is printed for debugging: between double quotes, with the
/// characters that cannot stand for themselves escaped.
pub uninterp spec fn debug_quoted(text: Seq<char>) -> Seq<char>;

/// `format!("{:?}", ..)` on a string slice, which is `<str as Debug>::fmt`: the
/// text as it is printed for debugging.
#[verifier::external_body]
pub(crate) fn quoted(text: &str) -> (quoted: String)
    ensures
        quoted@ == debug_quoted(text@),
{
    format!("{:?}", text)
}

/// `String::from_utf8`: the text that the bytes encode, where they are valid
/// UTF-8, and nothing where they are not.
#[verifier::external_body]
pub(crate) fn text_of_utf8(bytes: Vec<u8>) -> (text: Option<String>)
    ensures
        match text {
            Some(text) => valid_utf8(bytes@) && text@ == decode_utf8(bytes@),
            None => !valid_utf8(bytes@),
        },
{
    String::from_utf8(bytes).ok()
}

/// `Vec::into_boxed_slice`: the same bytes, as a boxed slice.
#[verifier::external_body]
pub(crate) fn boxed(bytes: Vec<u8>) -> (slice: Box<[u8]>)
    ensures
        slice@ == bytes@,
{
    bytes.into_boxed_slice()
}

/// `String::from_iter` over the characters of `chars`: the string that holds
/// exactly these characters, in this order.
#[verifier::external_body]
pub(crate) fn string_of(chars: &Vec<char>) -> (text: String)
    ensures
        text@ == chars@,
{
    chars.iter().collect()
}

/// The characters of `text`.
pub fn chars_of(text: &str) -> (chars: Vec<char>)
    ensures
        chars@ == text@,
{
    let mut chars: Vec<char> = Vec::new();
    for c in it: text.chars()
        invariant
            chars@ == it.seq().take(it.index() as int),
            it.seq() == text@,
    {
        chars.push(c);
    }
    chars
}

/// The decimal digit for `d`.
pub open spec fn digit(d: int) -> char
    recommends
        0 <= d < 10,
{
    ('0' as int + d) as char
}

/// `n` in decimal, without leading zeros.
pub open spec fn decimal(n: nat) -> Seq<char>
    decreases n,
{
    if n < 10 {
        seq![digit(n as int)]
    } else {
        decimal(n / 10).push(digit((n % 10) as int))
    }
}

fn digit_char(d: u64) -> (c: char)
    requires
        d < 10,
    ensures
        c == digit(d as int),
{
    (48u8 + d as u8) as char
}

/// The digits of `n`, last digit first.
spec fn digits_reversed(n: nat) -> Seq<char>
    decreases n,
{
    if n < 10 {
        seq![digit(n as int)]
    } else {
        seq![digit((n % 10) as int)] + digits_reversed(n / 10)
    }
}

proof fn lemma_digits_reversed(n: nat)
    ensures
        digits_reversed(n) == decimal(n).reverse(),
    decreases n,
{
    if n < 10 {
        assert(digits_reversed(n) =~= decimal(n).reverse());
    } else {
        lemma_digits_reversed(n / 10);
        assert(digits_reversed(n) =~= decimal(n).reverse());
    }
}

/// `n` in decimal.
pub fn decimal_string(n: u64) -> (text: String)
    ensures
        text@ == decimal(n as nat),
{
    let mut reversed: Vec<char> = Vec::new();
    let mut rest: u64 = n;
    while rest >= 10
        invariant
            digits_reversed(n as nat) == reversed@ + digits_reversed(rest as nat),
        decreases rest,
    {
        reversed.push(digit_char(rest % 10));
        assert(reversed@ + digits_reversed((rest / 10) as nat) =~= reversed@.drop_last()
            + digits_reversed(rest as nat));
        rest = rest / 10;
    }
    reversed.push(digit_char(rest));
    proof {
        assert(reversed@ =~= digits_reversed(n as nat));
        lemma_digits_reversed(n as nat);
        assert(reversed@.reverse() =~= decimal(n as nat));
    }
    let mut digits: Vec<char> = Vec::new();
    let mut i: usize = reversed.len();
    while i > 0
        invariant
            i <= reversed@.len(),
            digits@.len() == reversed@.len() - i,
            forall|k: int|
                0 <= k < digits@.len() ==> digits@[k] == reversed@[reversed@.len() - 1 - k],
        decreases i,
    {
        i = i - 1;
        digits.push(reversed[i]);
    }
    assert(digits@ =~= reversed@.reverse());
    string_of(&digits)
}

/// Whether `c` is white space: a character with the Unicode property
/// `White_Space`.
pub open spec fn is_white_space(c: char) -> bool {
    let u = c as u32;
    ||| 0x09 <= u <= 0x0d
    ||| u == 0x20
    ||| u == 0x85
    ||| u == 0xa0
    ||| u == 0x1680
    ||| 0x2000 <= u <= 0x200a
    ||| u == 0x2028
    ||| u == 0x2029
    ||| u == 0x202f
    ||| u == 0x205f
    ||| u == 0x3000
}

/// Whether `c` is white space.
pub fn is_whitespace(c: char) -> (white: bool)
    ensures
        white == is_white_space(c),
{
    let u: u32 = c as u32;
    (0x09 <= u && u <= 0x0d) || u == 0x20 || u == 0x85 || u == 0xa0 || u == 0x1680 || (0x2000
        <= u && u <= 0x200a) || u == 0x2028 || u == 0x2029 || u == 0x202f || u == 0x205f || u
        == 0x3000
}

/// `s` without the white space at its end.
pub open spec fn trimmed_end(s: Seq<char>) -> Seq<char>
    decreases s.len(),
{
    if s.len() > 0 && is_white_space(s.last()) {
        trimmed_end(s.drop_last())
    } else {
        s
    }
}

/// `s` without the white space at its start.
pub open spec fn trimmed_start(s: Seq<char>) -> Seq<char>
    decreases s.len(),
{
    if s.len() > 0 && is_white_space(s.first()) {
        trimmed_start(s.drop_first())
    } else {
        s
    }
}

/// `s` without the white space at its start and at its end.
pub open spec fn trimmed(s: Seq<char>) -> Seq<char> {
    trimmed_start(trimmed_end(s))
}

/// The lines of `s`: the pieces between its newlines, so one more than it has
/// newlines.
pub open spec fn lines(s: Seq<char>) -> Seq<Seq<char>>
    decreases s.len(),
{
    if s.len() == 0 {
        seq![Seq::<char>::empty()]
    } else if s.last() == '\n' {
        lines(s.drop_last()).push(Seq::<char>::empty())
    } else {
        let before = lines(s.drop_last());
        before.drop_last().push(before.last().push(s.last()))
    }
}

/// The pieces put together, with a newline between each two.
pub open spec fn joined(pieces: Seq<Seq<char>>) -> Seq<char>
    decreases pieces.len(),
{
    if pieces.len() == 0 {
        Seq::<char>::empty()
    } else if pieces.len() == 1 {
        pieces[0]
    } else {
        joined(pieces.drop_last()).push('\n') + pieces.last()
    }
}

/// `s` without the white space at its end.
pub fn trim_end(s: &Vec<char>) -> (t: Vec<char>)
    ensures
        t@ == trimmed_end(s@),
{
    let mut end: usize = s.len();
    assert(s@.take(s@.len() as int) =~= s@);
    while end > 0 && is_whitespace(s[end - 1])
        invariant
            end <= s@.len(),
            trimmed_end(s@) == trimmed_end(s@.take(end as int)),
        decreases end,
    {
        assert(s@.take(end as int).drop_last() =~= s@.take(end as int - 1));
        end = end - 1;
    }
    let mut t: Vec<char> = Vec::new();
    let mut i: usize = 0;
    while i < end
        invariant
            i <= end <= s@.len(),
            t@ == s@.take(i as int),
        decreases end - i,
    {
        t.push(s[i]);
        assert(s@.take(i as int).push(s@[i as int]) =~= s@.take(i as int + 1));
        i = i + 1;
    }
    t
}

/// `s` without the white space at its start.
pub fn trim_start(s: &Vec<char>) -> (t: Vec<char>)
    ensures
        t@ == trimmed_start(s@),
{
    let mut start: usize = 0;
    assert(s@.skip(0) =~= s@);
    while start < s.len() && is_whitespace(s[start])
        invariant
            start <= s@.len(),
            trimmed_start(s@) == trimmed_start(s@.skip(start as int)),
        decreases s@.len() - start,
    {
        assert(s@.skip(start as int).drop_first() =~= s@.skip(start as int + 1));
        start = start + 1;
    }
    let mut t: Vec<char> = Vec::new();
    let mut i: usize = start;
    while i < s.len()
        invariant
            start <= i <= s@.len(),
            t@ == s@.subrange(start as int, i as int),
        decreases s@.len() - i,
    {
        t.push(s[i]);
        assert(s@.subrange(start as int, i as int).push(s@[i as int]) =~= s@.subrange(
            start as int,
            i as int + 1,
        ));
        i = i + 1;
    }
    assert(s@.subrange(start as int, s@.len() as int) =~= s@.skip(start as int));
    t
}

/// `s` without the white space at its start and at its end.
pub fn trim(s: &Vec<char>) -> (t: Vec<char>)
    ensures
        t@ == trimmed(s@),
{
    let end = trim_end(s);
    trim_start(&end)
}

/// The pieces as sequences of characters.
pub open spec fn pieces_of(pieces: Seq<Vec<char>>) -> Seq<Seq<char>> {
    pieces.map_values(|piece: Vec<char>| piece@)
}

/// The lines of `s`.
pub fn split_lines(s: &Vec<char>) -> (pieces: Vec<Vec<char>>)
    ensures
        pieces_of(pieces@) == lines(s@),
{
    let mut pieces: Vec<Vec<char>> = Vec::new();
    let mut current: Vec<char> = Vec::new();
    let mut i: usize = 0;
    while i < s.len()
        invariant
            i <= s@.len(),
            lines(s@.take(i as int)) == pieces_of(pieces@).push(current@),
        decreases s@.len() - i,
    {
        let c = s[i];
        proof {
            let next = s@.take(i as int + 1);
            assert(next.drop_last() =~= s@.take(i as int));
            assert(next.last() == c);
        }
        if c == '\n' {
            let ghost before = pieces_of(pieces@);
            pieces.push(current);
            current = Vec::new();
            assert(pieces_of(pieces@) =~= before.push(pieces@.last()@));
        } else {
            current.push(c);
            assert(pieces_of(pieces@).push(current@.drop_last()).drop_last() =~= pieces_of(
                pieces@,
            ));
        }
        i = i + 1;
    }
    assert(s@.take(s@.len() as int) =~= s@);
    let ghost before = pieces_of(pieces@);
    pieces.push(current);
    assert(pieces_of(pieces@) =~= before.push(pieces@.last()@));
    pieces
}

/// The pieces put together, with a newline between each two.
pub fn join_lines(pieces: &Vec<Vec<char>>) -> (text: Vec<char>)
    ensures
        text@ == joined(pieces_of(pieces@)),
{
    let mut text: Vec<char> = Vec::new();
    let mut i: usize = 0;
    while i < pieces.len()
        invariant
            i <= pieces@.len(),
            text@ == joined(pieces_of(pieces@).take(i as int)),
        decreases pieces@.len() - i,
    {
        let ghost done = pieces_of(pieces@).take(i as int);
        let ghost next = pieces_of(pieces@).take(i as int + 1);
        proof {
            assert(next.drop_last() =~= done);
            assert(next.last() == pieces@[i as int]@);
        }
        if i > 0 {
            text.push('\n');
        }
        let ghost start = text@;
        let piece = &pieces[i];
        let mut k: usize = 0;
        while k < piece.len()
            invariant
                k <= piece@.len(),
                text@ == start + piece@.take(k as int),
            decreases piece@.len() - k,
        {
            text.push(piece[k]);
            assert(piece@.take(k as int).push(piece@[k as int]) =~= piece@.take(k as int + 1));
            assert(text@ =~= start + piece@.take(k as int + 1));
            k = k + 1;
        }
        proof {
            assert(piece@.take(piece@.len() as int) =~= piece@);
            if i == 0 {
                assert(start =~= Seq::<char>::empty());
                assert(text@ =~= piece@);
            }
        }
        i = i + 1;
    }
    assert(pieces_of(pieces@).take(pieces@.len() as int) =~= pieces_of(pieces@));
    text
}


/// The number that the decimal digits `digits` stand for.
pub open spec fn digits_value(digits: Seq<char>) -> nat
    decreases digits.len(),
{
    if digits.len() == 0 {
        0
    } else {
        digits_value(digits.drop_last()) * 10 + (digits.last() as int - '0' as int) as nat
    }
}

/// Whether `c` is one of the digits `0` to `9`.
pub open spec fn is_digit(c: char) -> bool {
    '0' <= c <= '9'
}

/// Whether every character of `digits` is a digit.
pub open spec fn all_digits(digits: Seq<char>) -> bool {
    forall|i: int| 0 <= i < digits.len() ==> is_digit(#[trigger] digits[i])
}

/// The number that `digits` stands for, where it is at least one digit, nothing
/// but digits, and a number of at most `max`.
pub open spec fn parsed_digits(digits: Seq<char>, max: nat) -> Option<nat> {
    if digits.len() > 0 && all_digits(digits) && digits_value(digits) <= max {
        Some(digits_value(digits))
    } else {
        None
    }
}

/// The number that `text` stands for, where it is an unsigned decimal number of
/// at most `max`: digits only, after at most one `+` sign, and at least one
/// digit.
pub open spec fn parsed(text: Seq<char>, max: nat) -> Option<nat> {
    if text.len() > 0 && text[0] == '+' {
        parsed_digits(text.drop_first(), max)
    } else {
        parsed_digits(text, max)
    }
}

proof fn lemma_digits_value_grows(digits: Seq<char>, n: int)
    requires
        0 <= n <= digits.len(),
        all_digits(digits),
    ensures
        digits_value(digits.take(n)) <= digits_value(digits),
    decreases digits.len() - n,
{
    if n == digits.len() {
        assert(digits.take(n) =~= digits);
    } else {
        let next = digits.take(n + 1);
        assert(next.drop_last() =~= digits.take(n));
        assert(is_digit(digits[n]));
        assert(next.last() == digits[n]);
        assert(digits_value(next) >= digits_value(digits.take(n))) by (nonlinear_arith)
            requires
                digits_value(next) == digits_value(digits.take(n)) * 10 + (digits[n] as int
                    - '0' as int) as nat,
        ;
        lemma_digits_value_grows(digits, n + 1);
    }
}

/// A number written in decimal is read back as itself.
pub proof fn lemma_decimal_is_read_back(n: nat, max: nat)
    requires
        n <= max,
    ensures
        parsed(decimal(n), max) == Some(n),
{
    lemma_decimal_digits(n);
    assert(is_digit(decimal(n)[0]));
}

proof fn lemma_decimal_digits(n: nat)
    ensures
        decimal(n).len() > 0,
        all_digits(decimal(n)),
        digits_value(decimal(n)) == n,
    decreases n,
{
    if n < 10 {
        assert(decimal(n).drop_last() =~= Seq::<char>::empty());
        assert(digits_value(decimal(n).drop_last()) == 0);
    } else {
        lemma_decimal_digits(n / 10);
        let shorter = decimal(n / 10);
        assert(decimal(n).drop_last() =~= shorter);
        assert forall|i: int| 0 <= i < decimal(n).len() implies is_digit(
            #[trigger] decimal(n)[i],
        ) by {
            if i < shorter.len() {
                assert(is_digit(shorter[i]));
            }
        }
    }
}

/// Reads `text` as an unsigned decimal number of at most `max`.
pub fn parse_decimal(text: &str, max: u64) -> (number: Option<u64>)
    ensures
        match number {
            Some(n) => parsed(text@, max as nat) == Some(n as nat),
            None => parsed(text@, max as nat) is None,
        },
{
    let chars = chars_of(text);
    let start: usize = if chars.len() > 0 && chars[0] == '+' {
        1
    } else {
        0
    };
    let ghost digits = if start == 1 {
        chars@.drop_first()
    } else {
        chars@
    };
    assert(digits =~= chars@.skip(start as int));
    if chars.len() == start {
        return None;
    }
    let mut value: u64 = 0;
    let mut i: usize = start;
    while i < chars.len()
        invariant
            start <= i <= chars@.len(),
            digits == chars@.skip(start as int),
            parsed(text@, max as nat) == parsed_digits(digits, max as nat),
            forall|k: int| 0 <= k < i - start ==> is_digit(#[trigger] digits[k]),
            value == digits_value(digits.take(i - start)),
            value <= max,
        decreases chars@.len() - i,
    {
        let c = chars[i];
        assert(c == digits[i - start]);
        if !('0' <= c && c <= '9') {
            assert(!is_digit(digits[i - start]));
            return None;
        }
        let d: u64 = (c as u32 - '0' as u32) as u64;
        let ghost next = digits.take(i - start + 1);
        proof {
            assert(next.drop_last() =~= digits.take(i - start));
            assert(next.last() == c);
            assert(digits_value(next) == value * 10 + d);
        }
        if value > max / 10 || (value == max / 10 && d > max % 10) {
            proof {
                assert(value * 10 + d > max);
                if all_digits(digits) {
                    lemma_digits_value_grows(digits, i - start + 1);
                }
            }
            return None;
        }
        value = value * 10 + d;
        i = i + 1;
    }
    assert(digits.take(digits.len() as int) =~= digits);
    Some(value)
}

/// `text` without any occurrence of `pattern`, read from left to right.
pub open spec fn without(text: Seq<char>, pattern: Seq<char>) -> Seq<char>
    decreases text.len(),
{
    if pattern.len() == 0 || text.len() < pattern.len() {
        text
    } else if text.take(pattern.len() as int) == pattern {
        without(text.skip(pattern.len() as int), pattern)
    } else {
        seq![text[0]] + without(text.drop_first(), pattern)
    }
}

/// Whether `pattern` stands in `text` at position `at`.
fn occurs_at(text: &Vec<char>, pattern: &Vec<char>, at: usize) -> (occurs: bool)
    requires
        at + pattern@.len() <= text@.len(),
    ensures
        occurs == (text@.subrange(at as int, at + pattern@.len()) == pattern@),
{
    let len = text.len();
    let mut k: usize = 0;
    while k < pattern.len()
        invariant
            k <= pattern@.len(),
            at + pattern@.len() <= text@.len() <= usize::MAX,
            forall|j: int| 0 <= j < k ==> text@[at + j] == pattern@[j],
        decreases pattern@.len() - k,
    {
        if text[at + k] != pattern[k] {
            assert(text@.subrange(at as int, at + pattern@.len())[k as int] != pattern@[k as int]);
            return false;
        }
        k = k + 1;
    }
    assert(text@.subrange(at as int, at + pattern@.len()) =~= pattern@);
    true
}

/// `text` without any occurrence of `pattern`.
pub fn remove_all(text: &str, pattern: &str) -> (rest: String)
    requires
        pattern@.len() > 0,
    ensures
        rest@ == without(text@, pattern@),
{
    let chars = chars_of(text);
    let pat = chars_of(pattern);
    let mut rest: Vec<char> = Vec::new();
    let mut i: usize = 0;
    assert(chars@.skip(0) =~= chars@);
    while i < chars.len() && chars.len() - i >= pat.len()
        invariant
            i <= chars@.len(),
            pat@.len() > 0,
            without(chars@, pat@) == rest@ + without(chars@.skip(i as int), pat@),
        decreases chars@.len() - i,
    {
        let ghost tail = chars@.skip(i as int);
        assert(tail.take(pat@.len() as int) =~= chars@.subrange(i as int, i + pat@.len()));
        if occurs_at(&chars, &pat, i) {
            assert(tail.skip(pat@.len() as int) =~= chars@.skip(i + pat@.len()));
            i = i + pat.len();
        } else {
            rest.push(chars[i]);
            assert(tail.drop_first() =~= chars@.skip(i as int + 1));
            assert(rest@ + without(chars@.skip(i as int + 1), pat@) =~= rest@.drop_last() + (
            seq![tail[0]] + without(tail.drop_first(), pat@)));
            i = i + 1;
        }
    }
    while i < chars.len()
        invariant
            i <= chars@.len(),
            chars@.len() - i < pat@.len(),
            without(chars@, pat@) == rest@ + chars@.skip(i as int),
        decreases chars@.len() - i,
    {
        rest.push(chars[i]);
        assert(rest@ + chars@.skip(i as int + 1) =~= rest@.drop_last() + chars@.skip(i as int));
        i = i + 1;
    }
    assert(rest@ + chars@.skip(chars@.len() as int) =~= rest@);
    string_of(&rest)
}

/// The characters of `s` up to its first white space.
pub open spec fn leading_word(s: Seq<char>) -> Seq<char>
    decreases s.len(),
{
    if s.len() == 0 || is_white_space(s.first()) {
        Seq::<char>::empty()
    } else {
        seq![s.first()] + leading_word(s.drop_first())
    }
}

/// The first word of `s`: what stands between the white space at its start and
/// the next white space. It is empty only where `s` is nothing but white space.
pub open spec fn first_word(s: Seq<char>) -> Seq<char> {
    leading_word(trimmed_start(s))
}

/// The first word of `text`.
pub fn first_word_of(text: &str) -> (word: String)
    ensures
        word@ == first_word(text@),
{
    let chars = chars_of(text);
    let rest = trim_start(&chars);
    let mut word: Vec<char> = Vec::new();
    let mut i: usize = 0;
    assert(rest@.skip(0) =~= rest@);
    while i < rest.len() && !is_whitespace(rest[i])
        invariant
            i <= rest@.len(),
            leading_word(rest@) == word@ + leading_word(rest@.skip(i as int)),
        decreases rest@.len() - i,
    {
        word.push(rest[i]);
        let ghost tail = rest@.skip(i as int);
        assert(tail.drop_first() =~= rest@.skip(i as int + 1));
        assert(word@ + leading_word(rest@.skip(i as int + 1)) =~= word@.drop_last() + (seq![
            tail.first(),
        ] + leading_word(tail.drop_first())));
        i = i + 1;
    }
    assert(word@ + Seq::<char>::empty() =~= word@);
    string_of(&word)
}

} // verus!
