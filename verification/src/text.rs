//! Text helpers: numbers written in decimal, and texts searched, split,
//! trimmed and read as counts.
//!
//! Texts are handled as sequences of characters, not of bytes. Two answers
//! are taken from the standard library and not worked out here: which
//! characters are white space, and what the lowercase form of a text is.

use vstd::prelude::*;
use vstd::string::*;

verus! {

/// What came back from the outside, an answer or the cause of a failure,
/// with texts in place of strings.
pub open spec fn reply_model(reply: Result<String, String>) -> Result<Seq<char>, Seq<char>> {
    match reply {
        Ok(answer) => Ok(answer@),
        Err(cause) => Err(cause@),
    }
}

/// How something that was done outside went: well, or badly for a cause,
/// with a text in place of the string.
pub open spec fn done_model(done: Result<(), String>) -> Result<(), Seq<char>> {
    match done {
        Ok(_) => Ok(()),
        Err(cause) => Err(cause@),
    }
}

/// The character of a decimal digit.
pub open spec fn digit_char(d: int) -> char {
    if d == 0 {
        '0'
    } else if d == 1 {
        '1'
    } else if d == 2 {
        '2'
    } else if d == 3 {
        '3'
    } else if d == 4 {
        '4'
    } else if d == 5 {
        '5'
    } else if d == 6 {
        '6'
    } else if d == 7 {
        '7'
    } else if d == 8 {
        '8'
    } else {
        '9'
    }
}

/// The decimal digits of a natural number, most significant first, without
/// leading zeros.
pub open spec fn decimal_digits(n: nat) -> Seq<char>
    decreases n,
{
    if n < 10 {
        seq![digit_char(n as int)]
    } else {
        decimal_digits(n / 10).push(digit_char((n % 10) as int))
    }
}

/// The decimal form of an integer: a minus sign for a negative number, then
/// the digits of its magnitude.
pub open spec fn decimal_text(n: int) -> Seq<char> {
    if n < 0 {
        seq!['-'] + decimal_digits((-n) as nat)
    } else {
        decimal_digits(n as nat)
    }
}

fn digit_str(d: u64) -> (s: &'static str)
    requires
        d < 10,
    ensures
        s@ == seq![digit_char(d as int)],
{
    proof {
        reveal_strlit("0");
        reveal_strlit("1");
        reveal_strlit("2");
        reveal_strlit("3");
        reveal_strlit("4");
        reveal_strlit("5");
        reveal_strlit("6");
        reveal_strlit("7");
        reveal_strlit("8");
        reveal_strlit("9");
    }
    let s: &'static str = if d == 0 {
        "0"
    } else if d == 1 {
        "1"
    } else if d == 2 {
        "2"
    } else if d == 3 {
        "3"
    } else if d == 4 {
        "4"
    } else if d == 5 {
        "5"
    } else if d == 6 {
        "6"
    } else if d == 7 {
        "7"
    } else if d == 8 {
        "8"
    } else {
        "9"
    };
    s
}

/// Appends the decimal digits of `n` to `out`.
pub fn push_unsigned(out: &mut String, n: u64)
    ensures
        final(out)@ == old(out)@ + decimal_digits(n as nat),
    decreases n,
{
    if n >= 10 {
        push_unsigned(out, n / 10);
    }
    out.append(digit_str(n % 10));
}

/// Appends the decimal form of `n` to `out`.
pub fn push_signed(out: &mut String, n: i64)
    ensures
        final(out)@ == old(out)@ + decimal_text(n as int),
{
    if n < 0 {
        proof {
            reveal_strlit("-");
        }
        out.append("-");
        let magnitude: u64 = if n == i64::MIN {
            9223372036854775808u64
        } else {
            (-n) as u64
        };
        push_unsigned(out, magnitude);
    } else {
        push_unsigned(out, n as u64);
    }
}

/// Collects the characters of `text`.
pub fn chars_of(text: &str) -> (chars: Vec<char>)
    ensures
        chars@ == text@,
{
    let mut chars: Vec<char> = Vec::new();
    for c in it: text.chars()
        invariant
            chars@ == it.seq().take(it.index()),
            it.seq() == text@,
    {
        chars.push(c);
    }
    chars
}

/// Tells whether two texts are the same, character by character.
pub fn same_text(left: &str, right: &str) -> (same: bool)
    ensures
        same == (left@ == right@),
{
    let left_chars: Vec<char> = chars_of(left);
    let right_chars: Vec<char> = chars_of(right);
    if left_chars.len() != right_chars.len() {
        return false;
    }
    let mut at: usize = 0;
    while at < left_chars.len()
        invariant
            at <= left_chars@.len(),
            left_chars@.len() == right_chars@.len(),
            left_chars@ == left@,
            right_chars@ == right@,
            forall|j: int| 0 <= j < at ==> left_chars@[j] == right_chars@[j],
        decreases left_chars@.len() - at,
    {
        if left_chars[at] != right_chars[at] {
            return false;
        }
        at = at + 1;
    }
    assert(left_chars@ =~= right_chars@);
    true
}

/// A name for the text that `str::to_lowercase` gives for `text`.
pub uninterp spec fn lowercase_of(text: Seq<char>) -> Seq<char>;

/// A name for the answer of `char::is_whitespace`: whether `c` has the
/// Unicode property White_Space.
pub uninterp spec fn white_space(c: char) -> bool;

/// The lowercase form of `text`, computed by `str::to_lowercase`. Trusted:
/// the result is a function of the text alone.
#[verifier::external_body]
pub(crate) fn lowercase(text: &str) -> (lower: String)
    ensures
        lower@ == lowercase_of(text@),
{
    text.to_lowercase()
}

/// Whether `c` is white space, as `char::is_whitespace` answers. Trusted:
/// the answer is a function of the character alone.
#[verifier::external_body]
fn is_space(c: char) -> (b: bool)
    ensures
        b == white_space(c),
{
    c.is_whitespace()
}

/// The string that holds exactly the characters of `chars`, built by the
/// standard `FromIterator<&char>` of `String`. Trusted: the characters come
/// out as they went in, in the same order.
#[verifier::external_body]
pub(crate) fn string_of(chars: &Vec<char>) -> (text: String)
    ensures
        text@ == chars@,
{
    chars.iter().collect()
}

/// Whether `needle` stands in `hay` at position `at`.
pub open spec fn occurs_at(hay: Seq<char>, needle: Seq<char>, at: int) -> bool {
    &&& 0 <= at
    &&& at + needle.len() <= hay.len()
    &&& hay.subrange(at, at + needle.len()) == needle
}

/// Whether `needle` stands somewhere in `hay`.
pub open spec fn occurs_in(hay: Seq<char>, needle: Seq<char>) -> bool {
    exists|at: int| occurs_at(hay, needle, at)
}

fn matches_at(hay: &Vec<char>, needle: &Vec<char>, at: usize) -> (found: bool)
    requires
        at + needle@.len() <= hay@.len(),
    ensures
        found == occurs_at(hay@, needle@, at as int),
{
    let hay_len: usize = hay.len();
    let mut k: usize = 0;
    while k < needle.len()
        invariant
            k <= needle@.len(),
            hay_len == hay@.len(),
            at + needle@.len() <= hay@.len(),
            forall|j: int| 0 <= j < k ==> hay@[at + j] == needle@[j],
        decreases needle@.len() - k,
    {
        if hay[at + k] != needle[k] {
            return false;
        }
        k = k + 1;
    }
    assert(hay@.subrange(at as int, at + needle@.len()) =~= needle@);
    true
}

/// Searches `hay` for `needle`.
pub fn contains_chars(hay: &Vec<char>, needle: &Vec<char>) -> (found: bool)
    ensures
        found == occurs_in(hay@, needle@),
{
    if needle.len() == 0 {
        assert(hay@.subrange(0, 0) =~= needle@);
        assert(occurs_at(hay@, needle@, 0));
        return true;
    }
    if needle.len() > hay.len() {
        return false;
    }
    let last: usize = hay.len() - needle.len();
    let mut at: usize = 0;
    while at <= last
        invariant
            needle@.len() >= 1,
            last == hay@.len() - needle@.len(),
            last < usize::MAX,
            at <= last + 1,
            forall|j: int| 0 <= j < at ==> !occurs_at(hay@, needle@, j),
        decreases last + 1 - at,
    {
        if matches_at(hay, needle, at) {
            return true;
        }
        at = at + 1;
    }
    false
}

/// The position of the first `sep` in `text`, or the length of `text` where
/// there is none.
pub open spec fn index_of(text: Seq<char>, sep: char) -> int
    decreases text.len(),
{
    if text.len() == 0 || text[0] == sep {
        0
    } else {
        1 + index_of(text.drop_first(), sep)
    }
}

/// The pieces of `text` between the occurrences of `sep`, in order. A text
/// without `sep` is one piece; a text with `n` of them has `n + 1` pieces.
pub open spec fn split_on(text: Seq<char>, sep: char) -> Seq<Seq<char>>
    decreases text.len(),
{
    let cut = index_of(text, sep);
    if 0 <= cut < text.len() {
        seq![text.take(cut)] + split_on(text.skip(cut + 1), sep)
    } else {
        seq![text]
    }
}

/// `index_of` is the one position before which no `sep` stands and at which
/// the text ends or `sep` stands.
pub proof fn lemma_index_of(text: Seq<char>, sep: char, cut: int)
    requires
        0 <= cut <= text.len(),
        forall|j: int| 0 <= j < cut ==> text[j] != sep,
        cut < text.len() ==> text[cut] == sep,
    ensures
        index_of(text, sep) == cut,
    decreases text.len(),
{
    if text.len() > 0 && text[0] != sep {
        let rest = text.drop_first();
        lemma_index_of(rest, sep, cut - 1);
    }
}

/// The texts that a vector of character vectors holds.
pub open spec fn texts_of(parts: Seq<Vec<char>>) -> Seq<Seq<char>> {
    parts.map_values(|part: Vec<char>| part@)
}

/// Splits `text` at every `sep`.
pub fn split_chars(text: &Vec<char>, sep: char) -> (parts: Vec<Vec<char>>)
    ensures
        texts_of(parts@) == split_on(text@, sep),
{
    let mut parts: Vec<Vec<char>> = Vec::new();
    let mut start: usize = 0;
    let mut finished: bool = false;
    assert(text@.skip(0) =~= text@);
    while !finished
        invariant
            start <= text@.len(),
            !finished ==> split_on(text@, sep) == texts_of(parts@) + split_on(text@.skip(start as int), sep),
            finished ==> split_on(text@, sep) == texts_of(parts@),
        decreases text@.len() - start + if finished { 0int } else { 1int },
    {
        let ghost rest = text@.skip(start as int);
        let ghost before = texts_of(parts@);
        let mut piece: Vec<char> = Vec::new();
        let mut at: usize = start;
        while at < text.len() && text[at] != sep
            invariant
                start <= at <= text@.len(),
                piece@ == text@.subrange(start as int, at as int),
                forall|j: int| start <= j < at ==> text@[j] != sep,
            decreases text@.len() - at,
        {
            piece.push(text[at]);
            at = at + 1;
        }
        proof {
            lemma_index_of(rest, sep, at - start);
            assert(piece@ =~= rest.take(at - start));
        }
        parts.push(piece);
        if at < text.len() {
            proof {
                assert(rest.skip(at - start + 1) =~= text@.skip(at + 1));
                assert(before + (seq![piece@] + split_on(text@.skip(at + 1), sep)) =~= before.push(piece@)
                    + split_on(text@.skip(at + 1), sep));
            }
            start = at + 1;
        } else {
            finished = true;
        }
    }
    parts
}

/// `text` without the white space at its start.
pub open spec fn trim_start(text: Seq<char>) -> Seq<char>
    decreases text.len(),
{
    if text.len() > 0 && white_space(text[0]) {
        trim_start(text.drop_first())
    } else {
        text
    }
}

/// `text` without the white space at its end.
pub open spec fn trim_end(text: Seq<char>) -> Seq<char>
    decreases text.len(),
{
    if text.len() > 0 && white_space(text.last()) {
        trim_end(text.drop_last())
    } else {
        text
    }
}

/// `text` without the white space at either end.
pub open spec fn trimmed(text: Seq<char>) -> Seq<char> {
    trim_end(trim_start(text))
}

/// Dropping `k` leading white-space characters up to the first other
/// character is what `trim_start` does.
pub proof fn lemma_trim_start(text: Seq<char>, k: int)
    requires
        0 <= k <= text.len(),
        forall|j: int| 0 <= j < k ==> white_space(text[j]),
        k < text.len() ==> !white_space(text[k]),
    ensures
        trim_start(text) == text.skip(k),
    decreases k,
{
    if k > 0 {
        let rest = text.drop_first();
        lemma_trim_start(rest, k - 1);
    }
}

/// Keeping the first `k` characters, where only white space follows them
/// and the last one kept is none, is what `trim_end` does.
pub proof fn lemma_trim_end(text: Seq<char>, k: int)
    requires
        0 <= k <= text.len(),
        forall|j: int| k <= j < text.len() ==> white_space(text[j]),
        k > 0 ==> !white_space(text[k - 1]),
    ensures
        trim_end(text) == text.take(k),
    decreases text.len() - k,
{
    if k < text.len() {
        let rest = text.drop_last();
        lemma_trim_end(rest, k);
    }
}

/// Removes the white space at both ends of `text`.
pub fn trim_chars(text: &Vec<char>) -> (kept: Vec<char>)
    ensures
        kept@ == trimmed(text@),
{
    let len: usize = text.len();
    let mut from: usize = 0;
    while from < len && is_space(text[from])
        invariant
            from <= len,
            len == text@.len(),
            forall|j: int| 0 <= j < from ==> white_space(text@[j]),
        decreases len - from,
    {
        from = from + 1;
    }
    let mut to: usize = len;
    while to > from && is_space(text[to - 1])
        invariant
            from <= to <= len,
            len == text@.len(),
            forall|j: int| to <= j < len ==> white_space(text@[j]),
        decreases to,
    {
        to = to - 1;
    }
    let mut kept: Vec<char> = Vec::new();
    let mut at: usize = from;
    while at < to
        invariant
            from <= at <= to <= len,
            len == text@.len(),
            kept@ == text@.subrange(from as int, at as int),
        decreases to - at,
    {
        kept.push(text[at]);
        at = at + 1;
    }
    proof {
        let front = text@.skip(from as int);
        lemma_trim_start(text@, from as int);
        lemma_trim_end(front, to - from);
    }
    kept
}

/// The value of a decimal digit, or `None` for another character.
pub open spec fn digit_value(c: char) -> Option<int> {
    if c == '0' {
        Some(0)
    } else if c == '1' {
        Some(1)
    } else if c == '2' {
        Some(2)
    } else if c == '3' {
        Some(3)
    } else if c == '4' {
        Some(4)
    } else if c == '5' {
        Some(5)
    } else if c == '6' {
        Some(6)
    } else if c == '7' {
        Some(7)
    } else if c == '8' {
        Some(8)
    } else if c == '9' {
        Some(9)
    } else {
        None
    }
}

/// Whether `text` is made of decimal digits only.
pub open spec fn all_digits(text: Seq<char>) -> bool {
    forall|i: int| 0 <= i < text.len() ==> (#[trigger] digit_value(text[i])) is Some
}

/// The number that a run of decimal digits writes.
pub open spec fn digits_value(text: Seq<char>) -> int
    decreases text.len(),
{
    if text.len() == 0 {
        0
    } else {
        match digit_value(text.last()) {
            Some(d) => digits_value(text.drop_last()) * 10 + d,
            None => 0,
        }
    }
}

/// The count that `text` writes: an optional plus sign and then at least one
/// decimal digit, with a value that fits into 32 bits. Any other text writes
/// no count.
pub open spec fn count_of(text: Seq<char>) -> Option<u32> {
    let digits = if text.len() > 0 && text[0] == '+' {
        text.drop_first()
    } else {
        text
    };
    if digits.len() > 0 && all_digits(digits) && digits_value(digits) <= u32::MAX {
        Some(digits_value(digits) as u32)
    } else {
        None
    }
}

/// A run of digits writes no negative number.
pub proof fn lemma_digits_value_nonnegative(text: Seq<char>)
    requires
        all_digits(text),
    ensures
        0 <= digits_value(text),
    decreases text.len(),
{
    if text.len() > 0 {
        let shorter = text.drop_last();
        lemma_digits_value_nonnegative(shorter);
    }
}

/// A run of digits is worth at least as much as each of its prefixes.
pub proof fn lemma_digits_value_grows(text: Seq<char>, k: int)
    requires
        0 <= k <= text.len(),
        all_digits(text),
    ensures
        digits_value(text.take(k)) <= digits_value(text),
    decreases text.len() - k,
{
    if k == text.len() {
        assert(text.take(k) =~= text);
    } else {
        let shorter = text.drop_last();
        lemma_digits_value_grows(shorter, k);
        lemma_digits_value_nonnegative(shorter);
        assert(shorter.take(k) =~= text.take(k));
    }
}

fn digit_of(c: char) -> (d: Option<u64>)
    ensures
        match d {
            Some(v) => digit_value(c) == Some(v as int),
            None => digit_value(c) is None,
        },
{
    if c == '0' {
        Some(0)
    } else if c == '1' {
        Some(1)
    } else if c == '2' {
        Some(2)
    } else if c == '3' {
        Some(3)
    } else if c == '4' {
        Some(4)
    } else if c == '5' {
        Some(5)
    } else if c == '6' {
        Some(6)
    } else if c == '7' {
        Some(7)
    } else if c == '8' {
        Some(8)
    } else if c == '9' {
        Some(9)
    } else {
        None
    }
}

/// Reads a count from `text`.
pub fn parse_count(text: &str) -> (count: Option<u32>)
    ensures
        count == count_of(text@),
{
    let chars: Vec<char> = chars_of(text);
    let len: usize = chars.len();
    let first: usize = if len > 0 && chars[0] == '+' {
        1
    } else {
        0
    };
    let ghost digits = chars@.skip(first as int);
    if first == len {
        return None;
    }
    let mut value: u64 = 0;
    let mut at: usize = first;
    while at < len
        invariant
            first <= at <= len,
            len == chars@.len(),
            chars@ == text@,
            digits == chars@.skip(first as int),
            digits.len() > 0,
            digits == if text@.len() > 0 && text@[0] == '+' {
                text@.drop_first()
            } else {
                text@
            },
            all_digits(digits.take(at - first)),
            value == digits_value(digits.take(at - first)),
            value <= u32::MAX,
        decreases len - at,
    {
        let ghost seen = digits.take(at - first);
        let ghost next = digits.take(at - first + 1);
        proof {
            assert(next.drop_last() =~= seen);
        }
        match digit_of(chars[at]) {
            None => {
                proof {
                    assert(digit_value(digits[at - first]) is None);
                }
                return None;
            },
            Some(d) => {
                value = value * 10 + d;
                if value > 0xffff_ffff {
                    proof {
                        if all_digits(digits) {
                            lemma_digits_value_grows(digits, at - first + 1);
                        }
                    }
                    return None;
                }
            },
        }
        at = at + 1;
    }
    proof {
        assert(digits.take(len - first) =~= digits);
    }
    Some(value as u32)
}

} // verus!
