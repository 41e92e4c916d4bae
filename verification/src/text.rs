//! Text as a sequence of characters: trimming, splitting and numbers, as the
//! settings file needs them.

use vstd::prelude::*;

verus! {

/// White space, as Unicode defines it.
pub open spec fn is_whitespace(c: char) -> bool {
    let v = c as u32;
    ||| 0x09 <= v <= 0x0D
    ||| v == 0x20
    ||| v == 0x85
    ||| v == 0xA0
    ||| v == 0x1680
    ||| 0x2000 <= v <= 0x200A
    ||| v == 0x2028
    ||| v == 0x2029
    ||| v == 0x202F
    ||| v == 0x205F
    ||| v == 0x3000
}

/// What is taken off the ends of a text.
#[derive(Debug, Clone, Copy, PartialEq, Eq, Structural)]
pub enum Strip {
    /// White space.
    Whitespace,
    /// One given character.
    Char(char),
    /// Square brackets, opening and closing alike.
    Brackets,
}

impl Strip {
    /// Whether `c` is taken off.
    pub open spec fn strips(self, c: char) -> bool {
        match self {
            Strip::Whitespace => is_whitespace(c),
            Strip::Char(given) => c == given,
            Strip::Brackets => c == '[' || c == ']',
        }
    }

    /// Tests whether `c` is taken off.
    pub fn takes(&self, c: char) -> (b: bool)
        ensures
            b == self.strips(c),
    {
        match self {
            Strip::Whitespace => {
                let v = c as u32;
                (0x09 <= v && v <= 0x0D) || v == 0x20 || v == 0x85 || v == 0xA0 || v == 0x1680 || (
                0x2000 <= v && v <= 0x200A) || v == 0x2028 || v == 0x2029 || v == 0x202F || v
                    == 0x205F || v == 0x3000
            },
            Strip::Char(given) => c == *given,
            Strip::Brackets => c == '[' || c == ']',
        }
    }
}

/// `s` without the characters at its start that `strip` takes off.
pub open spec fn skip_start(s: Seq<char>, strip: Strip) -> Seq<char>
    decreases s.len(),
{
    if s.len() > 0 && strip.strips(s[0]) {
        skip_start(s.drop_first(), strip)
    } else {
        s
    }
}

/// `s` without the characters at its end that `strip` takes off.
pub open spec fn skip_end(s: Seq<char>, strip: Strip) -> Seq<char>
    decreases s.len(),
{
    if s.len() > 0 && strip.strips(s.last()) {
        skip_end(s.drop_last(), strip)
    } else {
        s
    }
}

/// `s` without the characters at either end that `strip` takes off.
pub open spec fn skip_both(s: Seq<char>, strip: Strip) -> Seq<char> {
    skip_end(skip_start(s, strip), strip)
}

/// `s` without white space at either end.
pub open spec fn trimmed(s: Seq<char>) -> Seq<char> {
    skip_both(s, Strip::Whitespace)
}

/// The characters of a text.
pub fn to_chars(s: &str) -> (chars: Vec<char>)
    ensures
        chars@ == s@,
{
    let n = s.unicode_len();
    let mut chars: Vec<char> = Vec::new();
    let mut i: usize = 0;
    while i < n
        invariant
            n == s@.len(),
            i <= n,
            chars@ == s@.subrange(0, i as int),
        decreases n - i,
    {
        chars.push(s.get_char(i));
        i = i + 1;
        assert(chars@ =~= s@.subrange(0, i as int));
    }
    assert(s@.subrange(0, n as int) =~= s@);
    chars
}

/// Moves the start of the range `from..to` past what `strip` takes off.
pub fn trim_start(chars: &Vec<char>, from: usize, to: usize, strip: Strip) -> (start: usize)
    requires
        from <= to <= chars@.len(),
    ensures
        from <= start <= to,
        chars@.subrange(start as int, to as int) == skip_start(
            chars@.subrange(from as int, to as int),
            strip,
        ),
{
    let mut start = from;
    while start < to && strip.takes(chars[start])
        invariant
            from <= start <= to <= chars@.len(),
            skip_start(chars@.subrange(start as int, to as int), strip) == skip_start(
                chars@.subrange(from as int, to as int),
                strip,
            ),
        decreases to - start,
    {
        assert(chars@.subrange(start as int, to as int).drop_first() =~= chars@.subrange(
            start + 1,
            to as int,
        ));
        start = start + 1;
    }
    start
}

/// Moves the end of the range `from..to` before what `strip` takes off.
pub fn trim_end(chars: &Vec<char>, from: usize, to: usize, strip: Strip) -> (end: usize)
    requires
        from <= to <= chars@.len(),
    ensures
        from <= end <= to,
        chars@.subrange(from as int, end as int) == skip_end(
            chars@.subrange(from as int, to as int),
            strip,
        ),
{
    let mut end = to;
    while from < end && strip.takes(chars[end - 1])
        invariant
            from <= end <= to <= chars@.len(),
            skip_end(chars@.subrange(from as int, end as int), strip) == skip_end(
                chars@.subrange(from as int, to as int),
                strip,
            ),
        decreases end - from,
    {
        assert(chars@.subrange(from as int, end as int).drop_last() =~= chars@.subrange(
            from as int,
            end - 1,
        ));
        end = end - 1;
    }
    end
}

/// Narrows the range `from..to` by what `strip` takes off at either end.
pub fn trim_both(chars: &Vec<char>, from: usize, to: usize, strip: Strip) -> (range: (
    usize,
    usize,
))
    requires
        from <= to <= chars@.len(),
    ensures
        from <= range.0 <= range.1 <= to,
        chars@.subrange(range.0 as int, range.1 as int) == skip_both(
            chars@.subrange(from as int, to as int),
            strip,
        ),
{
    let start = trim_start(chars, from, to, strip);
    let end = trim_end(chars, start, to, strip);
    (start, end)
}

/// The place of the first `c` in `s` at or after `from`; the length of `s`
/// if there is none.
pub open spec fn find_char(s: Seq<char>, c: char, from: int) -> int
    decreases s.len() - from,
{
    if from >= s.len() {
        s.len() as int
    } else if s[from] == c {
        from
    } else {
        find_char(s, c, from + 1)
    }
}

/// Finds the first `c` in the range `from..to`; `to` if there is none.
pub fn find(chars: &Vec<char>, from: usize, to: usize, c: char) -> (at: usize)
    requires
        from <= to <= chars@.len(),
    ensures
        from <= at <= to,
        at - from == find_char(chars@.subrange(from as int, to as int), c, 0),
{
    let ghost s = chars@.subrange(from as int, to as int);
    let mut at = from;
    while at < to && chars[at] != c
        invariant
            from <= at <= to <= chars@.len(),
            s == chars@.subrange(from as int, to as int),
            find_char(s, c, at - from) == find_char(s, c, 0),
        decreases to - at,
    {
        at = at + 1;
    }
    at
}

/// The place at or after `from` where a space is followed by a number
/// sign; the length of `s` if there is none.
pub open spec fn comment_start(s: Seq<char>, from: int) -> int
    decreases s.len() - from,
{
    if from + 1 >= s.len() {
        s.len() as int
    } else if s[from] == ' ' && s[from + 1] == '#' {
        from
    } else {
        comment_start(s, from + 1)
    }
}

/// Finds in the range `from..to` the first space that a number sign
/// follows; `to` if there is none.
pub fn find_comment(chars: &Vec<char>, from: usize, to: usize) -> (at: usize)
    requires
        from <= to <= chars@.len(),
    ensures
        from <= at <= to,
        at - from == comment_start(chars@.subrange(from as int, to as int), 0),
{
    let ghost s = chars@.subrange(from as int, to as int);
    let mut at = from;
    while to - at > 1
        invariant
            from <= at <= to <= chars@.len(),
            s == chars@.subrange(from as int, to as int),
            comment_start(s, at - from) == comment_start(s, 0),
        decreases to - at,
    {
        if chars[at] == ' ' && chars[at + 1] == '#' {
            return at;
        }
        at = at + 1;
    }
    to
}

/// The value of a decimal digit.
pub open spec fn digit_value(c: char) -> Option<nat> {
    if 0x30 <= c as u32 <= 0x39 {
        Some((c as u32 - 0x30) as nat)
    } else {
        None
    }
}

/// The number that a text of decimal digits spells; a text with anything
/// else in it, or with nothing, spells none.
pub open spec fn number_value(s: Seq<char>) -> Option<nat>
    decreases s.len(),
{
    if s.len() == 0 {
        None
    } else {
        match digit_value(s.last()) {
            None => None,
            Some(d) => if s.len() == 1 {
                Some(d)
            } else {
                match number_value(s.drop_last()) {
                    Some(v) => Some(v * 10 + d),
                    None => None,
                }
            },
        }
    }
}

/// The number up to `max` that a text spells in decimal, with or without a
/// plus sign before it.
pub open spec fn parsed_unsigned(s: Seq<char>, max: nat) -> Option<nat> {
    let body = if s.len() > 0 && s[0] == '+' {
        s.drop_first()
    } else {
        s
    };
    match number_value(body) {
        Some(v) => if v <= max {
            Some(v)
        } else {
            None
        },
        None => None,
    }
}

/// The number from `min` to `max` that a text spells in decimal, with or
/// without a sign before it.
pub open spec fn parsed_signed(s: Seq<char>, min: int, max: nat) -> Option<int> {
    if s.len() > 0 && s[0] == '-' {
        match number_value(s.drop_first()) {
            Some(v) => if -v >= min {
                Some(-(v as int))
            } else {
                None
            },
            None => None,
        }
    } else {
        match parsed_unsigned(s, max) {
            Some(v) => Some(v as int),
            None => None,
        }
    }
}

/// A text spells no number if a part of it from its start does not, and no
/// smaller number than such a part.
proof fn lemma_number_grows(s: Seq<char>, n: int)
    requires
        0 < n <= s.len(),
    ensures
        match number_value(s) {
            Some(v) => match number_value(s.subrange(0, n)) {
                Some(part) => part <= v,
                None => false,
            },
            None => true,
        },
    decreases s.len(),
{
    if n < s.len() {
        assert(s.drop_last().subrange(0, n) =~= s.subrange(0, n));
        lemma_number_grows(s.drop_last(), n);
    } else {
        assert(s.subrange(0, n) =~= s);
    }
}

/// Reads the digits in the range `from..to` as a number up to `max`.
fn parse_digits(chars: &Vec<char>, from: usize, to: usize, max: u64) -> (value: Option<u64>)
    requires
        from <= to <= chars@.len(),
    ensures
        match number_value(chars@.subrange(from as int, to as int)) {
            Some(v) => if v <= max {
                value == Some(v as u64)
            } else {
                value is None
            },
            None => value is None,
        },
{
    if from == to {
        return None;
    }
    let ghost s = chars@.subrange(from as int, to as int);
    let mut acc: u64 = 0;
    let mut i = from;
    while i < to
        invariant
            from <= i <= to <= chars@.len(),
            s == chars@.subrange(from as int, to as int),
            acc <= max,
            i > from ==> number_value(s.subrange(0, i - from)) == Some(acc as nat),
            i == from ==> acc == 0,
        decreases to - i,
    {
        let v = chars[i] as u32;
        let ghost part = s.subrange(0, i + 1 - from);
        proof {
            assert(part.last() == chars@[i as int]);
            assert(part.drop_last() =~= s.subrange(0, i - from));
            lemma_number_grows(s, i + 1 - from);
        }
        if v < 0x30 || v > 0x39 {
            return None;
        }
        let d = (v - 0x30) as u64;
        let wide: u128 = acc as u128 * 10 + d as u128;
        if wide > max as u128 {
            return None;
        }
        acc = wide as u64;
        i = i + 1;
    }
    proof {
        assert(s.subrange(0, to - from) =~= s);
    }
    Some(acc)
}

/// Reads the range `from..to` as a number up to `max`.
pub fn parse_unsigned(chars: &Vec<char>, from: usize, to: usize, max: u64) -> (value: Option<u64>)
    requires
        from <= to <= chars@.len(),
    ensures
        match parsed_unsigned(chars@.subrange(from as int, to as int), max as nat) {
            Some(v) => value == Some(v as u64),
            None => value is None,
        },
{
    let ghost s = chars@.subrange(from as int, to as int);
    if from < to && chars[from] == '+' {
        assert(s.drop_first() =~= chars@.subrange(from + 1, to as int));
        parse_digits(chars, from + 1, to, max)
    } else {
        parse_digits(chars, from, to, max)
    }
}

/// Reads the range `from..to` as a number of 32 bits with a sign.
pub fn parse_i32(chars: &Vec<char>, from: usize, to: usize) -> (value: Option<i32>)
    requires
        from <= to <= chars@.len(),
    ensures
        match parsed_signed(
            chars@.subrange(from as int, to as int),
            i32::MIN as int,
            i32::MAX as nat,
        ) {
            Some(v) => value == Some(v as i32),
            None => value is None,
        },
{
    let ghost s = chars@.subrange(from as int, to as int);
    if from < to && chars[from] == '-' {
        assert(s.drop_first() =~= chars@.subrange(from + 1, to as int));
        match parse_digits(chars, from + 1, to, 0x8000_0000) {
            Some(v) => Some((-(v as i64)) as i32),
            None => None,
        }
    } else {
        match parse_unsigned(chars, from, to, 0x7fff_ffff) {
            Some(v) => Some(v as i32),
            None => None,
        }
    }
}

} // verus!
