//! The diagnostic trail: short tagged entries such as `Car:Focus:80004005`,
//! joined by `" | "`, that say why a detection strategy gave up.

use vstd::prelude::*;

verus! {

/// The upper-case hexadecimal digit of `d`, for `d < 16`.
pub open spec fn hex_digit(d: nat) -> char {
    if d == 0 {
        '0'
    } else if d == 1 {
        '1'
    } else if d == 2 {
        '2'
    } else if d == 3 {
        '3'
    } else if d == 4 {
        '4'
    } else if d == 5 {
        '5'
    } else if d == 6 {
        '6'
    } else if d == 7 {
        '7'
    } else if d == 8 {
        '8'
    } else if d == 9 {
        '9'
    } else if d == 10 {
        'A'
    } else if d == 11 {
        'B'
    } else if d == 12 {
        'C'
    } else if d == 13 {
        'D'
    } else if d == 14 {
        'E'
    } else {
        'F'
    }
}

/// The digits of `n` in `base`, most significant first; empty for zero.
pub open spec fn digits(n: nat, base: nat) -> Seq<char>
    recommends
        2 <= base <= 16,
    decreases n,
    via digits_shrink
{
    if n == 0 || base < 2 {
        Seq::empty()
    } else {
        digits(n / base, base).push(hex_digit(n % base))
    }
}

#[via_fn]
proof fn digits_shrink(n: nat, base: nat) {
    if n != 0 && base >= 2 {
        assert(n / base < n) by (nonlinear_arith)
            requires
                n > 0,
                base >= 2,
        ;
    }
}

/// `n` in upper-case hexadecimal, without prefix or leading zeros.
pub open spec fn hex_upper(n: nat) -> Seq<char> {
    if n == 0 {
        seq!['0']
    } else {
        digits(n, 16)
    }
}

/// `n` in decimal, with a leading minus sign when negative.
pub open spec fn decimal(n: int) -> Seq<char> {
    if n == 0 {
        seq!['0']
    } else if n < 0 {
        seq!['-'] + digits((-n) as nat, 10)
    } else {
        digits(n as nat, 10)
    }
}

/// What the trail holds after `entry` was added to `trail`.
pub open spec fn appended(trail: Seq<char>, entry: Seq<char>) -> Seq<char> {
    if trail.len() == 0 {
        entry
    } else {
        trail + seq![' ', '|', ' '] + entry
    }
}

fn digit_str(d: u64) -> (s: &'static str)
    requires
        d < 16,
    ensures
        s@ == seq![hex_digit(d as nat)],
{
    proof {
        reveal_strlit("0");
        reveal_strlit("1");
        reveal_strlit("2");
        reveal_strlit("3");
        reveal_strlit("4");
        reveal_strlit("5");
        reveal_strlit("6");
        reveal_strlit("7");
        reveal_strlit("8");
        reveal_strlit("9");
        reveal_strlit("A");
        reveal_strlit("B");
        reveal_strlit("C");
        reveal_strlit("D");
        reveal_strlit("E");
        reveal_strlit("F");
    }
    let s = if d == 0 {
        "0"
    } else if d == 1 {
        "1"
    } else if d == 2 {
        "2"
    } else if d == 3 {
        "3"
    } else if d == 4 {
        "4"
    } else if d == 5 {
        "5"
    } else if d == 6 {
        "6"
    } else if d == 7 {
        "7"
    } else if d == 8 {
        "8"
    } else if d == 9 {
        "9"
    } else if d == 10 {
        "A"
    } else if d == 11 {
        "B"
    } else if d == 12 {
        "C"
    } else if d == 13 {
        "D"
    } else if d == 14 {
        "E"
    } else {
        "F"
    };
    assert(s@ =~= seq![hex_digit(d as nat)]);
    s
}

/// Writes the digits of a positive number, most significant first.
fn to_digits(n: u64, base: u64) -> (s: String)
    requires
        2 <= base <= 16,
    ensures
        s@ == digits(n as nat, base as nat),
{
    let mut text = String::new();
    let mut rest: u64 = n;
    while rest > 0
        invariant
            2 <= base <= 16,
            digits(n as nat, base as nat) == digits(rest as nat, base as nat) + text@,
        decreases rest,
    {
        let d: u64 = rest % base;
        let head = String::from_str(digit_str(d));
        proof {
            let shorter = digits((rest / base) as nat, base as nat);
            assert(digits(rest as nat, base as nat) == shorter.push(hex_digit(d as nat)));
            assert(shorter.push(hex_digit(d as nat)) + text@ =~= shorter + (head@ + text@));
        }
        text = head.concat(text.as_str());
        rest = rest / base;
    }
    proof {
        assert(digits(0, base as nat) + text@ =~= text@);
    }
    text
}

/// Formats an error code as upper-case hexadecimal.
pub fn to_hex_upper(code: u32) -> (s: String)
    ensures
        s@ == hex_upper(code as nat),
{
    if code == 0 {
        proof {
            reveal_strlit("0");
            assert("0"@ =~= seq!['0']);
        }
        String::from_str("0")
    } else {
        to_digits(code as u64, 16)
    }
}

/// Formats a count in decimal.
pub fn to_decimal(n: i64) -> (s: String)
    ensures
        s@ == decimal(n as int),
{
    if n == 0 {
        proof {
            reveal_strlit("0");
            assert("0"@ =~= seq!['0']);
        }
        String::from_str("0")
    } else if n < 0 {
        let magnitude: u64 = if n == i64::MIN {
            0x8000_0000_0000_0000u64
        } else {
            (-n) as u64
        };
        proof {
            reveal_strlit("-");
            assert("-"@ =~= seq!['-']);
        }
        let body = to_digits(magnitude, 10);
        String::from_str("-").concat(body.as_str())
    } else {
        to_digits(n as u64, 10)
    }
}

/// Adds one entry to the trail, after `" | "` unless the trail is empty.
pub fn append_error(trail: &mut String, entry: &str)
    ensures
        final(trail)@ == appended(old(trail)@, entry@),
{
    if !trail.as_str().is_empty() {
        proof {
            reveal_strlit(" | ");
            assert(" | "@ =~= seq![' ', '|', ' ']);
        }
        trail.append(" | ");
    }
    trail.append(entry);
}

} // verus!
