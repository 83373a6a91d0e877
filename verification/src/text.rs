//! Plain-text renderings of numbers, for the human-readable descriptions
//! of errors and field values.
use vstd::prelude::*;
use vstd::string::StringExecFns;

verus! {

/// Lower-case digit character for `d` (`0`-`9`, `a`-`f`).
pub open spec fn digit_char(d: u8) -> char {
    match d {
        0 => '0',
        1 => '1',
        2 => '2',
        3 => '3',
        4 => '4',
        5 => '5',
        6 => '6',
        7 => '7',
        8 => '8',
        9 => '9',
        10 => 'a',
        11 => 'b',
        12 => 'c',
        13 => 'd',
        14 => 'e',
        _ => 'f',
    }
}

/// The digits of `n` in `base` (10 or 16), most significant first, with no
/// leading zeros (zero itself is the single digit `0`).
pub open spec fn digits(n: nat, base: nat) -> Seq<char>
    decreases n,
{
    if base < 2 || n < base {
        seq![digit_char(n as u8)]
    } else {
        proof {
            assert(n / base < n) by (nonlinear_arith)
                requires
                    base >= 2,
                    n >= base,
            ;
        }
        digits(n / base, base).push(digit_char((n % base) as u8))
    }
}

fn digit_str(d: u64) -> (r: &'static str)
    requires
        d < 16,
    ensures
        r@ == seq![digit_char(d as u8)],
{
    match d {
        0 => {
            proof {
                reveal_strlit("0");
                assert("0"@ =~= seq![digit_char(d as u8)]);
            }
            "0"
        },
        1 => {
            proof {
                reveal_strlit("1");
                assert("1"@ =~= seq![digit_char(d as u8)]);
            }
            "1"
        },
        2 => {
            proof {
                reveal_strlit("2");
                assert("2"@ =~= seq![digit_char(d as u8)]);
            }
            "2"
        },
        3 => {
            proof {
                reveal_strlit("3");
                assert("3"@ =~= seq![digit_char(d as u8)]);
            }
            "3"
        },
        4 => {
            proof {
                reveal_strlit("4");
                assert("4"@ =~= seq![digit_char(d as u8)]);
            }
            "4"
        },
        5 => {
            proof {
                reveal_strlit("5");
                assert("5"@ =~= seq![digit_char(d as u8)]);
            }
            "5"
        },
        6 => {
            proof {
                reveal_strlit("6");
                assert("6"@ =~= seq![digit_char(d as u8)]);
            }
            "6"
        },
        7 => {
            proof {
                reveal_strlit("7");
                assert("7"@ =~= seq![digit_char(d as u8)]);
            }
            "7"
        },
        8 => {
            proof {
                reveal_strlit("8");
                assert("8"@ =~= seq![digit_char(d as u8)]);
            }
            "8"
        },
        9 => {
            proof {
                reveal_strlit("9");
                assert("9"@ =~= seq![digit_char(d as u8)]);
            }
            "9"
        },
        10 => {
            proof {
                reveal_strlit("a");
                assert("a"@ =~= seq![digit_char(d as u8)]);
            }
            "a"
        },
        11 => {
            proof {
                reveal_strlit("b");
                assert("b"@ =~= seq![digit_char(d as u8)]);
            }
            "b"
        },
        12 => {
            proof {
                reveal_strlit("c");
                assert("c"@ =~= seq![digit_char(d as u8)]);
            }
            "c"
        },
        13 => {
            proof {
                reveal_strlit("d");
                assert("d"@ =~= seq![digit_char(d as u8)]);
            }
            "d"
        },
        14 => {
            proof {
                reveal_strlit("e");
                assert("e"@ =~= seq![digit_char(d as u8)]);
            }
            "e"
        },
        _ => {
            proof {
                reveal_strlit("f");
                assert("f"@ =~= seq![digit_char(d as u8)]);
            }
            "f"
        },
    }
}

fn push_digits(s: &mut String, n: u64, base: u64)
    requires
        base == 10 || base == 16,
    ensures
        final(s)@ == old(s)@ + digits(n as nat, base as nat),
    decreases n,
{
    if n >= base {
        push_digits(s, n / base, base);
    }
    let d = digit_str(n % base);
    s.append(d);
}


/// `b` in lower-case hexadecimal, padded with a zero to two digits.
pub open spec fn hex2(b: u8) -> Seq<char> {
    if b < 16 {
        seq!['0'] + digits(b as nat, 16)
    } else {
        digits(b as nat, 16)
    }
}

/// Append `b` in lower-case hexadecimal, padded to two digits.
pub fn push_hex2(s: &mut String, b: u8)
    ensures
        final(s)@ == old(s)@ + hex2(b),
{
    let ghost s0 = s@;
    if b < 16 {
        proof {
            reveal_strlit("0");
        }
        s.append("0");
        push_digits(s, b as u64, 16);
        proof {
            assert(s@ == s0 + (seq!['0'] + digits(b as nat, 16)));
        }
    } else {
        push_digits(s, b as u64, 16);
    }
}

/// The bytes of `bs` each in two-digit hexadecimal, separated by `", "`.
pub open spec fn hex_items(bs: Seq<u8>) -> Seq<char>
    decreases bs.len(),
{
    if bs.len() == 0 {
        Seq::empty()
    } else if bs.len() == 1 {
        hex2(bs[0])
    } else {
        hex_items(bs.drop_last()) + seq![',', ' '] + hex2(bs.last())
    }
}

/// The debug rendering of a byte list in two-digit hexadecimal, such as
/// `[49, 56, 52, 53]`.
pub open spec fn hex_list(bs: Seq<u8>) -> Seq<char> {
    seq!['['] + hex_items(bs) + seq![']']
}

/// Append the debug rendering of `bs` in two-digit hexadecimal.
pub fn push_hex_list(s: &mut String, bs: &[u8])
    ensures
        final(s)@ == old(s)@ + hex_list(bs@),
{
    let ghost s0 = s@;
    proof {
        reveal_strlit("[");
        reveal_strlit(", ");
        reveal_strlit("]");
    }
    s.append("[");
    let mut i: usize = 0;
    while i < bs.len()
        invariant
            i <= bs@.len(),
            s@ == s0 + seq!['['] + hex_items(bs@.take(i as int)),
        decreases bs@.len() - i,
    {
        let ghost before = s@;
        if i > 0 {
            s.append(", ");
        }
        push_hex2(s, bs[i]);
        proof {
            let t = bs@.take(i as int + 1);
            assert(t.drop_last() == bs@.take(i as int));
            assert(t.last() == bs@[i as int]);
            reveal_strlit(", ");
            assert(", "@ =~= seq![',', ' ']);
            if i == 0 {
                assert(hex_items(t) == hex2(bs@[0]));
                assert(s@ == s0 + seq!['['] + hex_items(t));
            } else {
                assert(hex_items(t) == hex_items(bs@.take(i as int)) + seq![',', ' '] + hex2(
                    bs@[i as int],
                ));
                assert(s@ == s0 + seq!['['] + hex_items(t));
            }
        }
        i += 1;
    }
    s.append("]");
    proof {
        assert(bs@.take(bs@.len() as int) == bs@);
    }
}

/// Append the decimal digits of `n`.
pub fn push_decimal(s: &mut String, n: u64)
    ensures
        final(s)@ == old(s)@ + digits(n as nat, 10),
{
    push_digits(s, n, 10);
}

/// Append the lower-case hexadecimal digits of `n`.
pub fn push_hex(s: &mut String, n: u64)
    ensures
        final(s)@ == old(s)@ + digits(n as nat, 16),
{
    push_digits(s, n, 16);
}
} // verus!
