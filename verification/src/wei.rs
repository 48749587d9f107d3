//! Parsing of hexadecimal wei amounts.
//!
//! An upstream balance arrives as a hexadecimal string, with or without a
//! leading `0x` prefix, denoting an unsigned 64-bit number of wei.

use vstd::prelude::*;

verus! {

/// Failure of hex-wei parsing: a non-hex character, an empty digit string,
/// or a value over the 64-bit range.
#[derive(Clone, Copy, PartialEq, Eq, Structural, Debug)]
pub struct ParseError;

/// Whether `c` is an ASCII hexadecimal digit.
pub open spec fn is_hex_digit(c: char) -> bool {
    let n = c as u32;
    (0x30 <= n && n <= 0x39) || (0x61 <= n && n <= 0x66) || (0x41 <= n && n <= 0x46)
}

/// The numeric value of a hexadecimal digit character.
pub open spec fn hex_digit_val(c: char) -> nat {
    let n = c as u32;
    if 0x30 <= n && n <= 0x39 {
        (n - 0x30) as nat
    } else if 0x61 <= n && n <= 0x66 {
        (n - 0x61 + 10) as nat
    } else if 0x41 <= n && n <= 0x46 {
        (n - 0x41 + 10) as nat
    } else {
        0
    }
}

/// The value of a most-significant-first sequence of hex digit characters.
pub open spec fn hex_val(s: Seq<char>) -> nat
    decreases s.len(),
{
    if s.len() == 0 {
        0
    } else {
        hex_val(s.drop_last()) * 16 + hex_digit_val(s.last())
    }
}

pub open spec fn all_hex_digits(s: Seq<char>) -> bool {
    forall|i: int| 0 <= i < s.len() ==> is_hex_digit(#[trigger] s[i])
}

/// `s` with a single leading `0x` prefix removed, if one is present.
pub open spec fn strip_hex_prefix(s: Seq<char>) -> Seq<char> {
    if s.len() >= 2 && s[0] == '0' && s[1] == 'x' {
        s.skip(2)
    } else {
        s
    }
}

/// A hex-wei string is accepted iff, after prefix stripping, it is a
/// nonempty run of hex digits whose value fits in 64 bits.
pub open spec fn wei_ok(s: Seq<char>) -> bool {
    let t = strip_hex_prefix(s);
    t.len() > 0 && all_hex_digits(t) && hex_val(t) <= u64::MAX
}

/// The number of wei that a valid hex-wei string denotes.
pub open spec fn wei_value(s: Seq<char>) -> nat {
    hex_val(strip_hex_prefix(s))
}

proof fn lemma_hex_val_step(s: Seq<char>, i: int)
    requires
        0 <= i < s.len(),
    ensures
        hex_val(s.take(i + 1)) == hex_val(s.take(i)) * 16 + hex_digit_val(s[i]),
{
    assert(s.take(i + 1).drop_last() =~= s.take(i));
    assert(s.take(i + 1).last() == s[i]);
}

proof fn lemma_hex_val_take_le(s: Seq<char>, i: int)
    requires
        0 <= i <= s.len(),
    ensures
        hex_val(s.take(i)) <= hex_val(s),
    decreases s.len() - i,
{
    if i == s.len() {
        assert(s.take(i) =~= s);
    } else {
        lemma_hex_val_step(s, i);
        lemma_hex_val_take_le(s, i + 1);
    }
}

/// Any string with a non-hex character after prefix stripping is rejected.
pub proof fn lemma_non_hex_rejected(s: Seq<char>, i: int)
    requires
        0 <= i < strip_hex_prefix(s).len(),
        !is_hex_digit(strip_hex_prefix(s)[i]),
    ensures
        !wei_ok(s),
{
}

/// The value of `c` as a hex digit, or `None` if it is not one.
fn hex_digit_value(c: char) -> (r: Option<u8>)
    ensures
        is_hex_digit(c) ==> r == Some(hex_digit_val(c) as u8),
        !is_hex_digit(c) ==> r is None,
{
    let n = c as u32;
    if 0x30 <= n && n <= 0x39 {
        Some((n - 0x30) as u8)
    } else if 0x61 <= n && n <= 0x66 {
        Some((n - 0x61 + 10) as u8)
    } else if 0x41 <= n && n <= 0x46 {
        Some((n - 0x41 + 10) as u8)
    } else {
        None
    }
}

/// Parses a hexadecimal wei amount, stripping one leading `0x` if present.
pub fn parse_wei(s: &str) -> (r: Result<u64, ParseError>)
    ensures
        wei_ok(s@) ==> r == Ok::<u64, ParseError>(wei_value(s@) as u64),
        !wei_ok(s@) ==> r == Err::<u64, ParseError>(ParseError),
{
    let n = s.unicode_len();
    let start: usize = if n >= 2 && s.get_char(0) == '0' && s.get_char(1) == 'x' {
        2
    } else {
        0
    };
    let ghost t = strip_hex_prefix(s@);
    proof {
        assert(t =~= s@.skip(start as int));
    }
    if start == n {
        return Err(ParseError);
    }
    let mut acc: u64 = 0;
    let mut i: usize = start;
    while i < n
        invariant
            start <= i <= n,
            n == s@.len(),
            t == strip_hex_prefix(s@),
            t == s@.skip(start as int),
            all_hex_digits(t.take(i - start)),
            acc == hex_val(t.take(i - start)),
        decreases n - i,
    {
        let c = s.get_char(i);
        proof {
            assert(t[i - start] == s@[i as int]);
        }
        match hex_digit_value(c) {
            Option::None => {
                proof {
                    lemma_non_hex_rejected(s@, i - start);
                }
                return Err(ParseError);
            },
            Option::Some(d) => {
                if acc >= 0x1000000000000000u64 {
                    proof {
                        lemma_hex_val_step(t, i - start);
                        lemma_hex_val_take_le(t, i - start + 1);
                    }
                    return Err(ParseError);
                }
                proof {
                    lemma_hex_val_step(t, i - start);
                }
                acc = acc * 16 + (d as u64);
            },
        }
        i = i + 1;
    }
    proof {
        assert(t.take(i - start) =~= t);
    }
    Ok(acc)
}

} // verus!
