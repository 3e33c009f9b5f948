//! Small verified helpers shared across the runtime: string equality and
//! concatenation, and the decimal formatting and parsing used by the query
//! editor's numeric field.

use vstd::prelude::*;
use vstd::string::StrSliceExecFns;
use vstd::string::StringExecFns;

verus! {

broadcast use vstd::string::group_string_axioms;

/// Relies on std's `String::push`: appends the given character to the end
/// of the string.
pub assume_specification[ String::push ](s: &mut String, ch: char)
    ensures
        final(s)@ == old(s)@.push(ch),
;

/// Relies on std's `String::pop`: removes the last character and returns
/// it, or returns nothing if the string is empty.
pub assume_specification[ String::pop ](s: &mut String) -> (r: Option<char>)
    ensures
        old(s)@.len() == 0 ==> final(s)@ == old(s)@ && r is None,
        old(s)@.len() > 0 ==> final(s)@ == old(s)@.drop_last() && r == Some(old(s)@.last()),
;

/// A decimal digit character.
pub open spec fn is_dec_digit(c: char) -> bool {
    '0' <= c && c <= '9'
}

/// The numeric value of a decimal digit character.
pub open spec fn digit_val(c: char) -> nat {
    (c as nat - '0' as nat) as nat
}

/// A non-empty sequence of decimal digit characters.
pub open spec fn is_dec_digits(s: Seq<char>) -> bool {
    s.len() > 0 && forall|i: int| 0 <= i < s.len() ==> is_dec_digit(#[trigger] s[i])
}

/// The numeric value of a digit sequence, most significant digit first.
pub open spec fn dec_val(s: Seq<char>) -> nat
    decreases s.len(),
{
    if s.len() == 0 {
        0
    } else {
        dec_val(s.drop_last()) * 10 + digit_val(s.last())
    }
}

/// The digit character for a value below ten.
pub open spec fn digit_char(d: nat) -> char {
    if d == 0 {
        '0'
    } else if d == 1 {
        '1'
    } else if d == 2 {
        '2'
    } else if d == 3 {
        '3'
    } else if d == 4 {
        '4'
    } else if d == 5 {
        '5'
    } else if d == 6 {
        '6'
    } else if d == 7 {
        '7'
    } else if d == 8 {
        '8'
    } else {
        '9'
    }
}

/// The decimal digit sequence of a number, without leading zeroes
/// (a single `'0'` for zero).
pub open spec fn dec_digits(n: nat) -> Seq<char>
    decreases n,
{
    if n < 10 {
        seq![digit_char(n)]
    } else {
        dec_digits(n / 10).push(digit_char(n % 10))
    }
}

/// What `parse_u32` returns: the value of a digits-only string when it fits
/// in a `u32`, and nothing otherwise.
pub open spec fn spec_parse_u32(s: Seq<char>) -> Option<u32> {
    if is_dec_digits(s) && dec_val(s) <= u32::MAX {
        Some(dec_val(s) as u32)
    } else {
        None
    }
}

proof fn lemma_dec_val_prefix(s: Seq<char>, j: int)
    requires
        0 <= j <= s.len(),
    ensures
        dec_val(s.subrange(0, j)) <= dec_val(s),
    decreases s.len() - j,
{
    if j == s.len() {
        assert(s.subrange(0, j) =~= s);
    } else {
        assert(s.subrange(0, j + 1).drop_last() =~= s.subrange(0, j));
        assert(dec_val(s.subrange(0, j)) <= dec_val(s.subrange(0, j + 1)));
        lemma_dec_val_prefix(s, j + 1);
    }
}

/// Equality of two string slices, decided by contents.
pub fn str_eq(a: &str, b: &str) -> (r: bool)
    ensures
        r == (a@ == b@),
{
    let s1: String = a.to_owned();
    let s2: String = b.to_owned();
    s1 == s2
}

/// The concatenation of two string slices.
pub fn concat_str(a: &str, b: &str) -> (r: String)
    ensures
        r@ == a@ + b@,
{
    let mut s = String::from_str(a);
    s.append(b);
    s
}

fn digit_str(d: u32) -> (s: &'static str)
    requires
        d < 10,
    ensures
        s@ =~= seq![digit_char(d as nat)],
{
    proof {
        reveal_strlit("0");
        reveal_strlit("1");
        reveal_strlit("2");
        reveal_strlit("3");
        reveal_strlit("4");
        reveal_strlit("5");
        reveal_strlit("6");
        reveal_strlit("7");
        reveal_strlit("8");
        reveal_strlit("9");
    }
    match d {
        0 => "0",
        1 => "1",
        2 => "2",
        3 => "3",
        4 => "4",
        5 => "5",
        6 => "6",
        7 => "7",
        8 => "8",
        _ => "9",
    }
}

/// Renders a number as its decimal digits.
pub fn format_u32(n: u32) -> (s: String)
    ensures
        s@ == dec_digits(n as nat),
    decreases n,
{
    if n < 10 {
        let s = digit_str(n).to_owned();
        proof {
            assert(s@ =~= dec_digits(n as nat));
        }
        s
    } else {
        let mut s = format_u32(n / 10);
        s.append(digit_str(n % 10));
        proof {
            assert(s@ =~= dec_digits(n as nat));
        }
        s
    }
}

/// Renders a wider number as its decimal digits.
pub fn format_u64(n: u64) -> (s: String)
    ensures
        s@ == dec_digits(n as nat),
    decreases n,
{
    if n < 10 {
        let s = digit_str(n as u32).to_owned();
        proof {
            assert(s@ =~= dec_digits(n as nat));
        }
        s
    } else {
        let mut s = format_u64(n / 10);
        s.append(digit_str((n % 10) as u32));
        proof {
            assert(s@ =~= dec_digits(n as nat));
        }
        s
    }
}

/// Parses a decimal number: accepts exactly the non-empty all-digit strings
/// whose value fits in a `u32`.
pub fn parse_u32(s: &str) -> (r: Option<u32>)
    ensures
        r == spec_parse_u32(s@),
{
    if !s.is_ascii() {
        proof {
            if is_dec_digits(s@) {
                assert(forall|i: int|
                    0 <= i < s@.len() ==> ('\0' <= #[trigger] s@[i] && s@[i] <= '\u{7f}')) by {
                    assert(forall|i: int| 0 <= i < s@.len() ==> is_dec_digit(#[trigger] s@[i]));
                }
                assert(vstd::utf8::is_ascii_chars(s@));
            }
        }
        return None;
    }
    let n = s.unicode_len();
    if n == 0 {
        return None;
    }
    let mut i: usize = 0;
    let mut val: u32 = 0;
    while i < n
        invariant
            s.is_ascii(),
            n == s@.len(),
            0 <= i <= n,
            forall|j: int| 0 <= j < i ==> is_dec_digit(#[trigger] s@[j]),
            val == dec_val(s@.subrange(0, i as int)),
        decreases n - i,
    {
        let b = s.get_ascii(i);
        proof {
            assert((s@.index(i as int) as nat) < 128);
            assert(b as nat == s@.index(i as int) as nat);
        }
        if b < 48 || 57 < b {
            proof {
                assert(!is_dec_digit(s@[i as int]));
            }
            return None;
        }
        let d: u32 = (b - 48) as u32;
        proof {
            assert(is_dec_digit(s@[i as int]));
            assert(d as nat == digit_val(s@[i as int]));
            assert(s@.subrange(0, i + 1).drop_last() =~= s@.subrange(0, i as int));
        }
        let next: u64 = (val as u64) * 10 + (d as u64);
        if next > u32::MAX as u64 {
            proof {
                assert(dec_val(s@.subrange(0, i + 1)) > u32::MAX);
                lemma_dec_val_prefix(s@, i + 1);
            }
            return None;
        }
        val = next as u32;
        i = i + 1;
    }
    proof {
        assert(s@.subrange(0, n as int) =~= s@);
    }
    Some(val)
}

/// The digits of a number parse back to the number: formatting and parsing
/// are mutually inverse on every `u32`.
pub proof fn lemma_dec_digits_roundtrip(n: nat)
    ensures
        is_dec_digits(dec_digits(n)),
        dec_val(dec_digits(n)) == n,
    decreases n,
{
    if n < 10 {
        let w = dec_digits(n);
        assert(w =~= seq![digit_char(n)]);
        assert(w.len() == 1 && w.last() == digit_char(n));
        assert(w.drop_last() =~= Seq::<char>::empty());
        assert(dec_val(w.drop_last()) == 0);
        assert(dec_val(w) == digit_val(digit_char(n)));
        assert(digit_val(digit_char(n)) == n);
    } else {
        lemma_dec_digits_roundtrip(n / 10);
        vstd::arithmetic::div_mod::lemma_fundamental_div_mod(n as int, 10);
        let w = dec_digits(n);
        assert(w =~= dec_digits(n / 10).push(digit_char(n % 10)));
        assert(w.drop_last() =~= dec_digits(n / 10));
        assert(w.last() == digit_char(n % 10));
        assert(digit_val(digit_char(n % 10)) == n % 10);
    }
}

/// Parsing the rendering of a number yields the number back.
pub proof fn lemma_parse_format_u32(n: u32)
    ensures
        spec_parse_u32(dec_digits(n as nat)) == Some(n),
{
    lemma_dec_digits_roundtrip(n as nat);
}

} // verus!
