//! Base-10 text of unsigned integers, both ways.

use vstd::prelude::*;

verus! {

/// Whether `c` is one of the ASCII digits.
pub open spec fn is_digit(c: char) -> bool {
    '0' <= c && c <= '9'
}

/// The value of an ASCII digit.
pub open spec fn digit_value(c: char) -> nat {
    (c as nat - '0' as nat) as nat
}

/// The ASCII digit for `d < 10`.
pub open spec fn digit_char(d: nat) -> char {
    ((d + '0' as nat) as u32) as char
}

/// The shortest base-10 text of `n`, without sign or leading zeros.
pub open spec fn decimal(n: nat) -> Seq<char>
    decreases n,
{
    if n < 10 {
        seq![digit_char(n)]
    } else {
        decimal(n / 10).push(digit_char(n % 10))
    }
}

/// Why a text is not an unsigned 64-bit integer.
#[derive(Clone, Copy, Debug, PartialEq, Eq, Structural)]
pub enum IntTextError {
    /// The text is empty.
    Empty,
    /// A character is not a digit.
    InvalidDigit,
    /// The value is larger than `u64::MAX`.
    Overflow,
}

/// Reads `d` left to right after the value `acc` read so far, stopping at the
/// first character that is no digit or that takes the value past `u64::MAX`.
#[verifier::opaque]
pub open spec fn scan_digits(d: Seq<char>, acc: nat) -> Result<nat, IntTextError>
    decreases d.len(),
{
    if d.len() == 0 {
        Ok(acc)
    } else if !is_digit(d[0]) {
        Err(IntTextError::InvalidDigit)
    } else if acc * 10 + digit_value(d[0]) > u64::MAX {
        Err(IntTextError::Overflow)
    } else {
        scan_digits(d.drop_first(), acc * 10 + digit_value(d[0]))
    }
}

/// The unsigned 64-bit integer that `s` spells: an optional `+`, then one or
/// more digits.
pub open spec fn parse_u64_spec(s: Seq<char>) -> Result<u64, IntTextError> {
    if s.len() == 0 {
        Err(IntTextError::Empty)
    } else {
        let d = if s[0] == '+' { s.drop_first() } else { s };
        if d.len() == 0 {
            Err(IntTextError::InvalidDigit)
        } else {
            match scan_digits(d, 0) {
                Ok(v) => Ok(v as u64),
                Err(e) => Err(e),
            }
        }
    }
}

impl IntTextError {
    /// The error's description, worded as the standard library words it.
    pub fn message(&self) -> (r: String)
        ensures
            r@ == self.message_spec(),
    {
        match self {
            IntTextError::Empty => String::from_str("cannot parse integer from empty string"),
            IntTextError::InvalidDigit => String::from_str("invalid digit found in string"),
            IntTextError::Overflow => String::from_str("number too large to fit in target type"),
        }
    }

    pub open spec fn message_spec(&self) -> Seq<char> {
        match self {
            IntTextError::Empty => "cannot parse integer from empty string"@,
            IntTextError::InvalidDigit => "invalid digit found in string"@,
            IntTextError::Overflow => "number too large to fit in target type"@,
        }
    }
}

fn digit_str(d: u64) -> (r: &'static str)
    requires
        d < 10,
    ensures
        r@ == seq![digit_char(d as nat)],
{
    let r = match d {
        0 => "0",
        1 => "1",
        2 => "2",
        3 => "3",
        4 => "4",
        5 => "5",
        6 => "6",
        7 => "7",
        8 => "8",
        _ => "9",
    };
    proof {
        reveal_strlit("0");
        reveal_strlit("1");
        reveal_strlit("2");
        reveal_strlit("3");
        reveal_strlit("4");
        reveal_strlit("5");
        reveal_strlit("6");
        reveal_strlit("7");
        reveal_strlit("8");
        reveal_strlit("9");
        assert(r@ =~= seq![digit_char(d as nat)]);
    }
    r
}

/// The base-10 text of `n`.
pub fn format_u64(n: u64) -> (r: String)
    ensures
        r@ == decimal(n as nat),
    decreases n,
{
    if n < 10 {
        String::from_str(digit_str(n))
    } else {
        let mut s = format_u64(n / 10);
        s.append(digit_str(n % 10));
        s
    }
}


/// Reads the unsigned 64-bit integer that `s` spells, as `str::parse::<u64>`
/// does: an optional `+`, then one or more digits.
pub fn parse_u64(s: &str) -> (r: Result<u64, IntTextError>)
    ensures
        r == parse_u64_spec(s@),
{
    let n = s.unicode_len();
    if n == 0 {
        return Err(IntTextError::Empty);
    }
    let start: usize = if s.get_char(0) == '+' { 1 } else { 0 };
    if start == n {
        return Err(IntTextError::InvalidDigit);
    }
    let ghost d = if s@[0] == '+' { s@.drop_first() } else { s@ };
    assert(d =~= s@.subrange(start as int, n as int));
    let mut acc: u64 = 0;
    let mut i: usize = start;
    while i < n
        invariant
            start <= i <= n,
            start < n,
            n == s@.len(),
            d.len() > 0,
            d == (if s@[0] == '+' { s@.drop_first() } else { s@ }),
            d == s@.subrange(start as int, n as int),
            scan_digits(d, 0) == scan_digits(s@.subrange(i as int, n as int), acc as nat),
        decreases n - i,
    {
        let c = s.get_char(i);
        proof {
            lemma_scan_unfold(s@.subrange(i as int, n as int), acc as nat);
            assert(s@.subrange(i as int, n as int)[0] == c);
            assert(s@.subrange(i as int, n as int).drop_first() =~= s@.subrange(
                i + 1,
                n as int,
            ));
        }
        if !('0' <= c && c <= '9') {
            return Err(IntTextError::InvalidDigit);
        }
        let v = (c as u32 - '0' as u32) as u64;
        if acc > 1844674407370955161 || (acc == 1844674407370955161 && v > 5) {
            return Err(IntTextError::Overflow);
        }
        acc = acc * 10 + v;
        i = i + 1;
    }
    proof {
        lemma_scan_unfold(s@.subrange(n as int, n as int), acc as nat);
    }
    Ok(acc)
}

proof fn lemma_scan_unfold(d: Seq<char>, acc: nat)
    ensures
        scan_digits(d, acc) == (if d.len() == 0 {
            Ok(acc)
        } else if !is_digit(d[0]) {
            Err(IntTextError::InvalidDigit)
        } else if acc * 10 + digit_value(d[0]) > u64::MAX {
            Err(IntTextError::Overflow)
        } else {
            scan_digits(d.drop_first(), acc * 10 + digit_value(d[0]))
        }),
{
    reveal(scan_digits);
}

proof fn lemma_digit_char(d: nat)
    requires
        d < 10,
    ensures
        is_digit(digit_char(d)),
        digit_value(digit_char(d)) == d,
{
    assert(((d + '0' as nat) as u32) as char as nat == d + 48);
}

proof fn lemma_scan_push(x: Seq<char>, c: char, acc: nat)
    ensures
        scan_digits(x.push(c), acc) == match scan_digits(x, acc) {
            Ok(v) => if !is_digit(c) {
                Err(IntTextError::InvalidDigit)
            } else if v * 10 + digit_value(c) > u64::MAX {
                Err(IntTextError::Overflow)
            } else {
                Ok(v * 10 + digit_value(c))
            },
            Err(e) => Err(e),
        },
    decreases x.len(),
{
    lemma_scan_unfold(x.push(c), acc);
    lemma_scan_unfold(x, acc);
    if x.len() == 0 {
        assert(x.push(c).drop_first() =~= Seq::<char>::empty());
        assert(x.push(c)[0] == c);
        lemma_scan_unfold(Seq::<char>::empty(), acc * 10 + digit_value(c));
    } else {
        assert(x.push(c).drop_first() =~= x.drop_first().push(c));
        assert(x.push(c)[0] == x[0]);
        if is_digit(x[0]) && acc * 10 + digit_value(x[0]) <= u64::MAX {
            lemma_scan_push(x.drop_first(), c, acc * 10 + digit_value(x[0]));
        }
    }
}

/// The base-10 text of every `u64` reads back as that value.
pub proof fn lemma_decimal_scan(n: u64)
    ensures
        scan_digits(decimal(n as nat), 0) == Ok::<nat, IntTextError>(n as nat),
        decimal(n as nat).len() > 0,
        forall|i: int| 0 <= i < decimal(n as nat).len() ==> is_digit(#[trigger] decimal(n as nat)[i]),
    decreases n,
{
    lemma_digit_char((n % 10) as nat);
    if n < 10 {
        assert(seq![digit_char(n as nat)].drop_first() =~= Seq::<char>::empty());
        lemma_scan_unfold(seq![digit_char(n as nat)], 0);
        lemma_scan_unfold(Seq::<char>::empty(), n as nat);
    } else {
        let q = (n / 10) as u64;
        lemma_decimal_scan(q);
        assert(decimal(n as nat) == decimal(q as nat).push(digit_char((n % 10) as nat)));
        lemma_scan_push(decimal(q as nat), digit_char((n % 10) as nat), 0);
        assert(q * 10 + n % 10 == n);
    }
}

/// Every `u64` written out in base 10 reads back as the same value.
pub proof fn lemma_parse_format_u64(n: u64)
    ensures
        parse_u64_spec(decimal(n as nat)) == Ok::<u64, IntTextError>(n),
{
    lemma_decimal_scan(n);
    assert(is_digit(decimal(n as nat)[0]));
}

} // verus!
