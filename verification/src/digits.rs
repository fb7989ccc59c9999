//! Decimal digit strings, in both directions: printing an unsigned integer
//! (used for the bind-path filename) and parsing an optionally signed
//! integer (used for the `hostapd` MIB records).
//!
//! The common model is [`digits_val`], the value of a sequence of decimal
//! digit characters.  Printing is specified by [`spec_u64_dec`] and proved
//! to be a right inverse of [`digits_val`]; parsing is specified by
//! [`spec_parse_int`].

use vstd::prelude::*;
use vstd::string::*;

verus! {

/// `c` is one of the characters `'0'` to `'9'`.
pub open spec fn spec_is_digit(c: char) -> bool {
    48 <= c as u32 <= 57
}

/// The numeric value of a digit character.
pub open spec fn spec_digit_val(c: char) -> int {
    c as u32 - 48
}

/// Every character of `s` is a decimal digit.
pub open spec fn all_digits(s: Seq<char>) -> bool {
    forall|i: int| 0 <= i < s.len() ==> spec_is_digit(s[i])
}

/// The value of a sequence of decimal digit characters, most significant
/// first; the empty sequence has value 0.
pub open spec fn digits_val(s: Seq<char>) -> int
    decreases s.len(),
{
    if s.len() == 0 {
        0
    } else {
        digits_val(s.drop_last()) * 10 + spec_digit_val(s.last())
    }
}

/// Ten to the `n`.
pub open spec fn pow10(n: nat) -> int
    decreases n,
{
    if n == 0 {
        1
    } else {
        10 * pow10((n - 1) as nat)
    }
}

pub proof fn lemma_pow10_monotonic(m: nat, n: nat)
    requires
        m <= n,
    ensures
        1 <= pow10(m) <= pow10(n),
    decreases n,
{
    if n > 0 {
        if m == n {
            lemma_pow10_monotonic(0, (n - 1) as nat);
        } else {
            lemma_pow10_monotonic(m, (n - 1) as nat);
        }
    }
}

/// The two powers of ten that bound the digit strings this crate accepts.
pub proof fn lemma_pow10_vals()
    ensures
        pow10(18) == 1000000000000000000,
        pow10(19) == 10000000000000000000,
{
    assert(pow10(0) == 1);
    assert(pow10(1) == 10);
    assert(pow10(2) == 100);
    assert(pow10(3) == 1000);
    assert(pow10(4) == 10000);
    assert(pow10(5) == 100000);
    assert(pow10(6) == 1000000);
    assert(pow10(7) == 10000000);
    assert(pow10(8) == 100000000);
    assert(pow10(9) == 1000000000);
    assert(pow10(10) == 10000000000);
    assert(pow10(11) == 100000000000);
    assert(pow10(12) == 1000000000000);
    assert(pow10(13) == 10000000000000);
    assert(pow10(14) == 100000000000000);
    assert(pow10(15) == 1000000000000000);
    assert(pow10(16) == 10000000000000000);
    assert(pow10(17) == 100000000000000000);
    assert(pow10(18) == 1000000000000000000);
    assert(pow10(19) == 10000000000000000000);
}

/// A digit string that does not start with `'0'` has a value of at least
/// ten to one less than its length.
pub proof fn lemma_digits_val_lower(s: Seq<char>)
    requires
        all_digits(s),
        s.len() > 0,
        s[0] != '0',
    ensures
        digits_val(s) >= pow10((s.len() - 1) as nat),
    decreases s.len(),
{
    if s.len() == 1 {
        assert(spec_is_digit(s[0]));
        assert(s.last() == s[0]);
        vstd::utf8::char_u32_cast(s[0], s[0] as u32);
        vstd::utf8::char_u32_cast('0', '0' as u32);
        assert(spec_digit_val(s[0]) >= 1);
        assert(s.drop_last() =~= Seq::<char>::empty());
        assert(digits_val(Seq::<char>::empty()) == 0);
        assert(pow10(0) == 1);
    } else {
        assert(s.drop_last()[0] == s[0]);
        assert(all_digits(s.drop_last()));
        lemma_digits_val_lower(s.drop_last());
        assert(spec_is_digit(s.last()));
    }
}

/// Leading zeroes do not change a digit string's value.
pub proof fn lemma_digits_val_leading_zeros(s: Seq<char>, k: int)
    requires
        0 <= k <= s.len(),
        forall|j: int| 0 <= j < k ==> s[j] == '0',
    ensures
        digits_val(s) == digits_val(s.skip(k)),
    decreases s.len(),
{
    if k == s.len() {
        assert(s.skip(k) =~= Seq::<char>::empty());
        lemma_digits_val_all_zeros(s);
    } else if s.len() > 0 {
        assert(forall|j: int| 0 <= j < k ==> s.drop_last()[j] == s[j]);
        lemma_digits_val_leading_zeros(s.drop_last(), k);
        assert(s.skip(k).drop_last() =~= s.drop_last().skip(k));
        assert(s.skip(k).last() == s.last());
    }
}

/// A string of zeroes has value 0.
pub proof fn lemma_digits_val_all_zeros(s: Seq<char>)
    requires
        forall|j: int| 0 <= j < s.len() ==> s[j] == '0',
    ensures
        digits_val(s) == 0,
    decreases s.len(),
{
    if s.len() > 0 {
        assert(forall|j: int| 0 <= j < s.drop_last().len() ==> s.drop_last()[j] == '0');
        lemma_digits_val_all_zeros(s.drop_last());
        assert(s.last() == '0');
    }
}

/// The digit character for a value below ten.
pub open spec fn spec_digit_char(d: int) -> char {
    if d == 0 {
        '0'
    } else if d == 1 {
        '1'
    } else if d == 2 {
        '2'
    } else if d == 3 {
        '3'
    } else if d == 4 {
        '4'
    } else if d == 5 {
        '5'
    } else if d == 6 {
        '6'
    } else if d == 7 {
        '7'
    } else if d == 8 {
        '8'
    } else {
        '9'
    }
}

/// The decimal digit string of `n`, without sign or padding.
pub open spec fn spec_u64_dec(n: nat) -> Seq<char>
    decreases n,
{
    if n < 10 {
        seq![spec_digit_char(n as int)]
    } else {
        spec_u64_dec(n / 10) + seq![spec_digit_char(n as int % 10)]
    }
}

/// Printing is a right inverse of evaluation, so two distinct numbers never
/// print alike.
pub proof fn lemma_u64_dec_val(n: nat)
    ensures
        digits_val(spec_u64_dec(n)) == n,
        all_digits(spec_u64_dec(n)),
        spec_u64_dec(n).len() >= 1,
    decreases n,
{
    if n < 10 {
        let s = spec_u64_dec(n);
        assert(s.last() == spec_digit_char(n as int));
        assert(s.drop_last() =~= Seq::<char>::empty());
        assert(digits_val(Seq::<char>::empty()) == 0);
        assert(spec_digit_val(spec_digit_char(n as int)) == n);
    } else {
        lemma_u64_dec_val(n / 10);
        let s = spec_u64_dec(n);
        assert(s.drop_last() =~= spec_u64_dec(n / 10));
        assert(s.last() == spec_digit_char(n as int % 10));
        assert(spec_digit_val(spec_digit_char(n as int % 10)) == n as int % 10);
        assert(forall|i: int|
            0 <= i < s.len() ==> s[i] == (if i < s.len() - 1 {
                spec_u64_dec(n / 10)[i]
            } else {
                spec_digit_char(n as int % 10)
            }));
    }
}

/// Distinct numbers have distinct decimal digit strings.
pub proof fn lemma_u64_dec_injective(a: nat, b: nat)
    requires
        a != b,
    ensures
        spec_u64_dec(a) != spec_u64_dec(b),
{
    lemma_u64_dec_val(a);
    lemma_u64_dec_val(b);
}

fn digit_char_str(d: u64) -> (r: &'static str)
    requires
        d < 10,
    ensures
        r@ == seq![spec_digit_char(d as int)],
{
    if d == 0 {
        proof {
            reveal_strlit("0");
            assert("0"@ =~= seq![spec_digit_char(0)]);
        }
        "0"
    } else if d == 1 {
        proof {
            reveal_strlit("1");
            assert("1"@ =~= seq![spec_digit_char(1)]);
        }
        "1"
    } else if d == 2 {
        proof {
            reveal_strlit("2");
            assert("2"@ =~= seq![spec_digit_char(2)]);
        }
        "2"
    } else if d == 3 {
        proof {
            reveal_strlit("3");
            assert("3"@ =~= seq![spec_digit_char(3)]);
        }
        "3"
    } else if d == 4 {
        proof {
            reveal_strlit("4");
            assert("4"@ =~= seq![spec_digit_char(4)]);
        }
        "4"
    } else if d == 5 {
        proof {
            reveal_strlit("5");
            assert("5"@ =~= seq![spec_digit_char(5)]);
        }
        "5"
    } else if d == 6 {
        proof {
            reveal_strlit("6");
            assert("6"@ =~= seq![spec_digit_char(6)]);
        }
        "6"
    } else if d == 7 {
        proof {
            reveal_strlit("7");
            assert("7"@ =~= seq![spec_digit_char(7)]);
        }
        "7"
    } else if d == 8 {
        proof {
            reveal_strlit("8");
            assert("8"@ =~= seq![spec_digit_char(8)]);
        }
        "8"
    } else {
        proof {
            reveal_strlit("9");
            assert("9"@ =~= seq![spec_digit_char(9)]);
        }
        "9"
    }
}

fn push_dec(n: u64, out: &mut String)
    ensures
        final(out)@ == old(out)@ + spec_u64_dec(n as nat),
    decreases n,
{
    if n >= 10 {
        push_dec(n / 10, out);
    }
    let ghost mid = out@;
    out.append(digit_char_str(n % 10));
    proof {
        if n < 10 {
            assert(final(out)@ =~= old(out)@ + spec_u64_dec(n as nat));
        } else {
            assert(mid == old(out)@ + spec_u64_dec(n as nat / 10));
            assert(final(out)@ =~= old(out)@ + spec_u64_dec(n as nat));
        }
    }
}

/// The decimal digit string of `n`, as an owned string.
pub fn u64_dec(n: u64) -> (r: String)
    ensures
        r@ == spec_u64_dec(n as nat),
{
    let mut out = String::new();
    push_dec(n, &mut out);
    proof {
        assert(out@ =~= spec_u64_dec(n as nat));
    }
    out
}

/// The error of the decimal integer parsers: the text is not an optionally
/// signed run of digits, or its value does not fit the target type.
#[derive(Clone, Copy, Debug, PartialEq, Eq, Structural)]
pub enum ParseIntError {
    /// The text is empty, or holds a character that is not part of an
    /// optionally signed run of decimal digits.
    Invalid,
    /// The text denotes an integer outside the target type's range.
    OutOfRange,
}

/// The integer denoted by `s`: an optional `'+'` or `'-'` sign followed by
/// one or more decimal digits, and nothing else.
pub open spec fn spec_parse_int(s: Seq<char>) -> Option<int> {
    if s.len() == 0 {
        None
    } else {
        let neg = s[0] == '-';
        let ds = if s[0] == '-' || s[0] == '+' {
            s.drop_first()
        } else {
            s
        };
        if ds.len() == 0 || !all_digits(ds) {
            None
        } else if neg {
            Some(-digits_val(ds))
        } else {
            Some(digits_val(ds))
        }
    }
}

/// Parses the sign and digits of `s`, returning the sign and the digits'
/// value.  `OutOfRange` is returned exactly when the magnitude reaches
/// `pow10(19)`, which exceeds every integer type this crate parses into.
#[verifier::rlimit(50)]
#[verifier::loop_isolation(false)]
fn parse_decimal_core(s: &str) -> (r: Result<(bool, u64), ParseIntError>)
    ensures
        (r == Err::<(bool, u64), ParseIntError>(ParseIntError::Invalid) <==> spec_parse_int(s@) is None),
        (match r {
            Ok((neg, mag)) => {
                &&& spec_parse_int(s@) == Some(
                    if neg {
                        -(mag as int)
                    } else {
                        mag as int
                    },
                )
                &&& mag < pow10(19)
            },
            Err(e) => e == ParseIntError::Invalid || e == ParseIntError::OutOfRange,
        }),
        (r == Err::<(bool, u64), ParseIntError>(ParseIntError::OutOfRange) <==> (spec_parse_int(
            s@,
        ) matches Some(v) && (v >= pow10(19) || v <= -pow10(19)))),
{
    let len = s.unicode_len();
    if len == 0 {
        return Err(ParseIntError::Invalid);
    }
    let c0 = s.get_char(0);
    let neg = c0 == '-';
    let off: usize = if c0 == '-' || c0 == '+' {
        1
    } else {
        0
    };
    let ghost ds = if s@[0] == '-' || s@[0] == '+' {
        s@.drop_first()
    } else {
        s@
    };
    proof {
        assert(ds =~= s@.skip(off as int));
    }
    if off == len {
        return Err(ParseIntError::Invalid);
    }
    let mut i: usize = off;
    while i < len
        invariant
            len == s@.len(),
            off <= i <= len,
            forall|j: int| off <= j < i ==> spec_is_digit(s@[j]),
        decreases len - i,
    {
        let u = s.get_char(i) as u32;
        if u < 48 || u > 57 {
            proof {
                assert(ds[i - off as int] == s@[i as int]);
                assert(!spec_is_digit(ds[i - off as int]));
                assert(!all_digits(ds));
            }
            return Err(ParseIntError::Invalid);
        }
        i += 1;
    }
    proof {
        assert(forall|j: int| 0 <= j < ds.len() ==> ds[j] == s@[off + j] && spec_is_digit(s@[off + j]));
    }
    let mut z: usize = off;
    while z < len && s.get_char(z) == '0'
        invariant
            len == s@.len(),
            off <= z <= len,
            forall|j: int| off <= j < z ==> s@[j] == '0',
        decreases len - z,
    {
        z += 1;
    }
    proof {
        assert(forall|j: int| 0 <= j < z - off ==> ds[j] == s@[off + j] && s@[off + j] == '0');
        lemma_digits_val_leading_zeros(ds, z - off as int);
        assert(ds.skip(z - off as int) =~= s@.skip(z as int));
    }
    if len - z > 19 {
        proof {
            let t = s@.skip(z as int);
            assert(t[0] == s@[z as int]);
            assert(t[0] != '0');
            assert(all_digits(t));
            lemma_digits_val_lower(t);
            lemma_pow10_monotonic(19, (t.len() - 1) as nat);
        }
        return Err(ParseIntError::OutOfRange);
    }
    let mut acc: u64 = 0;
    let mut i2: usize = z;
    while i2 < len
        invariant
            len == s@.len(),
            off <= z <= i2 <= len,
            len - z <= 19,
            forall|j: int| off <= j < len ==> spec_is_digit(s@[j]),
            acc as int == digits_val(s@.subrange(z as int, i2 as int)),
            (acc as int) < pow10((i2 - z) as nat),
        decreases len - i2,
    {
        let u = s.get_char(i2) as u32;
        let d: u64 = (u - 48) as u64;
        proof {
            lemma_pow10_monotonic((i2 - z) as nat, 18);
            lemma_pow10_vals();
        }
        acc = acc * 10 + d;
        proof {
            let pre = s@.subrange(z as int, i2 as int);
            let post = s@.subrange(z as int, i2 + 1);
            assert(post.drop_last() =~= pre);
            assert(post.last() == s@[i2 as int]);
            lemma_pow10_monotonic(((i2 - z) + 1) as nat, 19);
        }
        i2 += 1;
    }
    proof {
        assert(s@.subrange(z as int, len as int) =~= s@.skip(z as int));
        assert(spec_parse_int(s@) == Some(
            if neg {
                -(acc as int)
            } else {
                acc as int
            },
        ));
        lemma_pow10_monotonic((len - z) as nat, 19);
    }
    Ok((neg, acc))
}

/// Parses `s` as Rust's `i64::from_str` does: an optional sign, then one or
/// more decimal digits.
pub fn parse_i64(s: &str) -> (r: Result<i64, ParseIntError>)
    ensures
        (r matches Ok(v) <==> (spec_parse_int(s@) matches Some(n) && i64::MIN <= n
            <= i64::MAX)),
        (r matches Ok(v) ==> spec_parse_int(s@) == Some(v as int)),
        (r == Err::<i64, ParseIntError>(ParseIntError::Invalid) <==> spec_parse_int(s@) is None),
        (r == Err::<i64, ParseIntError>(ParseIntError::OutOfRange) <==> (spec_parse_int(s@)
            matches Some(n) && (n < i64::MIN || n > i64::MAX))),
{
    proof {
        lemma_pow10_vals();
    }
    match parse_decimal_core(s) {
        Err(e) => Err(e),
        Ok((neg, mag)) => {
            if neg {
                if mag <= 9223372036854775807u64 {
                    Ok(-(mag as i64))
                } else if mag == 9223372036854775808u64 {
                    Ok(i64::MIN)
                } else {
                    Err(ParseIntError::OutOfRange)
                }
            } else {
                if mag <= 9223372036854775807u64 {
                    Ok(mag as i64)
                } else {
                    Err(ParseIntError::OutOfRange)
                }
            }
        },
    }
}

/// Parses `s` as Rust's `i32::from_str` does: an optional sign, then one or
/// more decimal digits.
pub fn parse_i32(s: &str) -> (r: Result<i32, ParseIntError>)
    ensures
        (r matches Ok(v) <==> (spec_parse_int(s@) matches Some(n) && i32::MIN <= n
            <= i32::MAX)),
        (r matches Ok(v) ==> spec_parse_int(s@) == Some(v as int)),
        (r == Err::<i32, ParseIntError>(ParseIntError::Invalid) <==> spec_parse_int(s@) is None),
        (r == Err::<i32, ParseIntError>(ParseIntError::OutOfRange) <==> (spec_parse_int(s@)
            matches Some(n) && (n < i32::MIN || n > i32::MAX))),
{
    proof {
        lemma_pow10_vals();
    }
    match parse_decimal_core(s) {
        Err(e) => Err(e),
        Ok((neg, mag)) => {
            if neg {
                if mag <= 2147483647u64 {
                    Ok(-(mag as i32))
                } else if mag == 2147483648u64 {
                    Ok(i32::MIN)
                } else {
                    Err(ParseIntError::OutOfRange)
                }
            } else {
                if mag <= 2147483647u64 {
                    Ok(mag as i32)
                } else {
                    Err(ParseIntError::OutOfRange)
                }
            }
        },
    }
}

} // verus!
