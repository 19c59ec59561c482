//! The textual grammar of decimal integers: what an environment variable's
//! text must look like to name an integer, what integer it names, and how a
//! parsed value is rendered back as the digits of a literal.

use vstd::prelude::*;

verus! {

/// A decimal digit, `'0'` through `'9'`.
pub open spec fn is_dec_digit(c: char) -> bool {
    48 <= c as u32 <= 57
}

/// The numeric value of a decimal digit.
pub open spec fn digit_val(c: char) -> int {
    c as u32 - 48
}

/// Every character of `s` is a decimal digit.
pub open spec fn all_digits(s: Seq<char>) -> bool {
    forall|j: int| 0 <= j < s.len() ==> is_dec_digit(#[trigger] s[j])
}

/// A nonempty run of decimal digits.
pub open spec fn digits_nonempty(s: Seq<char>) -> bool {
    s.len() >= 1 && all_digits(s)
}

/// The integer named by a run of digits, most significant first.
pub open spec fn digits_value(s: Seq<char>) -> int
    decreases s.len(),
{
    if s.len() == 0 {
        0
    } else {
        digits_value(s.drop_last()) * 10 + digit_val(s.last())
    }
}

/// The integer grammar: an optional sign (a minus only where `signed`
/// holds), then at least one decimal digit and nothing else.
pub open spec fn int_text_valid(s: Seq<char>, signed: bool) -> bool {
    if s.len() == 0 {
        false
    } else if s[0] == '+' {
        digits_nonempty(s.subrange(1, s.len() as int))
    } else if s[0] == '-' {
        signed && digits_nonempty(s.subrange(1, s.len() as int))
    } else {
        digits_nonempty(s)
    }
}

/// The integer named by a text of the integer grammar (meaningful only
/// where `int_text_valid` holds of the text).
pub open spec fn int_text_value(s: Seq<char>) -> int {
    if s.len() == 0 {
        0
    } else if s[0] == '+' {
        digits_value(s.subrange(1, s.len() as int))
    } else if s[0] == '-' {
        -digits_value(s.subrange(1, s.len() as int))
    } else {
        digits_value(s)
    }
}

/// Extending a digit run by one digit multiplies its value by ten and adds
/// the new digit.
pub proof fn lemma_digits_value_snoc(p: Seq<char>, c: char)
    ensures
        digits_value(p + seq![c]) == digits_value(p) * 10 + digit_val(c),
{
    let t = p + seq![c];
    assert(t.drop_last() =~= p);
    assert(t.last() == c);
}

/// Parses `s` as a decimal integer of the grammar `int_text_valid(s@,
/// signed)`, returning the sign and the magnitude. `None` means the text is
/// not of the grammar, or its magnitude does not fit in 64 bits (and so lies
/// outside every supported integer type's range).
pub fn parse_int(s: &str, signed: bool) -> (r: Option<(bool, u64)>)
    ensures
        match r {
            Some(p) => int_text_valid(s@, signed) && int_text_value(s@) == (
            if p.0 {
                -(p.1 as int)
            } else {
                p.1 as int
            }),
            None => !int_text_valid(s@, signed) || int_text_value(s@) > u64::MAX as int
                || int_text_value(s@) < -(u64::MAX as int),
        },
{
    let len = s.unicode_len();
    if len == 0 {
        return None;
    }
    let first = s.get_char(0);
    let neg: bool = first == '-';
    let has_sign: bool = first == '-' || first == '+';
    if neg && !signed {
        return None;
    }
    let start: usize = if has_sign {
        1
    } else {
        0
    };
    if start == len {
        return None;
    }
    let mut i: usize = start;
    let mut mag: u64 = 0;
    let mut over: bool = false;
    while i < len
        invariant
            s@.len() == len,
            start <= i <= len,
            start < len,
            neg == (s@[0] == '-'),
            has_sign == (s@[0] == '-' || s@[0] == '+'),
            start == (if has_sign { 1int } else { 0int }),
            neg ==> signed,
            forall|j: int| start <= j < i ==> is_dec_digit(#[trigger] s@[j]),
            !over ==> mag as int == digits_value(s@.subrange(start as int, i as int)),
            over ==> digits_value(s@.subrange(start as int, i as int)) > u64::MAX as int,
        decreases len - i,
    {
        let c = s.get_char(i);
        let cu: u32 = c as u32;
        if !(48 <= cu && cu <= 57) {
            proof {
                if has_sign {
                    assert(!is_dec_digit(s@.subrange(1, s@.len() as int)[i - 1]));
                }
            }
            return None;
        }
        let d: u64 = (cu - 48) as u64;
        proof {
            assert(s@.subrange(start as int, i + 1) =~= s@.subrange(start as int, i as int)
                + seq![s@[i as int]]);
            lemma_digits_value_snoc(s@.subrange(start as int, i as int), s@[i as int]);
        }
        if !over {
            let wide: u128 = (mag as u128) * 10 + (d as u128);
            if wide > u64::MAX as u128 {
                over = true;
            } else {
                mag = wide as u64;
            }
        }
        i += 1;
    }
    proof {
        if !has_sign {
            assert(s@.subrange(0, s@.len() as int) =~= s@);
        }
    }
    if over {
        None
    } else {
        Some((neg, mag))
    }
}

/// The character of one decimal digit value.
pub open spec fn digit_char(d: int) -> char {
    if d == 0 {
        '0'
    } else if d == 1 {
        '1'
    } else if d == 2 {
        '2'
    } else if d == 3 {
        '3'
    } else if d == 4 {
        '4'
    } else if d == 5 {
        '5'
    } else if d == 6 {
        '6'
    } else if d == 7 {
        '7'
    } else if d == 8 {
        '8'
    } else {
        '9'
    }
}

/// The decimal digits of a nonnegative integer, without leading zeros
/// (a single `'0'` for zero).
pub open spec fn dec_rec(n: int) -> Seq<char>
    decreases n,
{
    if n < 10 {
        seq![digit_char(n)]
    } else {
        dec_rec(n / 10) + seq![digit_char(n % 10)]
    }
}

/// The text of one digit value.
fn digit_str(d: u64) -> (r: &'static str)
    requires
        d < 10,
    ensures
        r@ == seq![digit_char(d as int)],
{
    proof {
        reveal_strlit("0");
        reveal_strlit("1");
        reveal_strlit("2");
        reveal_strlit("3");
        reveal_strlit("4");
        reveal_strlit("5");
        reveal_strlit("6");
        reveal_strlit("7");
        reveal_strlit("8");
        reveal_strlit("9");
    }
    let r: &'static str = match d {
        0 => "0",
        1 => "1",
        2 => "2",
        3 => "3",
        4 => "4",
        5 => "5",
        6 => "6",
        7 => "7",
        8 => "8",
        _ => "9",
    };
    proof {
        assert(r@ =~= seq![digit_char(d as int)]);
    }
    r
}

/// Renders a 64-bit magnitude as its decimal digits.
pub fn dec_str(n: u64) -> (r: String)
    ensures
        r@ == dec_rec(n as int),
    decreases n,
{
    if n < 10 {
        let mut r = String::new();
        r.append(digit_str(n));
        proof {
            assert(Seq::<char>::empty() + seq![digit_char(n as int)] =~= seq![
                digit_char(n as int),
            ]);
        }
        r
    } else {
        proof {
            assert(n / 10 < n) by (nonlinear_arith)
                requires
                    n >= 10,
            ;
        }
        let mut r = dec_str(n / 10);
        r.append(digit_str(n % 10));
        r
    }
}

/// The decimal digits of a nonnegative integer name that integer: rendering
/// and the digit-run value are inverse to one another.
pub proof fn lemma_dec_rec_value(n: int)
    requires
        n >= 0,
    ensures
        dec_rec(n).len() >= 1,
        all_digits(dec_rec(n)),
        digits_value(dec_rec(n)) == n,
    decreases n,
{
    if n < 10 {
        let s1 = seq![digit_char(n)];
        assert(s1.drop_last() =~= Seq::<char>::empty());
        assert(digits_value(s1) == digits_value(s1.drop_last()) * 10 + digit_val(s1.last()));
        assert(digit_val(digit_char(n)) == n);
    } else {
        lemma_dec_rec_value(n / 10);
        let p = dec_rec(n / 10);
        let c = digit_char(n % 10);
        lemma_digits_value_snoc(p, c);
        vstd::arithmetic::div_mod::lemma_fundamental_div_mod(n, 10);
        assert(digit_val(c) == n % 10);
        assert(is_dec_digit(c));
        assert forall|j: int| 0 <= j < dec_rec(n).len() implies is_dec_digit(
            #[trigger] dec_rec(n)[j],
        ) by {
            if j < p.len() {
                assert(is_dec_digit(p[j]));
            }
        }
    }
}

/// The canonical decimal text of an integer: a minus sign for a negative
/// value, then the decimal digits of its magnitude.
pub open spec fn canonical_int_text(v: int) -> Seq<char> {
    if v < 0 {
        "-"@ + dec_rec(-v)
    } else {
        dec_rec(v)
    }
}

/// The canonical decimal text of an integer is of the integer grammar and
/// names that integer back.
pub proof fn lemma_canonical_int_text(v: int, signed: bool)
    requires
        v >= 0 || signed,
    ensures
        int_text_valid(canonical_int_text(v), signed),
        int_text_value(canonical_int_text(v)) == v,
{
    if v >= 0 {
        lemma_dec_rec_value(v);
        let s = canonical_int_text(v);
        assert(is_dec_digit(s[0]));
        assert(s[0] != '+' && s[0] != '-');
    } else {
        lemma_dec_rec_value(-v);
        reveal_strlit("-");
        let s = canonical_int_text(v);
        assert(s[0] == '-');
        assert(s.subrange(1, s.len() as int) =~= dec_rec(-v));
    }
}

} // verus!
