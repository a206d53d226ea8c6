//! Decimal text of unsigned integers, both ways.
use vstd::prelude::*;
use vstd::std_specs::iter::IteratorSpec;
use vstd::string::*;

verus! {

/// The digits of `n` in base ten, without leading zeros ("0" for zero).
pub open spec fn decimal_text(n: nat) -> Seq<char>
    decreases n,
{
    if n < 10 {
        seq![digit_char(n)]
    } else {
        decimal_text(n / 10).push(digit_char(n % 10))
    }
}

pub open spec fn digit_char(d: nat) -> char {
    if d == 0 { '0' }
    else if d == 1 { '1' }
    else if d == 2 { '2' }
    else if d == 3 { '3' }
    else if d == 4 { '4' }
    else if d == 5 { '5' }
    else if d == 6 { '6' }
    else if d == 7 { '7' }
    else if d == 8 { '8' }
    else { '9' }
}

fn digit_str(d: u64) -> (s: &'static str)
    requires
        d < 10,
    ensures
        s@ == seq![digit_char(d as nat)],
{
    proof {
        reveal_strlit("0");
        reveal_strlit("1");
        reveal_strlit("2");
        reveal_strlit("3");
        reveal_strlit("4");
        reveal_strlit("5");
        reveal_strlit("6");
        reveal_strlit("7");
        reveal_strlit("8");
        reveal_strlit("9");
    }
    if d == 0 { "0" }
    else if d == 1 { "1" }
    else if d == 2 { "2" }
    else if d == 3 { "3" }
    else if d == 4 { "4" }
    else if d == 5 { "5" }
    else if d == 6 { "6" }
    else if d == 7 { "7" }
    else if d == 8 { "8" }
    else { "9" }
}

/// Writes `n` in base ten.
pub fn to_decimal(n: u64) -> (r: String)
    ensures
        r@ == decimal_text(n as nat),
    decreases n,
{
    if n < 10 {
        String::from_str(digit_str(n))
    } else {
        let mut r = to_decimal(n / 10);
        r.append(digit_str(n % 10));
        r
    }
}

/// Why a text is not an unsigned integer of the wanted width. The texts
/// that [`int_error_text`] gives are those that Rust's own integer parsing
/// reports for the same three cases.
#[derive(PartialEq, Eq, Structural, Clone, Copy, Debug)]
pub enum IntErrorKind {
    Empty,
    InvalidDigit,
    PosOverflow,
}

pub open spec fn is_digit(c: char) -> bool {
    '0' <= c && c <= '9'
}

pub open spec fn digit_value(c: char) -> nat {
    ((c as u32) - ('0' as u32)) as nat
}

/// Reads the digits `d` left to right after the value `acc` read so far. The
/// first character that is not a digit, or the first digit that takes the
/// value over `max`, decides the error.
pub open spec fn read_digits(d: Seq<char>, acc: nat, max: nat) -> Result<nat, IntErrorKind>
    decreases d.len(),
{
    if d.len() == 0 {
        Ok(acc)
    } else if !is_digit(d[0]) {
        Err(IntErrorKind::InvalidDigit)
    } else if acc * 10 + digit_value(d[0]) > max {
        Err(IntErrorKind::PosOverflow)
    } else {
        read_digits(d.drop_first(), acc * 10 + digit_value(d[0]), max)
    }
}

/// An optional `+` followed by decimal digits, as a value of at most `max`.
pub open spec fn parse_unsigned(s: Seq<char>, max: nat) -> Result<nat, IntErrorKind> {
    if s.len() == 0 {
        Err(IntErrorKind::Empty)
    } else if s.len() == 1 && (s[0] == '+' || s[0] == '-') {
        Err(IntErrorKind::InvalidDigit)
    } else if s[0] == '+' {
        read_digits(s.drop_first(), 0, max)
    } else {
        read_digits(s, 0, max)
    }
}

proof fn lemma_read_digits_bounded(d: Seq<char>, acc: nat, max: nat)
    requires
        acc <= max,
    ensures
        read_digits(d, acc, max) is Ok ==> read_digits(d, acc, max)->Ok_0 <= max,
    decreases d.len(),
{
    if d.len() > 0 && is_digit(d[0]) && acc * 10 + digit_value(d[0]) <= max {
        lemma_read_digits_bounded(d.drop_first(), acc * 10 + digit_value(d[0]), max);
    }
}

/// A value read never exceeds the bound it was read with.
pub proof fn lemma_parse_unsigned_bounded(s: Seq<char>, max: nat)
    ensures
        parse_unsigned(s, max) is Ok ==> parse_unsigned(s, max)->Ok_0 <= max,
{
    if s.len() > 0 {
        lemma_read_digits_bounded(s.drop_first(), 0, max);
        lemma_read_digits_bounded(s, 0, max);
    }
}

/// Decimal digits only, after an optional leading `+`, and at least one.
pub open spec fn is_numeric(s: Seq<char>) -> bool {
    let d = if s.len() > 0 && s[0] == '+' { s.drop_first() } else { s };
    d.len() > 0 && forall|i: int| 0 <= i < d.len() ==> is_digit(#[trigger] d[i])
}

proof fn lemma_read_digits_non_digit(d: Seq<char>, acc: nat, max: nat)
    requires
        exists|i: int| 0 <= i < d.len() && !is_digit(#[trigger] d[i]),
    ensures
        read_digits(d, acc, max) is Err,
    decreases d.len(),
{
    if is_digit(d[0]) && acc * 10 + digit_value(d[0]) <= max {
        let i = choose|i: int| 0 <= i < d.len() && !is_digit(#[trigger] d[i]);
        assert(i > 0);
        assert(!is_digit(d.drop_first()[i - 1]));
        lemma_read_digits_non_digit(d.drop_first(), acc * 10 + digit_value(d[0]), max);
    }
}

/// A text that is not numeric never reads as a value.
pub proof fn lemma_non_numeric_fails(s: Seq<char>, max: nat)
    ensures
        !is_numeric(s) ==> parse_unsigned(s, max) is Err,
{
    if !is_numeric(s) && s.len() > 0 && !(s.len() == 1 && (s[0] == '+' || s[0] == '-')) {
        let d = if s[0] == '+' { s.drop_first() } else { s };
        assert(exists|i: int| 0 <= i < d.len() && !is_digit(#[trigger] d[i]));
        lemma_read_digits_non_digit(d, 0, max);
    }
}

/// The characters of `s`, one by one.
pub fn chars_of(s: &str) -> (r: Vec<char>)
    ensures
        r@ == s@,
{
    let mut r: Vec<char> = Vec::new();
    proof {
        broadcast use vstd::string::axiom_spec_iter;
    }
    for c in it: s.chars()
        invariant
            it.seq() == s@,
            r@ == it.seq().take(it.index() as int),
    {
        assert(it.seq().take(it.index() as int).push(c) =~= it.seq().take(it.index() + 1));
        r.push(c);
    }
    assert(r@ =~= s@);
    r
}

/// Reads `s` as an unsigned integer of at most `max`.
pub fn parse_unsigned_text(s: &str, max: u64) -> (r: Result<u64, IntErrorKind>)
    ensures
        match r {
            Ok(v) => parse_unsigned(s@, max as nat) == Ok::<nat, IntErrorKind>(v as nat),
            Err(e) => parse_unsigned(s@, max as nat) == Err::<nat, IntErrorKind>(e),
        },
{
    let c = chars_of(s);
    if c.len() == 0 {
        return Err(IntErrorKind::Empty);
    }
    if c.len() == 1 && (c[0] == '+' || c[0] == '-') {
        return Err(IntErrorKind::InvalidDigit);
    }
    let mut i: usize = if c[0] == '+' { 1 } else { 0 };
    let ghost start = i as int;
    proof {
        if start == 1 {
            assert(c@.subrange(1, c@.len() as int) =~= s@.drop_first());
        } else {
            assert(c@.subrange(0, c@.len() as int) =~= s@);
        }
    }
    let mut acc: u64 = 0;
    while i < c.len()
        invariant
            0 <= start <= i <= c@.len(),
            acc <= max,
            parse_unsigned(s@, max as nat)
                == read_digits(c@.subrange(i as int, c@.len() as int), acc as nat, max as nat),
        decreases c@.len() - i,
    {
        let ch = c[i];
        let ghost rest = c@.subrange(i as int, c@.len() as int);
        assert(rest[0] == ch);
        assert(rest.drop_first() =~= c@.subrange(i + 1, c@.len() as int));
        if !('0' <= ch && ch <= '9') {
            return Err(IntErrorKind::InvalidDigit);
        }
        let d: u64 = ((ch as u32) - ('0' as u32)) as u64;
        if d > max || acc > (max - d) / 10 {
            assert(acc * 10 + d > max) by (nonlinear_arith)
                requires
                    d > max || (d <= max && acc > (max - d) / 10),
            ;
            return Err(IntErrorKind::PosOverflow);
        }
        assert(acc * 10 + d <= max) by (nonlinear_arith)
            requires
                d <= max,
                acc <= (max - d) / 10,
        ;
        acc = acc * 10 + d;
        i = i + 1;
    }
    assert(c@.subrange(i as int, c@.len() as int).len() == 0);
    Ok(acc)
}

pub open spec fn int_error_message(k: IntErrorKind) -> Seq<char> {
    match k {
        IntErrorKind::Empty => "cannot parse integer from empty string"@,
        IntErrorKind::InvalidDigit => "invalid digit found in string"@,
        IntErrorKind::PosOverflow => "number too large to fit in target type"@,
    }
}

/// The text that names a parse failure.
pub fn int_error_text(k: IntErrorKind) -> (r: String)
    ensures
        r@ == int_error_message(k),
{
    match k {
        IntErrorKind::Empty => String::from_str("cannot parse integer from empty string"),
        IntErrorKind::InvalidDigit => String::from_str("invalid digit found in string"),
        IntErrorKind::PosOverflow => String::from_str("number too large to fit in target type"),
    }
}

} // verus!
