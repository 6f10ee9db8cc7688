//! Decimal numbers as text: reading them from request input and writing them
//! into messages.
//!
//! A number is read the way Rust reads integers: an optional sign, then one or
//! more ASCII digits and nothing else. Reading goes from left to right and
//! stops at the first character that cannot be accepted, so the reason given
//! for a failure is the reason at that character.
use vstd::prelude::*;
use vstd::string::*;

verus! {

/// Why a text is not a number of the wanted type.
#[derive(Debug, Clone, Copy, PartialEq, Eq, Structural)]
pub enum ParseFailure {
    /// The text has no characters.
    Empty,
    /// A character is not a digit, or a sign stands alone.
    InvalidDigit,
    /// The number is above the largest value of the type.
    PosOverflow,
    /// The number is below the smallest value of the type.
    NegOverflow,
}

pub open spec fn is_digit(c: char) -> bool {
    '0' <= c && c <= '9'
}

/// The number a digit stands for.
pub open spec fn digit_value(c: char) -> int {
    c as int - '0' as int
}

/// The digit that stands for `d`, for `0 <= d <= 9`.
pub open spec fn digit_char(d: int) -> char {
    if d == 0 {
        '0'
    } else if d == 1 {
        '1'
    } else if d == 2 {
        '2'
    } else if d == 3 {
        '3'
    } else if d == 4 {
        '4'
    } else if d == 5 {
        '5'
    } else if d == 6 {
        '6'
    } else if d == 7 {
        '7'
    } else if d == 8 {
        '8'
    } else {
        '9'
    }
}

pub open spec fn all_digits(s: Seq<char>) -> bool {
    forall|i: int| 0 <= i < s.len() ==> is_digit(#[trigger] s[i])
}

/// The number written by a sequence of digits, most significant first.
pub open spec fn number_of(s: Seq<char>) -> int
    decreases s.len(),
{
    if s.len() == 0 {
        0
    } else {
        10 * number_of(s.drop_last()) + digit_value(s.last())
    }
}

/// Reading `s` as digits from left to right, up to `limit`: the number, or
/// the failure at the first character that is no digit or takes the number
/// above `limit`.
pub open spec fn scan(s: Seq<char>, limit: int) -> Result<int, ParseFailure>
    decreases s.len(),
{
    if s.len() == 0 {
        Ok(0)
    } else {
        match scan(s.drop_last(), limit) {
            Err(e) => Err(e),
            Ok(v) => if !is_digit(s.last()) {
                Err(ParseFailure::InvalidDigit)
            } else if 10 * v + digit_value(s.last()) > limit {
                Err(ParseFailure::PosOverflow)
            } else {
                Ok(10 * v + digit_value(s.last()))
            },
        }
    }
}

/// Reading `s` as a number without sign of at most `limit`. A leading `+` is
/// accepted, a `-` is not.
pub open spec fn parse_unsigned(s: Seq<char>, limit: int) -> Result<int, ParseFailure> {
    if s.len() == 0 {
        Err(ParseFailure::Empty)
    } else if s[0] == '+' {
        if s.len() == 1 {
            Err(ParseFailure::InvalidDigit)
        } else {
            scan(s.drop_first(), limit)
        }
    } else {
        scan(s, limit)
    }
}

/// Reading `s` as a number between `-(limit + 1)` and `limit`.
pub open spec fn parse_signed(s: Seq<char>, limit: int) -> Result<int, ParseFailure> {
    if s.len() == 0 {
        Err(ParseFailure::Empty)
    } else if s[0] == '+' {
        if s.len() == 1 {
            Err(ParseFailure::InvalidDigit)
        } else {
            scan(s.drop_first(), limit)
        }
    } else if s[0] == '-' {
        if s.len() == 1 {
            Err(ParseFailure::InvalidDigit)
        } else {
            match scan(s.drop_first(), limit + 1) {
                Ok(v) => Ok(-v),
                Err(ParseFailure::PosOverflow) => Err(ParseFailure::NegOverflow),
                Err(e) => Err(e),
            }
        }
    } else {
        scan(s, limit)
    }
}

/// The digits of `n`, without leading zeros.
pub open spec fn decimal(n: nat) -> Seq<char>
    decreases n,
{
    if n < 10 {
        seq![digit_char(n as int)]
    } else {
        decimal(n / 10) + seq![digit_char((n % 10) as int)]
    }
}

/// The digits of `n`, after a `-` where `n` is negative.
pub open spec fn signed_decimal(n: int) -> Seq<char> {
    if n < 0 {
        seq!['-'] + decimal((-n) as nat)
    } else {
        decimal(n as nat)
    }
}

/// A failure inside a text is the failure of every text that continues it.
pub proof fn lemma_scan_failure_stays(s: Seq<char>, k: int, limit: int)
    requires
        0 <= k <= s.len(),
        scan(s.take(k), limit) is Err,
    ensures
        scan(s, limit) == scan(s.take(k), limit),
    decreases s.len(),
{
    if k == s.len() {
        assert(s.take(k) =~= s);
    } else {
        assert(s.drop_last().take(k) =~= s.take(k));
        lemma_scan_failure_stays(s.drop_last(), k, limit);
    }
}

/// Reading succeeds exactly on digits that write a number within the limit,
/// and then gives that number.
pub proof fn lemma_scan_accepts(s: Seq<char>, limit: int)
    requires
        0 <= limit,
    ensures
        scan(s, limit) is Ok <==> all_digits(s) && number_of(s) <= limit,
        scan(s, limit) is Ok ==> scan(s, limit) == Ok::<int, ParseFailure>(number_of(s)),
        all_digits(s) ==> 0 <= number_of(s),
    decreases s.len(),
{
    if s.len() > 0 {
        let front = s.drop_last();
        lemma_scan_accepts(front, limit);
        assert(all_digits(s) ==> all_digits(front));
        assert(all_digits(front) && is_digit(s.last()) ==> all_digits(s)) by {
            if all_digits(front) && is_digit(s.last()) {
                assert forall|i: int| 0 <= i < s.len() implies is_digit(#[trigger] s[i]) by {
                    if i < front.len() {
                        assert(s[i] == front[i]);
                    }
                }
            }
        }
    }
}

/// A number read without sign lies between zero and the limit.
pub proof fn lemma_parse_unsigned_in_range(s: Seq<char>, limit: int)
    requires
        0 <= limit,
    ensures
        parse_unsigned(s, limit) matches Ok(v) ==> 0 <= v <= limit,
{
    lemma_scan_accepts(s, limit);
    if s.len() > 0 {
        lemma_scan_accepts(s.drop_first(), limit);
    }
}

/// What was written is read back: the digits of a number within the limit
/// read as that number.
pub proof fn lemma_decimal_is_read_back(n: nat, limit: int)
    requires
        n <= limit,
    ensures
        scan(decimal(n), limit) == Ok::<int, ParseFailure>(n as int),
        decimal(n).len() >= 1,
        is_digit(decimal(n)[0]),
    decreases n,
{
    if n < 10 {
        assert(decimal(n).drop_last() =~= Seq::<char>::empty());
    } else {
        lemma_decimal_is_read_back(n / 10, limit);
        assert(decimal(n).drop_last() =~= decimal(n / 10));
    }
}

/// A signed number that was written is read back as itself.
pub proof fn lemma_signed_decimal_is_read_back(n: int, limit: int)
    requires
        -(limit + 1) <= n <= limit,
    ensures
        parse_signed(signed_decimal(n), limit) == Ok::<int, ParseFailure>(n),
{
    if n < 0 {
        let m = (-n) as nat;
        lemma_decimal_is_read_back(m, limit + 1);
        assert(signed_decimal(n).drop_first() =~= decimal(m));
    } else {
        lemma_decimal_is_read_back(n as nat, limit);
    }
}

/// The number a digit stands for, or `None` for any other character.
fn digit_of(c: char) -> (r: Option<u8>)
    ensures
        r is Some <==> is_digit(c),
        r matches Some(d) ==> d == digit_value(c) && d <= 9,
{
    if c >= '0' && c <= '9' {
        Some((c as u32 - '0' as u32) as u8)
    } else {
        None
    }
}

/// Reads the digits of `s`, after its first character where `signed` says
/// that this is a sign.
fn read_digits(s: &str, signed: bool, limit: u64) -> (r: Result<u64, ParseFailure>)
    requires
        signed ==> s@.len() >= 1,
    ensures
        signed && s@.len() == 1 ==> r == Err::<u64, ParseFailure>(ParseFailure::InvalidDigit),
        !(signed && s@.len() == 1) ==> match scan(
            if signed {
                s@.drop_first()
            } else {
                s@
            },
            limit as int,
        ) {
            Ok(v) => r == Ok::<u64, ParseFailure>(v as u64) && 0 <= v <= limit,
            Err(e) => r == Err::<u64, ParseFailure>(e),
        },
{
    let ghost lo: int = if signed { 1 } else { 0 };
    let ghost digits: Seq<char> = if signed { s@.drop_first() } else { s@ };
    let mut acc: u64 = 0;
    let mut at_sign: bool = signed;
    let mut seen: bool = false;
    for c in it: s.chars()
        invariant
            it.seq() == s@,
            lo == if signed { 1int } else { 0int },
            digits == if signed { s@.drop_first() } else { s@ },
            signed ==> s@.len() >= 1,
            at_sign <==> it.index() < lo,
            seen <==> it.index() > lo,
            acc <= limit,
            at_sign ==> acc == 0,
            !at_sign ==> scan(digits.take(it.index() - lo), limit as int) == Ok::<int, ParseFailure>(
                acc as int,
            ),
    {
        if at_sign {
            at_sign = false;
        } else {
            let ghost k: int = it.index() - lo;
            proof {
                assert(digits.take(k + 1).drop_last() =~= digits.take(k));
            }
            match digit_of(c) {
                None => {
                    proof {
                        lemma_scan_failure_stays(digits, k + 1, limit as int);
                    }
                    return Err(ParseFailure::InvalidDigit);
                },
                Some(d) => {
                    let next: u128 = acc as u128 * 10 + d as u128;
                    if next > limit as u128 {
                        proof {
                            lemma_scan_failure_stays(digits, k + 1, limit as int);
                        }
                        return Err(ParseFailure::PosOverflow);
                    }
                    acc = next as u64;
                    seen = true;
                },
            }
        }
    }
    if signed && !seen {
        return Err(ParseFailure::InvalidDigit);
    }
    proof {
        assert(digits.take(s@.len() - lo) =~= digits);
    }
    Ok(acc)
}

/// Reads a `u32` as `str::parse` does.
pub fn parse_u32(s: &str) -> (r: Result<u32, ParseFailure>)
    ensures
        match parse_unsigned(s@, u32::MAX as int) {
            Ok(v) => r == Ok::<u32, ParseFailure>(v as u32) && 0 <= v <= u32::MAX,
            Err(e) => r == Err::<u32, ParseFailure>(e),
        },
{
    if s.is_empty() {
        return Err(ParseFailure::Empty);
    }
    let signed: bool = s.get_char(0) == '+';
    match read_digits(s, signed, 0xffff_ffff) {
        Ok(v) => Ok(v as u32),
        Err(e) => Err(e),
    }
}

/// Reads a `usize` as `str::parse` does.
pub fn parse_usize(s: &str) -> (r: Result<usize, ParseFailure>)
    ensures
        match parse_unsigned(s@, usize::MAX as int) {
            Ok(v) => r == Ok::<usize, ParseFailure>(v as usize) && 0 <= v <= usize::MAX,
            Err(e) => r == Err::<usize, ParseFailure>(e),
        },
{
    if s.is_empty() {
        return Err(ParseFailure::Empty);
    }
    let signed: bool = s.get_char(0) == '+';
    match read_digits(s, signed, usize::MAX as u64) {
        Ok(v) => Ok(v as usize),
        Err(e) => Err(e),
    }
}

/// Reads an `i32` as `str::parse` does.
pub fn parse_i32(s: &str) -> (r: Result<i32, ParseFailure>)
    ensures
        match parse_signed(s@, i32::MAX as int) {
            Ok(v) => r == Ok::<i32, ParseFailure>(v as i32) && i32::MIN <= v <= i32::MAX,
            Err(e) => r == Err::<i32, ParseFailure>(e),
        },
{
    if s.is_empty() {
        return Err(ParseFailure::Empty);
    }
    let first: char = s.get_char(0);
    if first == '-' {
        match read_digits(s, true, 0x8000_0000) {
            Ok(v) => Ok((0 - v as i64) as i32),
            Err(ParseFailure::PosOverflow) => Err(ParseFailure::NegOverflow),
            Err(e) => Err(e),
        }
    } else {
        match read_digits(s, first == '+', 0x7fff_ffff) {
            Ok(v) => Ok(v as i32),
            Err(e) => Err(e),
        }
    }
}

/// The text of one digit.
fn digit_text(d: u64) -> (r: &'static str)
    requires
        d <= 9,
    ensures
        r@ == seq![digit_char(d as int)],
{
    proof {
        reveal_strlit("0");
        reveal_strlit("1");
        reveal_strlit("2");
        reveal_strlit("3");
        reveal_strlit("4");
        reveal_strlit("5");
        reveal_strlit("6");
        reveal_strlit("7");
        reveal_strlit("8");
        reveal_strlit("9");
    }
    let r: &'static str = if d == 0 {
        "0"
    } else if d == 1 {
        "1"
    } else if d == 2 {
        "2"
    } else if d == 3 {
        "3"
    } else if d == 4 {
        "4"
    } else if d == 5 {
        "5"
    } else if d == 6 {
        "6"
    } else if d == 7 {
        "7"
    } else if d == 8 {
        "8"
    } else {
        "9"
    };
    r
}

/// Writes the digits of `n` at the end of `out`.
pub fn append_decimal(out: &mut String, n: u64)
    ensures
        final(out)@ == old(out)@ + decimal(n as nat),
    decreases n,
{
    if n >= 10 {
        append_decimal(out, n / 10);
    }
    out.append(digit_text(n % 10));
}

/// Writes `n` at the end of `out`, with a `-` before a negative number.
pub fn append_signed_decimal(out: &mut String, n: i64)
    ensures
        final(out)@ == old(out)@ + signed_decimal(n as int),
{
    if n < 0 {
        proof {
            reveal_strlit("-");
        }
        out.append("-");
        let magnitude: u64 = if n == i64::MIN {
            0x8000_0000_0000_0000
        } else {
            (0 - n) as u64
        };
        append_decimal(out, magnitude);
    } else {
        append_decimal(out, n as u64);
    }
}

impl ParseFailure {
    /// What each failure says.
    pub open spec fn message(self) -> Seq<char> {
        match self {
            ParseFailure::Empty => "cannot parse integer from empty string"@,
            ParseFailure::InvalidDigit => "invalid digit found in string"@,
            ParseFailure::PosOverflow => "number too large to fit in target type"@,
            ParseFailure::NegOverflow => "number too small to fit in target type"@,
        }
    }

    /// The failure in words.
    pub fn to_string(&self) -> (r: String)
        ensures
            r@ == self.message(),
    {
        match self {
            ParseFailure::Empty => String::from_str("cannot parse integer from empty string"),
            ParseFailure::InvalidDigit => String::from_str("invalid digit found in string"),
            ParseFailure::PosOverflow => String::from_str("number too large to fit in target type"),
            ParseFailure::NegOverflow => String::from_str("number too small to fit in target type"),
        }
    }
}

} // verus!
