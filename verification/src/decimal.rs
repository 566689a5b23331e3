//! Decimal numerals: reading them with a limit, and writing them.

use vstd::prelude::*;

use crate::text::characters;

verus! {

/// Why a text is no numeral within the limit.
#[derive(Clone, Copy, Debug, PartialEq, Eq, Structural)]
pub enum DecimalError {
    /// The text is empty.
    Empty,
    /// A character is no decimal digit.
    InvalidDigit,
    /// The number is larger than the limit.
    TooLarge,
}

/// Whether `c` is one of the ten decimal digits.
pub open spec fn is_digit(c: char) -> bool {
    '0' <= c <= '9'
}

/// The number that the digit `c` stands for.
pub open spec fn digit_value(c: char) -> nat {
    (c as int - '0' as int) as nat
}

/// The digit that stands for `n`.
pub open spec fn digit(n: nat) -> char {
    ('0' as int + n) as char
}

/// Whether `s` consists of digits alone.
pub open spec fn all_digits(s: Seq<char>) -> bool {
    forall|i: int| 0 <= i < s.len() ==> is_digit(#[trigger] s[i])
}

/// The number that the digits `s` stand for.
pub open spec fn digits_value(s: Seq<char>) -> nat
    decreases s.len(),
{
    if s.len() == 0 {
        0
    } else {
        digits_value(s.drop_last()) * 10 + digit_value(s.last())
    }
}

/// The numeral of `n`, without leading zeros.
pub open spec fn numeral(n: nat) -> Seq<char>
    decreases n,
{
    if n < 10 {
        seq![digit(n)]
    } else {
        numeral(n / 10).push(digit(n % 10))
    }
}

/// What reading the digits `s` from the left gives: their number, or what is wrong with the
/// first character at which the reader has to stop.
pub open spec fn scanned(s: Seq<char>, limit: nat) -> Result<nat, DecimalError>
    decreases s.len(),
{
    if s.len() == 0 {
        Ok(0)
    } else {
        match scanned(s.drop_last(), limit) {
            Err(error) => Err(error),
            Ok(before) => if !is_digit(s.last()) {
                Err(DecimalError::InvalidDigit)
            } else if before * 10 + digit_value(s.last()) > limit {
                Err(DecimalError::TooLarge)
            } else {
                Ok(before * 10 + digit_value(s.last()))
            },
        }
    }
}

/// `s` without a plus sign in front.
pub open spec fn unsigned(s: Seq<char>) -> Seq<char> {
    if s.len() > 0 && s[0] == '+' {
        s.drop_first()
    } else {
        s
    }
}

/// What reading the numeral `s` gives. A plus sign may stand in front of the digits.
pub open spec fn reading(s: Seq<char>, limit: nat) -> Result<nat, DecimalError> {
    if s.len() == 0 {
        Err(DecimalError::Empty)
    } else if unsigned(s).len() == 0 {
        Err(DecimalError::InvalidDigit)
    } else {
        scanned(unsigned(s), limit)
    }
}

/// Whether `s` is a numeral: an optional plus sign and then at least one digit, nothing else.
pub open spec fn is_numeral(s: Seq<char>) -> bool {
    unsigned(s).len() > 0 && all_digits(unsigned(s))
}

proof fn scanned_whole(s: Seq<char>, limit: nat)
    ensures
        scanned(s, limit) is Ok <==> all_digits(s) && digits_value(s) <= limit,
        scanned(s, limit) matches Ok(n) ==> n == digits_value(s),
        scanned(s, limit) matches Err(error) ==> error != DecimalError::Empty,
        all_digits(s) && digits_value(s) > limit ==> scanned(s, limit) == Err::<nat, DecimalError>(
            DecimalError::TooLarge,
        ),
    decreases s.len(),
{
    if s.len() > 0 {
        scanned_whole(s.drop_last(), limit);
        assert(s == s.drop_last().push(s.last()));
        if all_digits(s) {
            assert forall|i: int| 0 <= i < s.drop_last().len() implies is_digit(
                #[trigger] s.drop_last()[i],
            ) by {
                assert(is_digit(s[i]));
            }
            assert(is_digit(s[s.len() - 1]));
        }
        if all_digits(s.drop_last()) && is_digit(s.last()) {
            assert forall|i: int| 0 <= i < s.len() implies is_digit(#[trigger] s[i]) by {
                if i < s.len() - 1 {
                    assert(is_digit(s.drop_last()[i]));
                }
            }
        }
    }
}

/// A text is read as a number exactly where it is a numeral and its number is within the limit;
/// a numeral beyond the limit is reported as too large, and the empty text as empty.
pub proof fn reading_accepts_numerals(s: Seq<char>, limit: nat)
    ensures
        reading(s, limit) is Ok <==> is_numeral(s) && digits_value(unsigned(s)) <= limit,
        reading(s, limit) matches Ok(n) ==> n == digits_value(unsigned(s)),
        is_numeral(s) && digits_value(unsigned(s)) > limit ==> reading(s, limit) == Err::<
            nat,
            DecimalError,
        >(DecimalError::TooLarge),
        reading(s, limit) == Err::<nat, DecimalError>(DecimalError::Empty) <==> s.len() == 0,
{
    scanned_whole(unsigned(s), limit);
}

/// A numeral that was written for `n` consists of digits and stands for `n`, so reading it gives
/// `n` back within every limit that `n` respects.
pub proof fn numeral_reads_back(n: nat, limit: nat)
    ensures
        numeral(n).len() > 0,
        all_digits(numeral(n)),
        digits_value(numeral(n)) == n,
        n <= limit ==> reading(numeral(n), limit) == Ok::<nat, DecimalError>(n),
    decreases n,
{
    reveal_with_fuel(digits_value, 2);
    if n >= 10 {
        numeral_reads_back(n / 10, limit);
        assert(numeral(n).drop_last() == numeral(n / 10));
        assert(is_digit(digit(n % 10)));
        assert forall|i: int| 0 <= i < numeral(n).len() implies is_digit(#[trigger] numeral(n)[i]) by {
            if i < numeral(n / 10).len() {
                assert(is_digit(numeral(n / 10)[i]));
            }
        }
    } else {
        assert(numeral(n).drop_last() == Seq::<char>::empty());
    }
    assert(is_digit(numeral(n)[0]));
    scanned_whole(numeral(n), limit);
}

/// Reads a numeral that may not exceed `limit`.
pub fn read_decimal(s: &str, limit: u64) -> (number: Result<u64, DecimalError>)
    ensures
        match number {
            Ok(n) => reading(s@, limit as nat) == Ok::<nat, DecimalError>(n as nat),
            Err(error) => reading(s@, limit as nat) == Err::<nat, DecimalError>(error),
        },
{
    let chars: Vec<char> = characters(s);
    if chars.len() == 0 {
        return Err(DecimalError::Empty);
    }
    let start: usize = if chars[0] == '+' {
        1
    } else {
        0
    };
    let ghost digits = unsigned(s@);
    assert(digits == s@.skip(start as int));
    if chars.len() == start {
        return Err(DecimalError::InvalidDigit);
    }
    let mut number: u64 = 0;
    let mut i: usize = start;
    while i < chars.len()
        invariant
            chars@ == s@,
            start <= i <= chars.len(),
            start <= 1,
            digits == s@.skip(start as int),
            digits.len() > 0,
            digits == unsigned(s@),
            number <= limit,
            scanned(digits.take(i - start), limit as nat) == Ok::<nat, DecimalError>(number as nat),
        decreases chars.len() - i,
    {
        let c: char = chars[i];
        let ghost k: int = i - start;
        proof {
            assert(digits.take(k + 1).drop_last() == digits.take(k));
            assert(digits.take(k + 1).last() == c);
            stops_early(digits, k + 1, limit as nat);
        }
        if !('0' <= c && c <= '9') {
            return Err(DecimalError::InvalidDigit);
        }
        let value: u64 = c as u64 - '0' as u64;
        if number > limit / 10 || value > limit - number * 10 {
            return Err(DecimalError::TooLarge);
        }
        number = number * 10 + value;
        i += 1;
    }
    assert(digits.take(digits.len() as int) == digits);
    Ok(number)
}

/// An error in the first `k` characters is the error of the whole.
proof fn stops_early(s: Seq<char>, k: int, limit: nat)
    requires
        0 <= k <= s.len(),
    ensures
        scanned(s.take(k), limit) is Err ==> scanned(s, limit) == scanned(s.take(k), limit),
    decreases s.len() - k,
{
    if k < s.len() {
        stops_early(s, k + 1, limit);
        assert(s.take(k + 1).drop_last() == s.take(k));
    } else {
        assert(s.take(k) == s);
    }
}

/// Writes the numeral of `n`.
pub fn write_decimal(n: u64) -> (s: String)
    ensures
        s@ == numeral(n as nat),
    decreases n,
{
    let mut s = if n < 10 {
        String::new()
    } else {
        write_decimal(n / 10)
    };
    s.append(digit_text((n % 10) as u8));
    s
}

/// The text of one digit.
fn digit_text(n: u8) -> (s: &'static str)
    requires
        n < 10,
    ensures
        s@ == seq![digit(n as nat)],
{
    proof {
        reveal_strlit("0");
        reveal_strlit("1");
        reveal_strlit("2");
        reveal_strlit("3");
        reveal_strlit("4");
        reveal_strlit("5");
        reveal_strlit("6");
        reveal_strlit("7");
        reveal_strlit("8");
        reveal_strlit("9");
    }
    if n == 0 {
        "0"
    } else if n == 1 {
        "1"
    } else if n == 2 {
        "2"
    } else if n == 3 {
        "3"
    } else if n == 4 {
        "4"
    } else if n == 5 {
        "5"
    } else if n == 6 {
        "6"
    } else if n == 7 {
        "7"
    } else if n == 8 {
        "8"
    } else {
        "9"
    }
}

/// The ten digits are the characters with the code points 48 to 57, and stand for 0 to 9 in this
/// order.
pub proof fn digits_by_code_point(c: char, n: nat)
    ensures
        is_digit(c) <==> 48 <= c as int <= 57,
        is_digit(c) ==> digit_value(c) + 48 == c as int,
        n < 10 ==> is_digit(digit(n)) && digit_value(digit(n)) == n,
{
}

/// Whether a text consists of digits depends on each of its characters.
pub proof fn digits_one_by_one(s: Seq<char>)
    ensures
        all_digits(s) <==> forall|i: int| 0 <= i < s.len() ==> 48 <= #[trigger] s[i] as int <= 57,
{
    if forall|i: int| 0 <= i < s.len() ==> 48 <= #[trigger] s[i] as int <= 57 {
        assert forall|i: int| 0 <= i < s.len() implies is_digit(#[trigger] s[i]) by {
            assert(48 <= s[i] as int <= 57);
        }
    }
    if all_digits(s) {
        assert forall|i: int| 0 <= i < s.len() implies 48 <= #[trigger] s[i] as int <= 57 by {
            assert(is_digit(s[i]));
        }
    }
}

/// One more digit makes a number ten times as large and adds what the digit stands for; no digits
/// stand for nothing.
pub proof fn one_more_digit_is_ten_times_as_much(s: Seq<char>, n: nat)
    requires
        n < 10,
    ensures
        digits_value(Seq::<char>::empty()) == 0,
        digits_value(s.push(digit(n))) == 10 * digits_value(s) + n,
{
    assert(s.push(digit(n)).drop_last() =~= s);
}

/// The numeral of a number has no leading zero, but for that of zero, which is one zero.
pub proof fn numerals_have_no_leading_zero(n: nat)
    ensures
        numeral(n).len() > 0,
        numeral(n)[0] == '0' <==> n == 0,
        n == 0 ==> numeral(n) == seq!['0'],
    decreases n,
{
    if n >= 10 {
        numerals_have_no_leading_zero(n / 10);
        assert(numeral(n)[0] == numeral(n / 10)[0]);
    }
}

proof fn scanning_stops_at_the_first_fault(front: Seq<char>, rest: Seq<char>, limit: nat)
    requires
        scanned(front, limit) is Err,
    ensures
        scanned(front + rest, limit) == scanned(front, limit),
    decreases rest.len(),
{
    if rest.len() > 0 {
        scanning_stops_at_the_first_fault(front, rest.drop_last(), limit);
        assert((front + rest).drop_last() =~= front + rest.drop_last());
    } else {
        assert(front + rest =~= front);
    }
}

/// Reading a text: behind an optional plus sign, digits alone give their number, where it is
/// within the limit. Digits beyond the limit are too large, whatever follows them. A character
/// that is no digit, behind digits within the limit or at the start, is an invalid digit, whatever
/// follows it; so is a plus sign alone. The empty text is empty.
pub proof fn reading_goes_by_the_digits(digits: Seq<char>, c: char, rest: Seq<char>, limit: nat)
    requires
        forall|i: int| 0 <= i < digits.len() ==> '0' <= #[trigger] digits[i] <= '9',
    ensures
        reading(Seq::<char>::empty(), limit) == Err::<nat, DecimalError>(DecimalError::Empty),
        reading(seq!['+'], limit) == Err::<nat, DecimalError>(DecimalError::InvalidDigit),
        digits.len() > 0 && digits_value(digits) <= limit ==> {
            &&& reading(digits, limit) == Ok::<nat, DecimalError>(digits_value(digits))
            &&& reading(seq!['+'] + digits, limit) == Ok::<nat, DecimalError>(digits_value(digits))
        },
        digits_value(digits) > limit ==> {
            &&& reading(digits + rest, limit) == Err::<nat, DecimalError>(DecimalError::TooLarge)
            &&& reading(seq!['+'] + digits + rest, limit) == Err::<nat, DecimalError>(
                DecimalError::TooLarge,
            )
        },
        digits_value(digits) <= limit && !('0' <= c <= '9') ==> {
            &&& (digits.len() > 0 || c != '+') ==> reading(digits.push(c) + rest, limit) == Err::<
                nat,
                DecimalError,
            >(DecimalError::InvalidDigit)
            &&& reading(seq!['+'] + digits.push(c) + rest, limit) == Err::<nat, DecimalError>(
                DecimalError::InvalidDigit,
            )
        },
{
    assert(all_digits(digits));
    scanned_whole(digits, limit);
    let plus = seq!['+'];
    assert(unsigned(plus) =~= Seq::<char>::empty());
    assert((plus + digits).drop_first() =~= digits);
    if digits.len() > 0 {
        assert('0' <= digits[0] <= '9');
        assert(unsigned(digits) == digits);
        assert((digits + rest)[0] == digits[0]);
        assert(unsigned(digits + rest) == digits + rest);
        assert((digits.push(c) + rest)[0] == digits[0]);
    } else {
        assert((digits.push(c) + rest)[0] == c);
        assert(digits_value(digits) == 0);
    }
    assert((plus + digits + rest)[0] == '+');
    assert((plus + digits + rest).drop_first() =~= digits + rest);
    assert((plus + digits.push(c) + rest)[0] == '+');
    assert((plus + digits.push(c) + rest).drop_first() =~= digits.push(c) + rest);
    if digits_value(digits) > limit {
        scanning_stops_at_the_first_fault(digits, rest, limit);
        assert(digits.len() > 0);
    } else if !('0' <= c <= '9') {
        assert(digits.push(c).drop_last() =~= digits);
        assert(scanned(digits.push(c), limit) == Err::<nat, DecimalError>(
            DecimalError::InvalidDigit,
        ));
        scanning_stops_at_the_first_fault(digits.push(c), rest, limit);
    }
}

} // verus!
